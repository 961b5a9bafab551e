//! Debouncing of the button line: which raw edges count as presses or
//! releases.
use vstd::prelude::*;

verus! {

/// Edges closer than this to the last accepted edge are contact bounce.
pub const DEBOUNCE_MS: u64 = 30;

/// The last accepted edge of the button line.
pub struct EdgeFilter {
    pub last_edge_ms: u64,
    pub last_accepted_level: bool,
}

/// Whether an edge to `level` at `timestamp` is accepted after the accepted
/// edge to `last_level` at `last_ms`: it must come more than `DEBOUNCE_MS`
/// later and change the level.
pub open spec fn accepts(last_ms: u64, last_level: bool, level: bool, timestamp: u64) -> bool {
    (if timestamp >= last_ms { timestamp - last_ms } else { 0 }) > DEBOUNCE_MS && level != last_level
}

impl EdgeFilter {
    /// A filter that has seen no edge: last edge at time `0`, line released.
    pub fn new() -> (r: Self)
        ensures
            r.last_edge_ms == 0,
            !r.last_accepted_level,
    {
        EdgeFilter { last_edge_ms: 0, last_accepted_level: false }
    }

    /// Decides whether the edge to `level` (true = pressed) read at
    /// `timestamp` is a real press or release; an accepted edge becomes the
    /// new reference.
    pub fn accept(&mut self, level: bool, timestamp: u64) -> (r: bool)
        ensures
            r == accepts(old(self).last_edge_ms, old(self).last_accepted_level, level, timestamp),
            r ==> final(self).last_edge_ms == timestamp && final(self).last_accepted_level == level,
            !r ==> final(self).last_edge_ms == old(self).last_edge_ms
                && final(self).last_accepted_level == old(self).last_accepted_level,
    {
        let is_debounced = timestamp.saturating_sub(self.last_edge_ms) > DEBOUNCE_MS;
        let is_level_changed = level != self.last_accepted_level;
        if is_debounced && is_level_changed {
            self.last_edge_ms = timestamp;
            self.last_accepted_level = level;
            true
        } else {
            false
        }
    }
}

} // verus!
