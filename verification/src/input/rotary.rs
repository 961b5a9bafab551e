//! Turns successive encoder positions into rotation events.
use vstd::prelude::*;
use crate::input::event::InputEvent;
use crate::input::pulse_counter::wrap16;

verus! {

/// One step of the encoder.
#[derive(Debug, Clone, Copy, PartialEq, Eq, Structural)]
pub enum RotationEvent {
    Next,
    Previous,
}

/// The signed difference `value - last`, wrapped into the `i16` range.
pub open spec fn wrapped_delta(value: i16, last: i16) -> int {
    wrap16(value - last)
}

/// The event that a change from `last` to `value` reports.
pub open spec fn rotation_for(value: i16, last: i16) -> Option<InputEvent> {
    let d = wrapped_delta(value, last);
    if d == 0 {
        None
    } else if d < 0 {
        Some(InputEvent::Rotation(RotationEvent::Previous))
    } else {
        Some(InputEvent::Rotation(RotationEvent::Next))
    }
}

/// Remembers the last encoder position seen.
pub struct RotaryTracker {
    pub last_value: i16,
}

impl Default for RotaryTracker {
    /// A tracker whose last position is `0`.
    fn default() -> (r: Self)
        ensures
            r.last_value == 0,
    {
        RotaryTracker { last_value: 0 }
    }
}

impl RotaryTracker {
    /// Reports the direction of the change since the last poll (taken with
    /// `i16` wrap-around, so a jump across the `i16` range counts the short
    /// way round) and records `value` as the last position.
    pub fn poll(&mut self, value: i16) -> (r: Option<InputEvent>)
        ensures
            final(self).last_value == value,
            r == rotation_for(value, old(self).last_value),
    {
        let delta = value.wrapping_sub(self.last_value);
        self.last_value = value;
        if delta == 0 {
            None
        } else if delta < 0 {
            Some(InputEvent::Rotation(RotationEvent::Previous))
        } else {
            Some(InputEvent::Rotation(RotationEvent::Next))
        }
    }
}

/// A position that has not changed reports nothing, and a one-detent change
/// reports its direction.
pub proof fn unchanged_position_is_silent(last: i16)
    ensures
        rotation_for(last, last) is None,
        last < i16::MAX ==> rotation_for((last + 1) as i16, last) == Some(InputEvent::Rotation(RotationEvent::Next)),
        last > i16::MIN ==> rotation_for((last - 1) as i16, last) == Some(InputEvent::Rotation(RotationEvent::Previous)),
{
}

} // verus!
