//! The quadrature-encoder state machine: each pair of pin levels moves the
//! decoder through a table, and a completed detent reports its direction.
use vstd::prelude::*;

verus! {

pub const R_START: u8 = 0x0;
pub const R_CW_FINAL: u8 = 0x1;
pub const R_CW_BEGIN: u8 = 0x2;
pub const R_CW_NEXT: u8 = 0x3;
pub const R_CCW_BEGIN: u8 = 0x4;
pub const R_CCW_FINAL: u8 = 0x5;
pub const R_CCW_NEXT: u8 = 0x6;

/// Flag of a completed clockwise detent.
pub const DIR_CW: u8 = 0x10;
/// Flag of a completed counter-clockwise detent.
pub const DIR_CCW: u8 = 0x20;

/// The transition table: the next state for a state (row) and the pin code
/// `clk * 2 + dt` (column). A completed detent returns to the start row
/// carrying its direction flag (`R_START | DIR_CW` is `DIR_CW`).
pub open spec fn table_entry(row: u8, pins: u8) -> u8 {
    let r: Seq<u8> = if row == R_START {
        seq![R_START, R_CW_BEGIN, R_CCW_BEGIN, R_START]
    } else if row == R_CW_FINAL {
        seq![R_CW_NEXT, R_START, R_CW_FINAL, DIR_CW]
    } else if row == R_CW_BEGIN {
        seq![R_CW_NEXT, R_CW_BEGIN, R_START, R_START]
    } else if row == R_CW_NEXT {
        seq![R_CW_NEXT, R_CW_BEGIN, R_CW_FINAL, R_START]
    } else if row == R_CCW_BEGIN {
        seq![R_CCW_NEXT, R_START, R_CCW_BEGIN, R_START]
    } else if row == R_CCW_FINAL {
        seq![R_CCW_NEXT, R_CCW_FINAL, R_START, DIR_CCW]
    } else {
        seq![R_CCW_NEXT, R_CCW_FINAL, R_CCW_BEGIN, R_START]
    };
    r[pins as int]
}

/// The states the decoder can be in: a table row, or the start row carrying
/// a direction flag.
pub open spec fn valid_state(s: u8) -> bool {
    s <= R_CCW_NEXT || s == DIR_CW || s == DIR_CCW
}

/// The table row of a state (its low four bits).
pub open spec fn row_of(s: u8) -> u8 {
    if s <= R_CCW_NEXT { s } else { R_START }
}

/// The direction flags of a state (its bits `0x30`).
pub open spec fn direction_of(s: u8) -> u8 {
    if s == DIR_CW || s == DIR_CCW { s } else { 0 }
}

/// The pin code of the two encoder lines.
pub open spec fn pin_code(dt: bool, clk: bool) -> u8 {
    ((if clk { 2u8 } else { 0u8 }) + (if dt { 1u8 } else { 0u8 })) as u8
}

/// Every entry is a valid state, and a direction flag is only reached from
/// the final row of that direction with both lines high.
pub proof fn lemma_table_entry(row: u8, pins: u8)
    requires
        row <= R_CCW_NEXT,
        pins < 4,
    ensures
        valid_state(table_entry(row, pins)),
        table_entry(row, pins) == DIR_CW ==> row == R_CW_FINAL && pins == 3,
        table_entry(row, pins) == DIR_CCW ==> row == R_CCW_FINAL && pins == 3,
{
}

/// Looks up the table.
fn transition(row: u8, pins: u8) -> (r: u8)
    requires
        row <= R_CCW_NEXT,
        pins < 4,
    ensures
        r == table_entry(row, pins),
{
    assert(R_START | DIR_CW == DIR_CW && R_START | DIR_CCW == DIR_CCW) by (bit_vector);
    let table: [[u8; 4]; 7] = [
        [R_START, R_CW_BEGIN, R_CCW_BEGIN, R_START],
        [R_CW_NEXT, R_START, R_CW_FINAL, R_START | DIR_CW],
        [R_CW_NEXT, R_CW_BEGIN, R_START, R_START],
        [R_CW_NEXT, R_CW_BEGIN, R_CW_FINAL, R_START],
        [R_CCW_NEXT, R_START, R_CCW_BEGIN, R_START],
        [R_CCW_NEXT, R_CCW_FINAL, R_START, R_START | DIR_CCW],
        [R_CCW_NEXT, R_CCW_FINAL, R_CCW_BEGIN, R_START],
    ];
    let row_entries = table[row as usize];
    row_entries[pins as usize]
}

/// The decoder's state, kept between interrupts.
pub struct RotaryDecoder {
    state: u8,
}

/// A wrapping 8-bit step counter.
#[derive(Debug, Clone, Copy, PartialEq, Eq, Structural)]
pub struct RotaryType(pub u8);

impl RotaryType {
    pub fn value(&self) -> (r: u8)
        ensures
            r == self.0,
    {
        self.0
    }

    /// `self + other`, wrapping around at 256.
    pub fn wrapping_add(&self, other: u8) -> (r: Self)
        ensures
            r.0 == (self.0 + other) % 256,
    {
        RotaryType(self.0.wrapping_add(other))
    }

    /// `self - other`, wrapping around at 0.
    pub fn wrapping_sub(&self, other: u8) -> (r: Self)
        ensures
            r.0 == (self.0 - other) % 256,
    {
        RotaryType(self.0.wrapping_sub(other))
    }
}

impl RotaryDecoder {
    #[verifier::type_invariant]
    spec fn inv(self) -> bool {
        valid_state(self.state)
    }

    pub closed spec fn spec_state(&self) -> u8 {
        self.state
    }

    /// The state before any pin change.
    pub fn new() -> (r: Self)
        ensures
            r.spec_state() == R_START,
    {
        RotaryDecoder { state: R_START }
    }

    /// Feeds the current levels of the two lines and returns the direction
    /// flags of the new state: `DIR_CW` or `DIR_CCW` when a detent completed,
    /// `0` otherwise.
    pub fn update_encoder(&mut self, dt: bool, clk: bool) -> (dir: u8)
        ensures
            valid_state(final(self).spec_state()),
            final(self).spec_state() == table_entry(row_of(old(self).spec_state()), pin_code(dt, clk)),
            dir == direction_of(final(self).spec_state()),
            dir == DIR_CW ==> pin_code(dt, clk) == 3 && row_of(old(self).spec_state()) == R_CW_FINAL,
            dir == DIR_CCW ==> pin_code(dt, clk) == 3 && row_of(old(self).spec_state()) == R_CCW_FINAL,
    {
        proof {
            use_type_invariant(&*self);
        }
        let d: u8 = if dt { 1 } else { 0 };
        let c: u8 = if clk { 1 } else { 0 };
        let pin_state: u8 = (c << 1u8) | d;
        assert(pin_state == c * 2 + d && pin_state < 4) by (bit_vector)
            requires
                d <= 1,
                c <= 1,
                pin_state == (c << 1u8) | d,
        ;
        let s = self.state;
        let old_state = s & 0xF;
        assert(old_state == row_of(s)) by (bit_vector)
            requires
                s <= 6 || s == 0x10 || s == 0x20,
                old_state == s & 0xF,
                row_of(s) == (if s <= 6 { s } else { 0 }),
        ;
        proof {
            lemma_table_entry(old_state, pin_state);
        }
        let new_state = transition(old_state, pin_state);
        self.state = new_state;
        let result = new_state & 0x30;
        assert(result == direction_of(new_state)) by (bit_vector)
            requires
                new_state <= 6 || new_state == 0x10 || new_state == 0x20,
                result == new_state & 0x30,
                direction_of(new_state) == (if new_state == 0x10 || new_state == 0x20 { new_state } else { 0 }),
        ;
        result
    }
}

/// The counter after a decoder step that reported `dir`: one up for a
/// clockwise detent, one down for a counter-clockwise one.
pub fn count_step(counter: RotaryType, dir: u8) -> (r: RotaryType)
    ensures
        r.0 == (if dir == DIR_CW {
            (counter.0 + 1) % 256
        } else if dir == DIR_CCW {
            (counter.0 - 1) % 256
        } else {
            counter.0 as int
        }),
{
    if dir == DIR_CW {
        counter.wrapping_add(1)
    } else if dir == DIR_CCW {
        counter.wrapping_sub(1)
    } else {
        counter
    }
}

} // verus!
