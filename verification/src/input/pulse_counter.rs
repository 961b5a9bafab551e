//! Arithmetic of the hardware pulse counter that follows the encoder: the
//! counter wraps at `±LIMIT`, and a software carry keeps the full position.
use vstd::prelude::*;

verus! {

/// Counter pulses per mechanical detent.
pub const COUNTS_PER_DETENT: i16 = 4;

/// The counter's high and low limits are `LIMIT` and `-LIMIT`.
pub const LIMIT: i16 = 1000;

/// `x` wrapped into the `i32` range (two's-complement wrap-around of a sum of two `i32`s).
pub open spec fn wrap32(x: int) -> int {
    if x > i32::MAX {
        x - 0x1_0000_0000
    } else if x < i32::MIN {
        x + 0x1_0000_0000
    } else {
        x
    }
}

/// `x` wrapped into the `i16` range (two's-complement wrap-around of a sum of two `i16`s).
pub open spec fn wrap16(x: int) -> int {
    if x > i16::MAX {
        x - 0x1_0000
    } else if x < i16::MIN {
        x + 0x1_0000
    } else {
        x
    }
}

/// The carry after a limit event: `+LIMIT` on the high limit, otherwise
/// `-LIMIT` on the low limit, unchanged when neither fired. The addition
/// wraps like the atomic `fetch_add` it stands for.
pub fn carry_after_limit(carry: i32, high_limit: bool, low_limit: bool) -> (r: i32)
    ensures
        r == (if high_limit {
            wrap32(carry + LIMIT)
        } else if low_limit {
            wrap32(carry - LIMIT)
        } else {
            carry as int
        }),
{
    if high_limit {
        carry.wrapping_add(1000)
    } else if low_limit {
        carry.wrapping_add(-1000)
    } else {
        carry
    }
}

/// Integer division truncating toward zero, as Rust's `/` on integers.
pub open spec fn div_toward_zero(x: int, d: int) -> int {
    if x >= 0 {
        x / d
    } else {
        -((-x) / d)
    }
}

/// The encoder position in detents: the counter reading plus the carry (both
/// taken as `i16`, the carry by its low 16 bits, with wrap-around), divided by the pulses per detent,
/// rounding toward zero.
pub fn rotation_value(raw: i16, carry: i32) -> (r: i16)
    ensures
        r == div_toward_zero(wrap16(raw + (carry as i16)), COUNTS_PER_DETENT as int),
{
    let sum = raw.wrapping_add(carry as i16);
    match sum.checked_div(4) {
        Some(q) => q,
        None => 0,
    }
}

} // verus!
