//! A counter that wraps around within `0..max_value`, used for menu cursors.
use vstd::prelude::*;

verus! {

/// Euclidean remainder of `x` by `m`: always in `0..|m|` for `m != 0`.
pub open spec fn euclid_rem(x: int, m: int) -> int {
    x % m
}

/// A value that cycles through `0..max_value` when stepped with `next` and
/// `prev`. A zero `max_value` freezes the value.
#[derive(Debug, Clone, Copy, PartialEq, Eq, Structural)]
pub struct WrappingInt {
    pub value: i32,
    pub max_value: i32,
}

impl WrappingInt {
    /// Whether stepping forward does not overflow `i32` arithmetic.
    pub open spec fn can_step_next(self) -> bool {
        self.max_value != 0 ==> self.value < i32::MAX
    }

    /// Whether stepping backward does not overflow `i32` arithmetic.
    pub open spec fn can_step_prev(self) -> bool {
        self.max_value != 0 ==> (self.value > i32::MIN && !(self.value - 1 == i32::MIN
            && self.max_value == -1))
    }

    /// The value after one forward step.
    pub open spec fn spec_next(self) -> i32 {
        if self.max_value != 0 {
            euclid_rem(self.value + 1, self.max_value as int) as i32
        } else {
            self.value
        }
    }

    /// The value after one backward step.
    pub open spec fn spec_prev(self) -> i32 {
        if self.max_value != 0 {
            euclid_rem(self.value - 1, self.max_value as int) as i32
        } else {
            self.value
        }
    }

    /// Whether the value lies in the cycle `0..max_value`.
    pub open spec fn in_range(self) -> bool {
        0 <= self.value < self.max_value
    }

    pub fn new(value: i32, max_value: i32) -> (r: Self)
        ensures
            r.value == value,
            r.max_value == max_value,
    {
        Self { value, max_value }
    }

    pub fn value(&self) -> (r: i32)
        ensures
            r == self.value,
    {
        self.value
    }

    /// Whether `next` can be called: stepping forward stays within `i32`.
    pub fn can_next(&self) -> (r: bool)
        ensures
            r == self.can_step_next(),
    {
        self.max_value == 0 || self.value < i32::MAX
    }

    /// Whether `prev` can be called: stepping backward stays within `i32`.
    pub fn can_prev(&self) -> (r: bool)
        ensures
            r == self.can_step_prev(),
    {
        self.max_value == 0 || (self.value > i32::MIN && !(self.value - 1 == i32::MIN && self.max_value == -1))
    }

    /// Steps forward, wrapping from `max_value - 1` back to `0`.
    pub fn next(&mut self)
        requires
            old(self).can_step_next(),
        ensures
            final(self).max_value == old(self).max_value,
            final(self).value == old(self).spec_next(),
    {
        if self.max_value != 0 {
            let v = (self.value + 1).checked_rem_euclid(self.max_value);
            self.value = v.unwrap();
        }
    }

    /// Steps forward unless the value is already at `max_value - 1` or above.
    pub fn next_clamped(&mut self)
        ensures
            final(self).max_value == old(self).max_value,
            final(self).value == (if old(self).value < old(self).max_value - 1 {
                old(self).value + 1
            } else {
                old(self).value as int
            }),
    {
        if (self.value as i64) < (self.max_value as i64) - 1 {
            self.value = self.value + 1;
        }
    }

    /// Steps backward unless the value is already at `0` or below.
    pub fn prev_clamped(&mut self)
        ensures
            final(self).max_value == old(self).max_value,
            final(self).value == (if old(self).value > 0 {
                old(self).value - 1
            } else {
                old(self).value as int
            }),
    {
        if self.value > 0 {
            self.value = self.value - 1;
        }
    }

    /// Steps backward, wrapping from `0` to `max_value - 1`.
    pub fn prev(&mut self)
        requires
            old(self).can_step_prev(),
        ensures
            final(self).max_value == old(self).max_value,
            final(self).value == old(self).spec_prev(),
    {
        if self.max_value != 0 {
            let v = (self.value - 1).checked_rem_euclid(self.max_value);
            self.value = v.unwrap();
        }
    }
}

/// Stepping keeps a value of the cycle in the cycle, and a step forward
/// followed by a step backward (or the other way round) gives the value back.
pub proof fn steps_stay_in_cycle_and_undo(w: WrappingInt)
    requires
        w.in_range(),
    ensures
        (WrappingInt { value: w.spec_next(), ..w }).in_range(),
        (WrappingInt { value: w.spec_prev(), ..w }).in_range(),
        (WrappingInt { value: w.spec_next(), ..w }).spec_prev() == w.value,
        (WrappingInt { value: w.spec_prev(), ..w }).spec_next() == w.value,
        w.can_step_next() && w.can_step_prev(),
{
    let m = w.max_value as int;
    let v = w.value as int;
    assert(euclid_rem(v + 1, m) == (if v + 1 == m { 0 } else { v + 1 })) by {
        if v + 1 == m {
            vstd::arithmetic::div_mod::lemma_mod_self_0(m);
        } else {
            vstd::arithmetic::div_mod::lemma_small_mod((v + 1) as nat, m as nat);
        }
    }
    assert(euclid_rem(v - 1, m) == (if v == 0 { m - 1 } else { v - 1 })) by {
        if v == 0 {
            vstd::arithmetic::div_mod::lemma_mod_add_multiples_vanish(-1, m);
            vstd::arithmetic::div_mod::lemma_small_mod((m - 1) as nat, m as nat);
        } else {
            vstd::arithmetic::div_mod::lemma_small_mod((v - 1) as nat, m as nat);
        }
    }
    let n = if v + 1 == m { 0 } else { v + 1 };
    assert(euclid_rem(n - 1, m) == v) by {
        if n == 0 {
            vstd::arithmetic::div_mod::lemma_mod_add_multiples_vanish(-1, m);
            vstd::arithmetic::div_mod::lemma_small_mod((m - 1) as nat, m as nat);
        } else {
            vstd::arithmetic::div_mod::lemma_small_mod((n - 1) as nat, m as nat);
        }
    }
    let p = if v == 0 { m - 1 } else { v - 1 };
    assert(euclid_rem(p + 1, m) == v) by {
        if p + 1 == m {
            vstd::arithmetic::div_mod::lemma_mod_self_0(m);
        } else {
            vstd::arithmetic::div_mod::lemma_small_mod((p + 1) as nat, m as nat);
        }
    }
}

} // verus!
