//! Decimal digits of a number, for the character display.
use vstd::prelude::*;

verus! {

/// The fixed-capacity buffer that holds the digits of a number.
pub type DigitBuffer = heapless::Vec<u8, 4>;

/// How many digits a `DigitBuffer` holds.
pub const DIGIT_CAPACITY: usize = 4;

#[verifier::external_type_specification]
#[verifier::external_body]
#[verifier::reject_recursive_types(T)]
pub struct ExHeaplessVec<T, const N: usize>(heapless::Vec<T, N>);

/// The bytes that a digit buffer holds, first to last.
pub uninterp spec fn digit_buffer_contents(v: DigitBuffer) -> Seq<u8>;

/// `heapless::Vec::new`: an empty buffer.
#[verifier::external_body]
fn digit_buffer_new() -> (v: DigitBuffer)
    ensures
        digit_buffer_contents(v) == Seq::<u8>::empty(),
{
    heapless::Vec::new()
}

/// `heapless::Vec::push`: appends `d` when the buffer has room (`Ok`);
/// otherwise leaves the buffer as it was and hands `d` back (`Err`).
#[verifier::external_body]
fn digit_buffer_push(v: &mut DigitBuffer, d: u8) -> (r: Result<(), u8>)
    ensures
        r is Ok <==> digit_buffer_contents(*old(v)).len() < DIGIT_CAPACITY,
        r is Ok ==> digit_buffer_contents(*final(v)) == digit_buffer_contents(*old(v)).push(d),
        r is Err ==> digit_buffer_contents(*final(v)) == digit_buffer_contents(*old(v)),
        r matches Err(x) ==> x == d,
{
    v.push(d)
}

/// `reverse` on the buffer's slice (through `heapless::Vec`'s `DerefMut`):
/// reverses the order of the digits in place.
#[verifier::external_body]
fn digit_buffer_reverse(v: &mut DigitBuffer)
    ensures
        digit_buffer_contents(*final(v)) == digit_buffer_contents(*old(v)).reverse(),
{
    v.reverse()
}

/// The decimal digits of `n`, least significant first (empty for `0`).
pub open spec fn low_digits_first(n: nat) -> Seq<u8>
    decreases n,
{
    if n == 0 {
        Seq::empty()
    } else {
        seq![(n % 10) as u8] + low_digits_first(n / 10)
    }
}

/// The first `k` elements of `s`, or all of it when it is shorter.
pub open spec fn at_most(s: Seq<u8>, k: nat) -> Seq<u8> {
    if s.len() <= k {
        s
    } else {
        s.take(k as int)
    }
}

/// The digits that `number_to_vec` gives for `n`: `[0]` for zero, otherwise
/// the (at most four) lowest decimal digits, most significant first.
pub open spec fn spec_digits(n: nat) -> Seq<u8> {
    if n == 0 {
        seq![0u8]
    } else {
        at_most(low_digits_first(n), DIGIT_CAPACITY as nat).reverse()
    }
}

/// The decimal digits of `number`, most significant first. The buffer holds
/// four digits; of a longer number it keeps the four lowest.
pub fn number_to_vec(number: usize) -> (digits: DigitBuffer)
    ensures
        digit_buffer_contents(digits) == spec_digits(number as nat),
{
    let mut digits = digit_buffer_new();
    let mut n = number;

    // Zero: the loop below would push nothing for it.
    if n == 0 {
        let _ = digit_buffer_push(&mut digits, 0);
        return digits;
    }

    let ghost mut all: Seq<u8> = Seq::empty();
    assert(all + low_digits_first(n as nat) =~= low_digits_first(number as nat));
    while n > 0
        invariant
            all + low_digits_first(n as nat) == low_digits_first(number as nat),
            digit_buffer_contents(digits) == at_most(all, DIGIT_CAPACITY as nat),
        decreases n,
    {
        let current = n % 10;
        let _ = digit_buffer_push(&mut digits, current as u8);
        proof {
            let d = (n % 10) as u8;
            assert(low_digits_first(n as nat) == seq![d] + low_digits_first((n / 10) as nat));
            assert(all.push(d) + low_digits_first((n / 10) as nat) =~= all + low_digits_first(n as nat));
            if all.len() >= DIGIT_CAPACITY {
                assert(at_most(all.push(d), DIGIT_CAPACITY as nat) =~= at_most(all, DIGIT_CAPACITY as nat));
            } else {
                assert(at_most(all.push(d), DIGIT_CAPACITY as nat) =~= all.push(d));
            }
            all = all.push(d);
        }
        n = n / 10;
    }
    assert(all =~= low_digits_first(number as nat));

    // A leading digit left over (none is, once `n` is zero).
    if n != 0 {
        let _ = digit_buffer_push(&mut digits, n as u8);
    }
    digit_buffer_reverse(&mut digits);
    digits
}

proof fn lemma_low_digits_decimal(n: nat)
    ensures
        forall|i: int| 0 <= i < low_digits_first(n).len() ==> #[trigger] low_digits_first(n)[i] < 10,
        n > 0 ==> low_digits_first(n).len() > 0,
    decreases n,
{
    if n > 0 {
        lemma_low_digits_decimal(n / 10);
        let rest = low_digits_first(n / 10);
        assert forall|i: int| 0 <= i < low_digits_first(n).len() implies #[trigger] low_digits_first(n)[i] < 10 by {
            if i > 0 {
                assert(low_digits_first(n)[i] == rest[i - 1]);
            }
        }
    }
}

/// Every digit that `number_to_vec` gives is a decimal digit, so
/// `digit_to_str` shows each of them as itself; there are one to four of them.
pub proof fn digits_are_decimal(n: nat)
    ensures
        1 <= spec_digits(n).len() <= DIGIT_CAPACITY,
        forall|i: int| 0 <= i < spec_digits(n).len() ==> #[trigger] spec_digits(n)[i] < 10
            && digit_char(spec_digits(n)[i]) != 'X',
{
    lemma_low_digits_decimal(n);
    if n > 0 {
        let low = at_most(low_digits_first(n), DIGIT_CAPACITY as nat);
        assert forall|i: int| 0 <= i < low.len() implies #[trigger] low[i] < 10 by {
            assert(low[i] == low_digits_first(n)[i]);
        }
        assert forall|i: int| 0 <= i < spec_digits(n).len() implies #[trigger] spec_digits(n)[i] < 10
            && digit_char(spec_digits(n)[i]) != 'X' by {
            assert(spec_digits(n)[i] == low[low.len() - 1 - i]);
        }
    }
}

/// The character of a decimal digit, `'X'` for anything above nine.
pub open spec fn digit_char(digit: u8) -> char {
    if digit < 10 {
        (48 + digit) as char
    } else {
        'X'
    }
}

/// The text of one decimal digit; `"X"` for anything above nine.
pub fn digit_to_str(digit: u8) -> (s: &'static str)
    ensures
        s@ == seq![digit_char(digit)],
{
    proof {
        reveal_strlit("0");
        reveal_strlit("1");
        reveal_strlit("2");
        reveal_strlit("3");
        reveal_strlit("4");
        reveal_strlit("5");
        reveal_strlit("6");
        reveal_strlit("7");
        reveal_strlit("8");
        reveal_strlit("9");
        reveal_strlit("X");
    }
    match digit {
        0 => "0",
        1 => "1",
        2 => "2",
        3 => "3",
        4 => "4",
        5 => "5",
        6 => "6",
        7 => "7",
        8 => "8",
        9 => "9",
        _ => "X",
    }
}

} // verus!
