//! Decimal numbers as they stand in header values and in the status line.

use vstd::prelude::*;

use crate::syntax::{is_digit, spec_is_digit, spec_is_whitespace};

verus! {

/// Ten to the power of `exponent`.
pub open spec fn spec_pow10(exponent: nat) -> nat
    decreases exponent,
{
    if exponent == 0 {
        1
    } else {
        10 * spec_pow10((exponent - 1) as nat)
    }
}

/// Whether `bytes` is a decimal number: one or more digits.
pub open spec fn spec_is_digits(bytes: Seq<u8>) -> bool {
    bytes.len() > 0 && forall|i: int| 0 <= i < bytes.len() ==> spec_is_digit(#[trigger] bytes[i])
}

/// The number that the digits `digits` denote.
pub open spec fn spec_digits_value(digits: Seq<u8>) -> nat
    decreases digits.len(),
{
    if digits.len() == 0 {
        0
    } else {
        (10 * spec_digits_value(digits.drop_last()) + (digits.last() - 0x30)) as nat
    }
}

/// The decimal form of `number`, without leading zeros.
pub open spec fn spec_decimal(number: nat) -> Seq<u8>
    decreases number,
{
    if number < 10 {
        seq![(0x30 + number) as u8]
    } else {
        spec_decimal(number / 10).push((0x30 + number % 10) as u8)
    }
}

/// The decimal form of a number is made of digits, and denotes the number.
pub proof fn lemma_decimal(number: nat)
    ensures
        spec_is_digits(spec_decimal(number)),
        spec_digits_value(spec_decimal(number)) == number,
        forall|i: int|
            0 <= i < spec_decimal(number).len() ==> !spec_is_whitespace(
                #[trigger] spec_decimal(number)[i],
            ),
    decreases number,
{
    let digits = spec_decimal(number);
    if number < 10 {
        assert(digits.drop_last() =~= Seq::<u8>::empty());
        assert(spec_digits_value(digits.drop_last()) == 0);
    } else {
        lemma_decimal(number / 10);
        let front = spec_decimal(number / 10);
        assert(digits.drop_last() =~= front);
        assert forall|i: int| 0 <= i < digits.len() implies spec_is_digit(#[trigger] digits[i]) by {
            if i < front.len() {
                assert(digits[i] == front[i]);
            }
        }
    }
    assert forall|i: int| 0 <= i < digits.len() implies !spec_is_whitespace(#[trigger] digits[i]) by {
        assert(spec_is_digit(digits[i]));
    }
}

/// A number below ten to the power of `width` has at most `width` digits.
pub proof fn lemma_decimal_len(number: nat, width: nat)
    requires
        width >= 1,
        number < spec_pow10(width),
    ensures
        1 <= spec_decimal(number).len() <= width,
    decreases number,
{
    if number >= 10 {
        if width == 1 {
            reveal_with_fuel(spec_pow10, 2);
        } else {
            lemma_decimal_len(number / 10, (width - 1) as nat);
        }
    }
}

/// Digits denote a number below ten to the power of their count.
pub proof fn lemma_digits_bound(digits: Seq<u8>)
    requires
        forall|i: int| 0 <= i < digits.len() ==> spec_is_digit(#[trigger] digits[i]),
    ensures
        spec_digits_value(digits) < spec_pow10(digits.len()),
    decreases digits.len(),
{
    if digits.len() > 0 {
        let front = digits.drop_last();
        assert forall|i: int| 0 <= i < front.len() implies spec_is_digit(#[trigger] front[i]) by {
            assert(front[i] == digits[i]);
        }
        lemma_digits_bound(front);
        assert(spec_is_digit(digits[digits.len() - 1]));
    }
}

/// Ten to the power of a smaller exponent is smaller.
pub proof fn lemma_pow10_monotonic(small: nat, large: nat)
    requires
        small <= large,
    ensures
        spec_pow10(small) <= spec_pow10(large),
        spec_pow10(small) >= 1,
    decreases large,
{
    if small < large {
        lemma_pow10_monotonic(small, (large - 1) as nat);
    } else if small > 0 {
        lemma_pow10_monotonic((small - 1) as nat, (small - 1) as nat);
    }
}

/// Ten to the power of nineteen, the largest power of ten that a `u64` holds.
pub proof fn lemma_pow10_19()
    ensures
        spec_pow10(19) == 10_000_000_000_000_000_000,
        spec_pow10(9) == 1_000_000_000,
        spec_pow10(3) == 1_000,
{
    reveal_with_fuel(spec_pow10, 20);
}

/// Reads a decimal number of at most `max_digits` digits.
pub fn parse_decimal(bytes: &[u8], max_digits: usize) -> (res: Option<u64>)
    requires
        max_digits <= 19,
    ensures
        res is Some <==> spec_is_digits(bytes@) && bytes@.len() <= max_digits,
        res matches Some(value) ==> value == spec_digits_value(bytes@),
{
    if bytes.len() == 0 || bytes.len() > max_digits {
        return None;
    }
    let mut value: u64 = 0;
    let mut i: usize = 0;
    while i < bytes.len()
        invariant
            i <= bytes.len() <= 19,
            forall|j: int| 0 <= j < i ==> spec_is_digit(#[trigger] bytes@[j]),
            value == spec_digits_value(bytes@.take(i as int)),
            value < spec_pow10(i as nat),
        decreases bytes.len() - i,
    {
        let byte = bytes[i];
        if !is_digit(byte) {
            return None;
        }
        proof {
            let next = bytes@.take(i + 1);
            assert(next.drop_last() =~= bytes@.take(i as int));
            assert(next.last() == byte);
            assert forall|j: int| 0 <= j < next.len() implies spec_is_digit(#[trigger] next[j]) by {
                assert(next[j] == bytes@[j]);
            }
            lemma_digits_bound(next);
            lemma_pow10_monotonic((i + 1) as nat, 19);
            lemma_pow10_19();
        }
        value = value * 10 + (byte - 0x30) as u64;
        i += 1;
    }
    assert(bytes@.take(bytes@.len() as int) =~= bytes@);
    Some(value)
}

/// Writes the decimal form of `number`.
pub fn format_decimal(number: u64) -> (res: Vec<u8>)
    ensures
        res@ == spec_decimal(number as nat),
{
    // The digits come out last first: `digits` holds them in reverse.
    let mut digits: Vec<u8> = Vec::new();
    let mut rest: u64 = number;
    assert(spec_decimal(rest as nat) + digits@.reverse() =~= spec_decimal(number as nat));
    while rest >= 10
        invariant
            spec_decimal(number as nat) == spec_decimal(rest as nat) + digits@.reverse(),
        decreases rest,
    {
        let digit = (rest % 10) as u8 + 0x30;
        let ghost before = digits@;
        digits.push(digit);
        proof {
            assert(digits@.reverse() =~= seq![digit] + before.reverse());
            assert(spec_decimal(rest as nat) =~= spec_decimal((rest / 10) as nat).push(digit));
            assert(spec_decimal((rest / 10) as nat) + digits@.reverse() =~= spec_decimal(
                rest as nat,
            ) + before.reverse());
        }
        rest = rest / 10;
    }
    let digit = rest as u8 + 0x30;
    let ghost before = digits@;
    digits.push(digit);
    proof {
        assert(digits@.reverse() =~= seq![digit] + before.reverse());
        assert(spec_decimal(rest as nat) =~= seq![digit]);
    }
    let mut out: Vec<u8> = Vec::with_capacity(digits.len());
    let mut i: usize = digits.len();
    while i > 0
        invariant
            i <= digits@.len(),
            out@.len() == digits@.len() - i,
            forall|j: int| 0 <= j < out@.len() ==> out@[j] == digits@[digits@.len() - 1 - j],
        decreases i,
    {
        i -= 1;
        out.push(digits[i]);
    }
    assert(out@ =~= digits@.reverse());
    out
}

} // verus!
