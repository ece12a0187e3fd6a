//! The fixed-point codec: from a decimal string to a [`Sample`].
//!
//! The text is read as bytes. It is cut at its first dot; what stands before
//! the dot is the integer part, and the first six bytes after it are the
//! fraction in millionths, read as an integer just as they stand.

use crate::sample::{Sample, PARTS_PER_MILLION};
use vstd::prelude::*;

verus! {

/// The byte that parts the integer from the fraction.
pub const DOT: u8 = 0x2e;

/// The sign that an unsigned numeral may begin with.
pub const PLUS: u8 = 0x2b;

/// The byte of the digit zero.
pub const ZERO: u8 = 0x30;

/// How many bytes after the dot are read.
pub const FRACTION_DIGITS: usize = 6;

/// Why a decimal string was not decoded.
#[derive(Clone, Copy, Debug, PartialEq, Eq, Structural)]
pub enum DecodeError {
    /// One side of the dot is not an unsigned integer.
    NotNumeric,
    /// The text holds no dot.
    MissingFraction,
}

/// Whether the byte is one of `0` to `9`.
pub open spec fn is_digit(b: u8) -> bool {
    ZERO <= b <= 0x39
}

/// Whether every byte is a digit.
pub open spec fn all_digits(s: Seq<u8>) -> bool {
    forall|i: int| 0 <= i < s.len() ==> is_digit(#[trigger] s[i])
}

/// The number that a run of digits writes in base ten.
pub open spec fn decimal_value(s: Seq<u8>) -> nat
    decreases s.len(),
{
    if s.len() == 0 {
        0
    } else {
        10 * decimal_value(s.drop_last()) + (s.last() - ZERO) as nat
    }
}

/// The digits of a numeral: the numeral without its leading plus sign, if it
/// has one.
pub open spec fn numeral_digits(s: Seq<u8>) -> Seq<u8> {
    if s.len() > 0 && s[0] == PLUS {
        s.drop_first()
    } else {
        s
    }
}

/// The value of an unsigned numeral that is at most `max`: an optional plus
/// sign, then one digit or more and nothing else.
pub open spec fn spec_numeral(s: Seq<u8>, max: nat) -> Option<nat> {
    let digits = numeral_digits(s);
    if digits.len() > 0 && all_digits(digits) && decimal_value(digits) <= max {
        Some(decimal_value(digits))
    } else {
        None
    }
}

/// The first `n` bytes of `s`, or all of `s` where it is shorter.
pub open spec fn leading(s: Seq<u8>, n: nat) -> Seq<u8> {
    if s.len() <= n {
        s
    } else {
        s.take(n as int)
    }
}

/// What a decimal string decodes to: the parts of the sample, or the reason
/// why there is none.
pub open spec fn spec_parse(text: Seq<u8>) -> Result<(u64, u32), DecodeError> {
    match text.index_of_first(DOT) {
        None => Err(DecodeError::MissingFraction),
        Some(dot) => {
            let integer = text.take(dot);
            let fraction = leading(text.skip(dot + 1), FRACTION_DIGITS as nat);
            match (spec_numeral(integer, u64::MAX as nat), spec_numeral(fraction, u32::MAX as nat)) {
                (Some(value), Some(parts)) => Ok((value as u64, parts as u32)),
                _ => Err(DecodeError::NotNumeric),
            }
        },
    }
}

/// Ten to the power `n`.
pub open spec fn pow10(n: nat) -> nat
    decreases n,
{
    if n == 0 {
        1
    } else {
        10 * pow10((n - 1) as nat)
    }
}

/// A run of `n` digits writes a number below ten to the `n`.
pub proof fn lemma_decimal_value_bound(s: Seq<u8>)
    requires
        all_digits(s),
    ensures
        decimal_value(s) < pow10(s.len()),
    decreases s.len(),
{
    if s.len() > 0 {
        lemma_decimal_value_bound(s.drop_last());
    }
}

/// The digits read so far never write more than the whole run does.
pub proof fn lemma_decimal_value_prefix(s: Seq<u8>, n: int)
    requires
        all_digits(s),
        0 <= n <= s.len(),
    ensures
        decimal_value(s.take(n)) <= decimal_value(s),
    decreases s.len() - n,
{
    if n == s.len() {
        assert(s.take(n) =~= s);
    } else {
        lemma_decimal_value_prefix(s, n + 1);
        assert(s.take(n + 1).drop_last() =~= s.take(n));
    }
}

/// At most six digits write a number below one million.
pub proof fn lemma_six_digits_below_million(s: Seq<u8>)
    requires
        all_digits(s),
        s.len() <= FRACTION_DIGITS,
    ensures
        decimal_value(s) < PARTS_PER_MILLION,
{
    lemma_decimal_value_bound(s);
    reveal_with_fuel(pow10, 7);
}

/// Reads the bytes of `text` from `from` up to `to` as an unsigned numeral
/// that fits 64 bits.
fn parse_numeral(text: &[u8], from: usize, to: usize) -> (r: Option<u64>)
    requires
        from <= to <= text@.len(),
    ensures
        r is Some ==> spec_numeral(text@.subrange(from as int, to as int), u64::MAX as nat)
            == Some(r->0 as nat),
        r is None ==> spec_numeral(text@.subrange(from as int, to as int), u64::MAX as nat)
            is None,
{
    let ghost numeral = text@.subrange(from as int, to as int);
    let start: usize = if from < to && text[from] == PLUS {
        from + 1
    } else {
        from
    };
    let ghost digits = text@.subrange(start as int, to as int);
    assert(digits =~= numeral_digits(numeral));
    if start == to {
        return None;
    }
    let mut value: u64 = 0;
    let mut i: usize = start;
    while i < to
        invariant
            from <= start <= i <= to <= text@.len(),
            digits == text@.subrange(start as int, to as int),
            digits == numeral_digits(text@.subrange(from as int, to as int)),
            all_digits(digits.take(i - start)),
            value == decimal_value(digits.take(i - start)),
        decreases to - i,
    {
        let b: u8 = text[i];
        assert(b == digits[i - start]);
        if b < ZERO || b > 0x39 {
            assert(!is_digit(digits[i - start]));
            return None;
        }
        assert(digits.take(i - start + 1).drop_last() =~= digits.take(i - start));
        assert(all_digits(digits.take(i - start + 1))) by {
            assert forall|k: int| 0 <= k < i - start + 1 implies is_digit(
                #[trigger] digits.take(i - start + 1)[k],
            ) by {
                if k < i - start {
                    assert(digits.take(i - start)[k] == digits[k]);
                }
            }
        }
        let digit: u64 = (b - ZERO) as u64;
        let next = match value.checked_mul(10) {
            Some(tens) => tens.checked_add(digit),
            None => None,
        };
        match next {
            Some(v) => {
                value = v;
            },
            None => {
                proof {
                    if all_digits(digits) {
                        lemma_decimal_value_prefix(digits, i - start + 1);
                    }
                }
                return None;
            },
        }
        i = i + 1;
    }
    assert(digits.take(to - start) =~= digits);
    Some(value)
}

/// Decodes a decimal string into a sample.
///
/// The text is cut at its first dot. The bytes before the dot are the value,
/// an unsigned numeral of 64 bits. The first six bytes after the dot, or all
/// of them where they are fewer, are an unsigned numeral too, and the
/// fraction is its value in millionths: `7.5` has the fraction 5.
/// A text without a dot is `MissingFraction`; one with a side that is no
/// numeral is `NotNumeric`.
pub fn parse(text: &[u8]) -> (r: Result<Sample, DecodeError>)
    ensures
        match r {
            Ok(sample) => spec_parse(text@) == Ok::<(u64, u32), DecodeError>(sample@),
            Err(e) => spec_parse(text@) == Err::<(u64, u32), DecodeError>(e),
        },
        r is Ok ==> r->Ok_0@.1 < PARTS_PER_MILLION,
{
    let n: usize = text.len();
    let mut dot: usize = 0;
    while dot < n && text[dot] != DOT
        invariant
            dot <= n == text@.len(),
            forall|j: int| 0 <= j < dot ==> text@[j] != DOT,
        decreases n - dot,
    {
        dot = dot + 1;
    }
    proof {
        text@.index_of_first_ensures(DOT);
    }
    if dot == n {
        return Err(DecodeError::MissingFraction);
    }
    assert(text@.index_of_first(DOT) == Some(dot as int));
    let end: usize = if n - (dot + 1) <= FRACTION_DIGITS {
        n
    } else {
        dot + 1 + FRACTION_DIGITS
    };
    let ghost integer = text@.take(dot as int);
    let ghost fraction = leading(text@.skip(dot + 1), FRACTION_DIGITS as nat);
    assert(fraction =~= text@.subrange(dot + 1, end as int));
    let value = parse_numeral(text, 0, dot);
    let parts = parse_numeral(text, dot + 1, end);
    proof {
        let digits = numeral_digits(fraction);
        if digits.len() > 0 && all_digits(digits) {
            lemma_six_digits_below_million(digits);
        }
    }
    match (value, parts) {
        (Some(v), Some(p)) => {
            let sample = Sample::new(v, p as u32);
            Ok(sample.unwrap())
        },
        _ => Err(DecodeError::NotNumeric),
    }
}

/// A numeral, a dot and at least one digit always decode. The value is that
/// of the numeral, and the fraction is what the first six digits after the
/// dot write, or all of them where they are fewer; it is below one million.
pub proof fn lemma_parse_decimal(integer: Seq<u8>, fraction: Seq<u8>)
    requires
        spec_numeral(integer, u64::MAX as nat) is Some,
        fraction.len() > 0,
        all_digits(fraction),
    ensures
        decimal_value(leading(fraction, FRACTION_DIGITS as nat)) < PARTS_PER_MILLION,
        spec_parse(integer + seq![DOT] + fraction) == Ok::<(u64, u32), DecodeError>(
            (
                spec_numeral(integer, u64::MAX as nat)->0 as u64,
                decimal_value(leading(fraction, FRACTION_DIGITS as nat)) as u32,
            ),
        ),
{
    let text = integer + seq![DOT] + fraction;
    let dot: int = integer.len() as int;
    let six = leading(fraction, FRACTION_DIGITS as nat);
    assert(text[dot] == DOT);
    assert forall|j: int| 0 <= j < dot implies text[j] != DOT by {
        assert(text[j] == integer[j]);
        if j == 0 && integer[0] == PLUS {
        } else if integer[0] == PLUS {
            assert(is_digit(numeral_digits(integer)[j - 1]));
        } else {
            assert(is_digit(numeral_digits(integer)[j]));
        }
    }
    text.index_of_first_ensures(DOT);
    assert(text.index_of_first(DOT) == Some(dot));
    assert(text.take(dot) =~= integer);
    assert(text.skip(dot + 1) =~= fraction);
    assert(all_digits(six));
    assert(numeral_digits(six) == six);
    lemma_six_digits_below_million(six);
}

} // verus!
