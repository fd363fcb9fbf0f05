//! Parsing a 16-bit value from user-entered text.
//!
//! A value is written either as a `0x`-prefixed hexadecimal string or as a
//! bare binary string of digits. Anything else is rejected with a distinct
//! error: an empty digit string, a character that is no digit of the chosen
//! base, or a value that does not fit in 16 bits.

use vstd::prelude::*;

verus! {

/// Why a string failed to parse as a 16-bit value.
#[derive(Clone, Copy, Debug, PartialEq, Eq, Structural)]
pub enum ParseError {
    /// No digits after the `0x` prefix, or an empty input.
    Empty,
    /// A character that is no digit of the chosen base.
    InvalidDigit,
    /// The digits spell a value above 0xFFFF.
    OutOfRange,
}

/// Whether `b` is an ASCII digit of base `radix` (2 or 16; hexadecimal
/// digits in either letter case).
pub open spec fn spec_is_digit(b: u8, radix: int) -> bool {
    if radix == 2 {
        0x30 <= b <= 0x31
    } else {
        (0x30 <= b <= 0x39) || (0x41 <= b <= 0x46) || (0x61 <= b <= 0x66)
    }
}

/// The numeric value of the ASCII digit `b`.
pub open spec fn spec_digit_val(b: u8) -> int {
    if 0x30 <= b <= 0x39 {
        b - 0x30
    } else if 0x41 <= b <= 0x46 {
        b - 0x41 + 10
    } else {
        b - 0x61 + 10
    }
}

/// Whether every byte of `s` is a digit of base `radix`.
pub open spec fn spec_all_digits(s: Seq<u8>, radix: int) -> bool {
    forall|i: int| 0 <= i < s.len() ==> spec_is_digit(#[trigger] s[i], radix)
}

/// The value the digit string `s` spells in base `radix`, most significant
/// digit first.
pub open spec fn spec_radix_value(s: Seq<u8>, radix: int) -> int
    decreases s.len(),
{
    if s.len() == 0 {
        0
    } else {
        spec_radix_value(s.drop_last(), radix) * radix + spec_digit_val(s.last())
    }
}

/// The parse of a digit string (after any prefix) in base `radix`.
pub open spec fn spec_parse_radix(s: Seq<u8>, radix: int) -> Result<u16, ParseError> {
    if s.len() == 0 {
        Err(ParseError::Empty)
    } else if !spec_all_digits(s, radix) {
        Err(ParseError::InvalidDigit)
    } else if spec_radix_value(s, radix) > 0xFFFF {
        Err(ParseError::OutOfRange)
    } else {
        Ok(spec_radix_value(s, radix) as u16)
    }
}

/// The parse of a full input: hexadecimal when the text starts with `0x`
/// (`0x30`, `0x78`), binary otherwise.
pub open spec fn spec_parse_user_input(s: Seq<u8>) -> Result<u16, ParseError> {
    if s.len() >= 2 && s[0] == 0x30 && s[1] == 0x78 {
        spec_parse_radix(s.skip(2), 16)
    } else {
        spec_parse_radix(s, 2)
    }
}

/// The value of a digit string never shrinks as digits are appended.
proof fn lemma_radix_value_monotone(s: Seq<u8>, i: int, radix: int)
    requires
        0 <= i <= s.len(),
        2 <= radix,
        spec_all_digits(s, radix),
    ensures
        spec_radix_value(s.take(i), radix) <= spec_radix_value(s, radix),
        spec_radix_value(s.take(i), radix) >= 0,
    decreases s.len() - i,
{
    if i == s.len() {
        assert(s.take(i) =~= s);
        lemma_radix_value_nonneg(s, radix);
    } else {
        lemma_radix_value_monotone(s, i + 1, radix);
        let t = s.take(i + 1);
        assert(t.drop_last() =~= s.take(i));
        assert(t.last() == s[i]);
        let v = spec_radix_value(s.take(i), radix);
        lemma_radix_value_nonneg(s.take(i), radix);
        assert(spec_is_digit(s[i], radix));
        assert(spec_digit_val(s[i]) >= 0);
        assert(v <= v * radix) by (nonlinear_arith)
            requires
                v >= 0,
                radix >= 2,
        ;
    }
}

/// A digit string's value is never negative.
proof fn lemma_radix_value_nonneg(s: Seq<u8>, radix: int)
    requires
        2 <= radix,
        spec_all_digits(s, radix),
    ensures
        spec_radix_value(s, radix) >= 0,
    decreases s.len(),
{
    if s.len() > 0 {
        assert(spec_all_digits(s.drop_last(), radix));
        lemma_radix_value_nonneg(s.drop_last(), radix);
        let v = spec_radix_value(s.drop_last(), radix);
        assert(0 <= v * radix) by (nonlinear_arith)
            requires
                v >= 0,
                radix >= 2,
        ;
        assert(spec_is_digit(s.last(), radix));
    }
}

/// Tests one byte for being a digit of the base, and hands back its value.
fn digit_val(b: u8, hex: bool) -> (r: Option<u8>)
    ensures
        r is Some <==> spec_is_digit(b, if hex { 16int } else { 2int }),
        r is Some ==> r->0 == spec_digit_val(b),
{
    if 0x30 <= b && b <= (if hex { 0x39 } else { 0x31 }) {
        Some(b - 0x30)
    } else if hex && 0x41 <= b && b <= 0x46 {
        Some(b - 0x41 + 10)
    } else if hex && 0x61 <= b && b <= 0x66 {
        Some(b - 0x61 + 10)
    } else {
        None
    }
}

/// Parses the digit bytes `digits` in base 16 (with `hex`) or base 2.
fn parse_radix(digits: &[u8], hex: bool) -> (r: Result<u16, ParseError>)
    ensures
        r == spec_parse_radix(digits@, if hex { 16int } else { 2int }),
{
    let radix: u32 = if hex { 16 } else { 2 };
    let ghost radix_i = if hex { 16int } else { 2int };
    let n = digits.len();
    if n == 0 {
        return Err(ParseError::Empty);
    }

    let mut i: usize = 0;
    while i < n
        invariant
            0 <= i <= n,
            n == digits@.len(),
            radix_i == if hex { 16int } else { 2int },
            forall|j: int| 0 <= j < i ==> spec_is_digit(#[trigger] digits@[j], radix_i),
        decreases n - i,
    {
        if digit_val(digits[i], hex).is_none() {
            return Err(ParseError::InvalidDigit);
        }
        i = i + 1;
    }
    assert(spec_all_digits(digits@, radix_i));

    let mut acc: u32 = 0;
    i = 0;
    while i < n
        invariant
            0 <= i <= n,
            n == digits@.len(),
            radix_i == if hex { 16int } else { 2int },
            radix == radix_i,
            spec_all_digits(digits@, radix_i),
            acc == spec_radix_value(digits@.take(i as int), radix_i),
            acc <= 0xFFFF,
        decreases n - i,
    {
        let d = match digit_val(digits[i], hex) {
            Some(d) => d,
            None => {
                proof {
                    assert(false);
                }
                0
            },
        };
        proof {
            let t = digits@.take(i + 1);
            assert(t.drop_last() =~= digits@.take(i as int));
            assert(t.last() == digits@[i as int]);
        }
        acc = acc * radix + d as u32;
        i = i + 1;
        if acc > 0xFFFF {
            proof {
                lemma_radix_value_monotone(digits@, i as int, radix_i);
            }
            return Err(ParseError::OutOfRange);
        }
    }
    proof {
        assert(digits@.take(n as int) =~= digits@);
    }
    Ok(acc as u16)
}

/// Parses a 16-bit value from raw input text: hexadecimal digits after a
/// `0x` prefix, bare binary digits otherwise.
pub fn parse_user_input(input: &[u8]) -> (r: Result<u16, ParseError>)
    ensures
        r == spec_parse_user_input(input@),
{
    if input.len() >= 2 && input[0] == 0x30 && input[1] == 0x78 {
        let (_, digits) = input.split_at(2);
        assert(digits@ =~= input@.skip(2));
        parse_radix(digits, true)
    } else {
        parse_radix(input, false)
    }
}

} // verus!
