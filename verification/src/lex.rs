//! Lexing of numbers in text form.
//!
//! The numbers themselves are read by `nom`; this module states, over the
//! bytes of the input, what each of its number parsers returns.

use vstd::prelude::*;

verus! {

/// Whether `b` is one of `0-9`, `A-F`, `a-f`.
pub open spec fn is_hex_digit(b: u8) -> bool {
    (0x30 <= b <= 0x39) || (0x41 <= b <= 0x46) || (0x61 <= b <= 0x66)
}

/// The value of the hexadecimal digit `b`, and 0 for any other byte.
pub open spec fn hex_digit_value(b: u8) -> nat {
    if 0x30 <= b <= 0x39 {
        (b - 0x30) as nat
    } else if 0x41 <= b <= 0x46 {
        (b - 0x41 + 10) as nat
    } else if 0x61 <= b <= 0x66 {
        (b - 0x61 + 10) as nat
    } else {
        0
    }
}

/// The number of hexadecimal digits at the start of `s`.
pub open spec fn hex_run(s: Seq<u8>) -> nat
    decreases s.len(),
{
    if s.len() == 0 || !is_hex_digit(s[0]) {
        0
    } else {
        1 + hex_run(s.skip(1))
    }
}

/// The number that the hexadecimal digits `s` spell, most significant first.
pub open spec fn spec_hex_value(s: Seq<u8>) -> nat
    decreases s.len(),
{
    if s.len() == 0 {
        0
    } else {
        16 * spec_hex_value(s.drop_last()) + hex_digit_value(s.last())
    }
}

/// What reading a hexadecimal number of at most 8 digits from the start of
/// `i` gives: the input after the digits read and their value, or nothing
/// where `i` does not start with a hexadecimal digit.
pub open spec fn spec_hex_u32(i: Seq<u8>) -> Option<(Seq<u8>, nat)> {
    let n = hex_run(i);
    let m = if n <= 8 { n } else { 8 };
    if n == 0 {
        None
    } else {
        Some((i.skip(m as int), spec_hex_value(i.take(m as int))))
    }
}

/// Calls `nom::number::complete::hex_u32` on `i`.
///
/// That parser takes the hexadecimal digits at the start of its input, at
/// most 8 of them, and returns the number they spell together with the
/// input after them; it fails where the input does not start with such a
/// digit. The contract says exactly this: `None` stands for the failure.
#[verifier::external_body]
pub(crate) fn lex_hex_u32<'a>(i: &'a [u8]) -> (r: Option<(&'a [u8], u32)>)
    ensures
        match r {
            Some((rest, v)) => spec_hex_u32(i@) == Some((rest@, v as nat)),
            None => spec_hex_u32(i@) is None,
        },
{
    match nom::number::complete::hex_u32::<&[u8], nom::error::Error<&[u8]>>(i) {
        Ok((rest, v)) => Some((rest, v)),
        Err(_) => None,
    }
}

/// Whether `b` is one of `0-9`.
pub open spec fn is_digit(b: u8) -> bool {
    0x30 <= b <= 0x39
}

/// The number of decimal digits at the start of `s`.
pub open spec fn digit_run(s: Seq<u8>) -> nat
    decreases s.len(),
{
    if s.len() == 0 || !is_digit(s[0]) {
        0
    } else {
        1 + digit_run(s.skip(1))
    }
}

/// The number that the decimal digits `s` spell, most significant first.
pub open spec fn spec_decimal(s: Seq<u8>) -> nat
    decreases s.len(),
{
    if s.len() == 0 {
        0
    } else {
        10 * spec_decimal(s.drop_last()) + (s.last() - 0x30) as nat
    }
}

/// What reading an unsigned decimal number of at most `max` from the start
/// of `i` gives: the input after its digits and its value. All the digits at
/// the start of `i` belong to the number; there is nothing to read where `i`
/// starts with no digit, or where the number is above `max`.
pub open spec fn spec_unsigned(i: Seq<u8>, max: nat) -> Option<(Seq<u8>, nat)> {
    let n = digit_run(i) as int;
    let value = spec_decimal(i.take(n));
    if n == 0 || value > max {
        None
    } else {
        Some((i.skip(n), value))
    }
}

/// What reading a signed decimal number between `min` and `max` from the
/// start of `i` gives: the input after its digits and its value. The number
/// may start with one `+` or `-`; all the digits that follow belong to it.
/// There is nothing to read where no digit follows, or where the number is
/// outside the two bounds.
pub open spec fn spec_signed(i: Seq<u8>, min: int, max: int) -> Option<(Seq<u8>, int)> {
    let negative = i.len() > 0 && i[0] == 0x2d;
    let signed = i.len() > 0 && (i[0] == 0x2d || i[0] == 0x2b);
    let digits = if signed {
        i.skip(1)
    } else {
        i
    };
    let n = digit_run(digits) as int;
    let magnitude = spec_decimal(digits.take(n)) as int;
    let value = if negative {
        -magnitude
    } else {
        magnitude
    };
    if n == 0 || value < min || value > max {
        None
    } else {
        Some((digits.skip(n), value))
    }
}

/// Calls `nom::character::complete::u8` on `i`.
///
/// That parser reads all the decimal digits at the start of its input and
/// returns their value with the input after them; it fails where the input
/// starts with no digit, and where the value does not fit `u8`. The contract
/// says exactly this: `None` stands for the failure.
#[verifier::external_body]
pub(crate) fn lex_u8<'a>(i: &'a [u8]) -> (r: Option<(&'a [u8], u8)>)
    ensures
        match r {
            Some((rest, v)) => spec_unsigned(i@, u8::MAX as nat) == Some((rest@, v as nat)),
            None => spec_unsigned(i@, u8::MAX as nat) is None,
        },
{
    match nom::character::complete::u8::<&[u8], nom::error::Error<&[u8]>>(i) {
        Ok((rest, v)) => Some((rest, v)),
        Err(_) => None,
    }
}

/// Calls `nom::character::complete::u16` on `i`.
///
/// That parser reads all the decimal digits at the start of its input and
/// returns their value with the input after them; it fails where the input
/// starts with no digit, and where the value does not fit `u16`. The contract
/// says exactly this: `None` stands for the failure.
#[verifier::external_body]
pub(crate) fn lex_u16<'a>(i: &'a [u8]) -> (r: Option<(&'a [u8], u16)>)
    ensures
        match r {
            Some((rest, v)) => spec_unsigned(i@, u16::MAX as nat) == Some((rest@, v as nat)),
            None => spec_unsigned(i@, u16::MAX as nat) is None,
        },
{
    match nom::character::complete::u16::<&[u8], nom::error::Error<&[u8]>>(i) {
        Ok((rest, v)) => Some((rest, v)),
        Err(_) => None,
    }
}

/// Calls `nom::character::complete::u32` on `i`.
///
/// That parser reads all the decimal digits at the start of its input and
/// returns their value with the input after them; it fails where the input
/// starts with no digit, and where the value does not fit `u32`. The contract
/// says exactly this: `None` stands for the failure.
#[verifier::external_body]
pub(crate) fn lex_u32<'a>(i: &'a [u8]) -> (r: Option<(&'a [u8], u32)>)
    ensures
        match r {
            Some((rest, v)) => spec_unsigned(i@, u32::MAX as nat) == Some((rest@, v as nat)),
            None => spec_unsigned(i@, u32::MAX as nat) is None,
        },
{
    match nom::character::complete::u32::<&[u8], nom::error::Error<&[u8]>>(i) {
        Ok((rest, v)) => Some((rest, v)),
        Err(_) => None,
    }
}

/// Calls `nom::character::complete::u64` on `i`.
///
/// That parser reads all the decimal digits at the start of its input and
/// returns their value with the input after them; it fails where the input
/// starts with no digit, and where the value does not fit `u64`. The contract
/// says exactly this: `None` stands for the failure.
#[verifier::external_body]
pub(crate) fn lex_u64<'a>(i: &'a [u8]) -> (r: Option<(&'a [u8], u64)>)
    ensures
        match r {
            Some((rest, v)) => spec_unsigned(i@, u64::MAX as nat) == Some((rest@, v as nat)),
            None => spec_unsigned(i@, u64::MAX as nat) is None,
        },
{
    match nom::character::complete::u64::<&[u8], nom::error::Error<&[u8]>>(i) {
        Ok((rest, v)) => Some((rest, v)),
        Err(_) => None,
    }
}

/// Calls `nom::character::complete::u128` on `i`.
///
/// That parser reads all the decimal digits at the start of its input and
/// returns their value with the input after them; it fails where the input
/// starts with no digit, and where the value does not fit `u128`. The contract
/// says exactly this: `None` stands for the failure.
#[verifier::external_body]
pub(crate) fn lex_u128<'a>(i: &'a [u8]) -> (r: Option<(&'a [u8], u128)>)
    ensures
        match r {
            Some((rest, v)) => spec_unsigned(i@, u128::MAX as nat) == Some((rest@, v as nat)),
            None => spec_unsigned(i@, u128::MAX as nat) is None,
        },
{
    match nom::character::complete::u128::<&[u8], nom::error::Error<&[u8]>>(i) {
        Ok((rest, v)) => Some((rest, v)),
        Err(_) => None,
    }
}

/// Calls `nom::character::complete::usize` on `i`.
///
/// That parser reads all the decimal digits at the start of its input and
/// returns their value with the input after them; it fails where the input
/// starts with no digit, and where the value does not fit `usize`. The contract
/// says exactly this: `None` stands for the failure.
#[verifier::external_body]
pub(crate) fn lex_usize<'a>(i: &'a [u8]) -> (r: Option<(&'a [u8], usize)>)
    ensures
        match r {
            Some((rest, v)) => spec_unsigned(i@, usize::MAX as nat) == Some((rest@, v as nat)),
            None => spec_unsigned(i@, usize::MAX as nat) is None,
        },
{
    match nom::character::complete::usize::<&[u8], nom::error::Error<&[u8]>>(i) {
        Ok((rest, v)) => Some((rest, v)),
        Err(_) => None,
    }
}

/// Calls `nom::character::complete::i8` on `i`.
///
/// That parser reads an optional sign, `+` or `-`, and all the decimal digits
/// that follow, and returns the value with the input after them; it fails
/// where no digit follows, and where the value does not fit `i8`. The
/// contract says exactly this: `None` stands for the failure.
#[verifier::external_body]
pub(crate) fn lex_i8<'a>(i: &'a [u8]) -> (r: Option<(&'a [u8], i8)>)
    ensures
        match r {
            Some((rest, v)) => spec_signed(i@, i8::MIN as int, i8::MAX as int) == Some(
                (rest@, v as int),
            ),
            None => spec_signed(i@, i8::MIN as int, i8::MAX as int) is None,
        },
{
    match nom::character::complete::i8::<&[u8], nom::error::Error<&[u8]>>(i) {
        Ok((rest, v)) => Some((rest, v)),
        Err(_) => None,
    }
}

/// Calls `nom::character::complete::i16` on `i`.
///
/// That parser reads an optional sign, `+` or `-`, and all the decimal digits
/// that follow, and returns the value with the input after them; it fails
/// where no digit follows, and where the value does not fit `i16`. The
/// contract says exactly this: `None` stands for the failure.
#[verifier::external_body]
pub(crate) fn lex_i16<'a>(i: &'a [u8]) -> (r: Option<(&'a [u8], i16)>)
    ensures
        match r {
            Some((rest, v)) => spec_signed(i@, i16::MIN as int, i16::MAX as int) == Some(
                (rest@, v as int),
            ),
            None => spec_signed(i@, i16::MIN as int, i16::MAX as int) is None,
        },
{
    match nom::character::complete::i16::<&[u8], nom::error::Error<&[u8]>>(i) {
        Ok((rest, v)) => Some((rest, v)),
        Err(_) => None,
    }
}

/// Calls `nom::character::complete::i32` on `i`.
///
/// That parser reads an optional sign, `+` or `-`, and all the decimal digits
/// that follow, and returns the value with the input after them; it fails
/// where no digit follows, and where the value does not fit `i32`. The
/// contract says exactly this: `None` stands for the failure.
#[verifier::external_body]
pub(crate) fn lex_i32<'a>(i: &'a [u8]) -> (r: Option<(&'a [u8], i32)>)
    ensures
        match r {
            Some((rest, v)) => spec_signed(i@, i32::MIN as int, i32::MAX as int) == Some(
                (rest@, v as int),
            ),
            None => spec_signed(i@, i32::MIN as int, i32::MAX as int) is None,
        },
{
    match nom::character::complete::i32::<&[u8], nom::error::Error<&[u8]>>(i) {
        Ok((rest, v)) => Some((rest, v)),
        Err(_) => None,
    }
}

/// Calls `nom::character::complete::i64` on `i`.
///
/// That parser reads an optional sign, `+` or `-`, and all the decimal digits
/// that follow, and returns the value with the input after them; it fails
/// where no digit follows, and where the value does not fit `i64`. The
/// contract says exactly this: `None` stands for the failure.
#[verifier::external_body]
pub(crate) fn lex_i64<'a>(i: &'a [u8]) -> (r: Option<(&'a [u8], i64)>)
    ensures
        match r {
            Some((rest, v)) => spec_signed(i@, i64::MIN as int, i64::MAX as int) == Some(
                (rest@, v as int),
            ),
            None => spec_signed(i@, i64::MIN as int, i64::MAX as int) is None,
        },
{
    match nom::character::complete::i64::<&[u8], nom::error::Error<&[u8]>>(i) {
        Ok((rest, v)) => Some((rest, v)),
        Err(_) => None,
    }
}

/// Calls `nom::character::complete::i128` on `i`.
///
/// That parser reads an optional sign, `+` or `-`, and all the decimal digits
/// that follow, and returns the value with the input after them; it fails
/// where no digit follows, and where the value does not fit `i128`. The
/// contract says exactly this: `None` stands for the failure.
#[verifier::external_body]
pub(crate) fn lex_i128<'a>(i: &'a [u8]) -> (r: Option<(&'a [u8], i128)>)
    ensures
        match r {
            Some((rest, v)) => spec_signed(i@, i128::MIN as int, i128::MAX as int) == Some(
                (rest@, v as int),
            ),
            None => spec_signed(i@, i128::MIN as int, i128::MAX as int) is None,
        },
{
    match nom::character::complete::i128::<&[u8], nom::error::Error<&[u8]>>(i) {
        Ok((rest, v)) => Some((rest, v)),
        Err(_) => None,
    }
}

/// Calls `nom::character::complete::isize` on `i`.
///
/// That parser reads an optional sign, `+` or `-`, and all the decimal digits
/// that follow, and returns the value with the input after them; it fails
/// where no digit follows, and where the value does not fit `isize`. The
/// contract says exactly this: `None` stands for the failure.
#[verifier::external_body]
pub(crate) fn lex_isize<'a>(i: &'a [u8]) -> (r: Option<(&'a [u8], isize)>)
    ensures
        match r {
            Some((rest, v)) => spec_signed(i@, isize::MIN as int, isize::MAX as int) == Some(
                (rest@, v as int),
            ),
            None => spec_signed(i@, isize::MIN as int, isize::MAX as int) is None,
        },
{
    match nom::character::complete::isize::<&[u8], nom::error::Error<&[u8]>>(i) {
        Ok((rest, v)) => Some((rest, v)),
        Err(_) => None,
    }
}

} // verus!
