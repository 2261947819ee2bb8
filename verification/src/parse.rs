//! Parsing of the fields of a sentence.
//!
//! The content of a sentence is a list of fields separated by one byte,
//! usually a comma. [`NmeaParse`] is what a type implements to be read from
//! such a field; it is implemented here for the integers, for `char`, and
//! for optional, fixed-size and growable lists of such types.

use crate::error::{make_error, spec_make_error, ErrorKind, IResult, SpecError, SpecResult};
use crate::lex::{
    lex_i128, lex_i16, lex_i32, lex_i64, lex_i8, lex_isize, lex_u128, lex_u16, lex_u32, lex_u64,
    lex_u8, lex_usize, spec_signed, spec_unsigned,
};
use vstd::prelude::*;
use vstd::slice::slice_subrange;

verus! {

/// The separator of the fields of a sentence: a comma.
pub const COMMA: u8 = 0x2c;

/// Whether the result `r` of parsing a value is what `expected` says, the
/// slices taken by the bytes they hold and the value by its deep view.
pub open spec fn parsed_is<T: DeepView>(r: IResult<'_, T>, expected: SpecResult<T::V>) -> bool {
    match r {
        Ok((rest, v)) => expected == Ok::<(Seq<u8>, T::V), SpecError>((rest@, v.deep_view())),
        Err(e) => expected == Err::<(Seq<u8>, T::V), SpecError>(e@),
    }
}

/// What reading the one byte `c` from the start of `i` gives: the input
/// after it, or a failure of kind `Char` on `i`.
pub open spec fn spec_char(c: u8, i: Seq<u8>) -> SpecResult<u8> {
    if i.len() > 0 && i[0] == c {
        Ok((i.skip(1), c))
    } else {
        Err(spec_make_error(i, ErrorKind::Char))
    }
}

/// Reads the one byte `c` from the start of `i`.
pub fn char<'a>(c: u8, i: &'a [u8]) -> (r: IResult<'a, u8>)
    ensures
        crate::error::result_is(r, spec_char(c, i@)),
{
    let n: usize = i.len();
    if n > 0 && i[0] == c {
        Ok((slice_subrange(i, 1, n), c))
    } else {
        Err(make_error(i, ErrorKind::Char))
    }
}

/// A type that can be read from the fields of a sentence.
///
/// An implementation says in `spec_parse` what reading a value from the
/// start of an input gives, and in `spec_parse_preceded` what reading a
/// value that follows a separator gives; `parse` and `parse_preceded` do so.
/// For most types the second is the first behind the separator
/// ([`spec_preceded`], [`preceded`]); optional values and lists differ, so
/// that a missing value does not take the separator of the next field.
pub trait NmeaParse: Sized + DeepView {
    /// What reading a value from the start of `i` gives.
    spec fn spec_parse(i: Seq<u8>) -> SpecResult<Self::V>;

    /// What reading a value behind the separator `sep` from the start of `i`
    /// gives.
    spec fn spec_parse_preceded(sep: u8, i: Seq<u8>) -> SpecResult<Self::V>;

    /// Reads a value from the start of `i`, and returns it with the input
    /// that is left.
    fn parse<'a>(i: &'a [u8]) -> (r: IResult<'a, Self>)
        ensures
            parsed_is(r, Self::spec_parse(i@)),
    ;

    /// Reads the separator `sep` and a value from the start of `i`, and
    /// returns the value with the input that is left.
    fn parse_preceded<'a>(sep: u8, i: &'a [u8]) -> (r: IResult<'a, Self>)
        ensures
            parsed_is(r, Self::spec_parse_preceded(sep, i@)),
    ;
}

/// What reading the separator `sep` and then a value of type `T` gives: the
/// failure of the separator, or what reading the value from the input after
/// it gives.
pub open spec fn spec_preceded<T: NmeaParse>(sep: u8, i: Seq<u8>) -> SpecResult<T::V> {
    match spec_char(sep, i) {
        Ok((rest, _)) => T::spec_parse(rest),
        Err(e) => Err(e),
    }
}

/// Reads the separator `sep` and then a value of type `T`.
pub fn preceded<'a, T: NmeaParse>(sep: u8, i: &'a [u8]) -> (r: IResult<'a, T>)
    ensures
        parsed_is(r, spec_preceded::<T>(sep, i@)),
{
    match char(sep, i) {
        Ok((rest, _)) => T::parse(rest),
        Err(e) => Err(e),
    }
}

/// What reading an unsigned number of at most `max` gives, as a parser's
/// result: a failure is of kind `Digit`, on all of `i`.
pub open spec fn spec_parse_unsigned(i: Seq<u8>, max: nat) -> SpecResult<nat> {
    match spec_unsigned(i, max) {
        Some(found) => Ok(found),
        None => Err(spec_make_error(i, ErrorKind::Digit)),
    }
}

/// What reading a signed number between `min` and `max` gives, as a
/// parser's result: a failure is of kind `Digit`, on all of `i`.
pub open spec fn spec_parse_signed(i: Seq<u8>, min: int, max: int) -> SpecResult<int> {
    match spec_signed(i, min, max) {
        Some(found) => Ok(found),
        None => Err(spec_make_error(i, ErrorKind::Digit)),
    }
}

impl NmeaParse for u8 {
    /// All the decimal digits at the start of `i` are read as one number,
    /// which must fit `u8`; any other input fails with `Digit`, on all of
    /// `i`.
    open spec fn spec_parse(i: Seq<u8>) -> SpecResult<u8> {
        match spec_parse_unsigned(i, u8::MAX as nat) {
            Ok((rest, v)) => Ok((rest, v as u8)),
            Err(e) => Err(e),
        }
    }

    open spec fn spec_parse_preceded(sep: u8, i: Seq<u8>) -> SpecResult<u8> {
        match spec_char(sep, i) {
            Ok((rest, _)) => Self::spec_parse(rest),
            Err(e) => Err(e),
        }
    }

    fn parse<'a>(i: &'a [u8]) -> (r: IResult<'a, u8>) {
        match lex_u8(i) {
            Some((rest, v)) => Ok((rest, v)),
            None => Err(make_error(i, ErrorKind::Digit)),
        }
    }

    fn parse_preceded<'a>(sep: u8, i: &'a [u8]) -> (r: IResult<'a, u8>) {
        match char(sep, i) {
            Ok((rest, _)) => Self::parse(rest),
            Err(e) => Err(e),
        }
    }
}

impl NmeaParse for u16 {
    /// All the decimal digits at the start of `i` are read as one number,
    /// which must fit `u16`; any other input fails with `Digit`, on all of
    /// `i`.
    open spec fn spec_parse(i: Seq<u8>) -> SpecResult<u16> {
        match spec_parse_unsigned(i, u16::MAX as nat) {
            Ok((rest, v)) => Ok((rest, v as u16)),
            Err(e) => Err(e),
        }
    }

    open spec fn spec_parse_preceded(sep: u8, i: Seq<u8>) -> SpecResult<u16> {
        match spec_char(sep, i) {
            Ok((rest, _)) => Self::spec_parse(rest),
            Err(e) => Err(e),
        }
    }

    fn parse<'a>(i: &'a [u8]) -> (r: IResult<'a, u16>) {
        match lex_u16(i) {
            Some((rest, v)) => Ok((rest, v)),
            None => Err(make_error(i, ErrorKind::Digit)),
        }
    }

    fn parse_preceded<'a>(sep: u8, i: &'a [u8]) -> (r: IResult<'a, u16>) {
        match char(sep, i) {
            Ok((rest, _)) => Self::parse(rest),
            Err(e) => Err(e),
        }
    }
}

impl NmeaParse for u32 {
    /// All the decimal digits at the start of `i` are read as one number,
    /// which must fit `u32`; any other input fails with `Digit`, on all of
    /// `i`.
    open spec fn spec_parse(i: Seq<u8>) -> SpecResult<u32> {
        match spec_parse_unsigned(i, u32::MAX as nat) {
            Ok((rest, v)) => Ok((rest, v as u32)),
            Err(e) => Err(e),
        }
    }

    open spec fn spec_parse_preceded(sep: u8, i: Seq<u8>) -> SpecResult<u32> {
        match spec_char(sep, i) {
            Ok((rest, _)) => Self::spec_parse(rest),
            Err(e) => Err(e),
        }
    }

    fn parse<'a>(i: &'a [u8]) -> (r: IResult<'a, u32>) {
        match lex_u32(i) {
            Some((rest, v)) => Ok((rest, v)),
            None => Err(make_error(i, ErrorKind::Digit)),
        }
    }

    fn parse_preceded<'a>(sep: u8, i: &'a [u8]) -> (r: IResult<'a, u32>) {
        match char(sep, i) {
            Ok((rest, _)) => Self::parse(rest),
            Err(e) => Err(e),
        }
    }
}

impl NmeaParse for u64 {
    /// All the decimal digits at the start of `i` are read as one number,
    /// which must fit `u64`; any other input fails with `Digit`, on all of
    /// `i`.
    open spec fn spec_parse(i: Seq<u8>) -> SpecResult<u64> {
        match spec_parse_unsigned(i, u64::MAX as nat) {
            Ok((rest, v)) => Ok((rest, v as u64)),
            Err(e) => Err(e),
        }
    }

    open spec fn spec_parse_preceded(sep: u8, i: Seq<u8>) -> SpecResult<u64> {
        match spec_char(sep, i) {
            Ok((rest, _)) => Self::spec_parse(rest),
            Err(e) => Err(e),
        }
    }

    fn parse<'a>(i: &'a [u8]) -> (r: IResult<'a, u64>) {
        match lex_u64(i) {
            Some((rest, v)) => Ok((rest, v)),
            None => Err(make_error(i, ErrorKind::Digit)),
        }
    }

    fn parse_preceded<'a>(sep: u8, i: &'a [u8]) -> (r: IResult<'a, u64>) {
        match char(sep, i) {
            Ok((rest, _)) => Self::parse(rest),
            Err(e) => Err(e),
        }
    }
}

impl NmeaParse for u128 {
    /// All the decimal digits at the start of `i` are read as one number,
    /// which must fit `u128`; any other input fails with `Digit`, on all of
    /// `i`.
    open spec fn spec_parse(i: Seq<u8>) -> SpecResult<u128> {
        match spec_parse_unsigned(i, u128::MAX as nat) {
            Ok((rest, v)) => Ok((rest, v as u128)),
            Err(e) => Err(e),
        }
    }

    open spec fn spec_parse_preceded(sep: u8, i: Seq<u8>) -> SpecResult<u128> {
        match spec_char(sep, i) {
            Ok((rest, _)) => Self::spec_parse(rest),
            Err(e) => Err(e),
        }
    }

    fn parse<'a>(i: &'a [u8]) -> (r: IResult<'a, u128>) {
        match lex_u128(i) {
            Some((rest, v)) => Ok((rest, v)),
            None => Err(make_error(i, ErrorKind::Digit)),
        }
    }

    fn parse_preceded<'a>(sep: u8, i: &'a [u8]) -> (r: IResult<'a, u128>) {
        match char(sep, i) {
            Ok((rest, _)) => Self::parse(rest),
            Err(e) => Err(e),
        }
    }
}

impl NmeaParse for usize {
    /// All the decimal digits at the start of `i` are read as one number,
    /// which must fit `usize`; any other input fails with `Digit`, on all of
    /// `i`.
    open spec fn spec_parse(i: Seq<u8>) -> SpecResult<usize> {
        match spec_parse_unsigned(i, usize::MAX as nat) {
            Ok((rest, v)) => Ok((rest, v as usize)),
            Err(e) => Err(e),
        }
    }

    open spec fn spec_parse_preceded(sep: u8, i: Seq<u8>) -> SpecResult<usize> {
        match spec_char(sep, i) {
            Ok((rest, _)) => Self::spec_parse(rest),
            Err(e) => Err(e),
        }
    }

    fn parse<'a>(i: &'a [u8]) -> (r: IResult<'a, usize>) {
        match lex_usize(i) {
            Some((rest, v)) => Ok((rest, v)),
            None => Err(make_error(i, ErrorKind::Digit)),
        }
    }

    fn parse_preceded<'a>(sep: u8, i: &'a [u8]) -> (r: IResult<'a, usize>) {
        match char(sep, i) {
            Ok((rest, _)) => Self::parse(rest),
            Err(e) => Err(e),
        }
    }
}

impl NmeaParse for i8 {
    /// An optional sign and all the decimal digits behind it are read as one
    /// number, which must fit `i8`; any other input fails with `Digit`, on
    /// all of `i`.
    open spec fn spec_parse(i: Seq<u8>) -> SpecResult<i8> {
        match spec_parse_signed(i, i8::MIN as int, i8::MAX as int) {
            Ok((rest, v)) => Ok((rest, v as i8)),
            Err(e) => Err(e),
        }
    }

    open spec fn spec_parse_preceded(sep: u8, i: Seq<u8>) -> SpecResult<i8> {
        match spec_char(sep, i) {
            Ok((rest, _)) => Self::spec_parse(rest),
            Err(e) => Err(e),
        }
    }

    fn parse<'a>(i: &'a [u8]) -> (r: IResult<'a, i8>) {
        match lex_i8(i) {
            Some((rest, v)) => Ok((rest, v)),
            None => Err(make_error(i, ErrorKind::Digit)),
        }
    }

    fn parse_preceded<'a>(sep: u8, i: &'a [u8]) -> (r: IResult<'a, i8>) {
        match char(sep, i) {
            Ok((rest, _)) => Self::parse(rest),
            Err(e) => Err(e),
        }
    }
}

impl NmeaParse for i16 {
    /// An optional sign and all the decimal digits behind it are read as one
    /// number, which must fit `i16`; any other input fails with `Digit`, on
    /// all of `i`.
    open spec fn spec_parse(i: Seq<u8>) -> SpecResult<i16> {
        match spec_parse_signed(i, i16::MIN as int, i16::MAX as int) {
            Ok((rest, v)) => Ok((rest, v as i16)),
            Err(e) => Err(e),
        }
    }

    open spec fn spec_parse_preceded(sep: u8, i: Seq<u8>) -> SpecResult<i16> {
        match spec_char(sep, i) {
            Ok((rest, _)) => Self::spec_parse(rest),
            Err(e) => Err(e),
        }
    }

    fn parse<'a>(i: &'a [u8]) -> (r: IResult<'a, i16>) {
        match lex_i16(i) {
            Some((rest, v)) => Ok((rest, v)),
            None => Err(make_error(i, ErrorKind::Digit)),
        }
    }

    fn parse_preceded<'a>(sep: u8, i: &'a [u8]) -> (r: IResult<'a, i16>) {
        match char(sep, i) {
            Ok((rest, _)) => Self::parse(rest),
            Err(e) => Err(e),
        }
    }
}

impl NmeaParse for i32 {
    /// An optional sign and all the decimal digits behind it are read as one
    /// number, which must fit `i32`; any other input fails with `Digit`, on
    /// all of `i`.
    open spec fn spec_parse(i: Seq<u8>) -> SpecResult<i32> {
        match spec_parse_signed(i, i32::MIN as int, i32::MAX as int) {
            Ok((rest, v)) => Ok((rest, v as i32)),
            Err(e) => Err(e),
        }
    }

    open spec fn spec_parse_preceded(sep: u8, i: Seq<u8>) -> SpecResult<i32> {
        match spec_char(sep, i) {
            Ok((rest, _)) => Self::spec_parse(rest),
            Err(e) => Err(e),
        }
    }

    fn parse<'a>(i: &'a [u8]) -> (r: IResult<'a, i32>) {
        match lex_i32(i) {
            Some((rest, v)) => Ok((rest, v)),
            None => Err(make_error(i, ErrorKind::Digit)),
        }
    }

    fn parse_preceded<'a>(sep: u8, i: &'a [u8]) -> (r: IResult<'a, i32>) {
        match char(sep, i) {
            Ok((rest, _)) => Self::parse(rest),
            Err(e) => Err(e),
        }
    }
}

impl NmeaParse for i64 {
    /// An optional sign and all the decimal digits behind it are read as one
    /// number, which must fit `i64`; any other input fails with `Digit`, on
    /// all of `i`.
    open spec fn spec_parse(i: Seq<u8>) -> SpecResult<i64> {
        match spec_parse_signed(i, i64::MIN as int, i64::MAX as int) {
            Ok((rest, v)) => Ok((rest, v as i64)),
            Err(e) => Err(e),
        }
    }

    open spec fn spec_parse_preceded(sep: u8, i: Seq<u8>) -> SpecResult<i64> {
        match spec_char(sep, i) {
            Ok((rest, _)) => Self::spec_parse(rest),
            Err(e) => Err(e),
        }
    }

    fn parse<'a>(i: &'a [u8]) -> (r: IResult<'a, i64>) {
        match lex_i64(i) {
            Some((rest, v)) => Ok((rest, v)),
            None => Err(make_error(i, ErrorKind::Digit)),
        }
    }

    fn parse_preceded<'a>(sep: u8, i: &'a [u8]) -> (r: IResult<'a, i64>) {
        match char(sep, i) {
            Ok((rest, _)) => Self::parse(rest),
            Err(e) => Err(e),
        }
    }
}

impl NmeaParse for i128 {
    /// An optional sign and all the decimal digits behind it are read as one
    /// number, which must fit `i128`; any other input fails with `Digit`, on
    /// all of `i`.
    open spec fn spec_parse(i: Seq<u8>) -> SpecResult<i128> {
        match spec_parse_signed(i, i128::MIN as int, i128::MAX as int) {
            Ok((rest, v)) => Ok((rest, v as i128)),
            Err(e) => Err(e),
        }
    }

    open spec fn spec_parse_preceded(sep: u8, i: Seq<u8>) -> SpecResult<i128> {
        match spec_char(sep, i) {
            Ok((rest, _)) => Self::spec_parse(rest),
            Err(e) => Err(e),
        }
    }

    fn parse<'a>(i: &'a [u8]) -> (r: IResult<'a, i128>) {
        match lex_i128(i) {
            Some((rest, v)) => Ok((rest, v)),
            None => Err(make_error(i, ErrorKind::Digit)),
        }
    }

    fn parse_preceded<'a>(sep: u8, i: &'a [u8]) -> (r: IResult<'a, i128>) {
        match char(sep, i) {
            Ok((rest, _)) => Self::parse(rest),
            Err(e) => Err(e),
        }
    }
}

impl NmeaParse for isize {
    /// An optional sign and all the decimal digits behind it are read as one
    /// number, which must fit `isize`; any other input fails with `Digit`, on
    /// all of `i`.
    open spec fn spec_parse(i: Seq<u8>) -> SpecResult<isize> {
        match spec_parse_signed(i, isize::MIN as int, isize::MAX as int) {
            Ok((rest, v)) => Ok((rest, v as isize)),
            Err(e) => Err(e),
        }
    }

    open spec fn spec_parse_preceded(sep: u8, i: Seq<u8>) -> SpecResult<isize> {
        match spec_char(sep, i) {
            Ok((rest, _)) => Self::spec_parse(rest),
            Err(e) => Err(e),
        }
    }

    fn parse<'a>(i: &'a [u8]) -> (r: IResult<'a, isize>) {
        match lex_isize(i) {
            Some((rest, v)) => Ok((rest, v)),
            None => Err(make_error(i, ErrorKind::Digit)),
        }
    }

    fn parse_preceded<'a>(sep: u8, i: &'a [u8]) -> (r: IResult<'a, isize>) {
        match char(sep, i) {
            Ok((rest, _)) => Self::parse(rest),
            Err(e) => Err(e),
        }
    }
}

impl NmeaParse for char {
    /// One character is one byte: the first of `i`. An empty input fails with
    /// `Eof`.
    open spec fn spec_parse(i: Seq<u8>) -> SpecResult<char> {
        if i.len() == 0 {
            Err(spec_make_error(i, ErrorKind::Eof))
        } else {
            Ok((i.skip(1), i[0] as char))
        }
    }

    open spec fn spec_parse_preceded(sep: u8, i: Seq<u8>) -> SpecResult<char> {
        match spec_char(sep, i) {
            Ok((rest, _)) => Self::spec_parse(rest),
            Err(e) => Err(e),
        }
    }

    fn parse<'a>(i: &'a [u8]) -> (r: IResult<'a, char>) {
        let n: usize = i.len();
        if n == 0 {
            Err(make_error(i, ErrorKind::Eof))
        } else {
            Ok((slice_subrange(i, 1, n), i[0] as char))
        }
    }

    fn parse_preceded<'a>(sep: u8, i: &'a [u8]) -> (r: IResult<'a, char>) {
        match char(sep, i) {
            Ok((rest, _)) => Self::parse(rest),
            Err(e) => Err(e),
        }
    }
}

impl<T: NmeaParse> NmeaParse for Option<T> {
    /// An optional value is read as a value where that succeeds; where it
    /// fails there is no value, and nothing is taken from `i`.
    open spec fn spec_parse(i: Seq<u8>) -> SpecResult<Option<T::V>> {
        match T::spec_parse(i) {
            Ok((rest, v)) => Ok((rest, Some(v))),
            Err(_) => Ok((i, None)),
        }
    }

    /// The separator is read first, in any case. Then a value is read. Where
    /// that fails, the value counts as absent if the input after the
    /// separator is empty or starts with the next separator, and nothing more
    /// is taken; any other input fails with `Verify`, on all of `i`.
    open spec fn spec_parse_preceded(sep: u8, i: Seq<u8>) -> SpecResult<Option<T::V>> {
        match spec_char(sep, i) {
            Err(e) => Err(e),
            Ok((rest, _)) => match T::spec_parse(rest) {
                Ok((rest2, v)) => Ok((rest2, Some(v))),
                Err(_) => if spec_char(sep, rest) is Ok || rest.len() == 0 {
                    Ok((rest, None))
                } else {
                    Err(spec_make_error(i, ErrorKind::Verify))
                },
            },
        }
    }

    fn parse<'a>(i: &'a [u8]) -> (r: IResult<'a, Option<T>>) {
        crate::parsing::opt(T::parse, i)
    }

    fn parse_preceded<'a>(sep: u8, i: &'a [u8]) -> (r: IResult<'a, Option<T>>) {
        crate::parsing::opt_preceded(sep, T::parse, i)
    }
}

/// What reading one element of a list gives: with `own`, what the type says
/// of a value behind the separator `sep`; without, the separator and then a
/// value.
pub open spec fn spec_element<T: NmeaParse>(own: bool, sep: u8, i: Seq<u8>) -> SpecResult<T::V> {
    if own {
        T::spec_parse_preceded(sep, i)
    } else {
        spec_preceded::<T>(sep, i)
    }
}

/// Reads one element of a list.
pub fn element<'a, T: NmeaParse>(own: bool, sep: u8, i: &'a [u8]) -> (r: IResult<'a, T>)
    ensures
        parsed_is(r, spec_element::<T>(own, sep, i@)),
{
    if own {
        T::parse_preceded(sep, i)
    } else {
        preceded::<T>(sep, i)
    }
}

/// What reading exactly `n` elements gives: the values in the order read and
/// the input after the last of them. Where an element fails, the failure is
/// of kind `Count`, on the input at which that element was tried.
pub open spec fn spec_count<T: NmeaParse>(own: bool, sep: u8, i: Seq<u8>, n: nat) -> SpecResult<
    Seq<T::V>,
>
    decreases n,
{
    if n == 0 {
        Ok((i, Seq::<T::V>::empty()))
    } else {
        match spec_element::<T>(own, sep, i) {
            Err(_) => Err(spec_make_error(i, ErrorKind::Count)),
            Ok((rest, v)) => match spec_count::<T>(own, sep, rest, (n - 1) as nat) {
                Ok((last, vs)) => Ok((last, seq![v] + vs)),
                Err(e) => Err(e),
            },
        }
    }
}

/// Reads the elements of `elems` from index `from` on, each as
/// `spec_element` says, and leaves those before `from` as they are.
fn fill<'a, T: NmeaParse + Copy, const N: usize>(
    own: bool,
    sep: u8,
    i: &'a [u8],
    elems: [T; N],
    from: usize,
) -> (r: IResult<'a, [T; N]>)
    requires
        from <= N,
    ensures
        match r {
            Ok((rest, out)) => spec_count::<T>(own, sep, i@, (N - from) as nat) == Ok::<
                (Seq<u8>, Seq<T::V>),
                SpecError,
            >((rest@, out.deep_view().skip(from as int))) && out.deep_view().take(from as int)
                == elems.deep_view().take(from as int),
            Err(e) => spec_count::<T>(own, sep, i@, (N - from) as nat) == Err::<
                (Seq<u8>, Seq<T::V>),
                SpecError,
            >(e@),
        },
    decreases N - from,
{
    if from == N {
        assert(elems.deep_view().skip(from as int) == Seq::<T::V>::empty());
        return Ok((i, elems));
    }
    match element::<T>(own, sep, i) {
        Err(_) => Err(make_error(i, ErrorKind::Count)),
        Ok((rest, v)) => {
            let mut next = elems;
            next[from] = v;
            match fill::<T, N>(own, sep, rest, next, from + 1) {
                Err(e) => Err(e),
                Ok((last, out)) => {
                    proof {
                        let done = out.deep_view();
                        assert(done.take(from + 1)[from as int] == next.deep_view().take(
                            from + 1,
                        )[from as int]);
                        assert(done.skip(from as int) == seq![v.deep_view()] + done.skip(
                            from + 1,
                        ));
                    }
                    Ok((last, out))
                },
            }
        },
    }
}

impl<T: NmeaParse + Default + Copy, const N: usize> NmeaParse for [T; N] {
    /// Exactly `N` values are read: the first as it stands, each other one
    /// behind a comma. A value that cannot be read fails the whole with
    /// `Count`, on the input at which it was tried.
    open spec fn spec_parse(i: Seq<u8>) -> SpecResult<Seq<T::V>> {
        if N == 0 {
            Ok((i, Seq::<T::V>::empty()))
        } else {
            match T::spec_parse(i) {
                Err(_) => Err(spec_make_error(i, ErrorKind::Count)),
                Ok((rest, first)) => match spec_count::<T>(false, COMMA, rest, (N - 1) as nat) {
                    Ok((last, vs)) => Ok((last, seq![first] + vs)),
                    Err(e) => Err(e),
                },
            }
        }
    }

    /// Exactly `N` values are read, each as the type of the values says of a
    /// value behind the separator.
    open spec fn spec_parse_preceded(sep: u8, i: Seq<u8>) -> SpecResult<Seq<T::V>> {
        spec_count::<T>(true, sep, i, N as nat)
    }

    fn parse<'a>(i: &'a [u8]) -> (r: IResult<'a, [T; N]>) {
        let mut elems: [T; N] = [T::default();N];
        if N == 0 {
            assert(elems.deep_view() == Seq::<T::V>::empty());
            return Ok((i, elems));
        }
        match T::parse(i) {
            Err(_) => Err(make_error(i, ErrorKind::Count)),
            Ok((rest, first)) => {
                elems[0] = first;
                match fill::<T, N>(false, COMMA, rest, elems, 1) {
                    Err(e) => Err(e),
                    Ok((last, out)) => {
                        proof {
                            let done = out.deep_view();
                            assert(done.take(1)[0] == elems.deep_view().take(1)[0]);
                            assert(done == seq![first.deep_view()] + done.skip(1));
                        }
                        Ok((last, out))
                    },
                }
            },
        }
    }

    fn parse_preceded<'a>(sep: u8, i: &'a [u8]) -> (r: IResult<'a, [T; N]>) {
        let elems: [T; N] = [T::default();N];
        match fill::<T, N>(true, sep, i, elems, 0) {
            Err(e) => Err(e),
            Ok((last, out)) => {
                assert(out.deep_view().skip(0) == out.deep_view());
                Ok((last, out))
            },
        }
    }
}

/// How many more elements a list may take: one less than `max`.
pub open spec fn spec_one_less(max: Option<nat>) -> Option<nat> {
    match max {
        Some(n) => Some((n - 1) as nat),
        None => None,
    }
}

/// What reading as many elements as can be read gives, each as the type says
/// of a value behind the separator `sep`, and at most `max` of them where
/// `max` is given: the values in the order read, and the input at which the
/// next element could not be read or the list was full.
///
/// An element that can be read must leave less input than it was given: one
/// that does not fails the whole list with the kind `zero_width`, on the
/// input at which that element was tried.
pub open spec fn spec_many<T: NmeaParse>(
    sep: u8,
    i: Seq<u8>,
    max: Option<nat>,
    zero_width: ErrorKind,
) -> SpecResult<Seq<T::V>>
    decreases i.len(),
{
    if max == Some(0nat) {
        Ok((i, Seq::<T::V>::empty()))
    } else {
        match T::spec_parse_preceded(sep, i) {
            Err(_) => Ok((i, Seq::<T::V>::empty())),
            Ok((rest, v)) => if rest.len() >= i.len() {
                Err(spec_make_error(i, zero_width))
            } else {
                match spec_many::<T>(sep, rest, spec_one_less(max), zero_width) {
                    Ok((last, vs)) => Ok((last, seq![v] + vs)),
                    Err(e) => Err(e),
                }
            },
        }
    }
}

/// What `spec_many` gives behind the values `done`, which were read before.
pub open spec fn spec_many_after<T: NmeaParse>(
    done: Seq<T::V>,
    sep: u8,
    i: Seq<u8>,
    max: Option<nat>,
    zero_width: ErrorKind,
) -> SpecResult<Seq<T::V>> {
    match spec_many::<T>(sep, i, max, zero_width) {
        Ok((last, vs)) => Ok((last, done + vs)),
        Err(e) => Err(e),
    }
}

/// Reads as many elements as can be read behind those of `items`, which
/// were read before; `max` bounds the number of elements of the whole list.
fn many<'a, T: NmeaParse>(
    sep: u8,
    i: &'a [u8],
    max: Option<usize>,
    zero_width: ErrorKind,
    items: Vec<T>,
) -> (r: IResult<'a, Vec<T>>)
    requires
        max matches Some(n) ==> items.len() <= n,
    ensures
        parsed_is(
            r,
            spec_many_after::<T>(
                items.deep_view(),
                sep,
                i@,
                match max {
                    Some(n) => Some((n - items.len()) as nat),
                    None => None,
                },
                zero_width,
            ),
        ),
        r matches Ok((_, list)) ==> (max matches Some(n) ==> list.len() <= n),
{
    let ghost before = items.deep_view();
    let ghost left = match max {
        Some(n) => Some((n - items.len()) as nat),
        None => None::<nat>,
    };
    let mut list = items;
    let mut cur = i;
    loop
        invariant
            before == items.deep_view(),
            left == (match max {
                Some(n) => Some((n - items.len()) as nat),
                None => None::<nat>,
            }),
            max matches Some(n) ==> list.len() <= n,
            spec_many_after::<T>(before, sep, i@, left, zero_width) == spec_many_after::<T>(
                list.deep_view(),
                sep,
                cur@,
                match max {
                    Some(n) => Some((n - list.len()) as nat),
                    None => None,
                },
                zero_width,
            ),
        decreases cur@.len(),
    {
        let full = match max {
            Some(n) => list.len() == n,
            None => false,
        };
        if full {
            return Ok((cur, list));
        }
        match T::parse_preceded(sep, cur) {
            Err(_) => {
                return Ok((cur, list));
            },
            Ok((rest, v)) => {
                if rest.len() >= cur.len() {
                    return Err(make_error(cur, zero_width));
                }
                let ghost old_view = list.deep_view();
                list.push(v);
                proof {
                    assert forall|vs: Seq<T::V>|
                        old_view + (seq![v.deep_view()] + vs) == #[trigger] (list.deep_view()
                            + vs) by {}
                }
                cur = rest;
            },
        }
    }
}

impl<T: NmeaParse> NmeaParse for Vec<T> {
    /// Values are read as long as there are any: the first as it stands,
    /// each other one as the type of the values says of a value behind a
    /// comma. Where not even the first can be read the list is empty, and
    /// nothing is taken from `i`. A value that is read without taking any
    /// input fails the whole with `Many0`.
    open spec fn spec_parse(i: Seq<u8>) -> SpecResult<Seq<T::V>> {
        match T::spec_parse(i) {
            Err(_) => Ok((i, Seq::<T::V>::empty())),
            Ok((rest, first)) => if rest.len() >= i.len() {
                Err(spec_make_error(i, ErrorKind::Many0))
            } else {
                spec_many_after::<T>(seq![first], COMMA, rest, None, ErrorKind::Many0)
            },
        }
    }

    /// Values are read as long as there are any, each as the type of the
    /// values says of a value behind the separator.
    open spec fn spec_parse_preceded(sep: u8, i: Seq<u8>) -> SpecResult<Seq<T::V>> {
        spec_many::<T>(sep, i, None, ErrorKind::Many0)
    }

    fn parse<'a>(i: &'a [u8]) -> (r: IResult<'a, Vec<T>>) {
        let mut items: Vec<T> = Vec::with_capacity(4);
        match T::parse(i) {
            Err(_) => {
                assert(items.deep_view() == Seq::<T::V>::empty());
                Ok((i, items))
            },
            Ok((rest, first)) => {
                if rest.len() >= i.len() {
                    return Err(make_error(i, ErrorKind::Many0));
                }
                items.push(first);
                assert(items.deep_view() == seq![first.deep_view()]);
                many::<T>(COMMA, rest, None, ErrorKind::Many0, items)
            },
        }
    }

    fn parse_preceded<'a>(sep: u8, i: &'a [u8]) -> (r: IResult<'a, Vec<T>>) {
        let items: Vec<T> = Vec::with_capacity(4);
        let r = many::<T>(sep, i, None, ErrorKind::Many0, items);
        r
    }
}

/// What reading a list of at most `capacity` values gives: values are read
/// as long as there are any and the list is not full, the first as it
/// stands, each other one as the type of the values says of a value behind
/// a comma. A list of capacity 0 takes nothing. A value that is read
/// without taking any input fails the whole with `Many0`.
pub open spec fn spec_bounded<T: NmeaParse>(capacity: nat, i: Seq<u8>) -> SpecResult<Seq<T::V>> {
    if capacity == 0 {
        Ok((i, Seq::<T::V>::empty()))
    } else {
        match T::spec_parse(i) {
            Err(_) => Ok((i, Seq::<T::V>::empty())),
            Ok((rest, first)) => if rest.len() >= i.len() {
                Err(spec_make_error(i, ErrorKind::Many0))
            } else {
                spec_many_after::<T>(
                    seq![first],
                    COMMA,
                    rest,
                    Some((capacity - 1) as nat),
                    ErrorKind::Many0,
                )
            },
        }
    }
}

/// What reading a list of at most `capacity` values behind a separator
/// gives: values are read as long as there are any and the list is not
/// full, each as the type of the values says of a value behind the
/// separator. A value that is read without taking any input fails the whole
/// with `ManyMN`.
pub open spec fn spec_bounded_preceded<T: NmeaParse>(capacity: nat, sep: u8, i: Seq<u8>) -> SpecResult<
    Seq<T::V>,
> {
    spec_many::<T>(sep, i, Some(capacity), ErrorKind::ManyMN)
}

/// Reads a list of at most `capacity` values from the start of `i`.
pub fn bounded<'a, T: NmeaParse>(capacity: usize, i: &'a [u8]) -> (r: IResult<'a, Vec<T>>)
    ensures
        parsed_is(r, spec_bounded::<T>(capacity as nat, i@)),
        r matches Ok((_, list)) ==> list.len() <= capacity,
{
    let mut items: Vec<T> = Vec::new();
    if capacity == 0 {
        assert(items.deep_view() == Seq::<T::V>::empty());
        return Ok((i, items));
    }
    match T::parse(i) {
        Err(_) => {
            assert(items.deep_view() == Seq::<T::V>::empty());
            Ok((i, items))
        },
        Ok((rest, first)) => {
            if rest.len() >= i.len() {
                return Err(make_error(i, ErrorKind::Many0));
            }
            items.push(first);
            assert(items.deep_view() == seq![first.deep_view()]);
            many::<T>(COMMA, rest, Some(capacity), ErrorKind::Many0, items)
        },
    }
}

/// Reads a list of at most `capacity` values, each behind the separator
/// `sep`, from the start of `i`.
pub fn bounded_preceded<'a, T: NmeaParse>(capacity: usize, sep: u8, i: &'a [u8]) -> (r: IResult<
    'a,
    Vec<T>,
>)
    ensures
        parsed_is(r, spec_bounded_preceded::<T>(capacity as nat, sep, i@)),
        r matches Ok((_, list)) ==> list.len() <= capacity,
{
    let items: Vec<T> = Vec::new();
    let r = many::<T>(sep, i, Some(capacity), ErrorKind::ManyMN, items);
    r
}

/// What reading a value of type `T` from exactly the first `count` bytes of
/// `i` gives: the value and the input after those bytes. The bytes must be
/// there, and the value is read from them alone; what it leaves of them is
/// dropped.
pub open spec fn spec_with_take<T: NmeaParse>(count: nat, i: Seq<u8>) -> SpecResult<T::V> {
    if i.len() < count {
        Err(spec_make_error(i, ErrorKind::Eof))
    } else {
        match T::spec_parse(i.take(count as int)) {
            Ok((_, v)) => Ok((i.skip(count as int), v)),
            Err(e) => Err(e),
        }
    }
}

/// Reads a value of type `T` from exactly the first `count` bytes of `i`.
pub fn with_take<'a, T: NmeaParse>(count: usize, i: &'a [u8]) -> (r: IResult<'a, T>)
    ensures
        parsed_is(r, spec_with_take::<T>(count as nat, i@)),
{
    crate::parsing::take_and_then(count, T::parse, i)
}

/// What reading a value with its unit gives: an optional value, a comma,
/// and the byte `unit` where it is there. The value counts only where its
/// unit is written; the comma must be there.
pub open spec fn spec_with_unit<T: NmeaParse>(unit: u8, i: Seq<u8>) -> SpecResult<Option<T::V>> {
    match Option::<T>::spec_parse(i) {
        Err(e) => Err(e),
        Ok((rest, value)) => match spec_char(COMMA, rest) {
            Err(e) => Err(e),
            Ok((last, _)) => if last.len() > 0 && last[0] == unit {
                Ok((last.skip(1), value))
            } else {
                Ok((last, None))
            },
        },
    }
}

/// Reads a value with its unit: an optional value, a comma, and the byte
/// `unit` where it is there.
pub fn with_unit<'a, T: NmeaParse>(unit: u8, i: &'a [u8]) -> (r: IResult<'a, Option<T>>)
    ensures
        parsed_is(r, spec_with_unit::<T>(unit, i@)),
{
    crate::parsing::with_unit_by(unit, T::parse, i)
}

/// What reading one byte out of `set` from the start of `i` gives: the
/// input after it and the byte; any other start fails with `OneOf`.
pub open spec fn spec_one_of(set: Seq<u8>, i: Seq<u8>) -> SpecResult<u8> {
    if i.len() > 0 && set.contains(i[0]) {
        Ok((i.skip(1), i[0]))
    } else {
        Err(spec_make_error(i, ErrorKind::OneOf))
    }
}

/// Reads one byte out of `set` from the start of `i`.
pub fn one_of<'a>(set: &[u8], i: &'a [u8]) -> (r: IResult<'a, u8>)
    ensures
        crate::error::result_is(r, spec_one_of(set@, i@)),
{
    let n: usize = i.len();
    if n == 0 {
        return Err(make_error(i, ErrorKind::OneOf));
    }
    let mut k: usize = 0;
    while k < set.len()
        invariant
            k <= set.len(),
            n == i.len(),
            n > 0,
            forall|j: int| 0 <= j < k ==> set@[j] != i@[0],
        decreases set.len() - k,
    {
        if set[k] == i[0] {
            return Ok((slice_subrange(i, 1, n), i[0]));
        }
        k += 1;
    }
    Err(make_error(i, ErrorKind::OneOf))
}

// ---------------------------------------------------------------------------
// Laws
// ---------------------------------------------------------------------------

/// An optional value that is missing leaves the separator of the next field
/// where it is: behind one separator, where the input goes on with another
/// separator at which no value can be read, there is no value, and what is
/// left starts with that other separator.
pub proof fn lemma_missing_option_keeps_next_separator<T: NmeaParse>(sep: u8, rest: Seq<u8>)
    requires
        T::spec_parse(seq![sep] + rest) is Err,
    ensures
        Option::<T>::spec_parse_preceded(sep, seq![sep, sep] + rest) == Ok::<
            (Seq<u8>, Option<T::V>),
            SpecError,
        >((seq![sep] + rest, None)),
{
    let i = seq![sep, sep] + rest;
    let next = seq![sep] + rest;
    assert(i.skip(1) == next);
}

/// An optional value that is missing at the end of the input is no fault:
/// behind one separator with nothing after it there is no value, where no
/// value can be read from an empty input.
pub proof fn lemma_missing_option_at_end<T: NmeaParse>(sep: u8)
    requires
        T::spec_parse(Seq::<u8>::empty()) is Err,
    ensures
        Option::<T>::spec_parse_preceded(sep, seq![sep]) == Ok::<
            (Seq<u8>, Option<T::V>),
            SpecError,
        >((Seq::<u8>::empty(), None)),
{
    assert(seq![sep].skip(1) == Seq::<u8>::empty());
}

/// Reading exactly `n` elements gives `n` values, and fails with `Count`
/// only.
pub proof fn lemma_count_arity<T: NmeaParse>(own: bool, sep: u8, i: Seq<u8>, n: nat)
    ensures
        match spec_count::<T>(own, sep, i, n) {
            Ok((_, values)) => values.len() == n,
            Err(e) => e matches crate::error::Error::ParsingError(p) && p.code == ErrorKind::Count,
        },
    decreases n,
{
    if n > 0 {
        match spec_element::<T>(own, sep, i) {
            Err(_) => {},
            Ok((rest, _)) => {
                lemma_count_arity::<T>(own, sep, rest, (n - 1) as nat);
            },
        }
    }
}

/// Array arity: a list of fixed size `N` is read as exactly `N` values, from
/// the start of an input as well as behind a separator, and any failure to
/// do so is of kind `Count`.
pub proof fn lemma_array_arity<T: NmeaParse + Default + Copy, const N: usize>(sep: u8, i: Seq<u8>)
    ensures
        match <[T; N]>::spec_parse(i) {
            Ok((_, values)) => values.len() == N,
            Err(e) => e matches crate::error::Error::ParsingError(p) && p.code == ErrorKind::Count,
        },
        match <[T; N]>::spec_parse_preceded(sep, i) {
            Ok((_, values)) => values.len() == N,
            Err(e) => e matches crate::error::Error::ParsingError(p) && p.code == ErrorKind::Count,
        },
{
    lemma_count_arity::<T>(true, sep, i, N as nat);
    if N > 0 {
        match T::spec_parse(i) {
            Err(_) => {},
            Ok((rest, _)) => {
                lemma_count_arity::<T>(false, COMMA, rest, (N - 1) as nat);
            },
        }
    }
}

/// A list read greedily holds at most `max` values where `max` is given.
pub proof fn lemma_many_bounded<T: NmeaParse>(
    sep: u8,
    i: Seq<u8>,
    max: nat,
    zero_width: ErrorKind,
)
    ensures
        spec_many::<T>(sep, i, Some(max), zero_width) matches Ok((_, values)) ==> values.len()
            <= max,
    decreases i.len(),
{
    if max > 0 {
        match T::spec_parse_preceded(sep, i) {
            Err(_) => {},
            Ok((rest, _)) => {
                if rest.len() < i.len() {
                    lemma_many_bounded::<T>(sep, rest, (max - 1) as nat, zero_width);
                }
            },
        }
    }
}

} // verus!
