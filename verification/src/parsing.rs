//! Small parsers and ways to put parsers together.
//!
//! A parser is any function from an input to an [`IResult`]. The functions
//! of this module take such a parser and the input, run the parser, and do
//! one more thing with what it returns.

use crate::error::{make_error, result_is, spec_make_error, ErrorKind, IResult, SpecResult};
use crate::parse::{char, spec_char};
use vstd::prelude::*;
use vstd::slice::slice_subrange;

verus! {

/// What taking the first `n` bytes of `i` gives: the input after them and
/// the bytes taken; an input shorter than `n` fails with `Eof`.
pub open spec fn spec_take(n: nat, i: Seq<u8>) -> SpecResult<Seq<u8>> {
    if i.len() < n {
        Err(spec_make_error(i, ErrorKind::Eof))
    } else {
        Ok((i.skip(n as int), i.take(n as int)))
    }
}

/// Takes the first `n` bytes of `i`.
pub fn take<'a>(n: usize, i: &'a [u8]) -> (r: IResult<'a, &'a [u8]>)
    ensures
        match r {
            Ok((rest, taken)) => spec_take(n as nat, i@) == Ok::<
                (Seq<u8>, Seq<u8>),
                crate::error::SpecError,
            >((rest@, taken@)),
            Err(e) => spec_take(n as nat, i@) == Err::<
                (Seq<u8>, Seq<u8>),
                crate::error::SpecError,
            >(e@),
        },
{
    let len: usize = i.len();
    if len < n {
        Err(make_error(i, ErrorKind::Eof))
    } else {
        Ok((slice_subrange(i, n, len), slice_subrange(i, 0, n)))
    }
}

/// Succeeds with `value` and takes nothing from `i`.
pub fn success<'a, O>(value: O, i: &'a [u8]) -> (r: IResult<'a, O>)
    ensures
        r == Ok::<(&'a [u8], O), crate::error::NmeaError<'a>>((i, value)),
{
    Ok((i, value))
}

/// Runs the parser `f` on `i`, and checks that exactly `n` bytes are left
/// behind what it read: where another number is left, the failure is of
/// kind `e`, on the input that is left.
pub fn verify_rest_length<'a, O, F: Fn(&'a [u8]) -> IResult<'a, O>>(
    f: F,
    n: usize,
    e: ErrorKind,
    i: &'a [u8],
) -> (r: IResult<'a, O>)
    requires
        call_requires(f, (i,)),
    ensures
        exists|inner: IResult<'a, O>| #[trigger]
            call_ensures(f, (i,), inner) && r == (match inner {
                Ok((rest, v)) => if rest@.len() != n {
                    Err(crate::error::Error::ParsingError(
                        crate::error::ParseError { input: rest, code: e },
                    ))
                } else {
                    Ok((rest, v))
                },
                Err(err) => Err(err),
            }),
{
    let inner = f(i);
    match inner {
        Ok((rest, v)) => {
            if rest.len() != n {
                Err(crate::error::Error::ParsingError(
                    crate::error::ParseError { input: rest, code: e },
                ))
            } else {
                Ok((rest, v))
            }
        },
        Err(err) => Err(err),
    }
}

/// Runs the parser `f` on `i`, and checks that it read all of it: where
/// anything is left, the failure is of kind `e`, on the input that is left.
pub fn consumed<'a, O, F: Fn(&'a [u8]) -> IResult<'a, O>>(f: F, e: ErrorKind, i: &'a [u8]) -> (r:
    IResult<'a, O>)
    requires
        call_requires(f, (i,)),
    ensures
        exists|inner: IResult<'a, O>| #[trigger]
            call_ensures(f, (i,), inner) && r == (match inner {
                Ok((rest, v)) => if rest@.len() != 0 {
                    Err(crate::error::Error::ParsingError(
                        crate::error::ParseError { input: rest, code: e },
                    ))
                } else {
                    Ok((rest, v))
                },
                Err(err) => Err(err),
            }),
{
    verify_rest_length(f, 0, e, i)
}

/// Runs the parser `f` on `i` where `condition` holds, and gives no value
/// and takes nothing where it does not.
pub fn cond<'a, O, F: Fn(&'a [u8]) -> IResult<'a, O>>(condition: bool, f: F, i: &'a [u8]) -> (r:
    IResult<'a, Option<O>>)
    requires
        condition ==> call_requires(f, (i,)),
    ensures
        !condition ==> r == Ok::<(&'a [u8], Option<O>), crate::error::NmeaError<'a>>((i, None)),
        condition ==> exists|inner: IResult<'a, O>| #[trigger]
            call_ensures(f, (i,), inner) && r == (match inner {
                Ok((rest, v)) => Ok((rest, Some(v))),
                Err(err) => Err(err),
            }),
{
    if condition {
        match f(i) {
            Ok((rest, v)) => Ok((rest, Some(v))),
            Err(err) => Err(err),
        }
    } else {
        Ok((i, None))
    }
}

/// Runs the parser `f` on `i`, and applies `g` to the value it read.
pub fn map<'a, O1, O2, F: Fn(&'a [u8]) -> IResult<'a, O1>, G: Fn(O1) -> O2>(
    f: F,
    g: G,
    i: &'a [u8],
) -> (r: IResult<'a, O2>)
    requires
        call_requires(f, (i,)),
        forall|rest: &'a [u8], v: O1|
            call_ensures(f, (i,), Ok::<(&'a [u8], O1), crate::error::NmeaError<'a>>((rest, v)))
                ==> call_requires(g, (v,)),
    ensures
        exists|inner: IResult<'a, O1>| #[trigger]
            call_ensures(f, (i,), inner) && (match inner {
                Ok((rest, v)) => r matches Ok((last, w)) && last == rest && call_ensures(
                    g,
                    (v,),
                    w,
                ),
                Err(err) => r == Err::<(&'a [u8], O2), crate::error::NmeaError<'a>>(err),
            }),
{
    let inner = f(i);
    match inner {
        Ok((rest, v)) => {
            let w = g(v);
            Ok((rest, w))
        },
        Err(err) => Err(err),
    }
}

/// Reads the separator `sep` from `i`, and runs the parser `f` on the input
/// after it.
pub fn preceded_by<'a, O, F: Fn(&'a [u8]) -> IResult<'a, O>>(sep: u8, f: F, i: &'a [u8]) -> (r:
    IResult<'a, O>)
    requires
        forall|rest: &'a [u8]|
            spec_char(sep, i@) == Ok::<(Seq<u8>, u8), crate::error::SpecError>((rest@, sep))
                ==> call_requires(f, (rest,)),
    ensures
        match spec_char(sep, i@) {
            Ok((after, _)) => exists|rest: &'a [u8]|
                rest@ == after && #[trigger] call_ensures(f, (rest,), r),
            Err(e) => r is Err && r->Err_0@ == e,
        },
{
    match char(sep, i) {
        Ok((rest, _)) => f(rest),
        Err(e) => Err(e),
    }
}

/// Runs the parser `f` on `i`, and converts the value it read into a value
/// of type `O2`.
pub fn into<'a, O1, O2: From<O1>, F: Fn(&'a [u8]) -> IResult<'a, O1>>(f: F, i: &'a [u8]) -> (r:
    IResult<'a, O2>)
    requires
        call_requires(f, (i,)),
    ensures
        exists|inner: IResult<'a, O1>| #[trigger]
            call_ensures(f, (i,), inner) && (match inner {
                Ok((rest, v)) => r matches Ok((last, w)) && last == rest && call_ensures(
                    O2::from,
                    (v,),
                    w,
                ),
                Err(err) => r == Err::<(&'a [u8], O2), crate::error::NmeaError<'a>>(err),
            }),
{
    let inner = f(i);
    match inner {
        Ok((rest, v)) => {
            let w = O2::from(v);
            Ok((rest, w))
        },
        Err(err) => Err(err),
    }
}

/// What an optional value is made of the result `inner` of reading a value
/// from `i`: the value where it was read; else no value, and all of `i`
/// left.
pub open spec fn spec_opt<'a, O>(i: &'a [u8], inner: IResult<'a, O>) -> IResult<'a, Option<O>> {
    match inner {
        Ok((rest, v)) => Ok((rest, Some(v))),
        Err(_) => Ok((i, None)),
    }
}

/// Runs the parser `f` on `i`; where it fails there is no value, and nothing
/// is taken from `i`.
pub fn opt<'a, O, F: Fn(&'a [u8]) -> IResult<'a, O>>(f: F, i: &'a [u8]) -> (r: IResult<
    'a,
    Option<O>,
>)
    requires
        call_requires(f, (i,)),
    ensures
        exists|inner: IResult<'a, O>| #[trigger] call_ensures(f, (i,), inner) && r == spec_opt(
            i,
            inner,
        ),
{
    let inner = f(i);
    match inner {
        Ok((rest, v)) => Ok((rest, Some(v))),
        Err(_) => Ok((i, None)),
    }
}

/// What an optional value behind a separator is made of the result `inner`
/// of reading a value from `rest`, the input behind the separator that
/// starts `i`: the value where it was read; else no value, and all of
/// `rest` left, where `rest` is empty or starts with the next separator;
/// else a failure of kind `Verify` on `i`.
pub open spec fn spec_opt_preceded<'a, O>(
    sep: u8,
    i: &'a [u8],
    rest: &'a [u8],
    inner: IResult<'a, O>,
) -> IResult<'a, Option<O>> {
    match inner {
        Ok((last, v)) => Ok((last, Some(v))),
        Err(_) => if spec_char(sep, rest@) is Ok || rest@.len() == 0 {
            Ok((rest, None))
        } else {
            Err(crate::error::Error::ParsingError(
                crate::error::ParseError { input: i, code: ErrorKind::Verify },
            ))
        },
    }
}

/// Reads the separator `sep` from `i`, in any case, and runs the parser `f`
/// on the input after it. Where `f` fails, the value counts as absent if
/// that input is empty or starts with the next separator, and nothing more
/// is taken; on any other input the failure is of kind `Verify`, on `i`.
pub fn opt_preceded<'a, O, F: Fn(&'a [u8]) -> IResult<'a, O>>(sep: u8, f: F, i: &'a [u8]) -> (r:
    IResult<'a, Option<O>>)
    requires
        forall|rest: &'a [u8]|
            spec_char(sep, i@) == Ok::<(Seq<u8>, u8), crate::error::SpecError>((rest@, sep))
                ==> call_requires(f, (rest,)),
    ensures
        match spec_char(sep, i@) {
            Ok((after, _)) => exists|rest: &'a [u8], inner: IResult<'a, O>|
                rest@ == after && #[trigger] call_ensures(f, (rest,), inner) && r
                    == spec_opt_preceded(sep, i, rest, inner),
            Err(e) => r is Err && r->Err_0@ == e,
        },
{
    let rest = match char(sep, i) {
        Ok((rest, _)) => rest,
        Err(e) => {
            return Err(e);
        },
    };
    let inner = f(rest);
    match inner {
        Ok((last, v)) => Ok((last, Some(v))),
        Err(_) => {
            if char(sep, rest).is_ok() || rest.len() == 0 {
                Ok((rest, None))
            } else {
                Err(
                    crate::error::Error::ParsingError(
                        crate::error::ParseError { input: i, code: ErrorKind::Verify },
                    ),
                )
            }
        },
    }
}

/// What a value with its unit is made of the optional value `value`, read
/// before, and the input `rest` behind it: a comma must follow; the value
/// counts only where the byte `unit` is written behind the comma.
pub open spec fn spec_unit<O>(unit: u8, rest: Seq<u8>, value: Option<O>) -> SpecResult<Option<O>> {
    match spec_char(crate::parse::COMMA, rest) {
        Err(e) => Err(e),
        Ok((last, _)) => if last.len() > 0 && last[0] == unit {
            Ok((last.skip(1), value))
        } else {
            Ok((last, None))
        },
    }
}

/// Reads a value with its unit: an optional value, read by `f`, a comma, and
/// the byte `unit` where it is there. The value counts only where its unit
/// is written; the comma must be there.
pub fn with_unit_by<'a, O, F: Fn(&'a [u8]) -> IResult<'a, O>>(unit: u8, f: F, i: &'a [u8]) -> (r:
    IResult<'a, Option<O>>)
    requires
        call_requires(f, (i,)),
    ensures
        exists|inner: IResult<'a, O>| #[trigger]
            call_ensures(f, (i,), inner) && (match spec_opt(i, inner) {
                Ok((rest, value)) => result_is(r, spec_unit(unit, rest@, value)),
                Err(_) => false,
            }),
{
    let (rest, value) = match opt(f, i) {
        Ok(read) => read,
        Err(e) => {
            return Err(e);
        },
    };
    let last = match char(crate::parse::COMMA, rest) {
        Ok((last, _)) => last,
        Err(e) => {
            return Err(e);
        },
    };
    let n: usize = last.len();
    if n > 0 && last[0] == unit {
        Ok((slice_subrange(last, 1, n), value))
    } else {
        Ok((last, None))
    }
}

/// Takes the first `count` bytes of `i` and runs the parser `f` on them
/// alone: its value is returned with the input after those bytes, and what
/// it leaves of them is dropped.
pub fn take_and_then<'a, O, F: Fn(&'a [u8]) -> IResult<'a, O>>(count: usize, f: F, i: &'a [u8]) -> (r:
    IResult<'a, O>)
    requires
        forall|taken: &'a [u8]| taken@ == i@.take(count as int) ==> call_requires(f, (taken,)),
    ensures
        match spec_take(count as nat, i@) {
            Err(e) => r is Err && r->Err_0@ == e,
            Ok((after, bytes)) => exists|taken: &'a [u8], inner: IResult<'a, O>|
                taken@ == bytes && #[trigger] call_ensures(f, (taken,), inner) && (match inner {
                    Ok((_, v)) => r matches Ok((rest, w)) && rest@ == after && w == v,
                    Err(e) => r == Err::<(&'a [u8], O), crate::error::NmeaError<'a>>(e),
                }),
        },
{
    let (rest, taken) = match take(count, i) {
        Ok(read) => read,
        Err(e) => {
            return Err(e);
        },
    };
    let inner = f(taken);
    match inner {
        Ok((_, v)) => Ok((rest, v)),
        Err(e) => Err(e),
    }
}

} // verus!
