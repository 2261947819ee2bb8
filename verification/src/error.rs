//! Error types shared by the framing parser and the field parsers.

use vstd::prelude::*;

verus! {

/// The reason a low-level parsing step gave up.
#[derive(Clone, Copy, Debug, PartialEq, Eq)]
pub enum ErrorKind {
    /// A fixed character did not match.
    Char,
    /// None of the accepted characters matched.
    OneOf,
    /// A decimal number was absent, malformed or out of range.
    Digit,
    /// A character outside the accepted set was met.
    IsA,
    /// The input ended before the requested bytes were read.
    Eof,
    /// The number of elements or bytes is not the expected one.
    Count,
    /// A required line ending is missing, or a forbidden one is present.
    CrLf,
    /// A value was parsed but rejected by a later check.
    Verify,
    /// A repeated element matched without consuming input.
    Many0,
    /// An element of a bounded list matched without consuming input.
    ManyMN,
    /// A selector matched none of the known alternatives.
    Switch,
    /// A floating-point number was absent or malformed.
    Float,
    /// A parser gave up for a reason of its own.
    Fail,
}

/// A low-level parsing failure: the input at which it happened and why.
#[derive(Clone, Copy, Debug, PartialEq, Eq)]
pub struct ParseError<I> {
    /// The input on which the failing step was tried.
    pub input: I,
    /// The reason of the failure.
    pub code: ErrorKind,
}

/// Everything that can go wrong while parsing a sentence.
#[derive(Clone, Copy, Debug, PartialEq, Eq)]
pub enum Error<I, E> {
    /// The input holds a byte outside 7-bit ASCII.
    NonAscii,
    /// The checksum declared in the sentence is not the one computed from
    /// its content.
    ChecksumMismatch {
        /// The checksum computed from the content.
        expected: u8,
        /// The checksum found in the sentence.
        found: u8,
    },
    /// The sentence is malformed.
    ParsingError(E),
    /// The sentence is well-formed, but of a type that is not known.
    UnrecognizedMessage(I),
    /// A field holds a value that is not acceptable.
    InvalidField(I),
    /// Any other failure.
    Unknown,
}

impl<I: View> View for ParseError<I> {
    type V = ParseError<I::V>;

    open spec fn view(&self) -> ParseError<I::V> {
        ParseError { input: self.input@, code: self.code }
    }
}

impl<I: View, E: View> View for Error<I, E> {
    type V = Error<I::V, E::V>;

    open spec fn view(&self) -> Error<I::V, E::V> {
        match *self {
            Error::NonAscii => Error::NonAscii,
            Error::ChecksumMismatch { expected, found } => Error::ChecksumMismatch {
                expected,
                found,
            },
            Error::ParsingError(e) => Error::ParsingError(e@),
            Error::UnrecognizedMessage(i) => Error::UnrecognizedMessage(i@),
            Error::InvalidField(i) => Error::InvalidField(i@),
            Error::Unknown => Error::Unknown,
        }
    }
}

/// The error of every parser of this crate: it borrows from the input.
pub type NmeaError<'a> = Error<&'a [u8], ParseError<&'a [u8]>>;

/// The result of every parser of this crate: the input that is left and the
/// value, or the error.
pub type IResult<'a, O> = Result<(&'a [u8], O), NmeaError<'a>>;

/// The error of a parser that works on text: it borrows from the text.
pub type StrError<'a> = Error<&'a str, ParseError<&'a str>>;

/// The result of a parser that works on text: the text that is left and the
/// value, or the error.
pub type StrResult<'a, O> = Result<(&'a str, O), StrError<'a>>;

/// What a parser is specified to fail with, over the bytes of the input.
pub type SpecError = Error<Seq<u8>, ParseError<Seq<u8>>>;

/// What a parser is specified to return, over the bytes of the input.
pub type SpecResult<O> = Result<(Seq<u8>, O), SpecError>;

/// Whether the result `r` of a parser is what `expected` says, each slice
/// taken by the bytes it holds.
pub open spec fn result_is<O>(r: IResult<'_, O>, expected: SpecResult<O>) -> bool {
    match r {
        Ok((rest, v)) => expected == Ok::<(Seq<u8>, O), SpecError>((rest@, v)),
        Err(e) => expected == Err::<(Seq<u8>, O), SpecError>(e@),
    }
}

/// The error of a failing parsing step of kind `code` on `input`.
pub open spec fn spec_make_error(input: Seq<u8>, code: ErrorKind) -> SpecError {
    Error::ParsingError(ParseError { input, code })
}

/// Builds the error of a failing parsing step of kind `code` on `input`.
pub fn make_error<'a>(input: &'a [u8], code: ErrorKind) -> (e: NmeaError<'a>)
    ensures
        e@ == spec_make_error(input@, code),
{
    Error::ParsingError(ParseError { input, code })
}

impl<'a> Error<&'a [u8], ParseError<&'a [u8]>> {
    /// The error of a failing parsing step of kind `kind` on `input`.
    pub fn from_error_kind(input: &'a [u8], kind: ErrorKind) -> (e: Self)
        ensures
            e == Error::<&'a [u8], ParseError<&'a [u8]>>::ParsingError(
                ParseError { input, code: kind },
            ),
    {
        Error::ParsingError(ParseError { input, code: kind })
    }

    /// The error `other`, met on the way out of a step of kind `kind` on
    /// `input`: the error is kept as it is.
    pub fn append(input: &'a [u8], kind: ErrorKind, other: Self) -> (e: Self)
        ensures
            e == other,
    {
        other
    }

    /// The error of a step of kind `kind` on `input` that failed with the
    /// error `error` of another library: that error is dropped.
    pub fn from_external_error<EX>(input: &'a [u8], kind: ErrorKind, error: EX) -> (e: Self)
        ensures
            e == Error::<&'a [u8], ParseError<&'a [u8]>>::ParsingError(
                ParseError { input, code: kind },
            ),
    {
        Error::ParsingError(ParseError { input, code: kind })
    }
}

} // verus!
