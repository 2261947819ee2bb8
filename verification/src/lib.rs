//! Parser for NMEA 0183-style sentences of the form `$HHH,D1,...,Dn*CC\r\n`.
//!
//! The framing of a sentence (start marker, checksum, line ending) is fixed
//! by the protocol and checked by the parser that [`Nmea0183ParserBuilder`]
//! builds; the content between the start marker and the checksum is defined
//! by the application and read field by field through [`NmeaParse`].
//!
//! * [`nmea0183`] holds the framing: checksum, line-ending policy, checksum
//!   policy and the framing parser.
//! * [`parse`] holds the trait of the field parsers and its implementations
//!   for integers, characters, optional values and lists; [`parsing`] holds
//!   the ways to put parsers together; [`lex`] the lexing of numbers.
//! * [`meta`], [`config`], [`parser`], [`input`] and [`generate`] hold the
//!   generator: it takes the shape of a type and the directives written on
//!   it, and gives the source of the parser of the type.
//! * [`nmea_content`] holds the values and fields of the standard sentences.
//!
//! Every parser works on bytes and returns parts of its input, never copies.
//! The framing also takes a sentence as text, and then hands back parts of
//! that text.

pub mod build_error;
pub mod config;
pub mod error;
pub mod generate;
pub mod input;
pub mod lex;
pub mod meta;
pub mod nmea0183;
pub mod nmea_content;
pub mod parse;
pub mod parser;
pub mod parsing;
pub mod syntax;
pub mod text;

pub use error::{Error, ErrorKind, IResult, ParseError, StrError, StrResult};
pub use nmea0183::{
    checksum, checksum_crlf, crlf, format_checksum, frame_str, nmea0183, ChecksumMode,
    LineEndingMode, Nmea0183Parser, Nmea0183ParserBuilder,
};
pub use parse::NmeaParse;
