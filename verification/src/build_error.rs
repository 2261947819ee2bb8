//! What can be wrong with the directives of a type, found when its parser is
//! put together and never while parsing.

use crate::meta::MetaAttributeType;
use vstd::prelude::*;
use vstd::string::StringExecFns;

verus! {

/// A place in the source: a line and a column.
#[derive(Clone, Copy, Debug, PartialEq, Eq, Structural)]
pub struct Span {
    /// The line, counted from 1.
    pub line: usize,
    /// The column, counted from 0.
    pub column: usize,
}

/// What is wrong with a directive, or with the type that carries it.
#[derive(Clone, Copy, Debug, PartialEq, Eq, Structural)]
pub enum BuildErrorKind {
    /// The word names no kind of directive.
    UnknownAttribute,
    /// The directive needs an argument and has none.
    ExpectedArgument,
    /// The directive takes no argument and has one.
    UnexpectedArgument,
    /// The directive may not stand on a type.
    NotAllowedAtTopLevel(MetaAttributeType),
    /// The directive may not stand on a field.
    NotAllowedAtFieldLevel(MetaAttributeType),
    /// The directive may not stand on a variant.
    NotAllowedAtVariantLevel(MetaAttributeType),
    /// The directive stands twice, and may stand once only.
    Duplicate(MetaAttributeType),
    /// `parse_as` stands on a field that has `parser` already.
    ParseAsWithParser,
    /// `parser` stands on a field that has `parse_as` already.
    ParserWithParseAs,
    /// `selector` stands on a struct.
    StructSelector,
    /// `selection_error` stands on a struct.
    StructSelectionError,
    /// `separator` stands on a struct.
    StructSeparator,
    /// An enum has no `selector`.
    EnumWithoutSelector,
    /// `separator` stands on an enum.
    EnumSeparator,
    /// A variant has no `selector`.
    VariantWithoutSelector,
    /// The variant selected by `_` is not the last one.
    DefaultNotLast,
    /// `cond` stands on a field whose type is not a path, or is `Option`
    /// without its argument.
    CondWithoutOption,
    /// A text that should be a type is none.
    InvalidType,
    /// The type is a union.
    UnionNotSupported,
}

/// A fault in the directives of a type, with the place it was found at.
#[derive(Clone, Copy, Debug, PartialEq, Eq, Structural)]
pub struct BuildError {
    /// What is wrong.
    pub kind: BuildErrorKind,
    /// Where it is wrong.
    pub span: Span,
}

impl BuildErrorKind {
    /// The message of this fault.
    pub open spec fn spec_message(self) -> Seq<char> {
        match self {
            BuildErrorKind::UnknownAttribute => "nmea0183-derive: Unknown nmea attribute"@,
            BuildErrorKind::ExpectedArgument => "nmea0183-derive: Expected '= <value>' or '(<value>)' for nmea attribute"@,
            BuildErrorKind::UnexpectedArgument => "nmea0183-derive: Unexpected argument for nmea attribute"@,
            BuildErrorKind::NotAllowedAtTopLevel(kind) => "nmea0183-derive: Attribute `"@
                + kind.spec_name() + "` is not allowed at the top level"@,
            BuildErrorKind::NotAllowedAtFieldLevel(kind) => "nmea0183-derive: Attribute `"@
                + kind.spec_name() + "` is not allowed at the field level"@,
            BuildErrorKind::NotAllowedAtVariantLevel(kind) => "nmea0183-derive: Attribute `"@
                + kind.spec_name() + "` is not allowed at the variant level"@,
            BuildErrorKind::Duplicate(kind) => "nmea0183-derive: Duplicate nmea attribute `"@
                + kind.spec_name() + "`"@,
            BuildErrorKind::ParseAsWithParser => "nmea0183-derive: Attribute `parse_as` cannot be used with `parser` attribute."@,
            BuildErrorKind::ParserWithParseAs => "nmea0183-derive: Attribute `parser` cannot be used with `parse_as` attribute."@,
            BuildErrorKind::StructSelector => "nmea0183-derive: Structs does not support `selector` attributes; only enums support this feature."@,
            BuildErrorKind::StructSelectionError => "nmea0183-derive: Structs do not support `selection_error` attributes; only enums support this feature."@,
            BuildErrorKind::StructSeparator => "nmea0183-derive: Structs do not support `separator` attributes yet; this will be implemented in the future."@,
            BuildErrorKind::EnumWithoutSelector => "nmea0183-derive: Enums must have a `selector` attribute"@,
            BuildErrorKind::EnumSeparator => "nmea0183-derive: Enums do not support `separator` attributes yet; this will be implemented in the future."@,
            BuildErrorKind::VariantWithoutSelector => "nmea0183-derive: Variants must have a `selector` attribute"@,
            BuildErrorKind::DefaultNotLast => "nmea0183-derive: Default case must be the last entry in the enum"@,
            BuildErrorKind::CondWithoutOption => "nmea0183-derive: Unexpected type for attribute `cond`. Expected `Option`."@,
            BuildErrorKind::InvalidType => "nmea0183-derive: Expected a type"@,
            BuildErrorKind::UnionNotSupported => "nmea0183-derive: Unions not supported"@,
        }
    }

    /// The message of this fault.
    pub fn message(&self) -> (r: String)
        ensures
            r@ == self.spec_message(),
    {
        match self {
            BuildErrorKind::UnknownAttribute => String::from_str(
                "nmea0183-derive: Unknown nmea attribute",
            ),
            BuildErrorKind::ExpectedArgument => String::from_str(
                "nmea0183-derive: Expected '= <value>' or '(<value>)' for nmea attribute",
            ),
            BuildErrorKind::UnexpectedArgument => String::from_str(
                "nmea0183-derive: Unexpected argument for nmea attribute",
            ),
            BuildErrorKind::NotAllowedAtTopLevel(kind) => String::from_str(
                "nmea0183-derive: Attribute `",
            ).concat(kind.name()).concat("` is not allowed at the top level"),
            BuildErrorKind::NotAllowedAtFieldLevel(kind) => String::from_str(
                "nmea0183-derive: Attribute `",
            ).concat(kind.name()).concat("` is not allowed at the field level"),
            BuildErrorKind::NotAllowedAtVariantLevel(kind) => String::from_str(
                "nmea0183-derive: Attribute `",
            ).concat(kind.name()).concat("` is not allowed at the variant level"),
            BuildErrorKind::Duplicate(kind) => String::from_str(
                "nmea0183-derive: Duplicate nmea attribute `",
            ).concat(kind.name()).concat("`"),
            BuildErrorKind::ParseAsWithParser => String::from_str(
                "nmea0183-derive: Attribute `parse_as` cannot be used with `parser` attribute.",
            ),
            BuildErrorKind::ParserWithParseAs => String::from_str(
                "nmea0183-derive: Attribute `parser` cannot be used with `parse_as` attribute.",
            ),
            BuildErrorKind::StructSelector => String::from_str(
                "nmea0183-derive: Structs does not support `selector` attributes; only enums support this feature.",
            ),
            BuildErrorKind::StructSelectionError => String::from_str(
                "nmea0183-derive: Structs do not support `selection_error` attributes; only enums support this feature.",
            ),
            BuildErrorKind::StructSeparator => String::from_str(
                "nmea0183-derive: Structs do not support `separator` attributes yet; this will be implemented in the future.",
            ),
            BuildErrorKind::EnumWithoutSelector => String::from_str(
                "nmea0183-derive: Enums must have a `selector` attribute",
            ),
            BuildErrorKind::EnumSeparator => String::from_str(
                "nmea0183-derive: Enums do not support `separator` attributes yet; this will be implemented in the future.",
            ),
            BuildErrorKind::VariantWithoutSelector => String::from_str(
                "nmea0183-derive: Variants must have a `selector` attribute",
            ),
            BuildErrorKind::DefaultNotLast => String::from_str(
                "nmea0183-derive: Default case must be the last entry in the enum",
            ),
            BuildErrorKind::CondWithoutOption => String::from_str(
                "nmea0183-derive: Unexpected type for attribute `cond`. Expected `Option`.",
            ),
            BuildErrorKind::InvalidType => String::from_str("nmea0183-derive: Expected a type"),
            BuildErrorKind::UnionNotSupported => String::from_str(
                "nmea0183-derive: Unions not supported",
            ),
        }
    }
}

impl BuildError {
    /// The fault `kind`, found at `span`.
    pub fn new(kind: BuildErrorKind, span: Span) -> (e: Self)
        ensures
            e == (BuildError { kind, span }),
    {
        BuildError { kind, span }
    }

    /// The message of this fault.
    pub fn to_string(&self) -> (r: String)
        ensures
            r@ == self.kind.spec_message(),
    {
        self.kind.message()
    }
}

} // verus!
