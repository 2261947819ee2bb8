//! The recipe of the parser of one field.

use crate::meta::optional_text;
use vstd::prelude::*;
use vstd::string::StringExecFns;

verus! {

/// The recipe of the parser of one field: what to read, and what to do with
/// the value read. Texts are pieces of source, kept as they were written.
///
/// `S` is the type of a text: `String` in a program, `Seq<char>` in a
/// contract.
#[derive(Debug)]
pub enum Parser<S = String> {
    /// Run `parser` only where `condition` holds; else there is no value,
    /// and no input is taken.
    Cond {
        /// The recipe that is run under the condition.
        parser: Box<Parser<S>>,
        /// The condition, a boolean expression.
        condition: S,
    },
    /// Run the recipe and convert its value.
    Into(Box<Parser<S>>),
    /// Run `parser` and apply `map` to its value.
    Mapping {
        /// The recipe whose value is transformed.
        parser: Box<Parser<S>>,
        /// The function that transforms it.
        map: S,
    },
    /// A parser given as source.
    Raw(S),
    /// Read a value of the type `ty` by the type's own parser: behind the
    /// separator where there is one, from the start of the input else.
    Type {
        /// The type.
        ty: S,
        /// The separator.
        separator: Option<S>,
    },
}

/// The recipe of a parser as contracts speak of it.
pub type SpecParser = Parser<Seq<char>>;

/// The recipe `p` as contracts speak of it: with each text taken by its
/// characters.
pub open spec fn parser_view(p: Parser<String>) -> SpecParser
    decreases p,
{
    match p {
        Parser::Cond { parser, condition } => Parser::Cond {
            parser: Box::new(parser_view(*parser)),
            condition: condition@,
        },
        Parser::Into(parser) => Parser::Into(Box::new(parser_view(*parser))),
        Parser::Mapping { parser, map } => Parser::Mapping {
            parser: Box::new(parser_view(*parser)),
            map: map@,
        },
        Parser::Raw(source) => Parser::Raw(source@),
        Parser::Type { ty, separator } => Parser::Type {
            ty: ty@,
            separator: optional_text(separator),
        },
    }
}

impl View for Parser<String> {
    type V = SpecParser;

    open spec fn view(&self) -> SpecParser {
        parser_view(*self)
    }
}

/// The source of the parser that reads a value of the type `ty` by the
/// type's own parser, named by `path`, behind the separator where there is
/// one.
pub open spec fn spec_type_parser(path: Seq<char>, separator: Option<Seq<char>>) -> Seq<char> {
    match separator {
        Some(separator) => "|i| "@ + path + "::parse_preceded("@ + separator + ", i)"@,
        None => path + "::parse"@,
    }
}

impl Parser<Seq<char>> {
    /// The source of the parser that this recipe describes.
    pub open spec fn spec_to_tokens(self) -> Seq<char>
        decreases self,
    {
        match self {
            Parser::Cond { parser, condition } => "|i| nmea0183_parser::parsing::cond("@
                + condition + ", "@ + parser.spec_to_tokens() + ", i)"@,
            Parser::Into(parser) => "|i| nmea0183_parser::parsing::into("@
                + parser.spec_to_tokens() + ", i)"@,
            Parser::Mapping { parser, map } => "|i| nmea0183_parser::parsing::map("@
                + parser.spec_to_tokens() + ", "@ + map + ", i)"@,
            Parser::Raw(source) => source,
            Parser::Type { ty, separator } => spec_type_parser("<"@ + ty + ">"@, separator),
        }
    }

    /// This recipe with the type's own parser written out as source, named
    /// through the trait; any other recipe is left as it is.
    pub open spec fn spec_as_nmeaparse(self) -> SpecParser {
        match self {
            Parser::Type { ty, separator } => Parser::Raw(
                spec_type_parser("<"@ + ty + " as nmea0183_parser::NmeaParse>"@, separator),
            ),
            other => other,
        }
    }
}

/// Writes the source of the parser that reads a value by the own parser of
/// the type named by `path`.
fn type_parser(path: String, separator: &Option<String>) -> (r: String)
    ensures
        r@ == spec_type_parser(path@, optional_text(*separator)),
{
    match separator {
        Some(separator) => String::from_str("|i| ").concat(path.as_str()).concat(
            "::parse_preceded(",
        ).concat(separator.as_str()).concat(", i)"),
        None => path.concat("::parse"),
    }
}

impl Parser<String> {
    /// This recipe with the type's own parser written out as source, named
    /// through the trait; any other recipe is left as it is.
    pub fn as_nmeaparse(self) -> (r: Self)
        ensures
            r@ == self@.spec_as_nmeaparse(),
    {
        match self {
            Parser::Type { ty, separator } => {
                let path = String::from_str("<").concat(ty.as_str()).concat(
                    " as nmea0183_parser::NmeaParse>",
                );
                Parser::Raw(type_parser(path, &separator))
            },
            parser => parser,
        }
    }

    /// Writes the source of the parser that this recipe describes.
    pub fn to_tokens(&self) -> (r: String)
        ensures
            r@ == self@.spec_to_tokens(),
        decreases self,
    {
        match self {
            Parser::Cond { parser, condition } => {
                let inner = parser.to_tokens();
                String::from_str("|i| nmea0183_parser::parsing::cond(").concat(
                    condition.as_str(),
                ).concat(", ").concat(inner.as_str()).concat(", i)")
            },
            Parser::Into(parser) => {
                let inner = parser.to_tokens();
                String::from_str("|i| nmea0183_parser::parsing::into(").concat(
                    inner.as_str(),
                ).concat(", i)")
            },
            Parser::Mapping { parser, map } => {
                let inner = parser.to_tokens();
                String::from_str("|i| nmea0183_parser::parsing::map(").concat(
                    inner.as_str(),
                ).concat(", ").concat(map.as_str()).concat(", i)")
            },
            Parser::Raw(source) => source.clone(),
            Parser::Type { ty, separator } => {
                let path = String::from_str("<").concat(ty.as_str()).concat(">");
                type_parser(path, separator)
            },
        }
    }

    /// A copy of this recipe.
    pub fn duplicate(&self) -> (r: Self)
        ensures
            r@ == self@,
        decreases self,
    {
        match self {
            Parser::Cond { parser, condition } => Parser::Cond {
                parser: Box::new(parser.duplicate()),
                condition: condition.clone(),
            },
            Parser::Into(parser) => Parser::Into(Box::new(parser.duplicate())),
            Parser::Mapping { parser, map } => Parser::Mapping {
                parser: Box::new(parser.duplicate()),
                map: map.clone(),
            },
            Parser::Raw(source) => Parser::Raw(source.clone()),
            Parser::Type { ty, separator } => Parser::Type {
                ty: ty.clone(),
                separator: crate::config::copy_optional(separator),
            },
        }
    }
}

} // verus!
