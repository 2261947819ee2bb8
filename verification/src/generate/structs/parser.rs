//! The recipes of the parsers of the fields of a struct or of a variant.

use crate::build_error::{BuildError, BuildErrorKind, Span};
use crate::config::{copy_optional, Config, SpecConfig};
use crate::generate::hooks::{non_empty, pre_post_exec, spec_post_exec, spec_pre_exec};
use crate::input::{Field, Fields, FieldsKind, SpecField, SpecFields};
use crate::meta::{
    all_wf, check_arguments, first_fault, first_missing, optional_text,
    parse_field_level_attributes, same_text, MetaAttribute, MetaAttributeType, Placement,
    SpecMetaAttribute,
};
use crate::parser::{Parser, SpecParser};
use crate::syntax::{SpecTypeInfo, TypeInfo};
use crate::text::{decimal_text, spec_decimal_text};
use vstd::prelude::*;
use vstd::string::StringExecFns;

verus! {

/// The parser of one field: the variable that takes its value, its recipe,
/// and the statements to run before and after it.
///
/// `S` is the type of a text: `String` in a program, `Seq<char>` in a
/// contract.
#[derive(Debug)]
pub struct FieldParser<S = String> {
    /// The name of the variable that takes the value of the field.
    pub variable_name: S,
    /// The recipe of the parser of the field.
    pub parser: Parser<S>,
    /// The statements to run before the field is read.
    pub pre_exec: Option<S>,
    /// The statements to run after the field is read.
    pub post_exec: Option<S>,
}

/// The parser of one field as contracts speak of it.
pub type SpecFieldParser = FieldParser<Seq<char>>;

impl DeepView for FieldParser<String> {
    type V = SpecFieldParser;

    open spec fn deep_view(&self) -> SpecFieldParser {
        FieldParser {
            variable_name: self.variable_name@,
            parser: self.parser@,
            pre_exec: optional_text(self.pre_exec),
            post_exec: optional_text(self.post_exec),
        }
    }
}

impl FieldParser<String> {
    /// A copy of this parser.
    pub fn duplicate(&self) -> (r: Self)
        ensures
            r.deep_view() == self.deep_view(),
    {
        FieldParser {
            variable_name: self.variable_name.clone(),
            parser: self.parser.duplicate(),
            pre_exec: copy_optional(&self.pre_exec),
            post_exec: copy_optional(&self.post_exec),
        }
    }
}

/// The parsers of the fields of a struct or of a variant, in the order of
/// the fields.
#[derive(Debug)]
pub struct StructParser {
    /// Whether there are no fields at all.
    pub empty: bool,
    /// Whether the fields have no names.
    pub unnamed: bool,
    /// The parsers of the fields.
    pub parsers: Vec<FieldParser>,
}

/// The parsers of the fields of a struct as contracts speak of them.
pub struct SpecStructParser {
    /// Whether there are no fields at all.
    pub empty: bool,
    /// Whether the fields have no names.
    pub unnamed: bool,
    /// The parsers of the fields.
    pub parsers: Seq<SpecFieldParser>,
}

impl DeepView for StructParser {
    type V = SpecStructParser;

    open spec fn deep_view(&self) -> SpecStructParser {
        SpecStructParser {
            empty: self.empty,
            unnamed: self.unnamed,
            parsers: self.parsers.deep_view(),
        }
    }
}

// ---------------------------------------------------------------------------
// The recipe of one field
// ---------------------------------------------------------------------------

/// What is known of the type that a conditional field holds, from what is
/// known of the type `info` of the field: for a path whose last segment is
/// `expected`, as `Option<T>` is, it is the type held in the angle brackets;
/// for any other path it is the type itself. A type that is no path, or
/// `expected` without arguments, has none; nor has one whose arguments are
/// not exactly one type.
pub open spec fn spec_innermost_type(info: SpecTypeInfo, expected: Seq<char>, span: Span) -> Result<
    SpecTypeInfo,
    BuildError,
> {
    match info.last_ident {
        Some(ident) => if ident == expected {
            match (info.generic_args, info.held) {
                (Some(_), Some(held)) => Ok(*held),
                (Some(_), None) => Err(BuildError { kind: BuildErrorKind::InvalidType, span }),
                (None, _) => Err(BuildError { kind: BuildErrorKind::CondWithoutOption, span }),
            }
        } else {
            Ok(info)
        },
        None => Err(BuildError { kind: BuildErrorKind::CondWithoutOption, span }),
    }
}

/// The source of the parser `parser` behind the separator.
pub open spec fn spec_preceded_source(separator: Seq<char>, parser: Seq<char>) -> Seq<char> {
    "|i| nmea0183_parser::parsing::preceded_by("@ + separator + ", "@ + parser + ", i)"@
}

/// The source of the parser that reads nothing and gives the default value
/// of the type `ty`.
pub open spec fn spec_default_source(ty: Seq<char>) -> Seq<char> {
    "|i| nmea0183_parser::parsing::success(<"@ + ty + ">::default(), i)"@
}

/// The recipe of the parser of a field of type `ty` with the directives
/// `attrs`, read behind `separator` where there is one.
///
/// The directives are taken in their order, and the first of these decides:
/// `parser` gives its argument as the parser, behind the separator;
/// `parse_as` goes on with its argument as the type, and is at fault where
/// nothing is known of that argument as a type; `ignore` gives the default
/// value; `cond` wraps the recipe of the rest, for the type that the
/// optional field holds, in its condition; `into` and `map` wrap the recipe
/// of the rest. Any other directive is passed over. With no directive left
/// the type's own parser is the recipe.
pub open spec fn spec_get_parser(
    ty: SpecTypeInfo,
    attrs: Seq<SpecMetaAttribute>,
    separator: Option<Seq<char>>,
) -> Result<SpecParser, BuildError>
    decreases attrs.len(),
{
    if attrs.len() == 0 {
        Ok(Parser::Type { ty: ty.tokens, separator })
    } else {
        let a = attrs[0];
        let rest = attrs.skip(1);
        match a.kind {
            MetaAttributeType::Parser => Ok(
                Parser::Raw(
                    match separator {
                        Some(separator) => spec_preceded_source(separator, a.arg->0),
                        None => a.arg->0,
                    },
                ),
            ),
            MetaAttributeType::ParseAs => match a.arg_type {
                Some(info) => spec_get_parser(info, rest, separator),
                None => Err(BuildError { kind: BuildErrorKind::InvalidType, span: a.span }),
            },
            MetaAttributeType::Ignore => Ok(Parser::Raw(spec_default_source(ty.tokens))),
            MetaAttributeType::Cond => match spec_innermost_type(ty, "Option"@, a.span) {
                Err(e) => Err(e),
                Ok(inner) => match spec_get_parser(inner, rest, separator) {
                    Ok(parser) => Ok(
                        Parser::Cond { parser: Box::new(parser), condition: a.arg->0 },
                    ),
                    Err(e) => Err(e),
                },
            },
            MetaAttributeType::Into => match spec_get_parser(ty, rest, separator) {
                Ok(parser) => Ok(Parser::Into(Box::new(parser))),
                Err(e) => Err(e),
            },
            MetaAttributeType::Mapping => match spec_get_parser(ty, rest, separator) {
                Ok(parser) => Ok(Parser::Mapping { parser: Box::new(parser), map: a.arg->0 }),
                Err(e) => Err(e),
            },
            _ => spec_get_parser(ty, rest, separator),
        }
    }
}

/// Whether `r` is the recipe, or the fault, that `expected` says.
pub open spec fn recipe_is(
    r: Result<Parser, BuildError>,
    expected: Result<SpecParser, BuildError>,
) -> bool {
    match r {
        Ok(parser) => expected == Ok::<SpecParser, BuildError>(parser@),
        Err(e) => expected == Err::<SpecParser, BuildError>(e),
    }
}

impl StructParser {
    /// Finds what is known of the type that a conditional field holds, from
    /// what is known of the type `info` of the field: for a path whose last
    /// segment is `expected`, the type held in the angle brackets behind that
    /// segment; for any other path the type itself.
    pub fn get_innermost_type_parser<'t>(info: &'t TypeInfo, expected: &str, span: Span) -> (r:
        Result<&'t TypeInfo, BuildError>)
        ensures
            match r {
                Ok(inner) => spec_innermost_type(info@, expected@, span) == Ok::<
                    SpecTypeInfo,
                    BuildError,
                >(inner@),
                Err(e) => spec_innermost_type(info@, expected@, span) == Err::<
                    SpecTypeInfo,
                    BuildError,
                >(e),
            },
    {
        match &info.last_ident {
            Some(ident) => {
                if same_text(ident.as_str(), expected) {
                    match (&info.generic_args, &info.held) {
                        (Some(_), Some(held)) => Ok(&**held),
                        (Some(_), None) => Err(BuildError::new(BuildErrorKind::InvalidType, span)),
                        (None, _) => Err(
                            BuildError::new(BuildErrorKind::CondWithoutOption, span),
                        ),
                    }
                } else {
                    Ok(info)
                }
            },
            None => Err(BuildError::new(BuildErrorKind::CondWithoutOption, span)),
        }
    }

    /// Puts together the recipe of the parser of a field of type `ty` from
    /// the directives `attributes` at index `from` and after.
    fn get_parser_from(
        ty: &TypeInfo,
        attributes: &Vec<MetaAttribute>,
        from: usize,
        separator: &Option<String>,
    ) -> (r: Result<Parser, BuildError>)
        requires
            from <= attributes.len(),
            all_wf(attributes.deep_view()),
        ensures
            recipe_is(
                r,
                spec_get_parser(
                    ty@,
                    attributes.deep_view().skip(from as int),
                    optional_text(*separator),
                ),
            ),
        decreases attributes.len() - from,
    {
        let ghost attrs = attributes.deep_view().skip(from as int);
        if from == attributes.len() {
            return Ok(Parser::Type { ty: ty.tokens.clone(), separator: copy_optional(separator) });
        }
        let attribute = &attributes[from];
        proof {
            assert(attrs.skip(1) == attributes.deep_view().skip(from + 1));
        }
        let arg = match attribute.arg() {
            Some(arg) => arg.as_str(),
            None => "",
        };
        match attribute.kind {
            MetaAttributeType::Parser => {
                let source = match separator {
                    Some(separator) => String::from_str(
                        "|i| nmea0183_parser::parsing::preceded_by(",
                    ).concat(separator.as_str()).concat(", ").concat(arg).concat(", i)"),
                    None => String::from_str(arg),
                };
                Ok(Parser::Raw(source))
            },
            MetaAttributeType::ParseAs => match &attribute.arg_type {
                Some(info) => Self::get_parser_from(info, attributes, from + 1, separator),
                None => Err(BuildError::new(BuildErrorKind::InvalidType, attribute.span)),
            },
            MetaAttributeType::Ignore => Ok(
                Parser::Raw(
                    String::from_str("|i| nmea0183_parser::parsing::success(<").concat(
                        ty.tokens.as_str(),
                    ).concat(">::default(), i)"),
                ),
            ),
            MetaAttributeType::Cond => {
                let inner = match Self::get_innermost_type_parser(ty, "Option", attribute.span) {
                    Ok(inner) => inner,
                    Err(e) => {
                        return Err(e);
                    },
                };
                match Self::get_parser_from(inner, attributes, from + 1, separator) {
                    Ok(parser) => Ok(
                        Parser::Cond { parser: Box::new(parser), condition: String::from_str(arg) },
                    ),
                    Err(e) => Err(e),
                }
            },
            MetaAttributeType::Into => match Self::get_parser_from(
                ty,
                attributes,
                from + 1,
                separator,
            ) {
                Ok(parser) => Ok(Parser::Into(Box::new(parser))),
                Err(e) => Err(e),
            },
            MetaAttributeType::Mapping => match Self::get_parser_from(
                ty,
                attributes,
                from + 1,
                separator,
            ) {
                Ok(parser) => Ok(
                    Parser::Mapping { parser: Box::new(parser), map: String::from_str(arg) },
                ),
                Err(e) => Err(e),
            },
            _ => Self::get_parser_from(ty, attributes, from + 1, separator),
        }
    }

    /// Puts together the recipe of the parser of a field of type `ty` with
    /// the directives `attributes`, read behind `separator` where there is
    /// one. A directive that lacks its argument is a fault.
    pub fn get_parser(
        ty: &TypeInfo,
        attributes: &Vec<MetaAttribute>,
        separator: Option<String>,
    ) -> (r: Result<Parser, BuildError>)
        ensures
            match first_missing(attributes.deep_view()) {
                Some(e) => r == Err::<Parser, BuildError>(e),
                None => recipe_is(
                    r,
                    spec_get_parser(ty@, attributes.deep_view(), optional_text(separator)),
                ),
            },
    {
        match check_arguments(attributes) {
            Ok(_) => {},
            Err(e) => {
                return Err(e);
            },
        }
        assert(attributes.deep_view().skip(0) == attributes.deep_view());
        Self::get_parser_from(ty, attributes, 0, &separator)
    }
}

// ---------------------------------------------------------------------------
// The recipes of all fields
// ---------------------------------------------------------------------------

/// Whether one of the directives `attrs` is `ignore`.
pub open spec fn is_ignored(attrs: Seq<SpecMetaAttribute>) -> bool {
    exists|k: int| 0 <= k < attrs.len() && (#[trigger] attrs[k]).kind is Ignore
}

/// The name of the variable that takes the value of `field`, the field of
/// index `index`: the name of the field, or one made of the index where the
/// field has none.
pub open spec fn spec_variable_name(field: SpecField, index: nat) -> Seq<char> {
    match field.ident {
        Some(ident) => ident,
        None => "_nmea_unnamed_"@ + spec_decimal_text(index),
    }
}

/// The parser of `field`, the field of index `index`. Its directives are
/// checked first. It is read behind the separator unless it is the first
/// field that is read (`first_field`) or is not read at all (`ignore`).
pub open spec fn spec_field_parser(
    field: SpecField,
    index: nat,
    config: SpecConfig,
    first_field: bool,
) -> Result<SpecFieldParser, BuildError> {
    match first_fault(Placement::Field, field.attrs) {
        Some(e) => Err(e),
        None => {
            let separator = if !first_field && !is_ignored(field.attrs) {
                Some(config.separator)
            } else {
                None
            };
            match spec_get_parser(field.ty, field.attrs, separator) {
                Err(e) => Err(e),
                Ok(parser) => Ok(
                    FieldParser {
                        variable_name: spec_variable_name(field, index),
                        parser,
                        pre_exec: non_empty(spec_pre_exec(field.attrs, config)),
                        post_exec: non_empty(spec_post_exec(field.attrs, config)),
                    },
                ),
            }
        },
    }
}

/// The parsers of the fields `fields` from index `index` on, where
/// `first_field` says whether no field was read before: the first fault
/// met, field by field, fails the whole.
pub open spec fn spec_field_parsers(
    fields: Seq<SpecField>,
    config: SpecConfig,
    first_field: bool,
    index: nat,
) -> Result<Seq<SpecFieldParser>, BuildError>
    decreases fields.len() - index,
{
    if index >= fields.len() {
        Ok(Seq::<SpecFieldParser>::empty())
    } else {
        match spec_field_parser(fields[index as int], index, config, first_field) {
            Err(e) => Err(e),
            Ok(parser) => match spec_field_parsers(
                fields,
                config,
                first_field && is_ignored(fields[index as int].attrs),
                index + 1,
            ) {
                Ok(rest) => Ok(seq![parser] + rest),
                Err(e) => Err(e),
            },
        }
    }
}

/// The parsers `rest` behind the parsers `done`.
pub open spec fn spec_parsers_after(
    done: Seq<SpecFieldParser>,
    rest: Result<Seq<SpecFieldParser>, BuildError>,
) -> Result<Seq<SpecFieldParser>, BuildError> {
    match rest {
        Ok(rest) => Ok(done + rest),
        Err(e) => Err(e),
    }
}

/// The parsers of the fields `fields` of a struct or of a variant. The
/// first field of a variant is read behind the separator too, as the
/// selector stands before it (`preceded`).
pub open spec fn spec_from_fields(fields: SpecFields, config: SpecConfig, preceded: bool) -> Result<
    SpecStructParser,
    BuildError,
> {
    match spec_field_parsers(fields.fields, config, !preceded, 0) {
        Ok(parsers) => Ok(
            SpecStructParser {
                empty: fields.kind is Unit,
                unnamed: fields.kind is Unnamed,
                parsers,
            },
        ),
        Err(e) => Err(e),
    }
}

/// Directives that may all stand on a field put nothing before or after a
/// parser.
pub proof fn lemma_field_directives_are_no_hooks(attrs: Seq<SpecMetaAttribute>, config: SpecConfig)
    requires
        forall|k: int| 0 <= k < attrs.len() ==> (#[trigger] attrs[k]).kind.spec_is_field_level(),
    ensures
        spec_pre_exec(attrs, config) == Seq::<char>::empty(),
        spec_post_exec(attrs, config) == Seq::<char>::empty(),
    decreases attrs.len(),
{
    if attrs.len() > 0 {
        let head = attrs.drop_last();
        assert forall|k: int| 0 <= k < head.len() implies (#[trigger] head[k]).kind
            .spec_is_field_level() by {
            assert(head[k] == attrs[k]);
        }
        lemma_field_directives_are_no_hooks(head, config);
        assert(attrs.last() == attrs[attrs.len() - 1]);
        assert(Seq::<char>::empty() + Seq::<char>::empty() == Seq::<char>::empty());
    }
}

/// Hooks stand on types and on variants only: the parser of a field has
/// none.
pub proof fn lemma_field_parser_has_no_hooks(
    field: SpecField,
    index: nat,
    config: SpecConfig,
    first_field: bool,
)
    ensures
        spec_field_parser(field, index, config, first_field) matches Ok(parser)
            ==> parser.pre_exec is None && parser.post_exec is None,
{
    if first_fault(Placement::Field, field.attrs) is None {
        crate::meta::lemma_first_fault_from(Placement::Field, field.attrs, 0);
        let attrs = field.attrs;
        assert forall|k: int| 0 <= k < attrs.len() implies (#[trigger] attrs[k]).kind
            .spec_is_field_level() by {
            assert(crate::meta::fault_at(Placement::Field, attrs, k) is None);
        }
        lemma_field_directives_are_no_hooks(attrs, config);
    }
}

/// Whether one of the directives `attributes` is `ignore`.
fn has_ignore(attributes: &Vec<MetaAttribute>) -> (r: bool)
    ensures
        r == is_ignored(attributes.deep_view()),
{
    let ghost attrs = attributes.deep_view();
    let mut k: usize = 0;
    while k < attributes.len()
        invariant
            k <= attributes.len(),
            attrs == attributes.deep_view(),
            forall|j: int| 0 <= j < k ==> !((#[trigger] attrs[j]).kind is Ignore),
        decreases attributes.len() - k,
    {
        assert(attrs[k as int] == attributes@[k as int]@);
        match attributes[k].kind {
            MetaAttributeType::Ignore => {
                return true;
            },
            _ => {},
        }
        k += 1;
    }
    false
}

impl StructParser {
    /// Puts together the parser of `field`, the field of index `index`.
    fn field_parser(field: &Field, index: usize, config: &Config, first_field: bool) -> (r: Result<
        FieldParser,
        BuildError,
    >)
        ensures
            match r {
                Ok(parser) => spec_field_parser(
                    field.deep_view(),
                    index as nat,
                    config@,
                    first_field,
                ) == Ok::<SpecFieldParser, BuildError>(parser.deep_view()),
                Err(e) => spec_field_parser(field.deep_view(), index as nat, config@, first_field)
                    == Err::<SpecFieldParser, BuildError>(e),
            },
    {
        let variable_name = match &field.ident {
            Some(ident) => ident.clone(),
            None => {
                let number = decimal_text(index);
                String::from_str("_nmea_unnamed_").concat(number.as_str())
            },
        };
        let attributes = match parse_field_level_attributes(&field.attrs) {
            Ok(attributes) => attributes,
            Err(e) => {
                return Err(e);
            },
        };
        let ignore = has_ignore(&attributes);
        let separator = if !first_field && !ignore {
            Some(config.separator.clone())
        } else {
            None
        };
        let parser = match Self::get_parser(&field.ty, &attributes, separator) {
            Ok(parser) => parser,
            Err(e) => {
                return Err(e);
            },
        };
        match pre_post_exec(&attributes, config) {
            Ok((pre_exec, post_exec)) => Ok(
                FieldParser { variable_name, parser, pre_exec, post_exec },
            ),
            Err(e) => Err(e),
        }
    }

    /// Puts together the parsers of the fields `fields` of a struct or of a
    /// variant. Each field but the first one that is read is read behind the
    /// separator of `config`; with `preceded` the first one is too.
    pub fn from_fields(fields: &Fields, config: &Config, preceded: bool) -> (r: Result<
        Self,
        BuildError,
    >)
        ensures
            match r {
                Ok(parser) => spec_from_fields(fields.deep_view(), config@, preceded) == Ok::<
                    SpecStructParser,
                    BuildError,
                >(parser.deep_view()),
                Err(e) => spec_from_fields(fields.deep_view(), config@, preceded) == Err::<
                    SpecStructParser,
                    BuildError,
                >(e),
            },
    {
        let ghost all = fields.deep_view().fields;
        let (empty, unnamed) = match fields.kind {
            FieldsKind::Named => (false, false),
            FieldsKind::Unnamed => (false, true),
            FieldsKind::Unit => (true, false),
        };
        let mut first_field = !preceded;
        let mut parsers: Vec<FieldParser> = Vec::new();
        let mut index: usize = 0;
        while index < fields.fields.len()
            invariant
                index <= fields.fields.len(),
                all == fields.deep_view().fields,
                all.len() == fields.fields.len(),
                spec_field_parsers(all, config@, !preceded, 0) == spec_parsers_after(
                    parsers.deep_view(),
                    spec_field_parsers(all, config@, first_field, index as nat),
                ),
            decreases fields.fields.len() - index,
        {
            let field = &fields.fields[index];
            let parser = match Self::field_parser(field, index, config, first_field) {
                Ok(parser) => parser,
                Err(e) => {
                    return Err(e);
                },
            };
            let ignore = has_ignore(&field.attrs);
            let ghost done = parsers.deep_view();
            parsers.push(parser);
            proof {
                assert forall|rest: Seq<SpecFieldParser>|
                    done + (seq![parser.deep_view()] + rest) == #[trigger] (parsers.deep_view()
                        + rest) by {}
            }
            if first_field && !ignore {
                first_field = false;
            }
            index += 1;
        }
        Ok(StructParser { empty, unnamed, parsers })
    }

    /// A copy of these parsers.
    pub fn duplicate(&self) -> (r: Self)
        ensures
            r.deep_view() == self.deep_view(),
    {
        let mut parsers: Vec<FieldParser> = Vec::new();
        let mut k: usize = 0;
        while k < self.parsers.len()
            invariant
                k <= self.parsers.len(),
                parsers.len() == k,
                forall|j: int|
                    0 <= j < k ==> parsers@[j].deep_view() == self.parsers@[j].deep_view(),
            decreases self.parsers.len() - k,
        {
            parsers.push(self.parsers[k].duplicate());
            k += 1;
        }
        assert(parsers.deep_view() =~= self.parsers.deep_view());
        StructParser { empty: self.empty, unnamed: self.unnamed, parsers }
    }
}

} // verus!
