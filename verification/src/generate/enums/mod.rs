//! The generated parser of an enum.

pub mod parser;

use crate::build_error::{BuildError, BuildErrorKind, Span};
use crate::config::{spec_config, Config, SpecConfig};
use crate::generate::enums::parser::{spec_from_variant, SpecVariantParser, VariantParser};
use crate::generate::hooks::{non_empty, pre_post_exec, spec_post_exec, spec_pre_exec};
use crate::generate::structs::{
    push_optional, spec_struct_body, spec_use_trait, struct_body, text_or_empty,
};
use crate::generate::{source_is, Generator};
use crate::input::{Generics, SpecGenerics, SpecVariant, Variant};
use crate::meta::{
    first_fault, optional_text, parse_top_level_attributes, same_text, MetaAttribute,
    MetaAttributeType, Placement, SpecMetaAttribute,
};
use crate::text::{concat_all, spec_concat_all};
use vstd::prelude::*;
use vstd::string::StringExecFns;

verus! {

/// All that the generated parser of an enum is made of.
#[derive(Debug)]
pub struct Enum {
    /// The name of the enum.
    pub name: String,
    /// Where the name is written.
    pub span: Span,
    /// The settings of the generated parser.
    pub config: Config,
    /// The generics of the enum.
    pub generics: Generics,
    /// The statements to run before the selector is read.
    pub pre_exec: Option<String>,
    /// The statements to run after the selected variant is read.
    pub post_exec: Option<String>,
    /// The parsers of the variants, in the order of the variants.
    pub variant_parsers: Vec<VariantParser>,
}

/// The generated parser of an enum as contracts speak of it.
pub struct SpecEnum {
    /// The name of the enum.
    pub name: Seq<char>,
    /// Where the name is written.
    pub span: Span,
    /// The settings of the generated parser.
    pub config: SpecConfig,
    /// The generics of the enum.
    pub generics: SpecGenerics,
    /// The statements to run before the selector is read.
    pub pre_exec: Option<Seq<char>>,
    /// The statements to run after the selected variant is read.
    pub post_exec: Option<Seq<char>>,
    /// The parsers of the variants, in the order of the variants.
    pub variant_parsers: Seq<SpecVariantParser>,
}

impl DeepView for Enum {
    type V = SpecEnum;

    open spec fn deep_view(&self) -> SpecEnum {
        SpecEnum {
            name: self.name@,
            span: self.span,
            config: self.config@,
            generics: self.generics.deep_view(),
            pre_exec: optional_text(self.pre_exec),
            post_exec: optional_text(self.post_exec),
            variant_parsers: self.variant_parsers.deep_view(),
        }
    }
}

// ---------------------------------------------------------------------------
// Putting an enum together
// ---------------------------------------------------------------------------

/// The place of the first `separator` of `attrs` at or after index `from`.
pub open spec fn first_separator_from(attrs: Seq<SpecMetaAttribute>, from: int) -> Option<Span>
    decreases attrs.len() - from,
{
    if from < 0 || from >= attrs.len() {
        None
    } else if attrs[from].kind is Separator {
        Some(attrs[from].span)
    } else {
        first_separator_from(attrs, from + 1)
    }
}

/// The parsers of the variants `variants` from index `index` on: the first
/// fault met, variant by variant, fails the whole.
pub open spec fn spec_variant_parsers(
    variants: Seq<SpecVariant>,
    config: SpecConfig,
    index: nat,
) -> Result<Seq<SpecVariantParser>, BuildError>
    decreases variants.len() - index,
{
    if index >= variants.len() {
        Ok(Seq::<SpecVariantParser>::empty())
    } else {
        match spec_from_variant(variants[index as int], config) {
            Err(e) => Err(e),
            Ok(parser) => match spec_variant_parsers(variants, config, index + 1) {
                Ok(rest) => Ok(seq![parser] + rest),
                Err(e) => Err(e),
            },
        }
    }
}

/// The parsers `rest` behind the parsers `done`.
pub open spec fn spec_variants_after(
    done: Seq<SpecVariantParser>,
    rest: Result<Seq<SpecVariantParser>, BuildError>,
) -> Result<Seq<SpecVariantParser>, BuildError> {
    match rest {
        Ok(rest) => Ok(done + rest),
        Err(e) => Err(e),
    }
}

/// Whether the variant of `parser` is the default: its pattern is `_`.
pub open spec fn is_default(parser: SpecVariantParser) -> bool {
    parser.selector == "_"@
}

/// The index of the first default variant of `variants` at or after `from`.
pub open spec fn first_default_from(variants: Seq<SpecVariantParser>, from: int) -> Option<int>
    decreases variants.len() - from,
{
    if from < 0 || from >= variants.len() {
        None
    } else if is_default(variants[from]) {
        Some(from)
    } else {
        first_default_from(variants, from + 1)
    }
}

/// What is wrong with the order of the variants `variants`: the first
/// default variant is not the last variant.
pub open spec fn default_fault(variants: Seq<SpecVariantParser>) -> Option<BuildError> {
    match first_default_from(variants, 0) {
        Some(k) => if k != variants.len() - 1 {
            Some(
                BuildError {
                    kind: BuildErrorKind::DefaultNotLast,
                    span: variants[k].selector_span,
                },
            )
        } else {
            None
        },
        None => None,
    }
}

/// What is made of an enum named `name` (written at `span`) with the
/// variants `variants`, the directives `attrs` and the generics `generics`.
/// The directives are checked as those of a type; the enum must have a
/// `selector` and may have no `separator`; then the parsers of the variants
/// are put together; at last, a default variant must be the last one. The
/// first fault in this order fails the whole.
pub open spec fn spec_from_dataenum(
    name: Seq<char>,
    span: Span,
    variants: Seq<SpecVariant>,
    attrs: Seq<SpecMetaAttribute>,
    generics: SpecGenerics,
) -> Result<SpecEnum, BuildError> {
    match first_fault(Placement::Type, attrs) {
        Some(e) => Err(e),
        None => {
            let config = spec_config(attrs);
            if config.selector_parser is None {
                Err(BuildError { kind: BuildErrorKind::EnumWithoutSelector, span })
            } else {
                match first_separator_from(attrs, 0) {
                    Some(at) => Err(BuildError { kind: BuildErrorKind::EnumSeparator, span: at }),
                    None => match spec_variant_parsers(variants, config, 0) {
                        Err(e) => Err(e),
                        Ok(variant_parsers) => match default_fault(variant_parsers) {
                            Some(e) => Err(e),
                            None => Ok(
                                SpecEnum {
                                    name,
                                    span,
                                    config,
                                    generics,
                                    pre_exec: non_empty(spec_pre_exec(attrs, config)),
                                    post_exec: non_empty(spec_post_exec(attrs, config)),
                                    variant_parsers,
                                },
                            ),
                        },
                    },
                }
            }
        },
    }
}

/// `first_default_from` finds the default variant of lowest index at or
/// after `from`, and finds none only where there is none.
pub proof fn lemma_first_default_from(variants: Seq<SpecVariantParser>, from: int)
    requires
        0 <= from,
    ensures
        match first_default_from(variants, from) {
            Some(k) => from <= k < variants.len() && is_default(variants[k]) && forall|j: int|
                from <= j < k ==> !is_default(variants[j]),
            None => forall|j: int| from <= j < variants.len() ==> !is_default(variants[j]),
        },
    decreases variants.len() - from,
{
    if from < variants.len() && !is_default(variants[from]) {
        lemma_first_default_from(variants, from + 1);
    }
}

/// Default-arm ordering: the order of the variants is at fault exactly
/// where a default variant stands before another variant.
pub proof fn lemma_default_arm_order(variants: Seq<SpecVariantParser>)
    ensures
        default_fault(variants) is Some <==> exists|k: int|
            0 <= k < variants.len() - 1 && is_default(#[trigger] variants[k]),
{
    lemma_first_default_from(variants, 0);
}

/// Finds the first `separator` of `attributes`.
fn find_separator(attributes: &Vec<MetaAttribute>) -> (r: Option<Span>)
    ensures
        r == first_separator_from(attributes.deep_view(), 0),
{
    let ghost attrs = attributes.deep_view();
    let mut k: usize = 0;
    while k < attributes.len()
        invariant
            k <= attributes.len(),
            attrs == attributes.deep_view(),
            first_separator_from(attrs, 0) == first_separator_from(attrs, k as int),
        decreases attributes.len() - k,
    {
        let attribute = &attributes[k];
        match attribute.kind {
            MetaAttributeType::Separator => {
                return Some(attribute.span);
            },
            _ => {},
        }
        k += 1;
    }
    None
}

/// Finds the first default variant of `variants`.
fn find_default(variants: &Vec<VariantParser>) -> (r: Option<usize>)
    ensures
        match r {
            Some(k) => k < variants.len() && first_default_from(variants.deep_view(), 0) == Some(
                k as int,
            ),
            None => first_default_from(variants.deep_view(), 0) is None,
        },
{
    let ghost all = variants.deep_view();
    let mut k: usize = 0;
    while k < variants.len()
        invariant
            k <= variants.len(),
            all == variants.deep_view(),
            first_default_from(all, 0) == first_default_from(all, k as int),
        decreases variants.len() - k,
    {
        if same_text(variants[k].selector.as_str(), "_") {
            return Some(k);
        }
        k += 1;
    }
    None
}

/// Checks that a default variant of `variants` is the last one.
pub fn check_default_last(variants: &Vec<VariantParser>) -> (r: Result<bool, BuildError>)
    ensures
        match r {
            Ok(handled) => default_fault(variants.deep_view()) is None && handled
                == first_default_from(variants.deep_view(), 0).is_some(),
            Err(e) => default_fault(variants.deep_view()) == Some(e),
        },
{
    match find_default(variants) {
        Some(k) => {
            if k != variants.len() - 1 {
                Err(BuildError::new(BuildErrorKind::DefaultNotLast, variants[k].selector_span))
            } else {
                Ok(true)
            }
        },
        None => Ok(false),
    }
}

/// Puts together the parsers of the variants `variants`.
fn variant_parsers(variants: &Vec<Variant>, config: &Config) -> (r: Result<
    Vec<VariantParser>,
    BuildError,
>)
    ensures
        match r {
            Ok(parsers) => spec_variant_parsers(variants.deep_view(), config@, 0) == Ok::<
                Seq<SpecVariantParser>,
                BuildError,
            >(parsers.deep_view()),
            Err(e) => spec_variant_parsers(variants.deep_view(), config@, 0) == Err::<
                Seq<SpecVariantParser>,
                BuildError,
            >(e),
        },
{
    let ghost all = variants.deep_view();
    let mut parsers: Vec<VariantParser> = Vec::new();
    let mut index: usize = 0;
    while index < variants.len()
        invariant
            index <= variants.len(),
            all == variants.deep_view(),
            all.len() == variants.len(),
            spec_variant_parsers(all, config@, 0) == spec_variants_after(
                parsers.deep_view(),
                spec_variant_parsers(all, config@, index as nat),
            ),
        decreases variants.len() - index,
    {
        let variant = &variants[index];
        let parser = match VariantParser::from_variant(variant, config) {
            Ok(parser) => parser,
            Err(e) => {
                return Err(e);
            },
        };
        let ghost done = parsers.deep_view();
        parsers.push(parser);
        proof {
            assert forall|rest: Seq<SpecVariantParser>|
                done + (seq![parser.deep_view()] + rest) == #[trigger] (parsers.deep_view()
                    + rest) by {}
        }
        index += 1;
    }
    Ok(parsers)
}

// ---------------------------------------------------------------------------
// The source of the parser
// ---------------------------------------------------------------------------

/// The arm of the variant of `parser`: its pattern, and in braces what comes
/// before, the fields of the variant, what comes after, and the result.
pub open spec fn spec_arm(enum_name: Seq<char>, config: SpecConfig, parser: SpecVariantParser) -> Seq<
    char,
> {
    parser.selector + " => { "@ + text_or_empty(parser.pre_exec) + "let ("@ + config.input_name
        + ", struct_def) = { "@ + spec_struct_body(
        enum_name + "::"@ + parser.name,
        config,
        None,
        None,
        parser.struct_parser,
        false,
    ) + " }?; "@ + text_or_empty(parser.post_exec) + "Ok(("@ + config.input_name
        + ", struct_def)) }"@
}

/// The arms of the variants `variants`, in their order.
pub open spec fn spec_arms(
    enum_name: Seq<char>,
    config: SpecConfig,
    variants: Seq<SpecVariantParser>,
) -> Seq<Seq<char>> {
    Seq::new(variants.len(), |k: int| spec_arm(enum_name, config, variants[k]))
}

/// The arm for a selector that selects no variant: none where a default
/// variant takes it; else the error of `selection_error` where the enum has
/// one, and a failure of kind `Switch` where it has none.
pub open spec fn spec_default_arm(config: SpecConfig, handled: bool) -> Seq<char> {
    if handled {
        Seq::<char>::empty()
    } else {
        match config.selection_error {
            Some(error) => "_ => Err("@ + error + ")"@,
            None => "_ => Err(nmea0183_parser::error::make_error("@ + config.input_name
                + ", nmea0183_parser::ErrorKind::Switch))"@,
        }
    }
}

/// The body of the parser of an enum: what comes before, the selector, the
/// choice of the variant by the selector, first arm first, what comes after,
/// and the result. An enum without a parser for its selector has none, nor
/// has one whose default variant is not the last.
pub open spec fn spec_enum_body(e: SpecEnum, use_trait: bool) -> Result<Seq<char>, BuildError> {
    if e.config.selector_parser is None {
        Err(BuildError { kind: BuildErrorKind::EnumWithoutSelector, span: e.span })
    } else {
        spec_enum_body_with_selector(e, use_trait)
    }
}

/// The body of the parser of an enum that has a parser for its selector.
pub open spec fn spec_enum_body_with_selector(e: SpecEnum, use_trait: bool) -> Result<
    Seq<char>,
    BuildError,
> {
    match default_fault(e.variant_parsers) {
        Some(fault) => Err(fault),
        None => Ok(
            spec_use_trait(use_trait) + text_or_empty(e.pre_exec) + "let ("@ + e.config.input_name
                + ", "@ + e.config.selector_name + ") = ("@ + e.config.selector_parser->0 + ")("@
                + e.config.input_name + ")?; let ("@ + e.config.input_name
                + ", enum_def) = match "@ + e.config.selector_name + " { "@ + spec_concat_all(
                spec_arms(e.name, e.config, e.variant_parsers),
                " "@,
            ) + spec_default_arm(
                e.config,
                first_default_from(e.variant_parsers, 0).is_some(),
            ) + " }?; "@ + text_or_empty(e.post_exec) + "Ok(("@ + e.config.input_name
                + ", enum_def))"@,
        ),
    }
}

/// Writes the arm of the variant of `parser`.
fn arm(enum_name: &str, config: &Config, parser: &VariantParser) -> (r: String)
    ensures
        r@ == spec_arm(enum_name@, config@, parser.deep_view()),
{
    let name = String::from_str(enum_name).concat("::").concat(parser.name.as_str());
    let none: Option<String> = None;
    let body = struct_body(name.as_str(), config, &none, &none, &parser.struct_parser, false);
    let head = String::from_str(parser.selector.as_str()).concat(" => { ");
    let head = push_optional(head, &parser.pre_exec);
    let head = head.concat("let (").concat(config.input_name.as_str()).concat(
        ", struct_def) = { ",
    ).concat(body.as_str()).concat(" }?; ");
    let head = push_optional(head, &parser.post_exec);
    head.concat("Ok((").concat(config.input_name.as_str()).concat(", struct_def)) }")
}

impl Enum {
    /// Puts together what the generated parser of the enum named `name` is
    /// made of, from its variants, its directives and its generics.
    pub fn from_dataenum(
        name: &str,
        span: Span,
        dataenum: &Vec<Variant>,
        attributes: &Vec<MetaAttribute>,
        generics: &Generics,
    ) -> (r: Result<Self, BuildError>)
        ensures
            match r {
                Ok(e) => spec_from_dataenum(
                    name@,
                    span,
                    dataenum.deep_view(),
                    attributes.deep_view(),
                    generics.deep_view(),
                ) == Ok::<SpecEnum, BuildError>(e.deep_view()),
                Err(e) => spec_from_dataenum(
                    name@,
                    span,
                    dataenum.deep_view(),
                    attributes.deep_view(),
                    generics.deep_view(),
                ) == Err::<SpecEnum, BuildError>(e),
            },
            r matches Ok(e) ==> e.deep_view().config.selector_parser is Some,
    {
        let checked = match parse_top_level_attributes(attributes) {
            Ok(checked) => checked,
            Err(e) => {
                return Err(e);
            },
        };
        let config = match Config::from_meta_attributes(&checked) {
            Ok(config) => config,
            Err(e) => {
                return Err(e);
            },
        };
        if config.selector_parser.is_none() {
            return Err(BuildError::new(BuildErrorKind::EnumWithoutSelector, span));
        }
        match find_separator(&checked) {
            Some(at) => {
                return Err(BuildError::new(BuildErrorKind::EnumSeparator, at));
            },
            None => {},
        }
        let variant_parsers = match variant_parsers(dataenum, &config) {
            Ok(variant_parsers) => variant_parsers,
            Err(e) => {
                return Err(e);
            },
        };
        match check_default_last(&variant_parsers) {
            Ok(_) => {},
            Err(e) => {
                return Err(e);
            },
        }
        match pre_post_exec(&checked, &config) {
            Ok((pre_exec, post_exec)) => Ok(
                Enum {
                    name: String::from_str(name),
                    span,
                    config,
                    generics: generics.duplicate(),
                    pre_exec,
                    post_exec,
                    variant_parsers,
                },
            ),
            Err(e) => Err(e),
        }
    }

    /// Writes the arms of the variants, in their order, and says whether one
    /// of the variants is the default. A default variant that is not the
    /// last variant is a fault.
    pub fn generate_variants(&self) -> (r: Result<(bool, Vec<String>), BuildError>)
        ensures
            match r {
                Ok((handled, arms)) => default_fault(self.deep_view().variant_parsers) is None
                    && handled == first_default_from(self.deep_view().variant_parsers, 0).is_some()
                    && arms.deep_view() == spec_arms(
                    self.deep_view().name,
                    self.deep_view().config,
                    self.deep_view().variant_parsers,
                ),
                Err(e) => default_fault(self.deep_view().variant_parsers) == Some(e),
            },
    {
        let ghost all = self.variant_parsers.deep_view();
        let ghost expected = spec_arms(self.name@, self.config@, all);
        let mut arms: Vec<String> = Vec::new();
        let mut k: usize = 0;
        while k < self.variant_parsers.len()
            invariant
                k <= self.variant_parsers.len(),
                all == self.variant_parsers.deep_view(),
                all.len() == self.variant_parsers.len(),
                expected == spec_arms(self.name@, self.config@, all),
                arms.len() == k,
                forall|j: int| 0 <= j < k ==> arms@[j]@ == expected[j],
            decreases self.variant_parsers.len() - k,
        {
            let parser = &self.variant_parsers[k];
            arms.push(arm(self.name.as_str(), &self.config, parser));
            k += 1;
        }
        match check_default_last(&self.variant_parsers) {
            Ok(handled) => Ok((handled, arms)),
            Err(e) => Err(e),
        }
    }

    /// Writes the body of the parser of the enum.
    pub fn parse_body(&self, use_trait: bool) -> (r: Result<String, BuildError>)
        ensures
            source_is(r, spec_enum_body(self.deep_view(), use_trait)),
    {
        let selector_parser = match &self.config.selector_parser {
            Some(selector_parser) => selector_parser.as_str(),
            None => {
                return Err(BuildError::new(BuildErrorKind::EnumWithoutSelector, self.span));
            },
        };
        let (handled, arms) = match self.generate_variants() {
            Ok(generated) => generated,
            Err(e) => {
                return Err(e);
            },
        };
        let input = self.config.input_name.as_str();
        let selector = self.config.selector_name.as_str();
        let default_arm = if handled {
            String::new()
        } else {
            match &self.config.selection_error {
                Some(error) => String::from_str("_ => Err(").concat(error.as_str()).concat(")"),
                None => String::from_str("_ => Err(nmea0183_parser::error::make_error(").concat(
                    input,
                ).concat(", nmea0183_parser::ErrorKind::Switch))"),
            }
        };
        let all_arms = concat_all(&arms, " ");
        let body = if use_trait {
            String::from_str("use nmea0183_parser::NmeaParse; ")
        } else {
            String::new()
        };
        let body = push_optional(body, &self.pre_exec);
        let body = body.concat("let (").concat(input).concat(", ").concat(selector).concat(
            ") = (",
        ).concat(selector_parser).concat(")(").concat(input).concat(")?; let (").concat(
            input,
        ).concat(", enum_def) = match ").concat(selector).concat(" { ").concat(
            all_arms.as_str(),
        ).concat(default_arm.as_str()).concat(" }?; ");
        let body = push_optional(body, &self.post_exec);
        Ok(body.concat("Ok((").concat(input).concat(", enum_def))"))
    }
}

impl Generator for Enum {
    open spec fn spec_name(&self) -> Seq<char> {
        self.name@
    }

    open spec fn spec_settings(&self) -> SpecConfig {
        self.config@
    }

    open spec fn spec_generics(&self) -> SpecGenerics {
        self.generics.deep_view()
    }

    open spec fn spec_parse_body(&self, use_trait: bool) -> Result<Seq<char>, BuildError> {
        spec_enum_body(self.deep_view(), use_trait)
    }

    fn name(&self) -> (r: &String) {
        &self.name
    }

    fn config(&self) -> (r: &Config) {
        &self.config
    }

    fn generics(&self) -> (r: &Generics) {
        &self.generics
    }

    fn generate_parse_body(&self, use_trait: bool) -> (r: Result<String, BuildError>) {
        self.parse_body(use_trait)
    }
}

} // verus!
