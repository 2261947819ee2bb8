//! The parser of one variant of an enum.

use crate::build_error::{BuildError, BuildErrorKind, Span};
use crate::config::{Config, SpecConfig};
use crate::generate::hooks::{non_empty, pre_post_exec, spec_post_exec, spec_pre_exec};
use crate::generate::structs::parser::{spec_from_fields, SpecStructParser, StructParser};
use crate::input::{SpecVariant, Variant};
use crate::meta::{
    all_wf, first_fault, optional_text, parse_variant_level_attributes, MetaAttribute,
    MetaAttributeType, Placement, SpecMetaAttribute,
};
use vstd::prelude::*;

verus! {

/// The parser of one variant: the pattern that selects it, the statements
/// to run before and after, and the parsers of its fields.
#[derive(Debug)]
pub struct VariantParser {
    /// The name of the variant.
    pub name: String,
    /// The pattern that selects the variant; `_` selects it where no other
    /// variant is selected.
    pub selector: String,
    /// Where the pattern is written.
    pub selector_span: Span,
    /// The statements to run before the fields are read.
    pub pre_exec: Option<String>,
    /// The statements to run after the fields are read.
    pub post_exec: Option<String>,
    /// The parsers of the fields.
    pub struct_parser: StructParser,
}

/// The parser of one variant as contracts speak of it.
pub struct SpecVariantParser {
    /// The name of the variant.
    pub name: Seq<char>,
    /// The pattern that selects the variant.
    pub selector: Seq<char>,
    /// Where the pattern is written.
    pub selector_span: Span,
    /// The statements to run before the fields are read.
    pub pre_exec: Option<Seq<char>>,
    /// The statements to run after the fields are read.
    pub post_exec: Option<Seq<char>>,
    /// The parsers of the fields.
    pub struct_parser: SpecStructParser,
}

impl DeepView for VariantParser {
    type V = SpecVariantParser;

    open spec fn deep_view(&self) -> SpecVariantParser {
        SpecVariantParser {
            name: self.name@,
            selector: self.selector@,
            selector_span: self.selector_span,
            pre_exec: optional_text(self.pre_exec),
            post_exec: optional_text(self.post_exec),
            struct_parser: self.struct_parser.deep_view(),
        }
    }
}

/// The first `selector` of `attrs` at or after index `from`: its argument
/// and the place it is written at.
pub open spec fn first_selector_from(attrs: Seq<SpecMetaAttribute>, from: int) -> Option<
    (Seq<char>, Span),
>
    decreases attrs.len() - from,
{
    if from < 0 || from >= attrs.len() {
        None
    } else if attrs[from].kind is Selector {
        Some((attrs[from].arg->0, attrs[from].span))
    } else {
        first_selector_from(attrs, from + 1)
    }
}

/// What is made of the variant `variant`: its directives are checked as
/// those of a variant; it must have a `selector`; then the parsers of its
/// fields are put together, the first one behind the separator as well. The
/// first fault in this order fails the whole.
pub open spec fn spec_from_variant(variant: SpecVariant, config: SpecConfig) -> Result<
    SpecVariantParser,
    BuildError,
> {
    match first_fault(Placement::Variant, variant.attrs) {
        Some(e) => Err(e),
        None => match first_selector_from(variant.attrs, 0) {
            None => Err(
                BuildError { kind: BuildErrorKind::VariantWithoutSelector, span: variant.span },
            ),
            Some((selector, selector_span)) => match spec_from_fields(
                variant.fields,
                config,
                true,
            ) {
                Err(e) => Err(e),
                Ok(struct_parser) => Ok(
                    SpecVariantParser {
                        name: variant.ident,
                        selector,
                        selector_span,
                        pre_exec: non_empty(spec_pre_exec(variant.attrs, config)),
                        post_exec: non_empty(spec_post_exec(variant.attrs, config)),
                        struct_parser,
                    },
                ),
            },
        },
    }
}

/// Finds the first `selector` of `attributes`.
fn find_selector(attributes: &Vec<MetaAttribute>) -> (r: Option<(String, Span)>)
    requires
        all_wf(attributes.deep_view()),
    ensures
        match r {
            Some((selector, span)) => first_selector_from(attributes.deep_view(), 0) == Some(
                (selector@, span),
            ),
            None => first_selector_from(attributes.deep_view(), 0) is None,
        },
{
    let ghost attrs = attributes.deep_view();
    let mut k: usize = 0;
    while k < attributes.len()
        invariant
            k <= attributes.len(),
            attrs == attributes.deep_view(),
            all_wf(attrs),
            first_selector_from(attrs, 0) == first_selector_from(attrs, k as int),
        decreases attributes.len() - k,
    {
        let attribute = &attributes[k];
        match attribute.kind {
            MetaAttributeType::Selector => {
                match attribute.arg() {
                    Some(arg) => {
                        return Some((arg.clone(), attribute.span));
                    },
                    None => {},
                }
            },
            _ => {},
        }
        k += 1;
    }
    None
}

impl VariantParser {
    /// Puts together the parser of the variant `variant`.
    pub fn from_variant(variant: &Variant, config: &Config) -> (r: Result<Self, BuildError>)
        ensures
            match r {
                Ok(parser) => spec_from_variant(variant.deep_view(), config@) == Ok::<
                    SpecVariantParser,
                    BuildError,
                >(parser.deep_view()),
                Err(e) => spec_from_variant(variant.deep_view(), config@) == Err::<
                    SpecVariantParser,
                    BuildError,
                >(e),
            },
    {
        let attributes = match parse_variant_level_attributes(&variant.attrs) {
            Ok(attributes) => attributes,
            Err(e) => {
                return Err(e);
            },
        };
        let (selector, selector_span) = match find_selector(&attributes) {
            Some(found) => found,
            None => {
                return Err(BuildError::new(BuildErrorKind::VariantWithoutSelector, variant.span));
            },
        };
        let struct_parser = match StructParser::from_fields(&variant.fields, config, true) {
            Ok(struct_parser) => struct_parser,
            Err(e) => {
                return Err(e);
            },
        };
        match pre_post_exec(&attributes, config) {
            Ok((pre_exec, post_exec)) => Ok(
                VariantParser {
                    name: variant.ident.clone(),
                    selector,
                    selector_span,
                    pre_exec,
                    post_exec,
                    struct_parser,
                },
            ),
            Err(e) => Err(e),
        }
    }
}

} // verus!
