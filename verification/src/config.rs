//! The settings that the parser of one type is generated with.

use crate::meta::{
    all_wf, check_arguments, first_missing, MetaAttribute, MetaAttributeType, SpecMetaAttribute,
};
use vstd::prelude::*;
use vstd::string::StringExecFns;

verus! {

/// The settings of the generated parser of one type: the names it uses, and
/// what the type's own directives say of the selector, of the error where no
/// variant is selected, and of the separator.
///
/// `S` is the type of a text: `String` in a program, `Seq<char>` in a
/// contract.
#[derive(Debug)]
pub struct Config<S = String> {
    /// The name of the variable that holds the input left to parse.
    pub input_name: S,
    /// The name of the variable that holds the selector of an enum.
    pub selector_name: S,
    /// The parser of the selector, where the type has a `selector`.
    pub selector_parser: Option<S>,
    /// The error where no variant is selected, where the type has a
    /// `selection_error`.
    pub selection_error: Option<S>,
    /// The name of the error type.
    pub error_type: S,
    /// The lifetime of the input.
    pub lifetime: S,
    /// The separator of the fields: a byte.
    pub separator: S,
}

/// The settings of a generated parser as contracts speak of them.
pub type SpecConfig = Config<Seq<char>>;

impl View for Config<String> {
    type V = SpecConfig;

    open spec fn view(&self) -> SpecConfig {
        Config {
            input_name: self.input_name@,
            selector_name: self.selector_name@,
            selector_parser: crate::meta::optional_text(self.selector_parser),
            selection_error: crate::meta::optional_text(self.selection_error),
            error_type: self.error_type@,
            lifetime: self.lifetime@,
            separator: self.separator@,
        }
    }
}

/// The argument of the last directive of kind `kind` in `attrs`.
pub open spec fn last_arg(attrs: Seq<SpecMetaAttribute>, kind: MetaAttributeType) -> Option<
    Seq<char>,
>
    decreases attrs.len(),
{
    if attrs.len() == 0 {
        None
    } else if attrs.last().kind == kind {
        attrs.last().arg
    } else {
        last_arg(attrs.drop_last(), kind)
    }
}

/// The settings that the directives `attrs` of a type ask for: the standard
/// names, the selector and the selection error of the last directive of
/// each kind, and the separator of the last `separator` directive, a comma
/// where there is none.
pub open spec fn spec_config(attrs: Seq<SpecMetaAttribute>) -> SpecConfig {
    Config {
        input_name: "nmea_input"@,
        selector_name: "nmea_selector"@,
        selector_parser: last_arg(attrs, MetaAttributeType::Selector),
        selection_error: last_arg(attrs, MetaAttributeType::SelectionError),
        error_type: "NmeaError"@,
        lifetime: "'nmea"@,
        separator: match last_arg(attrs, MetaAttributeType::Separator) {
            Some(separator) => separator,
            None => "b','"@,
        },
    }
}

/// A copy of the optional text `text`.
pub fn copy_optional(text: &Option<String>) -> (r: Option<String>)
    ensures
        crate::meta::optional_text(r) == crate::meta::optional_text(*text),
{
    match text {
        Some(t) => Some(t.clone()),
        None => None,
    }
}

impl Config<String> {
    /// The settings that the directives `attribute_list` of a type ask for.
    /// A directive that lacks its argument is a fault.
    pub fn from_meta_attributes(attribute_list: &Vec<MetaAttribute>) -> (r: Result<
        Self,
        crate::build_error::BuildError,
    >)
        ensures
            match first_missing(attribute_list.deep_view()) {
                Some(e) => r == Err::<Self, crate::build_error::BuildError>(e),
                None => r matches Ok(config) && config@ == spec_config(
                    attribute_list.deep_view(),
                ),
            },
    {
        match check_arguments(attribute_list) {
            Ok(_) => {},
            Err(e) => {
                return Err(e);
            },
        }
        let ghost attrs = attribute_list.deep_view();
        let mut selector_parser: Option<String> = None;
        let mut separator: Option<String> = None;
        let mut selection_error: Option<String> = None;
        let mut k: usize = 0;
        while k < attribute_list.len()
            invariant
                k <= attribute_list.len(),
                attrs == attribute_list.deep_view(),
                all_wf(attrs),
                crate::meta::optional_text(selector_parser) == last_arg(
                    attrs.take(k as int),
                    MetaAttributeType::Selector,
                ),
                crate::meta::optional_text(separator) == last_arg(
                    attrs.take(k as int),
                    MetaAttributeType::Separator,
                ),
                crate::meta::optional_text(selection_error) == last_arg(
                    attrs.take(k as int),
                    MetaAttributeType::SelectionError,
                ),
            decreases attribute_list.len() - k,
        {
            let meta = &attribute_list[k];
            proof {
                let next = attrs.take(k + 1);
                assert(next.drop_last() == attrs.take(k as int));
            }
            match meta.kind {
                MetaAttributeType::Selector => {
                    selector_parser = copy_optional(&meta.arg);
                },
                MetaAttributeType::Separator => {
                    separator = copy_optional(&meta.arg);
                },
                MetaAttributeType::SelectionError => {
                    selection_error = copy_optional(&meta.arg);
                },
                _ => {},
            }
            k += 1;
        }
        assert(attrs.take(k as int) == attrs);
        Ok(
            Config {
                input_name: String::from_str("nmea_input"),
                selector_name: String::from_str("nmea_selector"),
                selector_parser,
                selection_error,
                error_type: String::from_str("NmeaError"),
                lifetime: String::from_str("'nmea"),
                separator: match separator {
                    Some(separator) => separator,
                    None => String::from_str("b','"),
                },
            },
        )
    }

    /// A copy of these settings.
    pub fn duplicate(&self) -> (r: Self)
        ensures
            r@ == self@,
    {
        Config {
            input_name: self.input_name.clone(),
            selector_name: self.selector_name.clone(),
            selector_parser: copy_optional(&self.selector_parser),
            selection_error: copy_optional(&self.selection_error),
            error_type: self.error_type.clone(),
            lifetime: self.lifetime.clone(),
            separator: self.separator.clone(),
        }
    }
}

} // verus!
