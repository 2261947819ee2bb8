//! The statements that directives put before and after a parser.

use crate::build_error::BuildError;
use crate::config::{Config, SpecConfig};
use crate::meta::{
    all_wf, check_arguments, first_missing, MetaAttribute, MetaAttributeType, SpecMetaAttribute,
};
use vstd::prelude::*;
use vstd::string::StringExecFns;

verus! {

/// The statement that fails the generated parser with `Verify` where `cond`
/// holds.
pub open spec fn spec_error_if(cond: Seq<char>, config: SpecConfig) -> Seq<char> {
    "if "@ + cond + " { return Err(nmea0183_parser::error::make_error("@ + config.input_name
        + ", nmea0183_parser::ErrorKind::Verify)); }"@
}

/// Writes the statement that fails the generated parser with `Verify`
/// where `cond` holds.
pub fn get_error_if(cond: &str, config: &Config) -> (r: String)
    ensures
        r@ == spec_error_if(cond@, config@),
{
    String::from_str("if ").concat(cond).concat(
        " { return Err(nmea0183_parser::error::make_error(",
    ).concat(config.input_name.as_str()).concat(", nmea0183_parser::ErrorKind::Verify)); }")
}

/// The statement that skips `count` bytes of the input.
pub open spec fn spec_skip(count: Seq<char>, config: SpecConfig) -> Seq<char> {
    "let ("@ + config.input_name + ", _) = nmea0183_parser::parsing::take("@ + count
        + " as usize, "@ + config.input_name + ")?;"@
}

/// Writes the statement that skips `count` bytes of the input.
pub fn skip_statement(count: &str, config: &Config) -> (r: String)
    ensures
        r@ == spec_skip(count@, config@),
{
    String::from_str("let (").concat(config.input_name.as_str()).concat(
        ", _) = nmea0183_parser::parsing::take(",
    ).concat(count).concat(" as usize, ").concat(config.input_name.as_str()).concat(")?;")
}

/// The condition that input is left.
pub open spec fn spec_input_left(config: SpecConfig) -> Seq<char> {
    "!"@ + config.input_name + ".is_empty()"@
}

/// What the directive `a` puts before the parser: the statement of a
/// `pre_exec`, the skip of a `skip_before`, each followed by a blank;
/// nothing for any other directive.
pub open spec fn pre_text(a: SpecMetaAttribute, config: SpecConfig) -> Seq<char> {
    match a.kind {
        MetaAttributeType::PreExec => a.arg->0 + " "@,
        MetaAttributeType::SkipBefore => spec_skip(a.arg->0, config) + " "@,
        _ => Seq::<char>::empty(),
    }
}

/// What the directive `a` puts after the parser: for `exact` the check
/// that no input is left, the statement of a `post_exec`, the skip of a
/// `skip_after`, each followed by a blank; nothing for any other directive.
pub open spec fn post_text(a: SpecMetaAttribute, config: SpecConfig) -> Seq<char> {
    match a.kind {
        MetaAttributeType::Exact => spec_error_if(spec_input_left(config), config) + " "@,
        MetaAttributeType::PostExec => a.arg->0 + " "@,
        MetaAttributeType::SkipAfter => spec_skip(a.arg->0, config) + " "@,
        _ => Seq::<char>::empty(),
    }
}

/// What the directives `attrs` put before the parser, in their order.
pub open spec fn spec_pre_exec(attrs: Seq<SpecMetaAttribute>, config: SpecConfig) -> Seq<char>
    decreases attrs.len(),
{
    if attrs.len() == 0 {
        Seq::<char>::empty()
    } else {
        spec_pre_exec(attrs.drop_last(), config) + pre_text(attrs.last(), config)
    }
}

/// What the directives `attrs` put after the parser, in their order.
pub open spec fn spec_post_exec(attrs: Seq<SpecMetaAttribute>, config: SpecConfig) -> Seq<char>
    decreases attrs.len(),
{
    if attrs.len() == 0 {
        Seq::<char>::empty()
    } else {
        spec_post_exec(attrs.drop_last(), config) + post_text(attrs.last(), config)
    }
}

/// The text `text`, or nothing where it is empty.
pub open spec fn non_empty(text: Seq<char>) -> Option<Seq<char>> {
    if text.len() == 0 {
        None
    } else {
        Some(text)
    }
}

/// Gathers what the directives `attributes` put before and after the
/// parser of the type or field that they stand on: the statements of
/// `pre_exec` and `skip_before` before, those of `exact`, `post_exec` and
/// `skip_after` after, each side in the order written, and nothing for a
/// side that no directive speaks of. A directive that lacks its argument is a
/// fault.
pub fn pre_post_exec(attributes: &Vec<MetaAttribute>, config: &Config) -> (r: Result<
    (Option<String>, Option<String>),
    BuildError,
>)
    ensures
        match first_missing(attributes.deep_view()) {
            Some(e) => r == Err::<(Option<String>, Option<String>), BuildError>(e),
            None => r matches Ok((pre, post)) && crate::meta::optional_text(pre) == non_empty(
                spec_pre_exec(attributes.deep_view(), config@),
            ) && crate::meta::optional_text(post) == non_empty(
                spec_post_exec(attributes.deep_view(), config@),
            ),
        },
{
    match check_arguments(attributes) {
        Ok(_) => {},
        Err(e) => {
            return Err(e);
        },
    }
    let ghost attrs = attributes.deep_view();
    let mut pre_exec = String::new();
    let mut post_exec = String::new();
    let mut k: usize = 0;
    while k < attributes.len()
        invariant
            k <= attributes.len(),
            attrs == attributes.deep_view(),
            all_wf(attrs),
            pre_exec@ == spec_pre_exec(attrs.take(k as int), config@),
            post_exec@ == spec_post_exec(attrs.take(k as int), config@),
        decreases attributes.len() - k,
    {
        let attribute = &attributes[k];
        proof {
            let next = attrs.take(k + 1);
            assert(next.drop_last() == attrs.take(k as int));
        }
        match attribute.kind {
            MetaAttributeType::Exact => {
                let cond = String::from_str("!").concat(config.input_name.as_str()).concat(
                    ".is_empty()",
                );
                let check = get_error_if(cond.as_str(), config);
                post_exec = post_exec.concat(check.as_str()).concat(" ");
            },
            MetaAttributeType::PreExec => {
                match attribute.arg() {
                    Some(arg) => {
                        pre_exec = pre_exec.concat(arg.as_str()).concat(" ");
                    },
                    None => {},
                }
            },
            MetaAttributeType::PostExec => {
                match attribute.arg() {
                    Some(arg) => {
                        post_exec = post_exec.concat(arg.as_str()).concat(" ");
                    },
                    None => {},
                }
            },
            MetaAttributeType::SkipBefore => {
                match attribute.arg() {
                    Some(arg) => {
                        let skip = skip_statement(arg.as_str(), config);
                        pre_exec = pre_exec.concat(skip.as_str()).concat(" ");
                    },
                    None => {},
                }
            },
            MetaAttributeType::SkipAfter => {
                match attribute.arg() {
                    Some(arg) => {
                        let skip = skip_statement(arg.as_str(), config);
                        post_exec = post_exec.concat(skip.as_str()).concat(" ");
                    },
                    None => {},
                }
            },
            _ => {},
        }
        k += 1;
    }
    assert(attrs.take(k as int) == attrs);
    let pre = if pre_exec.as_str().is_empty() {
        None
    } else {
        Some(pre_exec)
    };
    let post = if post_exec.as_str().is_empty() {
        None
    } else {
        Some(post_exec)
    };
    Ok((pre, post))
}

} // verus!
