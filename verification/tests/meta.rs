use nmea0183_parser::build_error::{BuildError, BuildErrorKind, Span};
use nmea0183_parser::config::Config;
use nmea0183_parser::meta::{
    parse_field_level_attributes, parse_top_level_attributes, parse_variant_level_attributes,
    MetaAttribute, MetaAttributeType,
};
use nmea0183_parser::syntax::TypeInfo;

fn at(line: usize) -> Span {
    Span { line, column: 4 }
}

fn directive(name: &str, arg: Option<&str>, line: usize) -> MetaAttribute {
    MetaAttribute::parse(name, arg.map(|a| a.to_string()), at(line)).unwrap()
}

fn fault(kind: BuildErrorKind, line: usize) -> BuildError {
    BuildError { kind, span: at(line) }
}

fn kinds(list: &[MetaAttribute]) -> Vec<MetaAttributeType> {
    list.iter().map(|a| a.kind).collect()
}

const ALL: [(&str, MetaAttributeType); 14] = [
    ("cond", MetaAttributeType::Cond),
    ("exact", MetaAttributeType::Exact),
    ("ignore", MetaAttributeType::Ignore),
    ("into", MetaAttributeType::Into),
    ("map", MetaAttributeType::Mapping),
    ("parse_as", MetaAttributeType::ParseAs),
    ("parser", MetaAttributeType::Parser),
    ("pre_exec", MetaAttributeType::PreExec),
    ("post_exec", MetaAttributeType::PostExec),
    ("selector", MetaAttributeType::Selector),
    ("selection_error", MetaAttributeType::SelectionError),
    ("separator", MetaAttributeType::Separator),
    ("skip_after", MetaAttributeType::SkipAfter),
    ("skip_before", MetaAttributeType::SkipBefore),
];

#[test]
fn every_directive_word_names_its_kind() {
    for (word, kind) in ALL {
        assert_eq!(MetaAttributeType::from_ident(word), Some(kind));
        assert_eq!(kind.name(), word);
        assert_eq!(kind.to_string(), word);
    }
    assert_eq!(MetaAttributeType::from_ident("Cond"), None);
    assert_eq!(MetaAttributeType::from_ident(""), None);
    assert_eq!(MetaAttributeType::from_ident("selectors"), None);
}

#[test]
fn directives_without_argument() {
    for (_, kind) in ALL {
        let bare = matches!(
            kind,
            MetaAttributeType::Exact | MetaAttributeType::Ignore | MetaAttributeType::Into
        );
        assert_eq!(kind.takes_argument(), !bare);
    }
}

#[test]
fn directives_that_may_repeat() {
    for (_, kind) in ALL {
        let repeatable = matches!(
            kind,
            MetaAttributeType::Cond
                | MetaAttributeType::Mapping
                | MetaAttributeType::PreExec
                | MetaAttributeType::PostExec
        );
        assert_eq!(kind.allowed_multiple(), repeatable);
    }
}

#[test]
fn directive_placement() {
    for (word, kind) in ALL {
        let arg = if kind.takes_argument() { Some("x") } else { None };
        let a = directive(word, arg, 1);
        let top = matches!(
            kind,
            MetaAttributeType::Exact
                | MetaAttributeType::PreExec
                | MetaAttributeType::PostExec
                | MetaAttributeType::Selector
                | MetaAttributeType::SelectionError
                | MetaAttributeType::Separator
                | MetaAttributeType::SkipAfter
                | MetaAttributeType::SkipBefore
        );
        let variant = !matches!(
            kind,
            MetaAttributeType::Exact
                | MetaAttributeType::Separator
                | MetaAttributeType::SelectionError
        );
        assert_eq!(a.is_top_level(), top);
        assert_eq!(a.is_field_level(), !top);
        assert_eq!(a.is_variant_level(), variant);
    }
}

#[test]
fn directive_is_made_of_word_and_argument() {
    let a = MetaAttribute::parse("cond", Some("a > 0".to_string()), at(7)).unwrap();
    assert_eq!(a.kind, MetaAttributeType::Cond);
    assert_eq!(a.arg().map(|s| s.as_str()), Some("a > 0"));
    assert_eq!(a.span(), at(7));
    assert_eq!(a.to_string(), "cond(a > 0)");
    let b = MetaAttribute::parse("exact", None, at(8)).unwrap();
    assert_eq!(b.arg(), None);
    assert_eq!(b.to_string(), "exact");
    let c = MetaAttribute::new(MetaAttributeType::Ignore, None, at(9));
    assert_eq!(c.kind, MetaAttributeType::Ignore);
    assert_eq!(c.duplicate().to_string(), "ignore");
}

#[test]
fn directive_with_unknown_word_is_rejected() {
    let r = MetaAttribute::parse("optional", None, at(2));
    assert_eq!(r.unwrap_err(), fault(BuildErrorKind::UnknownAttribute, 2));
}

#[test]
fn directive_argument_must_match_the_kind() {
    let r = MetaAttribute::parse("cond", None, at(2));
    assert_eq!(r.unwrap_err(), fault(BuildErrorKind::ExpectedArgument, 2));
    let r = MetaAttribute::parse("ignore", Some("x".to_string()), at(3));
    assert_eq!(r.unwrap_err(), fault(BuildErrorKind::UnexpectedArgument, 3));
}

#[test]
fn top_level_directives_are_handed_back_in_order() {
    let attrs = vec![
        directive("pre_exec", Some("let msg = nmea_input;"), 1),
        directive("skip_before", Some("2"), 2),
        directive("selector", Some("take3"), 3),
        directive("selection_error", Some("E"), 4),
        directive("exact", None, 5),
        directive("pre_exec", Some("let n = 0;"), 6),
        directive("post_exec", Some("a();"), 7),
        directive("post_exec", Some("b();"), 8),
    ];
    let checked = parse_top_level_attributes(&attrs).unwrap();
    assert_eq!(kinds(&checked), kinds(&attrs));
    assert_eq!(checked[5].to_string(), "pre_exec(let n = 0;)");
}

#[test]
fn top_level_rejects_field_directives() {
    for word in ["cond", "ignore", "into", "map", "parse_as", "parser"] {
        let kind = MetaAttributeType::from_ident(word).unwrap();
        let arg = if kind.takes_argument() { Some("x") } else { None };
        let attrs = vec![directive("exact", None, 1), directive(word, arg, 2)];
        assert_eq!(
            parse_top_level_attributes(&attrs).unwrap_err(),
            fault(BuildErrorKind::NotAllowedAtTopLevel(kind), 2)
        );
    }
}

#[test]
fn top_level_rejects_duplicates() {
    let attrs = vec![
        directive("selector", Some("a"), 1),
        directive("exact", None, 2),
        directive("selector", Some("b"), 3),
        directive("exact", None, 4),
    ];
    assert_eq!(
        parse_top_level_attributes(&attrs).unwrap_err(),
        fault(BuildErrorKind::Duplicate(MetaAttributeType::Selector), 3)
    );
}

#[test]
fn field_level_directives_are_handed_back_in_order() {
    let attrs = vec![
        directive("map", Some("f"), 1),
        directive("cond", Some("a"), 2),
        directive("map", Some("g"), 3),
        directive("cond", Some("b"), 4),
        directive("parser", Some("p"), 5),
        directive("into", None, 6),
        directive("ignore", None, 7),
    ];
    let checked = parse_field_level_attributes(&attrs).unwrap();
    assert_eq!(kinds(&checked), kinds(&attrs));
}

#[test]
fn field_level_rejects_type_directives() {
    for word in [
        "exact",
        "separator",
        "selection_error",
        "selector",
        "pre_exec",
        "post_exec",
        "skip_before",
        "skip_after",
    ] {
        let kind = MetaAttributeType::from_ident(word).unwrap();
        let arg = if kind.takes_argument() { Some("x") } else { None };
        let attrs = vec![directive("cond", Some("c"), 4), directive(word, arg, 5)];
        assert_eq!(
            parse_field_level_attributes(&attrs).unwrap_err(),
            fault(BuildErrorKind::NotAllowedAtFieldLevel(kind), 5)
        );
    }
}

#[test]
fn variant_level_takes_selector_hooks_and_skips() {
    let attrs = vec![
        directive("selector", Some("'A'"), 1),
        directive("pre_exec", Some("a();"), 2),
        directive("pre_exec", Some("b();"), 3),
        directive("post_exec", Some("c();"), 4),
        directive("skip_before", Some("1"), 5),
        directive("skip_after", Some("2"), 6),
        directive("cond", Some("x"), 7),
        directive("parser", Some("p"), 8),
    ];
    let checked = parse_variant_level_attributes(&attrs).unwrap();
    assert_eq!(kinds(&checked), kinds(&attrs));
}

#[test]
fn variant_level_rejects_type_directives() {
    for word in ["exact", "separator", "selection_error"] {
        let kind = MetaAttributeType::from_ident(word).unwrap();
        let arg = if kind.takes_argument() { Some("x") } else { None };
        let attrs = vec![directive("selector", Some("'A'"), 4), directive(word, arg, 5)];
        assert_eq!(
            parse_variant_level_attributes(&attrs).unwrap_err(),
            fault(BuildErrorKind::NotAllowedAtVariantLevel(kind), 5)
        );
    }
}

#[test]
fn variant_level_rejects_duplicates_and_conflicts() {
    let attrs = vec![directive("selector", Some("'A'"), 1), directive("selector", Some("'B'"), 2)];
    assert_eq!(
        parse_variant_level_attributes(&attrs).unwrap_err(),
        fault(BuildErrorKind::Duplicate(MetaAttributeType::Selector), 2)
    );
    let attrs = vec![directive("parse_as", Some("u8"), 1), directive("parser", Some("p"), 2)];
    assert_eq!(
        parse_variant_level_attributes(&attrs).unwrap_err(),
        fault(BuildErrorKind::ParserWithParseAs, 2)
    );
}

#[test]
fn field_level_rejects_duplicates() {
    let attrs = vec![
        directive("ignore", None, 1),
        directive("cond", Some("a"), 2),
        directive("ignore", None, 3),
    ];
    assert_eq!(
        parse_field_level_attributes(&attrs).unwrap_err(),
        fault(BuildErrorKind::Duplicate(MetaAttributeType::Ignore), 3)
    );
}

#[test]
fn parser_and_parse_as_exclude_each_other() {
    let attrs = vec![directive("parser", Some("p"), 1), directive("parse_as", Some("u8"), 2)];
    assert_eq!(
        parse_field_level_attributes(&attrs).unwrap_err(),
        fault(BuildErrorKind::ParseAsWithParser, 2)
    );
    let attrs = vec![directive("parse_as", Some("u8"), 1), directive("parser", Some("p"), 2)];
    assert_eq!(
        parse_field_level_attributes(&attrs).unwrap_err(),
        fault(BuildErrorKind::ParserWithParseAs, 2)
    );
}

#[test]
fn first_fault_in_order_is_reported() {
    let attrs = vec![
        directive("parser", Some("p"), 1),
        directive("exact", None, 2),
        directive("parser", Some("q"), 3),
    ];
    assert_eq!(
        parse_field_level_attributes(&attrs).unwrap_err(),
        fault(BuildErrorKind::NotAllowedAtFieldLevel(MetaAttributeType::Exact), 2)
    );
}

#[test]
fn fault_messages() {
    assert_eq!(
        BuildErrorKind::NotAllowedAtTopLevel(MetaAttributeType::Cond).message(),
        "nmea0183-derive: Attribute `cond` is not allowed at the top level"
    );
    assert_eq!(
        BuildErrorKind::NotAllowedAtFieldLevel(MetaAttributeType::Exact).message(),
        "nmea0183-derive: Attribute `exact` is not allowed at the field level"
    );
    assert_eq!(
        BuildErrorKind::NotAllowedAtVariantLevel(MetaAttributeType::Exact).message(),
        "nmea0183-derive: Attribute `exact` is not allowed at the variant level"
    );
    assert_eq!(
        BuildErrorKind::Duplicate(MetaAttributeType::ParseAs).message(),
        "nmea0183-derive: Duplicate nmea attribute `parse_as`"
    );
    assert_eq!(
        fault(BuildErrorKind::DefaultNotLast, 1).to_string(),
        "nmea0183-derive: Default case must be the last entry in the enum"
    );
    assert_eq!(
        BuildErrorKind::UnknownAttribute.message(),
        "nmea0183-derive: Unknown nmea attribute"
    );
    assert_eq!(
        BuildError::new(BuildErrorKind::EnumWithoutSelector, at(3)),
        fault(BuildErrorKind::EnumWithoutSelector, 3)
    );
}

#[test]
fn settings_default_to_comma_and_no_selector() {
    let config = Config::from_meta_attributes(&vec![directive("exact", None, 1)]).unwrap();
    assert_eq!(config.input_name, "nmea_input");
    assert_eq!(config.selector_name, "nmea_selector");
    assert_eq!(config.error_type, "NmeaError");
    assert_eq!(config.lifetime, "'nmea");
    assert_eq!(config.separator, "b','");
    assert_eq!(config.selector_parser, None);
    assert_eq!(config.selection_error, None);
}

#[test]
fn settings_take_selector_error_and_separator() {
    let attrs = vec![
        directive("selector", Some("first"), 1),
        directive("separator", Some("b';'"), 2),
        directive("selection_error", Some("Error::Unknown"), 3),
        directive("selector", Some("second"), 4),
    ];
    let config = Config::from_meta_attributes(&attrs).unwrap();
    assert_eq!(config.selector_parser.as_deref(), Some("second"));
    assert_eq!(config.selection_error.as_deref(), Some("Error::Unknown"));
    assert_eq!(config.separator, "b';'");
    assert_eq!(config.duplicate().separator, "b';'");
}

#[test]
fn every_kind_has_a_number_of_its_own() {
    for (k, (_, kind)) in ALL.iter().enumerate() {
        assert_eq!(kind.code(), k as u64);
        for (_, other) in ALL.iter() {
            assert_eq!(kind.code() == other.code(), kind == other);
        }
    }
}

#[test]
fn duplicates_are_found_however_far_apart() {
    let list = vec![
        directive("into", None, 1),
        directive("cond", Some("a"), 2),
        directive("map", Some("f"), 3),
        directive("cond", Some("b"), 4),
        directive("ignore", None, 5),
        directive("map", Some("g"), 6),
        directive("into", None, 7),
        directive("ignore", None, 8),
    ];
    assert_eq!(
        parse_field_level_attributes(&list).unwrap_err(),
        fault(BuildErrorKind::Duplicate(MetaAttributeType::Into), 7)
    );
    let list = vec![
        directive("parser", Some("p"), 1),
        directive("cond", Some("a"), 2),
        directive("into", None, 3),
        directive("map", Some("f"), 4),
        directive("parse_as", Some("u8"), 5),
    ];
    assert_eq!(
        parse_field_level_attributes(&list).unwrap_err(),
        fault(BuildErrorKind::ParseAsWithParser, 5)
    );
    let list = vec![
        directive("pre_exec", Some("a();"), 1),
        directive("skip_after", Some("1"), 2),
        directive("pre_exec", Some("b();"), 3),
        directive("post_exec", Some("c();"), 4),
        directive("post_exec", Some("d();"), 5),
        directive("skip_after", Some("2"), 6),
    ];
    assert_eq!(
        parse_top_level_attributes(&list).unwrap_err(),
        fault(BuildErrorKind::Duplicate(MetaAttributeType::SkipAfter), 6)
    );
    assert_eq!(
        parse_variant_level_attributes(&list).unwrap_err(),
        fault(BuildErrorKind::Duplicate(MetaAttributeType::SkipAfter), 6)
    );
}

#[test]
fn a_directive_keeps_what_is_known_of_its_type() {
    let known = TypeInfo {
        tokens: "Option<u8>".to_string(),
        last_ident: Some("Option".to_string()),
        generic_args: Some("u8".to_string()),
        held: Some(Box::new(TypeInfo {
            tokens: "u8".to_string(),
            last_ident: Some("u8".to_string()),
            generic_args: None,
            held: None,
        })),
    };
    let plain = directive("parse_as", Some("Option<u8>"), 3);
    assert!(plain.arg_type.is_none());
    let typed = plain.with_type(known.duplicate());
    assert_eq!(typed.kind, MetaAttributeType::ParseAs);
    assert_eq!(typed.arg().map(|a| a.as_str()), Some("Option<u8>"));
    assert_eq!(typed.span(), at(3));
    let checked = parse_field_level_attributes(&vec![typed.duplicate()]).unwrap();
    for kept in [&typed, &checked[0]] {
        let ty = kept.arg_type.as_ref().unwrap();
        assert_eq!(ty.tokens, "Option<u8>");
        assert_eq!(ty.last_ident.as_deref(), Some("Option"));
        assert_eq!(ty.generic_args.as_deref(), Some("u8"));
        let held = ty.held.as_ref().unwrap();
        assert_eq!(held.tokens, "u8");
        assert_eq!(held.last_ident.as_deref(), Some("u8"));
        assert!(held.generic_args.is_none() && held.held.is_none());
    }
}
