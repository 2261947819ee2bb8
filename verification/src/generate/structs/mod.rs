//! The generated parser of a struct.

pub mod parser;

use crate::build_error::{BuildError, BuildErrorKind};
use crate::config::{spec_config, Config, SpecConfig};
use crate::generate::hooks::{non_empty, pre_post_exec, spec_post_exec, spec_pre_exec};
use crate::generate::Generator;
use crate::generate::structs::parser::{
    spec_from_fields, FieldParser, SpecFieldParser, SpecStructParser, StructParser,
};
use crate::input::{Fields, Generics, SpecFields, SpecGenerics};
use crate::meta::{
    all_wf, first_fault, first_missing, optional_text, parse_top_level_attributes, MetaAttribute,
    MetaAttributeType, Placement, SpecMetaAttribute,
};
use vstd::prelude::*;
use vstd::string::StringExecFns;

verus! {

/// All that the generated parser of a struct is made of.
#[derive(Debug)]
pub struct Struct {
    /// The name of the struct.
    pub name: String,
    /// The settings of the generated parser.
    pub config: Config,
    /// The generics of the struct.
    pub generics: Generics,
    /// The statements to run before the first field is read.
    pub pre_exec: Option<String>,
    /// The statements to run after the last field is read.
    pub post_exec: Option<String>,
    /// The parsers of the fields.
    pub struct_parser: StructParser,
}

/// The generated parser of a struct as contracts speak of it.
pub struct SpecStruct {
    /// The name of the struct.
    pub name: Seq<char>,
    /// The settings of the generated parser.
    pub config: SpecConfig,
    /// The generics of the struct.
    pub generics: SpecGenerics,
    /// The statements to run before the first field is read.
    pub pre_exec: Option<Seq<char>>,
    /// The statements to run after the last field is read.
    pub post_exec: Option<Seq<char>>,
    /// The parsers of the fields.
    pub struct_parser: SpecStructParser,
}

impl DeepView for Struct {
    type V = SpecStruct;

    open spec fn deep_view(&self) -> SpecStruct {
        SpecStruct {
            name: self.name@,
            config: self.config@,
            generics: self.generics.deep_view(),
            pre_exec: optional_text(self.pre_exec),
            post_exec: optional_text(self.post_exec),
            struct_parser: self.struct_parser.deep_view(),
        }
    }
}

/// What is wrong with the directive `a` where it stands on a struct: a
/// struct takes no `selector`, no `selection_error` and no `separator`.
pub open spec fn struct_fault(a: SpecMetaAttribute) -> Option<BuildError> {
    match a.kind {
        MetaAttributeType::Selector => Some(
            BuildError { kind: BuildErrorKind::StructSelector, span: a.span },
        ),
        MetaAttributeType::SelectionError => Some(
            BuildError { kind: BuildErrorKind::StructSelectionError, span: a.span },
        ),
        MetaAttributeType::Separator => Some(
            BuildError { kind: BuildErrorKind::StructSeparator, span: a.span },
        ),
        _ => None,
    }
}

/// The fault of the first directive of `attrs`, at or after index `from`,
/// that a struct does not take.
pub open spec fn struct_fault_from(attrs: Seq<SpecMetaAttribute>, from: int) -> Option<BuildError>
    decreases attrs.len() - from,
{
    if from < 0 || from >= attrs.len() {
        None
    } else {
        match struct_fault(attrs[from]) {
            Some(e) => Some(e),
            None => struct_fault_from(attrs, from + 1),
        }
    }
}

/// What is made of a struct named `name` with the fields `fields`, the
/// directives `attrs` and the generics `generics`. The directives are
/// checked as directives of a type, then as directives of a struct; then the
/// parsers of the fields are put together. The first fault in this order
/// fails the whole.
pub open spec fn spec_from_datastruct(
    name: Seq<char>,
    fields: SpecFields,
    attrs: Seq<SpecMetaAttribute>,
    generics: SpecGenerics,
) -> Result<SpecStruct, BuildError> {
    match first_fault(Placement::Type, attrs) {
        Some(e) => Err(e),
        None => match struct_fault_from(attrs, 0) {
            Some(e) => Err(e),
            None => {
                let config = spec_config(attrs);
                match spec_from_fields(fields, config, false) {
                    Err(e) => Err(e),
                    Ok(struct_parser) => Ok(
                        SpecStruct {
                            name,
                            config,
                            generics,
                            pre_exec: non_empty(spec_pre_exec(attrs, config)),
                            post_exec: non_empty(spec_post_exec(attrs, config)),
                            struct_parser,
                        },
                    ),
                }
            },
        },
    }
}

// ---------------------------------------------------------------------------
// The source of the parser
// ---------------------------------------------------------------------------

/// The text `text`, or the empty text where there is none.
pub open spec fn text_or_empty(text: Option<Seq<char>>) -> Seq<char> {
    match text {
        Some(text) => text,
        None => Seq::<char>::empty(),
    }
}

/// The statements that read one field: what comes before it, the call of
/// its parser on the input, which binds the input that is left and the value,
/// and what comes after it.
pub open spec fn spec_field_source(field: SpecFieldParser, input: Seq<char>) -> Seq<char> {
    text_or_empty(field.pre_exec) + "let ("@ + input + ", "@ + field.variable_name + ") = ("@
        + field.parser.spec_to_tokens() + ")("@ + input + ")?; "@ + text_or_empty(field.post_exec)
}

/// The statements that read the fields `fields`, in their order.
pub open spec fn spec_fields_source(fields: Seq<SpecFieldParser>, input: Seq<char>) -> Seq<char>
    decreases fields.len(),
{
    if fields.len() == 0 {
        Seq::<char>::empty()
    } else {
        spec_fields_source(fields.drop_last(), input) + spec_field_source(fields.last(), input)
    }
}

/// The names of the variables of the fields `fields`, with `, ` between
/// them.
pub open spec fn spec_variables(fields: Seq<SpecFieldParser>) -> Seq<char>
    decreases fields.len(),
{
    if fields.len() == 0 {
        Seq::<char>::empty()
    } else if fields.len() == 1 {
        fields[0].variable_name
    } else {
        spec_variables(fields.drop_last()) + ", "@ + fields.last().variable_name
    }
}

/// The expression that makes the value named `name` of the variables of its
/// fields: the name alone where there are no fields, the variables in round
/// brackets where the fields have no names, in braces where they have.
pub open spec fn spec_struct_def(name: Seq<char>, parser: SpecStructParser) -> Seq<char> {
    if parser.empty {
        name
    } else if parser.unnamed {
        name + "("@ + spec_variables(parser.parsers) + ")"@
    } else {
        name + " { "@ + spec_variables(parser.parsers) + " }"@
    }
}

/// The line that brings the trait of the parsers into scope.
pub open spec fn spec_use_trait(use_trait: bool) -> Seq<char> {
    if use_trait {
        "use nmea0183_parser::NmeaParse; "@
    } else {
        Seq::<char>::empty()
    }
}

/// The body of the parser of the value named `name`: what comes before,
/// the fields one after the other, the value made of them, what comes after,
/// and the result.
pub open spec fn spec_struct_body(
    name: Seq<char>,
    config: SpecConfig,
    pre_exec: Option<Seq<char>>,
    post_exec: Option<Seq<char>>,
    parser: SpecStructParser,
    use_trait: bool,
) -> Seq<char> {
    spec_use_trait(use_trait) + text_or_empty(pre_exec) + spec_fields_source(
        parser.parsers,
        config.input_name,
    ) + "let struct_def = "@ + spec_struct_def(name, parser) + "; "@ + text_or_empty(post_exec)
        + "Ok(("@ + config.input_name + ", struct_def))"@
}

/// Adds the optional text `text` to `target`.
pub fn push_optional(target: String, text: &Option<String>) -> (r: String)
    ensures
        r@ == target@ + text_or_empty(optional_text(*text)),
{
    match text {
        Some(text) => target.concat(text.as_str()),
        None => {
            target
        },
    }
}

/// Writes the statements that read one field.
pub fn field_source(field: &FieldParser, input: &str) -> (r: String)
    ensures
        r@ == spec_field_source(field.deep_view(), input@),
{
    let tokens = field.parser.to_tokens();
    let mut source = push_optional(String::new(), &field.pre_exec);
    source = source.concat("let (").concat(input).concat(", ").concat(
        field.variable_name.as_str(),
    ).concat(") = (").concat(tokens.as_str()).concat(")(").concat(input).concat(")?; ");
    push_optional(source, &field.post_exec)
}

/// Writes the statements that read the fields `fields`, in their order.
pub fn fields_source(fields: &Vec<FieldParser>, input: &str) -> (r: String)
    ensures
        r@ == spec_fields_source(fields.deep_view(), input@),
{
    let ghost all = fields.deep_view();
    let mut source = String::new();
    let mut k: usize = 0;
    while k < fields.len()
        invariant
            k <= fields.len(),
            all == fields.deep_view(),
            all.len() == fields.len(),
            source@ == spec_fields_source(all.take(k as int), input@),
        decreases fields.len() - k,
    {
        let field = &fields[k];
        proof {
            let next = all.take(k + 1);
            assert(next.drop_last() == all.take(k as int));
        }
        let one = field_source(field, input);
        source = source.concat(one.as_str());
        k += 1;
    }
    assert(all.take(k as int) == all);
    source
}

/// Writes the names of the variables of the fields `fields`, with `, `
/// between them.
pub fn variables(fields: &Vec<FieldParser>) -> (r: String)
    ensures
        r@ == spec_variables(fields.deep_view()),
{
    let ghost all = fields.deep_view();
    let mut names = String::new();
    let mut k: usize = 0;
    while k < fields.len()
        invariant
            k <= fields.len(),
            all == fields.deep_view(),
            all.len() == fields.len(),
            names@ == spec_variables(all.take(k as int)),
        decreases fields.len() - k,
    {
        let field = &fields[k];
        proof {
            let next = all.take(k + 1);
            assert(next.drop_last() == all.take(k as int));
        }
        if k > 0 {
            names = names.concat(", ").concat(field.variable_name.as_str());
        } else {
            names = names.concat(field.variable_name.as_str());
        }
        k += 1;
    }
    assert(all.take(k as int) == all);
    names
}

/// Writes the expression that makes the value named `name` of the
/// variables of its fields.
pub fn struct_def(name: &str, parser: &StructParser) -> (r: String)
    ensures
        r@ == spec_struct_def(name@, parser.deep_view()),
{
    if parser.empty {
        String::from_str(name)
    } else if parser.unnamed {
        let names = variables(&parser.parsers);
        String::from_str(name).concat("(").concat(names.as_str()).concat(")")
    } else {
        let names = variables(&parser.parsers);
        String::from_str(name).concat(" { ").concat(names.as_str()).concat(" }")
    }
}

/// Writes the body of the parser of the value named `name`.
pub fn struct_body(
    name: &str,
    config: &Config,
    pre_exec: &Option<String>,
    post_exec: &Option<String>,
    parser: &StructParser,
    use_trait: bool,
) -> (r: String)
    ensures
        r@ == spec_struct_body(
            name@,
            config@,
            optional_text(*pre_exec),
            optional_text(*post_exec),
            parser.deep_view(),
            use_trait,
        ),
{
    let input = config.input_name.as_str();
    let body = if use_trait {
        String::from_str("use nmea0183_parser::NmeaParse; ")
    } else {
        String::new()
    };
    let body = push_optional(body, pre_exec);
    let fields = fields_source(&parser.parsers, input);
    let def = struct_def(name, parser);
    let body = body.concat(fields.as_str()).concat("let struct_def = ").concat(def.as_str()).concat(
        "; ",
    );
    let body = push_optional(body, post_exec);
    body.concat("Ok((").concat(input).concat(", struct_def))")
}

impl Struct {
    /// Puts together what the generated parser of the struct named `name`
    /// is made of, from its fields, its directives and its generics.
    pub fn from_datastruct(
        name: &str,
        datastruct: &Fields,
        attributes: &Vec<MetaAttribute>,
        generics: &Generics,
    ) -> (r: Result<Self, BuildError>)
        ensures
            match r {
                Ok(s) => spec_from_datastruct(
                    name@,
                    datastruct.deep_view(),
                    attributes.deep_view(),
                    generics.deep_view(),
                ) == Ok::<SpecStruct, BuildError>(s.deep_view()),
                Err(e) => spec_from_datastruct(
                    name@,
                    datastruct.deep_view(),
                    attributes.deep_view(),
                    generics.deep_view(),
                ) == Err::<SpecStruct, BuildError>(e),
            },
    {
        let checked = match parse_top_level_attributes(attributes) {
            Ok(checked) => checked,
            Err(e) => {
                return Err(e);
            },
        };
        let ghost attrs = attributes.deep_view();
        let mut k: usize = 0;
        while k < checked.len()
            invariant
                k <= checked.len(),
                attrs == attributes.deep_view(),
                attrs == checked.deep_view(),
                first_fault(Placement::Type, attrs) is None,
                all_wf(attrs),
                first_missing(attrs) is None,
                struct_fault_from(attrs, 0) == struct_fault_from(attrs, k as int),
            decreases checked.len() - k,
        {
            let attribute = &checked[k];
            match attribute.kind {
                MetaAttributeType::Selector => {
                    return Err(BuildError::new(BuildErrorKind::StructSelector, attribute.span));
                },
                MetaAttributeType::SelectionError => {
                    return Err(
                        BuildError::new(BuildErrorKind::StructSelectionError, attribute.span),
                    );
                },
                MetaAttributeType::Separator => {
                    return Err(BuildError::new(BuildErrorKind::StructSeparator, attribute.span));
                },
                _ => {},
            }
            k += 1;
        }
        let config = match Config::from_meta_attributes(&checked) {
            Ok(config) => config,
            Err(e) => {
                return Err(e);
            },
        };
        let struct_parser = match StructParser::from_fields(datastruct, &config, false) {
            Ok(struct_parser) => struct_parser,
            Err(e) => {
                return Err(e);
            },
        };
        match pre_post_exec(&checked, &config) {
            Ok((pre_exec, post_exec)) => Ok(
                Struct {
                    name: String::from_str(name),
                    config,
                    generics: generics.duplicate(),
                    pre_exec,
                    post_exec,
                    struct_parser,
                },
            ),
            Err(e) => Err(e),
        }
    }
}

impl Generator for Struct {
    open spec fn spec_name(&self) -> Seq<char> {
        self.name@
    }

    open spec fn spec_settings(&self) -> SpecConfig {
        self.config@
    }

    open spec fn spec_generics(&self) -> SpecGenerics {
        self.generics.deep_view()
    }

    open spec fn spec_parse_body(&self, use_trait: bool) -> Result<Seq<char>, BuildError> {
        Ok(
            spec_struct_body(
                self.name@,
                self.config@,
                optional_text(self.pre_exec),
                optional_text(self.post_exec),
                self.struct_parser.deep_view(),
                use_trait,
            ),
        )
    }

    fn name(&self) -> (r: &String) {
        &self.name
    }

    fn config(&self) -> (r: &Config) {
        &self.config
    }

    fn generics(&self) -> (r: &Generics) {
        &self.generics
    }

    fn generate_parse_body(&self, use_trait: bool) -> (r: Result<String, BuildError>) {
        Ok(
            struct_body(
                self.name.as_str(),
                &self.config,
                &self.pre_exec,
                &self.post_exec,
                &self.struct_parser,
                use_trait,
            ),
        )
    }
}

} // verus!
