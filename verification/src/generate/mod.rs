//! The generator: from the shape of a type and its directives to the source
//! of its parser.

pub mod enums;
pub mod hooks;
pub mod structs;

pub use hooks::{get_error_if, pre_post_exec};

use crate::build_error::{BuildError, BuildErrorKind};
use crate::config::{Config, SpecConfig};
use crate::generate::enums::{spec_enum_body, spec_from_dataenum, Enum};
use crate::generate::structs::{spec_from_datastruct, spec_struct_body, Struct};
use crate::input::{Data, DeriveInput, Generics, SpecData, SpecDeriveInput, SpecGenerics};
use crate::text::{join, spec_join};
use vstd::prelude::*;
use vstd::string::StringExecFns;

verus! {

/// Whether `r` is the source, or the fault, that `expected` says.
pub open spec fn source_is(
    r: Result<String, BuildError>,
    expected: Result<Seq<char>, BuildError>,
) -> bool {
    match r {
        Ok(source) => expected == Ok::<Seq<char>, BuildError>(source@),
        Err(e) => expected == Err::<Seq<char>, BuildError>(e),
    }
}

/// What the generated `impl` of a type is made of: the name of the type, the
/// settings, the generics, and the body of its parser.
pub trait Generator {
    /// The name of the type.
    spec fn spec_name(&self) -> Seq<char>;

    /// The settings of the generated parser.
    spec fn spec_settings(&self) -> SpecConfig;

    /// The generics of the type.
    spec fn spec_generics(&self) -> SpecGenerics;

    /// The body of the parser of the type, or the fault that keeps it from
    /// being written.
    spec fn spec_parse_body(&self, use_trait: bool) -> Result<Seq<char>, BuildError>;

    /// The name of the type.
    fn name(&self) -> (r: &String)
        ensures
            r@ == self.spec_name(),
    ;

    /// The settings of the generated parser.
    fn config(&self) -> (r: &Config)
        ensures
            r@ == self.spec_settings(),
    ;

    /// The generics of the type.
    fn generics(&self) -> (r: &Generics)
        ensures
            r.deep_view() == self.spec_generics(),
    ;

    /// Writes the body of the parser of the type. With `use_trait` the body
    /// starts by bringing the trait of the parsers into scope.
    fn generate_parse_body(&self, use_trait: bool) -> (r: Result<String, BuildError>)
        ensures
            source_is(r, self.spec_parse_body(use_trait)),
    ;
}

/// The header of the generated `parse`.
pub open spec fn spec_parse_decl(config: SpecConfig) -> Seq<char> {
    "fn parse<"@ + config.lifetime + ">("@ + config.input_name + ": &"@ + config.lifetime
        + " [u8]) -> nmea0183_parser::IResult<"@ + config.lifetime + ", Self>"@
}

/// The generated `parse_preceded`: the separator, then `parse`.
pub open spec fn spec_parse_preceded_fn(config: SpecConfig) -> Seq<char> {
    "fn parse_preceded<"@ + config.lifetime + ">(sep: u8, "@ + config.input_name + ": &"@
        + config.lifetime + " [u8]) -> nmea0183_parser::IResult<"@ + config.lifetime
        + ", Self> { match nmea0183_parser::parse::char(sep, "@ + config.input_name
        + ") { Ok((rest, _)) => Self::parse(rest), Err(e) => Err(e) } }"@
}

/// The generated `parse`: its header and, in braces, its body.
pub open spec fn spec_parse_fn(config: SpecConfig, body: Seq<char>) -> Seq<char> {
    spec_parse_decl(config) + " { "@ + body + " }"@
}

/// The bounds that the generated `impl` puts on the type parameters
/// `type_params`: each must have a parser.
pub open spec fn spec_bounds(type_params: Seq<Seq<char>>) -> Seq<Seq<char>> {
    Seq::new(type_params.len(), |k: int| type_params[k] + ": nmea0183_parser::NmeaParse"@)
}

/// The `where` clause of the generated `impl`: the predicates of the type,
/// then the bounds on its type parameters; nothing where there are neither.
pub open spec fn spec_where_clause(generics: SpecGenerics) -> Seq<char> {
    let predicates = generics.where_predicates + spec_bounds(generics.type_params);
    if predicates.len() == 0 {
        Seq::<char>::empty()
    } else {
        " where "@ + spec_join(predicates, ", "@)
    }
}

/// The head of a generated `impl` of the trait `path` for the type named
/// `name`: the generics, the trait, the type and the `where` clause.
pub open spec fn spec_impl_head(path: Seq<char>, name: Seq<char>, generics: SpecGenerics) -> Seq<
    char,
> {
    "impl"@ + generics.impl_generics + " "@ + path + " for "@ + name + generics.ty_generics
        + spec_where_clause(generics)
}

/// The generated `impl` of the view of the type named `name`: the view of a
/// value is the value. Its function is never run.
pub open spec fn spec_view_impl(name: Seq<char>, generics: SpecGenerics) -> Seq<char> {
    spec_impl_head("vstd::view::DeepView"@, name, generics)
        + " { type V = Self; fn deep_view(&self) -> Self { unreachable!() } }"@
}

/// The two items of the generated `impl` that stand for what the contracts
/// of the trait speak of. They are never run.
pub open spec fn spec_stubs() -> Seq<char> {
    "fn spec_parse(_: vstd::seq::Seq<u8>) -> nmea0183_parser::error::SpecResult<Self> { unreachable!() } fn spec_parse_preceded(_: u8, _: vstd::seq::Seq<u8>) -> nmea0183_parser::error::SpecResult<Self> { unreachable!() }"@
}

/// The generated `impl` of the type named `name`, around the generated
/// `parse` of the body `body`: the `impl` of the view, then that of the
/// trait of the parsers.
pub open spec fn spec_impl(
    name: Seq<char>,
    config: SpecConfig,
    generics: SpecGenerics,
    body: Seq<char>,
) -> Seq<char> {
    spec_view_impl(name, generics) + " "@ + spec_impl_head(
        "nmea0183_parser::NmeaParse"@,
        name,
        generics,
    ) + " { "@ + spec_stubs() + " "@ + spec_parse_fn(config, body) + " "@
        + spec_parse_preceded_fn(config) + " }"@
}

/// Writes the header of the generated `parse`.
pub fn generate_parse_decl<G: Generator>(generator: &G) -> (r: String)
    ensures
        r@ == spec_parse_decl(generator.spec_settings()),
{
    let config = generator.config();
    String::from_str("fn parse<").concat(config.lifetime.as_str()).concat(">(").concat(
        config.input_name.as_str(),
    ).concat(": &").concat(config.lifetime.as_str()).concat(
        " [u8]) -> nmea0183_parser::IResult<",
    ).concat(config.lifetime.as_str()).concat(", Self>")
}

/// Writes the generated `parse`.
pub fn generate_parse<G: Generator>(generator: &G) -> (r: Result<String, BuildError>)
    ensures
        source_is(
            r,
            match generator.spec_parse_body(true) {
                Ok(body) => Ok(spec_parse_fn(generator.spec_settings(), body)),
                Err(e) => Err(e),
            },
        ),
{
    let decl = generate_parse_decl(generator);
    match generator.generate_parse_body(true) {
        Ok(body) => Ok(decl.concat(" { ").concat(body.as_str()).concat(" }")),
        Err(e) => Err(e),
    }
}

/// Writes the bounds on the type parameters `type_params` behind the
/// predicates `predicates`.
fn add_bounds(predicates: Vec<String>, type_params: &Vec<String>) -> (r: Vec<String>)
    ensures
        r.deep_view() == predicates.deep_view() + spec_bounds(type_params.deep_view()),
{
    let ghost before = predicates.deep_view();
    let ghost params = type_params.deep_view();
    let mut all = predicates;
    let mut k: usize = 0;
    while k < type_params.len()
        invariant
            k <= type_params.len(),
            params == type_params.deep_view(),
            params.len() == type_params.len(),
            all.deep_view() == before + spec_bounds(params).take(k as int),
        decreases type_params.len() - k,
    {
        let bound = type_params[k].clone().concat(": nmea0183_parser::NmeaParse");
        let ghost old_view = all.deep_view();
        all.push(bound);
        proof {
            assert(all.deep_view() =~= old_view.push(bound@));
        }
        k += 1;
    }
    all
}

/// Writes the `where` clause of the generated `impl`.
pub fn where_clause(generics: &Generics) -> (r: String)
    ensures
        r@ == spec_where_clause(generics.deep_view()),
{
    let predicates = add_bounds(
        crate::input::copy_texts(&generics.where_predicates),
        &generics.type_params,
    );
    if predicates.len() == 0 {
        String::new()
    } else {
        let joined = join(&predicates, ", ");
        String::from_str(" where ").concat(joined.as_str())
    }
}

/// Writes the head of a generated `impl` of the trait `path` for the type
/// named `name`.
pub fn impl_head(path: &str, name: &str, generics: &Generics) -> (r: String)
    ensures
        r@ == spec_impl_head(path@, name@, generics.deep_view()),
{
    let clause = where_clause(generics);
    String::from_str("impl").concat(generics.impl_generics.as_str()).concat(" ").concat(
        path,
    ).concat(" for ").concat(name).concat(generics.ty_generics.as_str()).concat(clause.as_str())
}

/// Writes the generated `impl` of a type: the trait of the parsers for the
/// type, with its generics, the bounds that its type parameters need, the
/// generated `parse` and the `parse_preceded` that goes with it.
pub fn generate_impl<G: Generator>(generator: &G) -> (r: Result<String, BuildError>)
    ensures
        source_is(
            r,
            match generator.spec_parse_body(true) {
                Ok(body) => Ok(
                    spec_impl(
                        generator.spec_name(),
                        generator.spec_settings(),
                        generator.spec_generics(),
                        body,
                    ),
                ),
                Err(e) => Err(e),
            },
        ),
{
    let parse_tokens = match generate_parse(generator) {
        Ok(parse_tokens) => parse_tokens,
        Err(e) => {
            return Err(e);
        },
    };
    let config = generator.config();
    let generics = generator.generics();
    let preceded = String::from_str("fn parse_preceded<").concat(config.lifetime.as_str()).concat(
        ">(sep: u8, ",
    ).concat(config.input_name.as_str()).concat(": &").concat(config.lifetime.as_str()).concat(
        " [u8]) -> nmea0183_parser::IResult<",
    ).concat(config.lifetime.as_str()).concat(
        ", Self> { match nmea0183_parser::parse::char(sep, ",
    ).concat(config.input_name.as_str()).concat(
        ") { Ok((rest, _)) => Self::parse(rest), Err(e) => Err(e) } }",
    );
    let view = impl_head("vstd::view::DeepView", generator.name().as_str(), generics).concat(
        " { type V = Self; fn deep_view(&self) -> Self { unreachable!() } }",
    );
    let head = impl_head("nmea0183_parser::NmeaParse", generator.name().as_str(), generics);
    Ok(
        view.concat(" ").concat(head.as_str()).concat(" { ").concat(
            "fn spec_parse(_: vstd::seq::Seq<u8>) -> nmea0183_parser::error::SpecResult<Self> { unreachable!() } fn spec_parse_preceded(_: u8, _: vstd::seq::Seq<u8>) -> nmea0183_parser::error::SpecResult<Self> { unreachable!() }",
        ).concat(" ").concat(parse_tokens.as_str()).concat(" ").concat(
            preceded.as_str(),
        ).concat(" }"),
    )
}

/// The source of the `impl` that is generated for the type `input`, or the
/// first fault that keeps it from being generated. A union has none.
pub open spec fn spec_generate(input: SpecDeriveInput) -> Result<Seq<char>, BuildError> {
    match input.data {
        SpecData::Struct(fields) => match spec_from_datastruct(
            input.ident,
            fields,
            input.attrs,
            input.generics,
        ) {
            Err(e) => Err(e),
            Ok(s) => Ok(
                spec_impl(
                    s.name,
                    s.config,
                    s.generics,
                    spec_struct_body(
                        s.name,
                        s.config,
                        s.pre_exec,
                        s.post_exec,
                        s.struct_parser,
                        true,
                    ),
                ),
            ),
        },
        SpecData::Enum(variants) => match spec_from_dataenum(
            input.ident,
            input.span,
            variants,
            input.attrs,
            input.generics,
        ) {
            Err(e) => Err(e),
            Ok(e) => match spec_enum_body(e, true) {
                Err(fault) => Err(fault),
                Ok(body) => Ok(spec_impl(e.name, e.config, e.generics, body)),
            },
        },
        SpecData::Union => Err(
            BuildError { kind: BuildErrorKind::UnionNotSupported, span: input.span },
        ),
    }
}

/// Generates the source of the `impl` of the trait of the parsers for the
/// type `input`, as its shape and its directives ask.
pub fn generate_nmea_parse_impl(input: &DeriveInput) -> (r: Result<String, BuildError>)
    ensures
        source_is(r, spec_generate(input.deep_view())),
{
    match &input.data {
        Data::Struct(datastruct) => {
            match Struct::from_datastruct(
                input.ident.as_str(),
                datastruct,
                &input.attrs,
                &input.generics,
            ) {
                Ok(generator) => generate_impl(&generator),
                Err(e) => Err(e),
            }
        },
        Data::Enum(dataenum) => {
            match Enum::from_dataenum(
                input.ident.as_str(),
                input.span,
                dataenum,
                &input.attrs,
                &input.generics,
            ) {
                Ok(generator) => generate_impl(&generator),
                Err(e) => Err(e),
            }
        },
        Data::Union => Err(BuildError::new(BuildErrorKind::UnionNotSupported, input.span)),
    }
}

} // verus!
