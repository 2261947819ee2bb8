//! The directives that steer how the parser of a type is put together.
//!
//! A directive has a kind out of a closed set, for some kinds an argument,
//! and the place in the source where it was written. It stands on a type, on
//! a variant of an enum or on a field, and its kind says where it may stand:
//!
//! * on a type (top level): `selector`, `selection_error`, `separator`,
//!   `skip_before`, `skip_after`, `pre_exec`, `post_exec`, `exact`;
//! * on a field: all the others, `cond`, `ignore`, `into`, `map`,
//!   `parse_as`, `parser`;
//! * on a variant: what a field takes, and `selector`, `pre_exec`,
//!   `post_exec`, `skip_before`, `skip_after`.
//!
//! `cond`, `map`, `pre_exec` and `post_exec` may stand more than once in one
//! place; `parse_as` and `parser` exclude each other.

use crate::build_error::{BuildError, BuildErrorKind, Span};
use crate::syntax::{optional_type, TypeInfo};
use std::collections::HashSet;
use vstd::prelude::*;
use vstd::string::StringExecFns;

verus! {

broadcast use vstd::std_specs::hash::group_hash_axioms;

/// The kind of a directive.
#[derive(Clone, Copy, Debug, PartialEq, Eq, Structural)]
pub enum MetaAttributeType {
    /// `cond(bool_expr)`: read the field only where the expression holds.
    Cond,
    /// `exact`: no input may be left behind the last field.
    Exact,
    /// `ignore`: do not read the field, give it its default value.
    Ignore,
    /// `into`: convert the value that was read.
    Into,
    /// `map(fn)`: apply a function to the value that was read.
    Mapping,
    /// `parse_as(Type)`: read the field as a value of another type.
    ParseAs,
    /// `parser(expr)`: read the field with the given parser.
    Parser,
    /// `pre_exec(stmt)`: a statement to run before.
    PreExec,
    /// `post_exec(stmt)`: a statement to run after.
    PostExec,
    /// `selector(..)`: on an enum, the parser of the selector; on a variant,
    /// the pattern that selects it.
    Selector,
    /// `selection_error(expr)`: the error where no variant is selected.
    SelectionError,
    /// `separator(parser)`: the parser of the separator of fields.
    Separator,
    /// `skip_after(n)`: skip `n` bytes after.
    SkipAfter,
    /// `skip_before(n)`: skip `n` bytes before.
    SkipBefore,
}

/// The kind that the word `ident` names, if any.
pub open spec fn spec_from_ident(ident: Seq<char>) -> Option<MetaAttributeType> {
    if ident == "cond"@ {
        Some(MetaAttributeType::Cond)
    } else if ident == "exact"@ {
        Some(MetaAttributeType::Exact)
    } else if ident == "ignore"@ {
        Some(MetaAttributeType::Ignore)
    } else if ident == "into"@ {
        Some(MetaAttributeType::Into)
    } else if ident == "map"@ {
        Some(MetaAttributeType::Mapping)
    } else if ident == "parse_as"@ {
        Some(MetaAttributeType::ParseAs)
    } else if ident == "parser"@ {
        Some(MetaAttributeType::Parser)
    } else if ident == "pre_exec"@ {
        Some(MetaAttributeType::PreExec)
    } else if ident == "post_exec"@ {
        Some(MetaAttributeType::PostExec)
    } else if ident == "selector"@ {
        Some(MetaAttributeType::Selector)
    } else if ident == "selection_error"@ {
        Some(MetaAttributeType::SelectionError)
    } else if ident == "separator"@ {
        Some(MetaAttributeType::Separator)
    } else if ident == "skip_after"@ {
        Some(MetaAttributeType::SkipAfter)
    } else if ident == "skip_before"@ {
        Some(MetaAttributeType::SkipBefore)
    } else {
        None
    }
}

/// Whether the texts `a` and `b` are the same.
pub fn same_text(a: &str, b: &str) -> (r: bool)
    ensures
        r == (a@ == b@),
{
    String::from_str(a) == String::from_str(b)
}

impl MetaAttributeType {
    /// The word that names this kind.
    pub open spec fn spec_name(self) -> Seq<char> {
        match self {
            MetaAttributeType::Cond => "cond"@,
            MetaAttributeType::Exact => "exact"@,
            MetaAttributeType::Ignore => "ignore"@,
            MetaAttributeType::Into => "into"@,
            MetaAttributeType::Mapping => "map"@,
            MetaAttributeType::ParseAs => "parse_as"@,
            MetaAttributeType::Parser => "parser"@,
            MetaAttributeType::PreExec => "pre_exec"@,
            MetaAttributeType::PostExec => "post_exec"@,
            MetaAttributeType::Selector => "selector"@,
            MetaAttributeType::SelectionError => "selection_error"@,
            MetaAttributeType::Separator => "separator"@,
            MetaAttributeType::SkipAfter => "skip_after"@,
            MetaAttributeType::SkipBefore => "skip_before"@,
        }
    }

    /// The number by which this kind is kept in a set: each kind has its own.
    pub open spec fn spec_code(self) -> u64 {
        match self {
            MetaAttributeType::Cond => 0,
            MetaAttributeType::Exact => 1,
            MetaAttributeType::Ignore => 2,
            MetaAttributeType::Into => 3,
            MetaAttributeType::Mapping => 4,
            MetaAttributeType::ParseAs => 5,
            MetaAttributeType::Parser => 6,
            MetaAttributeType::PreExec => 7,
            MetaAttributeType::PostExec => 8,
            MetaAttributeType::Selector => 9,
            MetaAttributeType::SelectionError => 10,
            MetaAttributeType::Separator => 11,
            MetaAttributeType::SkipAfter => 12,
            MetaAttributeType::SkipBefore => 13,
        }
    }

    /// Whether a directive of this kind carries an argument.
    pub open spec fn spec_takes_argument(self) -> bool {
        !(self is Exact || self is Ignore || self is Into)
    }

    /// Whether a directive of this kind may stand more than once on one
    /// field.
    pub open spec fn spec_allowed_multiple(self) -> bool {
        self is Cond || self is Mapping || self is PreExec || self is PostExec
    }

    /// Whether a directive of this kind may stand on a type.
    pub open spec fn spec_is_top_level(self) -> bool {
        self is Exact || self is PreExec || self is PostExec || self is Selector
            || self is SelectionError || self is Separator || self is SkipAfter
            || self is SkipBefore
    }

    /// Whether a directive of this kind may stand on a field.
    pub open spec fn spec_is_field_level(self) -> bool {
        self is Cond || self is Ignore || self is Into || self is Mapping || self is ParseAs
            || self is Parser
    }

    /// Whether a directive of this kind may stand on a variant of an enum: a
    /// variant takes what a field takes, and its selector, its hooks and its
    /// skips.
    pub open spec fn spec_is_variant_level(self) -> bool {
        !(self is Exact || self is Separator || self is SelectionError)
    }

    /// The kind that the word `ident` names, if any.
    pub fn from_ident(ident: &str) -> (r: Option<Self>)
        ensures
            r == spec_from_ident(ident@),
    {
        if same_text(ident, "cond") {
            Some(MetaAttributeType::Cond)
        } else if same_text(ident, "exact") {
            Some(MetaAttributeType::Exact)
        } else if same_text(ident, "ignore") {
            Some(MetaAttributeType::Ignore)
        } else if same_text(ident, "into") {
            Some(MetaAttributeType::Into)
        } else if same_text(ident, "map") {
            Some(MetaAttributeType::Mapping)
        } else if same_text(ident, "parse_as") {
            Some(MetaAttributeType::ParseAs)
        } else if same_text(ident, "parser") {
            Some(MetaAttributeType::Parser)
        } else if same_text(ident, "pre_exec") {
            Some(MetaAttributeType::PreExec)
        } else if same_text(ident, "post_exec") {
            Some(MetaAttributeType::PostExec)
        } else if same_text(ident, "selector") {
            Some(MetaAttributeType::Selector)
        } else if same_text(ident, "selection_error") {
            Some(MetaAttributeType::SelectionError)
        } else if same_text(ident, "separator") {
            Some(MetaAttributeType::Separator)
        } else if same_text(ident, "skip_after") {
            Some(MetaAttributeType::SkipAfter)
        } else if same_text(ident, "skip_before") {
            Some(MetaAttributeType::SkipBefore)
        } else {
            None
        }
    }

    /// The number by which this kind is kept in a set.
    pub fn code(&self) -> (r: u64)
        ensures
            r == self.spec_code(),
    {
        match self {
            MetaAttributeType::Cond => 0,
            MetaAttributeType::Exact => 1,
            MetaAttributeType::Ignore => 2,
            MetaAttributeType::Into => 3,
            MetaAttributeType::Mapping => 4,
            MetaAttributeType::ParseAs => 5,
            MetaAttributeType::Parser => 6,
            MetaAttributeType::PreExec => 7,
            MetaAttributeType::PostExec => 8,
            MetaAttributeType::Selector => 9,
            MetaAttributeType::SelectionError => 10,
            MetaAttributeType::Separator => 11,
            MetaAttributeType::SkipAfter => 12,
            MetaAttributeType::SkipBefore => 13,
        }
    }

    /// Whether a directive of this kind carries an argument.
    pub fn takes_argument(&self) -> (r: bool)
        ensures
            r == self.spec_takes_argument(),
    {
        match self {
            MetaAttributeType::Exact | MetaAttributeType::Ignore | MetaAttributeType::Into => false,
            _ => true,
        }
    }

    /// Whether a directive of this kind may stand more than once on one
    /// field.
    pub fn allowed_multiple(&self) -> (r: bool)
        ensures
            r == self.spec_allowed_multiple(),
    {
        match self {
            MetaAttributeType::Cond
            | MetaAttributeType::Mapping
            | MetaAttributeType::PreExec
            | MetaAttributeType::PostExec => true,
            _ => false,
        }
    }

    /// The word that names this kind.
    pub fn name(&self) -> (r: &'static str)
        ensures
            r@ == self.spec_name(),
    {
        match self {
            MetaAttributeType::Cond => "cond",
            MetaAttributeType::Exact => "exact",
            MetaAttributeType::Ignore => "ignore",
            MetaAttributeType::Into => "into",
            MetaAttributeType::Mapping => "map",
            MetaAttributeType::ParseAs => "parse_as",
            MetaAttributeType::Parser => "parser",
            MetaAttributeType::PreExec => "pre_exec",
            MetaAttributeType::PostExec => "post_exec",
            MetaAttributeType::Selector => "selector",
            MetaAttributeType::SelectionError => "selection_error",
            MetaAttributeType::Separator => "separator",
            MetaAttributeType::SkipAfter => "skip_after",
            MetaAttributeType::SkipBefore => "skip_before",
        }
    }

    /// The word that names this kind, as an owned text.
    pub fn to_string(&self) -> (r: String)
        ensures
            r@ == self.spec_name(),
    {
        String::from_str(self.name())
    }
}

/// One directive: its kind, its argument and the place it was written at.
///
/// The argument is kept as text; where it is a type, as the argument of
/// `parse_as` is, what is known of that type goes with it. `S` is the type
/// of a text: `String` in a program, `Seq<char>` in a contract.
#[derive(Debug)]
pub struct MetaAttribute<S = String> {
    /// The kind of the directive.
    pub kind: MetaAttributeType,
    /// The argument of the directive, as it was written.
    pub arg: Option<S>,
    /// What is known of the argument as a type, where it is one.
    pub arg_type: Option<TypeInfo<S>>,
    /// The place in the source where the directive was written.
    pub span: Span,
}

/// A directive as contracts speak of it.
pub type SpecMetaAttribute = MetaAttribute<Seq<char>>;

/// The characters of an optional text.
pub open spec fn optional_text(text: Option<String>) -> Option<Seq<char>> {
    match text {
        Some(t) => Some(t@),
        None => None,
    }
}

impl View for MetaAttribute<String> {
    type V = SpecMetaAttribute;

    open spec fn view(&self) -> SpecMetaAttribute {
        MetaAttribute {
            kind: self.kind,
            arg: optional_text(self.arg),
            arg_type: optional_type(self.arg_type),
            span: self.span,
        }
    }
}

impl DeepView for MetaAttribute<String> {
    type V = SpecMetaAttribute;

    open spec fn deep_view(&self) -> SpecMetaAttribute {
        self@
    }
}

impl MetaAttribute<Seq<char>> {
    /// Whether the directive has the argument that its kind asks for.
    pub open spec fn wf(self) -> bool {
        self.kind.spec_takes_argument() ==> self.arg is Some
    }
}

/// Whether every directive of `attrs` has the argument that its kind asks
/// for.
pub open spec fn all_wf(attrs: Seq<SpecMetaAttribute>) -> bool {
    forall|k: int| 0 <= k < attrs.len() ==> (#[trigger] attrs[k]).wf()
}

/// What making a directive of the word `ident`, the argument `arg` and the
/// place `span` gives: the word must name a kind, and the argument must be
/// there exactly where the kind takes one. Nothing is known yet of the
/// argument as a type.
pub open spec fn spec_parse_directive(ident: Seq<char>, arg: Option<Seq<char>>, span: Span) -> Result<
    SpecMetaAttribute,
    BuildError,
> {
    match spec_from_ident(ident) {
        None => Err(BuildError { kind: BuildErrorKind::UnknownAttribute, span }),
        Some(kind) => if kind.spec_takes_argument() && arg is None {
            Err(BuildError { kind: BuildErrorKind::ExpectedArgument, span })
        } else if !kind.spec_takes_argument() && arg is Some {
            Err(BuildError { kind: BuildErrorKind::UnexpectedArgument, span })
        } else {
            Ok(MetaAttribute { kind, arg, arg_type: None, span })
        },
    }
}

impl MetaAttribute<String> {
    /// The directive of kind `kind` with the argument `arg`, written at
    /// `span`. Nothing is known of the argument as a type.
    pub fn new(kind: MetaAttributeType, arg: Option<String>, span: Span) -> (a: Self)
        ensures
            a@ == (MetaAttribute { kind, arg: optional_text(arg), arg_type: None, span }),
    {
        MetaAttribute { kind, arg, arg_type: None, span }
    }

    /// This directive with `ty` as what is known of its argument as a type.
    pub fn with_type(self, ty: TypeInfo) -> (a: Self)
        ensures
            a@ == (MetaAttribute {
                kind: self@.kind,
                arg: self@.arg,
                arg_type: Some(ty@),
                span: self@.span,
            }),
    {
        MetaAttribute { kind: self.kind, arg: self.arg, arg_type: Some(ty), span: self.span }
    }

    /// Makes a directive of the word `ident`, the argument `arg` and the
    /// place `span`.
    pub fn parse(ident: &str, arg: Option<String>, span: Span) -> (r: Result<Self, BuildError>)
        ensures
            match r {
                Ok(a) => spec_parse_directive(ident@, optional_text(arg), span) == Ok::<
                    SpecMetaAttribute,
                    BuildError,
                >(a@),
                Err(e) => spec_parse_directive(ident@, optional_text(arg), span) == Err::<
                    SpecMetaAttribute,
                    BuildError,
                >(e),
            },
            r matches Ok(a) ==> a@.wf(),
    {
        match MetaAttributeType::from_ident(ident) {
            None => Err(BuildError::new(BuildErrorKind::UnknownAttribute, span)),
            Some(kind) => {
                if kind.takes_argument() && arg.is_none() {
                    Err(BuildError::new(BuildErrorKind::ExpectedArgument, span))
                } else if !kind.takes_argument() && arg.is_some() {
                    Err(BuildError::new(BuildErrorKind::UnexpectedArgument, span))
                } else {
                    Ok(MetaAttribute { kind, arg, arg_type: None, span })
                }
            },
        }
    }

    /// Whether this directive may stand on a type.
    pub fn is_top_level(&self) -> (r: bool)
        ensures
            r == self.kind.spec_is_top_level(),
    {
        match self.kind {
            MetaAttributeType::Exact
            | MetaAttributeType::PreExec
            | MetaAttributeType::PostExec
            | MetaAttributeType::Selector
            | MetaAttributeType::SelectionError
            | MetaAttributeType::Separator
            | MetaAttributeType::SkipAfter
            | MetaAttributeType::SkipBefore => true,
            _ => false,
        }
    }

    /// Whether this directive may stand on a field.
    pub fn is_field_level(&self) -> (r: bool)
        ensures
            r == self.kind.spec_is_field_level(),
    {
        match self.kind {
            MetaAttributeType::Cond
            | MetaAttributeType::Ignore
            | MetaAttributeType::Into
            | MetaAttributeType::Mapping
            | MetaAttributeType::ParseAs
            | MetaAttributeType::Parser => true,
            _ => false,
        }
    }

    /// Whether this directive may stand on a variant of an enum.
    pub fn is_variant_level(&self) -> (r: bool)
        ensures
            r == self.kind.spec_is_variant_level(),
    {
        match self.kind {
            MetaAttributeType::Exact
            | MetaAttributeType::Separator
            | MetaAttributeType::SelectionError => false,
            _ => true,
        }
    }

    /// The argument of this directive.
    pub fn arg(&self) -> (r: Option<&String>)
        ensures
            r matches Some(t) ==> self.arg == Some(*t) && self@.arg == Some(t@),
            r is None ==> self@.arg is None,
    {
        self.arg.as_ref()
    }

    /// The place where this directive was written.
    pub fn span(&self) -> (r: Span)
        ensures
            r == self.span,
    {
        self.span
    }

    /// This directive as it is written: its word, and its argument in round
    /// brackets where it has one.
    pub open spec fn spec_to_string(&self) -> Seq<char> {
        match self.arg {
            Some(arg) => self.kind.spec_name() + "("@ + arg@ + ")"@,
            None => self.kind.spec_name(),
        }
    }

    /// Writes this directive: its word, and its argument in round brackets
    /// where it has one.
    pub fn to_string(&self) -> (r: String)
        ensures
            r@ == self.spec_to_string(),
    {
        match &self.arg {
            Some(arg) => self.kind.to_string().concat("(").concat(arg.as_str()).concat(")"),
            None => self.kind.to_string(),
        }
    }

    /// A copy of this directive.
    pub fn duplicate(&self) -> (r: Self)
        ensures
            r@ == self@,
    {
        MetaAttribute {
            kind: self.kind,
            arg: match &self.arg {
                Some(arg) => Some(arg.clone()),
                None => None,
            },
            arg_type: match &self.arg_type {
                Some(ty) => Some(ty.duplicate()),
                None => None,
            },
            span: self.span,
        }
    }
}

// ---------------------------------------------------------------------------
// Validation
// ---------------------------------------------------------------------------

/// The fault of the directive `a` where it needs an argument and has none.
pub open spec fn missing_argument(a: SpecMetaAttribute) -> Option<BuildError> {
    if a.kind.spec_takes_argument() && a.arg is None {
        Some(BuildError { kind: BuildErrorKind::ExpectedArgument, span: a.span })
    } else {
        None
    }
}

/// The fault of the first directive of `attrs` at or after index `from` that
/// needs an argument and has none.
pub open spec fn first_missing_from(attrs: Seq<SpecMetaAttribute>, from: int) -> Option<BuildError>
    decreases attrs.len() - from,
{
    if from < 0 || from >= attrs.len() {
        None
    } else {
        match missing_argument(attrs[from]) {
            Some(e) => Some(e),
            None => first_missing_from(attrs, from + 1),
        }
    }
}

/// The fault of the first directive of `attrs` that needs an argument and
/// has none.
pub open spec fn first_missing(attrs: Seq<SpecMetaAttribute>) -> Option<BuildError> {
    first_missing_from(attrs, 0)
}

/// Where no directive at or after `from` lacks its argument, each of them
/// has the argument that its kind asks for.
pub proof fn lemma_first_missing_from(attrs: Seq<SpecMetaAttribute>, from: int)
    requires
        0 <= from,
    ensures
        first_missing_from(attrs, from) is None <==> forall|k: int|
            from <= k < attrs.len() ==> (#[trigger] attrs[k]).wf(),
    decreases attrs.len() - from,
{
    if from < attrs.len() {
        lemma_first_missing_from(attrs, from + 1);
    }
}

/// Whether a directive of kind `kind` stands in `attrs` before index `k`.
pub open spec fn seen_before(attrs: Seq<SpecMetaAttribute>, k: int, kind: MetaAttributeType) -> bool {
    exists|j: int| 0 <= j < k && j < attrs.len() && (#[trigger] attrs[j]).kind == kind
}

/// Where a directive stands: on a type, on a variant of an enum, or on a
/// field of a struct or of a variant.
#[derive(Clone, Copy, Debug, PartialEq, Eq, Structural)]
pub enum Placement {
    /// On a struct or an enum.
    Type,
    /// On a variant of an enum.
    Variant,
    /// On a field.
    Field,
}

impl Placement {
    /// Whether a directive of kind `kind` may stand here.
    pub open spec fn allows(self, kind: MetaAttributeType) -> bool {
        match self {
            Placement::Type => kind.spec_is_top_level(),
            Placement::Variant => kind.spec_is_variant_level(),
            Placement::Field => kind.spec_is_field_level(),
        }
    }

    /// The fault of a directive of kind `kind` that may not stand here.
    pub open spec fn misplaced(self, kind: MetaAttributeType) -> BuildErrorKind {
        match self {
            Placement::Type => BuildErrorKind::NotAllowedAtTopLevel(kind),
            Placement::Variant => BuildErrorKind::NotAllowedAtVariantLevel(kind),
            Placement::Field => BuildErrorKind::NotAllowedAtFieldLevel(kind),
        }
    }
}

/// What is wrong with the directive at index `k` of the directives `attrs`,
/// which stand at `place`, given those before it, in this order: it lacks
/// its argument; it may not stand at `place`; it stands twice and may stand
/// once only; or, on a field or a variant, it is one of `parse_as` and
/// `parser` behind the other.
pub open spec fn fault_at(place: Placement, attrs: Seq<SpecMetaAttribute>, k: int) -> Option<
    BuildError,
> {
    let a = attrs[k];
    if missing_argument(a) is Some {
        missing_argument(a)
    } else if !place.allows(a.kind) {
        Some(BuildError { kind: place.misplaced(a.kind), span: a.span })
    } else if !a.kind.spec_allowed_multiple() && seen_before(attrs, k, a.kind) {
        Some(BuildError { kind: BuildErrorKind::Duplicate(a.kind), span: a.span })
    } else if !(place is Type) && a.kind is ParseAs && seen_before(
        attrs,
        k,
        MetaAttributeType::Parser,
    ) {
        Some(BuildError { kind: BuildErrorKind::ParseAsWithParser, span: a.span })
    } else if !(place is Type) && a.kind is Parser && seen_before(
        attrs,
        k,
        MetaAttributeType::ParseAs,
    ) {
        Some(BuildError { kind: BuildErrorKind::ParserWithParseAs, span: a.span })
    } else {
        None
    }
}

/// The fault of the first directive of `attrs` at or after index `from`
/// that is at fault.
pub open spec fn first_fault_from(place: Placement, attrs: Seq<SpecMetaAttribute>, from: int) -> Option<
    BuildError,
>
    decreases attrs.len() - from,
{
    if from < 0 || from >= attrs.len() {
        None
    } else {
        match fault_at(place, attrs, from) {
            Some(e) => Some(e),
            None => first_fault_from(place, attrs, from + 1),
        }
    }
}

/// The fault of the first directive of `attrs` that is at fault, where
/// `attrs` stand at `place`.
pub open spec fn first_fault(place: Placement, attrs: Seq<SpecMetaAttribute>) -> Option<BuildError> {
    first_fault_from(place, attrs, 0)
}

/// Whether `r` is what checking the directives `attrs` gives: the directives
/// themselves where none is at fault, else the fault of the first one that
/// is.
pub open spec fn checked_is(
    place: Placement,
    attrs: Seq<SpecMetaAttribute>,
    r: Result<Vec<MetaAttribute>, BuildError>,
) -> bool {
    match r {
        Ok(list) => list.deep_view() == attrs && first_fault(place, attrs) is None,
        Err(e) => first_fault(place, attrs) == Some(e),
    }
}

/// Directives that pass the check each have the argument that their kind
/// asks for.
pub proof fn lemma_checked_directives_are_whole(place: Placement, attrs: Seq<SpecMetaAttribute>)
    requires
        first_fault(place, attrs) is None,
    ensures
        all_wf(attrs),
        first_missing(attrs) is None,
{
    lemma_first_fault_from(place, attrs, 0);
    assert forall|k: int| 0 <= k < attrs.len() implies (#[trigger] attrs[k]).wf() by {
        assert(fault_at(place, attrs, k) is None);
    }
    lemma_first_missing_from(attrs, 0);
}

/// `first_fault_from` gives the fault of the directive of lowest index at or
/// after `from` that has one, and none only where no directive has one.
pub proof fn lemma_first_fault_from(place: Placement, attrs: Seq<SpecMetaAttribute>, from: int)
    requires
        0 <= from,
    ensures
        match first_fault_from(place, attrs, from) {
            Some(e) => exists|k: int|
                from <= k < attrs.len() && fault_at(place, attrs, k) == Some(e) && forall|j: int|
                    from <= j < k ==> fault_at(place, attrs, j) is None,
            None => forall|k: int| from <= k < attrs.len() ==> fault_at(place, attrs, k) is None,
        },
    decreases attrs.len() - from,
{
    if from < attrs.len() && fault_at(place, attrs, from) is None {
        lemma_first_fault_from(place, attrs, from + 1);
    }
}

/// Whether the set `seen` holds the numbers of the kinds of the directives
/// of `attrs` before index `k`, and no others.
pub open spec fn holds_kinds_before(seen: Set<u64>, attrs: Seq<SpecMetaAttribute>, k: int) -> bool {
    forall|kind: MetaAttributeType|
        seen.contains(#[trigger] kind.spec_code()) <==> seen_before(attrs, k, kind)
}

/// No two kinds have the same number.
pub proof fn lemma_codes_differ(a: MetaAttributeType, b: MetaAttributeType)
    ensures
        a.spec_code() == b.spec_code() <==> a == b,
{
}

/// The fault of the directive at index `k` of `attrs`, if it has one, where
/// `seen` holds the kinds of the directives before it.
fn find_fault(place: Placement, attrs: &Vec<MetaAttribute>, k: usize, seen: &HashSet<u64>) -> (r:
    Option<BuildError>)
    requires
        k < attrs.len(),
        holds_kinds_before(seen@, attrs.deep_view(), k as int),
    ensures
        r == fault_at(place, attrs.deep_view(), k as int),
{
    let a = &attrs[k];
    assert(attrs.deep_view()[k as int] == a@);
    if a.kind.takes_argument() && a.arg.is_none() {
        return Some(BuildError::new(BuildErrorKind::ExpectedArgument, a.span));
    }
    let placed = match place {
        Placement::Type => a.is_top_level(),
        Placement::Variant => a.is_variant_level(),
        Placement::Field => a.is_field_level(),
    };
    if !placed {
        let kind = match place {
            Placement::Type => BuildErrorKind::NotAllowedAtTopLevel(a.kind),
            Placement::Variant => BuildErrorKind::NotAllowedAtVariantLevel(a.kind),
            Placement::Field => BuildErrorKind::NotAllowedAtFieldLevel(a.kind),
        };
        return Some(BuildError::new(kind, a.span));
    }
    let own: u64 = a.kind.code();
    if !a.kind.allowed_multiple() && seen.contains(&own) {
        return Some(BuildError::new(BuildErrorKind::Duplicate(a.kind), a.span));
    }
    match place {
        Placement::Type => {
            return None;
        },
        _ => {},
    }
    let parse_as: u64 = MetaAttributeType::ParseAs.code();
    let parser: u64 = MetaAttributeType::Parser.code();
    match a.kind {
        MetaAttributeType::ParseAs => if seen.contains(&parser) {
            Some(BuildError::new(BuildErrorKind::ParseAsWithParser, a.span))
        } else {
            None
        },
        MetaAttributeType::Parser => if seen.contains(&parse_as) {
            Some(BuildError::new(BuildErrorKind::ParserWithParseAs, a.span))
        } else {
            None
        },
        _ => None,
    }
}

/// Checks that each of the directives `attrs` has the argument that its
/// kind asks for, one after the other.
pub fn check_arguments(attrs: &Vec<MetaAttribute>) -> (r: Result<(), BuildError>)
    ensures
        match r {
            Ok(_) => first_missing(attrs.deep_view()) is None && all_wf(attrs.deep_view()),
            Err(e) => first_missing(attrs.deep_view()) == Some(e),
        },
{
    let ghost view = attrs.deep_view();
    let mut k: usize = 0;
    while k < attrs.len()
        invariant
            k <= attrs.len(),
            view == attrs.deep_view(),
            first_missing(view) == first_missing_from(view, k as int),
        decreases attrs.len() - k,
    {
        let a = &attrs[k];
        assert(view[k as int] == a@);
        if a.kind.takes_argument() && a.arg.is_none() {
            return Err(BuildError::new(BuildErrorKind::ExpectedArgument, a.span));
        }
        k += 1;
    }
    proof {
        lemma_first_missing_from(view, 0);
    }
    Ok(())
}

/// A copy of the directives `attrs`.
pub fn copy_attributes(attrs: &Vec<MetaAttribute>) -> (r: Vec<MetaAttribute>)
    ensures
        r.deep_view() == attrs.deep_view(),
{
    let mut r: Vec<MetaAttribute> = Vec::new();
    let mut k: usize = 0;
    while k < attrs.len()
        invariant
            k <= attrs.len(),
            r.len() == k,
            forall|j: int| 0 <= j < k ==> r@[j]@ == attrs@[j]@,
        decreases attrs.len() - k,
    {
        r.push(attrs[k].duplicate());
        k += 1;
    }
    r
}

/// Checks the directives `attrs`, which stand at `place`, one after the
/// other.
fn check_attributes(place: Placement, attrs: &Vec<MetaAttribute>) -> (r: Result<
    Vec<MetaAttribute>,
    BuildError,
>)
    ensures
        checked_is(place, attrs.deep_view(), r),
        r is Ok ==> all_wf(attrs.deep_view()) && first_missing(attrs.deep_view()) is None,
{
    let ghost view = attrs.deep_view();
    let mut seen: HashSet<u64> = HashSet::new();
    let mut k: usize = 0;
    while k < attrs.len()
        invariant
            k <= attrs.len(),
            view == attrs.deep_view(),
            first_fault(place, view) == first_fault_from(place, view, k as int),
            holds_kinds_before(seen@, view, k as int),
        decreases attrs.len() - k,
    {
        match find_fault(place, attrs, k, &seen) {
            Some(e) => {
                return Err(e);
            },
            None => {},
        }
        let ghost before = seen@;
        seen.insert(attrs[k].kind.code());
        proof {
            assert(view[k as int] == attrs@[k as int]@);
            assert forall|kind: MetaAttributeType|
                seen@.contains(#[trigger] kind.spec_code()) <==> seen_before(
                    view,
                    k + 1,
                    kind,
                ) by {
                lemma_codes_differ(kind, view[k as int].kind);
                assert(before.contains(kind.spec_code()) <==> seen_before(view, k as int, kind));
            }
        }
        k += 1;
    }
    proof {
        lemma_checked_directives_are_whole(place, attrs.deep_view());
    }
    Ok(copy_attributes(attrs))
}

/// Checks the directives that stand on a type, in the order they were
/// written: each must have the argument that its kind asks for and be one
/// that may stand on a type (`selector`, `selection_error`, `separator`,
/// `skip_before`, `skip_after`, `pre_exec`, `post_exec`, `exact`), and all
/// but `pre_exec` and `post_exec` may stand once only. The first directive
/// at fault fails the whole; else the directives are handed back.
pub fn parse_top_level_attributes(attrs: &Vec<MetaAttribute>) -> (r: Result<
    Vec<MetaAttribute>,
    BuildError,
>)
    ensures
        checked_is(Placement::Type, attrs.deep_view(), r),
        r is Ok ==> all_wf(attrs.deep_view()) && first_missing(attrs.deep_view()) is None,
{
    check_attributes(Placement::Type, attrs)
}

/// Checks the directives that stand on a field, in the order they were
/// written: each must have the argument that its kind asks for and be one
/// that may stand on a field (`cond`, `ignore`, `into`, `map`, `parse_as`,
/// `parser`); all but `cond` and `map` may stand once only; and `parse_as`
/// and `parser` may not both stand. The first directive at fault fails the
/// whole; else the directives are handed back.
pub fn parse_field_level_attributes(attrs: &Vec<MetaAttribute>) -> (r: Result<
    Vec<MetaAttribute>,
    BuildError,
>)
    ensures
        checked_is(Placement::Field, attrs.deep_view(), r),
        r is Ok ==> all_wf(attrs.deep_view()) && first_missing(attrs.deep_view()) is None,
{
    check_attributes(Placement::Field, attrs)
}

/// Checks the directives that stand on a variant of an enum, in the order
/// they were written: each must have the argument that its kind asks for and
/// be one that may stand on a variant (any but `exact`, `separator` and
/// `selection_error`); all but `cond`, `map`, `pre_exec` and `post_exec` may
/// stand once only; and `parse_as` and `parser` may not both stand. The first
/// directive at fault fails the whole; else the directives are handed back.
pub fn parse_variant_level_attributes(attrs: &Vec<MetaAttribute>) -> (r: Result<
    Vec<MetaAttribute>,
    BuildError,
>)
    ensures
        checked_is(Placement::Variant, attrs.deep_view(), r),
        r is Ok ==> all_wf(attrs.deep_view()) && first_missing(attrs.deep_view()) is None,
{
    check_attributes(Placement::Variant, attrs)
}

/// Directives of a field that pass the check never hold both `parser` and
/// `parse_as`, and hold at most one of each kind that may stand once only.
pub proof fn lemma_checked_field_directives(
    attrs: Seq<SpecMetaAttribute>,
    r: Result<Vec<MetaAttribute>, BuildError>,
)
    requires
        checked_is(Placement::Field, attrs, r),
        r is Ok,
    ensures
        !(exists|j: int, k: int|
            0 <= j < attrs.len() && 0 <= k < attrs.len() && attrs[j].kind is Parser
                && attrs[k].kind is ParseAs),
        forall|j: int, k: int|
            0 <= j < k < attrs.len() && attrs[j].kind == attrs[k].kind
                ==> attrs[j].kind.spec_allowed_multiple(),
        forall|k: int| 0 <= k < attrs.len() ==> attrs[k].kind.spec_is_field_level(),
{
    lemma_first_fault_from(Placement::Field, attrs, 0);
    assert forall|j: int, k: int|
        0 <= j < attrs.len() && 0 <= k < attrs.len() && attrs[j].kind is Parser
            && attrs[k].kind is ParseAs implies false by {
        if j < k {
            assert(fault_at(Placement::Field, attrs, k) is None);
        } else {
            assert(fault_at(Placement::Field, attrs, j) is None);
        }
    }
    assert forall|j: int, k: int|
        0 <= j < k < attrs.len() && attrs[j].kind
            == attrs[k].kind implies attrs[j].kind.spec_allowed_multiple() by {
        assert(fault_at(Placement::Field, attrs, k) is None);
    }
    assert forall|k: int| 0 <= k < attrs.len() implies attrs[k].kind.spec_is_field_level() by {
        assert(fault_at(Placement::Field, attrs, k) is None);
    }
}

/// Directives of a type that pass the check may all stand on a type, and
/// hold at most one of each kind but `pre_exec` and `post_exec`.
pub proof fn lemma_checked_type_directives(
    attrs: Seq<SpecMetaAttribute>,
    r: Result<Vec<MetaAttribute>, BuildError>,
)
    requires
        checked_is(Placement::Type, attrs, r),
        r is Ok,
    ensures
        forall|j: int, k: int|
            0 <= j < k < attrs.len() && attrs[j].kind == attrs[k].kind ==> (attrs[j].kind is PreExec
                || attrs[j].kind is PostExec),
        forall|k: int| 0 <= k < attrs.len() ==> attrs[k].kind.spec_is_top_level(),
{
    lemma_first_fault_from(Placement::Type, attrs, 0);
    assert forall|j: int, k: int|
        0 <= j < k < attrs.len() && attrs[j].kind == attrs[k].kind implies (attrs[j].kind is PreExec
        || attrs[j].kind is PostExec) by {
        assert(fault_at(Placement::Type, attrs, k) is None);
    }
    assert forall|k: int| 0 <= k < attrs.len() implies attrs[k].kind.spec_is_top_level() by {
        assert(fault_at(Placement::Type, attrs, k) is None);
    }
}

} // verus!
