//! The shape of a type, as far as the generator reads it: its name, its
//! directives, its generics, and its fields or variants.

use crate::build_error::Span;
use crate::meta::{optional_text, MetaAttribute, SpecMetaAttribute};
use crate::syntax::{SpecTypeInfo, TypeInfo};
use vstd::prelude::*;

verus! {

/// One field of a struct or of a variant.
#[derive(Debug)]
pub struct Field {
    /// The name of the field, where it has one.
    pub ident: Option<String>,
    /// What is known of the type of the field.
    pub ty: TypeInfo,
    /// The directives that stand on the field, in the order written.
    pub attrs: Vec<MetaAttribute>,
    /// Where the field is written.
    pub span: Span,
}

/// A field as contracts speak of it.
pub struct SpecField {
    /// The name of the field, where it has one.
    pub ident: Option<Seq<char>>,
    /// What is known of the type of the field.
    pub ty: SpecTypeInfo,
    /// The directives that stand on the field, in the order written.
    pub attrs: Seq<SpecMetaAttribute>,
    /// Where the field is written.
    pub span: Span,
}

impl DeepView for Field {
    type V = SpecField;

    open spec fn deep_view(&self) -> SpecField {
        SpecField {
            ident: optional_text(self.ident),
            ty: self.ty@,
            attrs: self.attrs.deep_view(),
            span: self.span,
        }
    }
}

/// How the fields of a struct or of a variant are written.
#[derive(Clone, Copy, Debug, PartialEq, Eq, Structural)]
pub enum FieldsKind {
    /// In braces, each with a name.
    Named,
    /// In round brackets, without names.
    Unnamed,
    /// Not at all: the struct or the variant has no fields.
    Unit,
}

/// The fields of a struct or of a variant.
#[derive(Debug)]
pub struct Fields {
    /// How the fields are written.
    pub kind: FieldsKind,
    /// The fields, in the order written.
    pub fields: Vec<Field>,
}

/// The fields of a struct or of a variant as contracts speak of them.
pub struct SpecFields {
    /// How the fields are written.
    pub kind: FieldsKind,
    /// The fields, in the order written.
    pub fields: Seq<SpecField>,
}

impl DeepView for Fields {
    type V = SpecFields;

    open spec fn deep_view(&self) -> SpecFields {
        SpecFields { kind: self.kind, fields: self.fields.deep_view() }
    }
}

/// One variant of an enum.
#[derive(Debug)]
pub struct Variant {
    /// The name of the variant.
    pub ident: String,
    /// The directives that stand on the variant, in the order written.
    pub attrs: Vec<MetaAttribute>,
    /// The fields of the variant.
    pub fields: Fields,
    /// Where the variant is written.
    pub span: Span,
}

/// A variant as contracts speak of it.
pub struct SpecVariant {
    /// The name of the variant.
    pub ident: Seq<char>,
    /// The directives that stand on the variant, in the order written.
    pub attrs: Seq<SpecMetaAttribute>,
    /// The fields of the variant.
    pub fields: SpecFields,
    /// Where the variant is written.
    pub span: Span,
}

impl DeepView for Variant {
    type V = SpecVariant;

    open spec fn deep_view(&self) -> SpecVariant {
        SpecVariant {
            ident: self.ident@,
            attrs: self.attrs.deep_view(),
            fields: self.fields.deep_view(),
            span: self.span,
        }
    }
}

/// The generics of a type, cut up as an `impl` needs them.
#[derive(Debug)]
pub struct Generics {
    /// The parameters as they are declared, in angle brackets; empty where
    /// the type has none.
    pub impl_generics: String,
    /// The parameters as they are used behind the name of the type, in angle
    /// brackets; empty where the type has none.
    pub ty_generics: String,
    /// The names of the type parameters.
    pub type_params: Vec<String>,
    /// The predicates of the `where` clause.
    pub where_predicates: Vec<String>,
}

/// The generics of a type as contracts speak of them.
pub struct SpecGenerics {
    /// The parameters as they are declared.
    pub impl_generics: Seq<char>,
    /// The parameters as they are used behind the name of the type.
    pub ty_generics: Seq<char>,
    /// The names of the type parameters.
    pub type_params: Seq<Seq<char>>,
    /// The predicates of the `where` clause.
    pub where_predicates: Seq<Seq<char>>,
}

impl DeepView for Generics {
    type V = SpecGenerics;

    open spec fn deep_view(&self) -> SpecGenerics {
        SpecGenerics {
            impl_generics: self.impl_generics@,
            ty_generics: self.ty_generics@,
            type_params: self.type_params.deep_view(),
            where_predicates: self.where_predicates.deep_view(),
        }
    }
}

/// What a type is: a struct, an enum or a union.
#[derive(Debug)]
pub enum Data {
    /// A struct, with its fields.
    Struct(Fields),
    /// An enum, with its variants.
    Enum(Vec<Variant>),
    /// A union.
    Union,
}

/// A type for which a parser is to be generated.
#[derive(Debug)]
pub struct DeriveInput {
    /// The name of the type.
    pub ident: String,
    /// Where the name is written.
    pub span: Span,
    /// The directives that stand on the type, in the order written.
    pub attrs: Vec<MetaAttribute>,
    /// The generics of the type.
    pub generics: Generics,
    /// What the type is.
    pub data: Data,
}

/// What a type is, as contracts speak of it.
pub enum SpecData {
    /// A struct, with its fields.
    Struct(SpecFields),
    /// An enum, with its variants.
    Enum(Seq<SpecVariant>),
    /// A union.
    Union,
}

impl DeepView for Data {
    type V = SpecData;

    open spec fn deep_view(&self) -> SpecData {
        match self {
            Data::Struct(fields) => SpecData::Struct(fields.deep_view()),
            Data::Enum(variants) => SpecData::Enum(variants.deep_view()),
            Data::Union => SpecData::Union,
        }
    }
}

/// A type for which a parser is to be generated, as contracts speak of it.
pub struct SpecDeriveInput {
    /// The name of the type.
    pub ident: Seq<char>,
    /// Where the name is written.
    pub span: Span,
    /// The directives that stand on the type, in the order written.
    pub attrs: Seq<SpecMetaAttribute>,
    /// The generics of the type.
    pub generics: SpecGenerics,
    /// What the type is.
    pub data: SpecData,
}

impl DeepView for DeriveInput {
    type V = SpecDeriveInput;

    open spec fn deep_view(&self) -> SpecDeriveInput {
        SpecDeriveInput {
            ident: self.ident@,
            span: self.span,
            attrs: self.attrs.deep_view(),
            generics: self.generics.deep_view(),
            data: self.data.deep_view(),
        }
    }
}

/// A copy of the texts `texts`.
pub fn copy_texts(texts: &Vec<String>) -> (r: Vec<String>)
    ensures
        r.deep_view() == texts.deep_view(),
{
    let mut r: Vec<String> = Vec::new();
    let mut k: usize = 0;
    while k < texts.len()
        invariant
            k <= texts.len(),
            r.len() == k,
            forall|j: int| 0 <= j < k ==> r@[j]@ == texts@[j]@,
        decreases texts.len() - k,
    {
        r.push(texts[k].clone());
        k += 1;
    }
    r
}

impl Generics {
    /// A copy of these generics.
    pub fn duplicate(&self) -> (r: Self)
        ensures
            r.deep_view() == self.deep_view(),
    {
        Generics {
            impl_generics: self.impl_generics.clone(),
            ty_generics: self.ty_generics.clone(),
            type_params: copy_texts(&self.type_params),
            where_predicates: copy_texts(&self.where_predicates),
        }
    }
}

} // verus!
