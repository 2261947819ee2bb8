//! What the generator needs to know of a type.
//!
//! A type reaches the generator as plain values: its source, and as much of
//! its shape as the directives ask about.

use crate::meta::optional_text;
use vstd::prelude::*;

verus! {

/// What is known of a type: its source, and, where it is a path such as
/// `Option<u8>`, the name of its last segment, the arguments in angle
/// brackets behind it, and what those arguments are where they are one type.
///
/// `S` is the type of a text: `String` in a program, `Seq<char>` in a
/// contract.
#[derive(Debug)]
pub struct TypeInfo<S = String> {
    /// The source of the type.
    pub tokens: S,
    /// The name of the last segment, where the type is a path.
    pub last_ident: Option<S>,
    /// The source of the arguments that stand in angle brackets behind the
    /// last segment.
    pub generic_args: Option<S>,
    /// The type that those arguments are, where they are exactly one type.
    pub held: Option<Box<TypeInfo<S>>>,
}

/// What is known of a type, as contracts speak of it.
pub type SpecTypeInfo = TypeInfo<Seq<char>>;

/// What is known of the type `t` as contracts speak of it: with each text
/// taken by its characters.
pub open spec fn type_view(t: TypeInfo<String>) -> SpecTypeInfo
    decreases t,
{
    TypeInfo {
        tokens: t.tokens@,
        last_ident: optional_text(t.last_ident),
        generic_args: optional_text(t.generic_args),
        held: match t.held {
            Some(held) => Some(Box::new(type_view(*held))),
            None => None,
        },
    }
}

/// What is known of an optional type, as contracts speak of it.
pub open spec fn optional_type(t: Option<TypeInfo<String>>) -> Option<SpecTypeInfo> {
    match t {
        Some(t) => Some(type_view(t)),
        None => None,
    }
}

impl View for TypeInfo<String> {
    type V = SpecTypeInfo;

    open spec fn view(&self) -> SpecTypeInfo {
        type_view(*self)
    }
}

impl TypeInfo<String> {
    /// A copy of what is known of this type.
    pub fn duplicate(&self) -> (r: Self)
        ensures
            r@ == self@,
        decreases self,
    {
        TypeInfo {
            tokens: self.tokens.clone(),
            last_ident: crate::config::copy_optional(&self.last_ident),
            generic_args: crate::config::copy_optional(&self.generic_args),
            held: match &self.held {
                Some(held) => Some(Box::new(held.duplicate())),
                None => None,
            },
        }
    }
}

} // verus!
