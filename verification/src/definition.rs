//! What is known of a type before anything is derived for it: its name, its
//! generics, its attributes and its body, as the type's author wrote them.

use vstd::prelude::*;
use crate::data::{Kind, Value, ValueView};

verus! {

/// The type a field was declared with, as far as conversion is concerned.
#[derive(Structural, Clone, Copy, Debug, PartialEq, Eq)]
pub enum TypeReference {
    /// A type whose values convert to and from values of exactly this kind.
    Of(Kind),
    /// A type that decides its own conversion: a type parameter, or a type
    /// that is described elsewhere. Whether one of its values converts is
    /// for the type to say, and is handed in where a value is decoded.
    Foreign,
}

/// Whether `text` reads exactly as `expected`.
pub(crate) fn reads(text: &String, expected: &str) -> (b: bool)
    ensures
        b == (text@ == expected@),
{
    let other = expected.to_owned();
    *text == other
}

/// The reference that a type's name stands for: the name of a scalar type or
/// of the owned text type stands for values of its kind, every other name
/// for a type that decides its own conversion.
pub open spec fn spec_named(name: Seq<char>) -> TypeReference {
    if name == "u8"@ {
        TypeReference::Of(Kind::U8)
    } else if name == "bool"@ {
        TypeReference::Of(Kind::Bool)
    } else if name == "i16"@ {
        TypeReference::Of(Kind::I16)
    } else if name == "u16"@ {
        TypeReference::Of(Kind::U16)
    } else if name == "i32"@ {
        TypeReference::Of(Kind::I32)
    } else if name == "u32"@ {
        TypeReference::Of(Kind::U32)
    } else if name == "i64"@ {
        TypeReference::Of(Kind::I64)
    } else if name == "u64"@ {
        TypeReference::Of(Kind::U64)
    } else if name == "f64"@ {
        TypeReference::Of(Kind::F64)
    } else if name == "String"@ {
        TypeReference::Of(Kind::Str)
    } else {
        TypeReference::Foreign
    }
}

impl TypeReference {
    /// The reference that a type's name stands for.
    pub fn named(name: &String) -> (reference: TypeReference)
        ensures
            reference == spec_named(name@),
    {
        if reads(name, "u8") {
            TypeReference::Of(Kind::U8)
        } else if reads(name, "bool") {
            TypeReference::Of(Kind::Bool)
        } else if reads(name, "i16") {
            TypeReference::Of(Kind::I16)
        } else if reads(name, "u16") {
            TypeReference::Of(Kind::U16)
        } else if reads(name, "i32") {
            TypeReference::Of(Kind::I32)
        } else if reads(name, "u32") {
            TypeReference::Of(Kind::U32)
        } else if reads(name, "i64") {
            TypeReference::Of(Kind::I64)
        } else if reads(name, "u64") {
            TypeReference::Of(Kind::U64)
        } else if reads(name, "f64") {
            TypeReference::Of(Kind::F64)
        } else if reads(name, "String") {
            TypeReference::Of(Kind::Str)
        } else {
            TypeReference::Foreign
        }
    }

    /// Whether a value converts into the referenced type, given what a
    /// foreign type said of it: a type of a known kind takes the values of
    /// that kind, a foreign type the values it said it takes.
    pub open spec fn admits(self, value: ValueView, verdict: bool) -> bool {
        match self {
            TypeReference::Of(kind) => value.kind() == kind,
            TypeReference::Foreign => verdict,
        }
    }

    /// Whether `value` converts into the referenced type, where `verdict` is
    /// what a foreign type said of it.
    pub fn accepts(&self, value: &Value, verdict: bool) -> (b: bool)
        ensures
            b == self.admits(value@, verdict),
    {
        match self {
            TypeReference::Of(kind) => value.kind() == *kind,
            TypeReference::Foreign => verdict,
        }
    }
}

/// A named field of a record. Fields are kept in the order of declaration.
#[derive(Debug, PartialEq, Eq)]
pub struct Field {
    pub name: String,
    pub type_reference: TypeReference,
}

/// The fields of a record or of an enumeration's member.
#[derive(Debug, PartialEq, Eq)]
pub enum Fields {
    /// `{ a: A, b: B }`
    Named(Vec<Field>),
    /// `(A, B)`
    Unnamed(Vec<TypeReference>),
    /// No field list at all.
    Unit,
}

/// A literal, as far as a discriminant is concerned.
#[derive(Debug, PartialEq, Eq)]
pub enum Literal {
    /// An integer literal, as the integer it denotes.
    Integer(i128),
    /// Any other literal, as it was written. It denotes no integer, so no
    /// scalar is equal to it.
    Other(String),
}

impl Literal {
    /// The integer that the literal denotes.
    pub open spec fn integer(self) -> Option<int> {
        match self {
            Literal::Integer(n) => Some(n as int),
            Literal::Other(_) => None,
        }
    }

    /// The same literal once more.
    pub fn copy(&self) -> (same: Literal)
        ensures
            same == *self,
    {
        match self {
            Literal::Integer(n) => Literal::Integer(*n),
            Literal::Other(text) => Literal::Other(text.clone()),
        }
    }
}

/// What stands behind the `=` of an enumeration's member.
#[derive(Debug, PartialEq, Eq)]
pub enum Discriminant {
    /// A literal.
    Literal(Literal),
    /// Any other expression.
    Expression,
}

/// One member of an enumeration.
#[derive(Debug, PartialEq, Eq)]
pub struct Variant {
    pub name: String,
    pub fields: Fields,
    pub discriminant: Option<Discriminant>,
}

/// An attribute on the type: `#[path(args)]`.
#[derive(Debug, PartialEq, Eq)]
pub struct Attribute {
    pub path: String,
    pub args: String,
}

/// The parameters that the type declares.
#[derive(Debug, PartialEq, Eq)]
pub struct Generics {
    /// The explicit lifetime parameters, in order.
    pub lifetimes: Vec<String>,
    /// The type parameters, in order.
    pub type_params: Vec<String>,
}

/// The body of a type definition.
#[derive(Debug, PartialEq, Eq)]
pub enum Data {
    Struct(Fields),
    Enum(Vec<Variant>),
    /// Any other category of type.
    Union,
}

/// A type definition, captured once and never changed afterwards.
#[derive(Debug, PartialEq, Eq)]
pub struct TypeDefinition {
    pub attrs: Vec<Attribute>,
    pub ident: String,
    pub generics: Generics,
    pub data: Data,
}

} // verus!
