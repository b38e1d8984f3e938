//! The generic container that every described type is converted to and from.

use vstd::prelude::*;

verus! {

/// Which alternative of [`Value`] a value is.
#[derive(Structural, Clone, Copy, Debug, PartialEq, Eq, Hash)]
pub enum Kind {
    U8,
    Bool,
    I16,
    U16,
    I32,
    U32,
    I64,
    U64,
    F64,
    Str,
    Array,
    Structure,
    Variant,
}

/// A self-describing value.
///
/// A structure is positional: it holds one element per field of the type it
/// came from, in the order the fields were declared, and no field names.
#[derive(Debug, PartialEq, Eq)]
pub enum Value {
    U8(u8),
    Bool(bool),
    I16(i16),
    U16(u16),
    I32(i32),
    U32(u32),
    I64(i64),
    U64(u64),
    /// A 64-bit floating point number, held as its IEEE 754 bit pattern.
    F64(u64),
    Str(String),
    /// An ordered sequence of values.
    Array(Vec<Value>),
    /// A fixed-arity sequence of values of different kinds.
    Structure(Vec<Value>),
    /// A value together with the signature of its type.
    Variant(String, Box<Value>),
}

/// What a [`Value`] holds, one level deep: its own collection becomes a
/// sequence, the values inside stay as they are.
pub enum ValueView {
    U8(u8),
    Bool(bool),
    I16(i16),
    U16(u16),
    I32(i32),
    U32(u32),
    I64(i64),
    U64(u64),
    F64(u64),
    Str(Seq<char>),
    Array(Seq<Value>),
    Structure(Seq<Value>),
    Variant(Seq<char>, Value),
}

impl ValueView {
    pub open spec fn kind(self) -> Kind {
        match self {
            ValueView::U8(_) => Kind::U8,
            ValueView::Bool(_) => Kind::Bool,
            ValueView::I16(_) => Kind::I16,
            ValueView::U16(_) => Kind::U16,
            ValueView::I32(_) => Kind::I32,
            ValueView::U32(_) => Kind::U32,
            ValueView::I64(_) => Kind::I64,
            ValueView::U64(_) => Kind::U64,
            ValueView::F64(_) => Kind::F64,
            ValueView::Str(_) => Kind::Str,
            ValueView::Array(_) => Kind::Array,
            ValueView::Structure(_) => Kind::Structure,
            ValueView::Variant(_, _) => Kind::Variant,
        }
    }

    /// The integer that a scalar of an integer kind carries.
    pub open spec fn integer(self) -> Option<int> {
        match self {
            ValueView::U8(n) => Some(n as int),
            ValueView::I16(n) => Some(n as int),
            ValueView::U16(n) => Some(n as int),
            ValueView::I32(n) => Some(n as int),
            ValueView::U32(n) => Some(n as int),
            ValueView::I64(n) => Some(n as int),
            ValueView::U64(n) => Some(n as int),
            _ => None,
        }
    }
}

impl View for Value {
    type V = ValueView;

    open spec fn view(&self) -> ValueView {
        match self {
            Value::U8(n) => ValueView::U8(*n),
            Value::Bool(b) => ValueView::Bool(*b),
            Value::I16(n) => ValueView::I16(*n),
            Value::U16(n) => ValueView::U16(*n),
            Value::I32(n) => ValueView::I32(*n),
            Value::U32(n) => ValueView::U32(*n),
            Value::I64(n) => ValueView::I64(*n),
            Value::U64(n) => ValueView::U64(*n),
            Value::F64(bits) => ValueView::F64(*bits),
            Value::Str(s) => ValueView::Str(s@),
            Value::Array(items) => ValueView::Array(items@),
            Value::Structure(fields) => ValueView::Structure(fields@),
            Value::Variant(signature, inner) => ValueView::Variant(signature@, **inner),
        }
    }
}

impl Value {
    /// The alternative that this value is.
    pub fn kind(&self) -> (k: Kind)
        ensures
            k == self@.kind(),
    {
        match self {
            Value::U8(_) => Kind::U8,
            Value::Bool(_) => Kind::Bool,
            Value::I16(_) => Kind::I16,
            Value::U16(_) => Kind::U16,
            Value::I32(_) => Kind::I32,
            Value::U32(_) => Kind::U32,
            Value::I64(_) => Kind::I64,
            Value::U64(_) => Kind::U64,
            Value::F64(_) => Kind::F64,
            Value::Str(_) => Kind::Str,
            Value::Array(_) => Kind::Array,
            Value::Structure(_) => Kind::Structure,
            Value::Variant(_, _) => Kind::Variant,
        }
    }
}

} // verus!
