//! Conversions between described composite types and a generic, self-describing
//! container, derived from a description of each type's shape.
//!
//! A type definition says what a type looks like: a record with named fields,
//! a wrapper around one field, or an enumeration whose members stand for
//! integers. From it the derivation lays down a codec, or says why the type has
//! no mapping. A codec encodes an instance of the type into a value and decodes
//! a value back into an instance, failing where the value does not have the
//! shape that the type asks for.

pub mod codec;
pub mod data;
pub mod definition;
pub mod laws;
pub mod message_fields;
pub mod value;
