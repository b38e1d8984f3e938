//! Deriving the conversions of a type from its definition.
//!
//! The derivation runs in stages: the definition's shape is classified, the
//! shape's preconditions are checked, an enumeration's representation is
//! resolved, and the conversions are laid down as a [`Codec`]. A stage either
//! hands on to the next or ends the derivation with a [`GenerationError`];
//! nothing is derived in part.

use vstd::prelude::*;
use crate::definition::{
    reads, Attribute, Data, Discriminant, Field, Fields, Generics, Literal, TypeDefinition,
    TypeReference, Variant,
};

verus! {

/// The flavour of container that the conversions are derived for.
#[derive(Structural, Clone, Copy, Debug, PartialEq, Eq)]
pub enum ValueType {
    /// The container that borrows from the buffer it was read from.
    Value,
    /// The container that owns all it holds.
    OwnedValue,
}

/// Why nothing can be derived for a definition.
#[derive(Structural, Clone, Copy, Debug, PartialEq, Eq)]
pub enum GenerationError {
    /// The definition has no mapping to a value.
    UnsupportedShape,
    /// The borrowing container has one lifetime; the type declares more.
    TooManyLifetimes,
    /// A member of an enumeration has no discriminant, or one that is not a
    /// literal.
    MissingOrInvalidDiscriminant,
}

/// Why a body has none of the three shapes.
#[derive(Structural, Clone, Copy, Debug, PartialEq, Eq)]
pub enum Refusal {
    /// It is neither a record nor an enumeration.
    NeitherRecordNorEnumeration,
    /// It is a record without fields.
    NoFields,
    /// It is a record with several unnamed fields.
    SeveralUnnamedFields,
    /// It is an enumeration, and the member at this position is the first
    /// that has fields.
    MemberWithFields(usize),
}

/// The three shapes that conversions can be derived for.
#[derive(Structural, Clone, Copy, Debug, PartialEq, Eq)]
pub enum ShapeKind {
    NamedRecord,
    SingleFieldWrapper,
    UnitEnum,
}

/// The type that carries an enumeration's discriminant.
#[derive(Debug, PartialEq, Eq)]
pub enum Repr {
    U8,
    I16,
    U16,
    I32,
    U32,
    I64,
    U64,
    /// What the annotation names where it names none of the integer types
    /// that the container has a scalar for. No value carries a discriminant
    /// of such a type, and no member encodes.
    Other(String),
}

/// The lifetime of the container in the derived conversions.
#[derive(Debug, PartialEq, Eq)]
pub enum ValueLifetime {
    /// The type declares no lifetime, or the container owns its contents.
    Static,
    /// The type's own lifetime parameter.
    Named(String),
}

/// The direction of a conversion that a type parameter must offer.
#[derive(Structural, Clone, Copy, Debug, PartialEq, Eq)]
pub enum Conversion {
    /// The parameter can be made from a value.
    FromValue,
    /// The parameter can be turned into a value.
    IntoValue,
}

/// What a derived conversion asks of one type parameter.
#[derive(Debug, PartialEq, Eq)]
pub struct Constraint {
    pub parameter: String,
    pub conversion: Conversion,
    /// The parameter can tell the signature of its own values.
    pub self_describing: bool,
}

/// A member of an enumeration together with the literal that stands for it.
#[derive(Debug, PartialEq, Eq)]
pub struct UnitVariant {
    pub name: String,
    pub discriminant: Literal,
}

/// How the instances of a type are laid out in a value.
#[derive(Debug, PartialEq, Eq)]
pub enum Shape {
    /// A structure with one element per field, in the order of declaration.
    NamedRecord(Vec<Field>),
    /// The inner value, with nothing wrapped around it.
    SingleFieldWrapper(TypeReference),
    /// A scalar of the given representation that holds the discriminant.
    UnitEnum(Repr, Vec<UnitVariant>),
}

/// The pair of conversions derived for one type.
#[derive(Debug, PartialEq, Eq)]
pub struct Codec {
    pub name: String,
    pub value_type: ValueType,
    pub lifetime: ValueLifetime,
    /// What decoding asks of the type parameters, one entry for each.
    pub decode_constraints: Vec<Constraint>,
    /// What encoding asks of the type parameters, one entry for each.
    pub encode_constraints: Vec<Constraint>,
    pub shape: Shape,
}

pub enum ShapeView {
    NamedRecord(Seq<Field>),
    SingleFieldWrapper(TypeReference),
    UnitEnum(Repr, Seq<UnitVariant>),
}

pub struct CodecView {
    pub name: String,
    pub value_type: ValueType,
    pub lifetime: ValueLifetime,
    pub decode_constraints: Seq<Constraint>,
    pub encode_constraints: Seq<Constraint>,
    pub shape: ShapeView,
}

impl Repr {
    /// Whether the representation can hold `n`.
    pub open spec fn holds(self, n: int) -> bool {
        match self {
            Repr::U8 => 0 <= n <= 0xff,
            Repr::I16 => -0x8000 <= n <= 0x7fff,
            Repr::U16 => 0 <= n <= 0xffff,
            Repr::I32 => -0x8000_0000 <= n <= 0x7fff_ffff,
            Repr::U32 => 0 <= n <= 0xffff_ffff,
            Repr::I64 => -0x8000_0000_0000_0000 <= n <= 0x7fff_ffff_ffff_ffff,
            Repr::U64 => 0 <= n <= 0xffff_ffff_ffff_ffff,
            Repr::Other(_) => false,
        }
    }
}

impl ShapeView {
    pub open spec fn kind(self) -> ShapeKind {
        match self {
            ShapeView::NamedRecord(_) => ShapeKind::NamedRecord,
            ShapeView::SingleFieldWrapper(_) => ShapeKind::SingleFieldWrapper,
            ShapeView::UnitEnum(_, _) => ShapeKind::UnitEnum,
        }
    }

    /// A record has a field.
    pub open spec fn wf(self) -> bool {
        match self {
            ShapeView::NamedRecord(fields) => fields.len() >= 1,
            ShapeView::SingleFieldWrapper(_) => true,
            ShapeView::UnitEnum(_, _) => true,
        }
    }
}

impl View for Shape {
    type V = ShapeView;

    open spec fn view(&self) -> ShapeView {
        match self {
            Shape::NamedRecord(fields) => ShapeView::NamedRecord(fields@),
            Shape::SingleFieldWrapper(inner) => ShapeView::SingleFieldWrapper(*inner),
            Shape::UnitEnum(repr, variants) => ShapeView::UnitEnum(*repr, variants@),
        }
    }
}

impl View for Codec {
    type V = CodecView;

    open spec fn view(&self) -> CodecView {
        CodecView {
            name: self.name,
            value_type: self.value_type,
            lifetime: self.lifetime,
            decode_constraints: self.decode_constraints@,
            encode_constraints: self.encode_constraints@,
            shape: self.shape@,
        }
    }
}

/// Whether the container of the given flavour has room for the lifetimes that
/// a type declares: the borrowing container has room for one.
pub open spec fn lifetimes_admitted(value_type: ValueType, lifetimes: Seq<String>) -> bool {
    value_type is OwnedValue || lifetimes.len() <= 1
}

/// The container's lifetime: the type's own where the container borrows and
/// the type declares one, the static lifetime otherwise.
pub open spec fn spec_value_lifetime(value_type: ValueType, lifetimes: Seq<String>) -> ValueLifetime {
    if value_type is Value && lifetimes.len() >= 1 {
        ValueLifetime::Named(lifetimes[0])
    } else {
        ValueLifetime::Static
    }
}

/// One constraint for each type parameter, in the parameters' order: the
/// parameter converts in the given direction and describes itself.
pub open spec fn spec_constraints(parameters: Seq<String>, conversion: Conversion) -> Seq<Constraint> {
    Seq::new(
        parameters.len(),
        |i: int| Constraint { parameter: parameters[i], conversion, self_describing: true },
    )
}

/// The conversions of a type of the given shape, once the shape is settled.
pub open spec fn assembled(
    value_type: ValueType,
    name: String,
    generics: Generics,
    shape: ShapeView,
) -> CodecView {
    CodecView {
        name,
        value_type,
        lifetime: spec_value_lifetime(value_type, generics.lifetimes@),
        decode_constraints: spec_constraints(generics.type_params@, Conversion::FromValue),
        encode_constraints: spec_constraints(generics.type_params@, Conversion::IntoValue),
        shape,
    }
}

/// The shape of a record: a record with named fields has at least one, a
/// record with unnamed fields exactly one. No other record has a shape.
pub open spec fn struct_shape(fields: Fields) -> Option<ShapeView> {
    match fields {
        Fields::Named(named) => if named@.len() >= 1 {
            Some(ShapeView::NamedRecord(named@))
        } else {
            None
        },
        Fields::Unnamed(types) => if types@.len() == 1 {
            Some(ShapeView::SingleFieldWrapper(types@[0]))
        } else {
            None
        },
        Fields::Unit => None,
    }
}

/// What [`impl_struct`] derives: the shape is looked at first, the lifetimes
/// second.
pub open spec fn derived_struct(
    value_type: ValueType,
    name: String,
    generics: Generics,
    fields: Fields,
) -> Result<CodecView, GenerationError> {
    match struct_shape(fields) {
        None => Err(GenerationError::UnsupportedShape),
        Some(shape) => if lifetimes_admitted(value_type, generics.lifetimes@) {
            Ok(assembled(value_type, name, generics, shape))
        } else {
            Err(GenerationError::TooManyLifetimes)
        },
    }
}

/// Says whether `outcome` is what the derivation is to give.
pub open spec fn gives(
    outcome: Result<Codec, GenerationError>,
    expected: Result<CodecView, GenerationError>,
) -> bool {
    match outcome {
        Ok(codec) => expected == Ok::<CodecView, GenerationError>(codec@),
        Err(error) => expected == Err::<CodecView, GenerationError>(error),
    }
}

/// Picks the lifetime of the container, or refuses a type that declares more
/// lifetimes than the container has room for.
pub fn value_lifetime(value_type: ValueType, lifetimes: &Vec<String>) -> (r: Result<
    ValueLifetime,
    GenerationError,
>)
    ensures
        match r {
            Ok(lifetime) => lifetimes_admitted(value_type, lifetimes@) && lifetime
                == spec_value_lifetime(value_type, lifetimes@),
            Err(error) => !lifetimes_admitted(value_type, lifetimes@) && error
                == GenerationError::TooManyLifetimes,
        },
{
    match value_type {
        ValueType::Value => {
            if lifetimes.len() > 1 {
                Err(GenerationError::TooManyLifetimes)
            } else if lifetimes.len() == 1 {
                Ok(ValueLifetime::Named(lifetimes[0].clone()))
            } else {
                Ok(ValueLifetime::Static)
            }
        },
        ValueType::OwnedValue => Ok(ValueLifetime::Static),
    }
}

/// Pairs each type parameter with what a conversion in the given direction
/// asks of it.
pub fn constraints(parameters: &Vec<String>, conversion: Conversion) -> (out: Vec<Constraint>)
    ensures
        out@ == spec_constraints(parameters@, conversion),
{
    let mut out: Vec<Constraint> = Vec::new();
    let mut i: usize = 0;
    while i < parameters.len()
        invariant
            i <= parameters.len(),
            out@.len() == i,
            forall|j: int|
                0 <= j < i ==> out@[j] == (Constraint {
                    parameter: parameters@[j],
                    conversion,
                    self_describing: true,
                }),
        decreases parameters.len() - i,
    {
        out.push(Constraint { parameter: parameters[i].clone(), conversion, self_describing: true });
        i += 1;
    }
    assert(out@ =~= spec_constraints(parameters@, conversion));
    out
}

/// Lays down the conversions of a type whose shape and lifetime are settled.
fn assemble(
    value_type: ValueType,
    name: String,
    lifetime: ValueLifetime,
    type_params: &Vec<String>,
    shape: Shape,
) -> (codec: Codec)
    ensures
        codec@ == (CodecView {
            name,
            value_type,
            lifetime,
            decode_constraints: spec_constraints(type_params@, Conversion::FromValue),
            encode_constraints: spec_constraints(type_params@, Conversion::IntoValue),
            shape: shape@,
        }),
{
    let decode_constraints = constraints(type_params, Conversion::FromValue);
    let encode_constraints = constraints(type_params, Conversion::IntoValue);
    Codec { name, value_type, lifetime, decode_constraints, encode_constraints, shape }
}

/// Derives the conversions of a record.
///
/// A record with named fields becomes a structure of its fields; it needs at
/// least one. A record with exactly one unnamed field is transparent: it
/// converts as that field does. Every other record is refused with
/// `UnsupportedShape`. Where the container borrows, the type may declare one
/// lifetime: a second is refused with `TooManyLifetimes`. Each type parameter
/// gets one constraint for decoding and one for encoding.
pub fn impl_struct(
    value_type: ValueType,
    name: String,
    generics: Generics,
    fields: Fields,
) -> (r: Result<Codec, GenerationError>)
    ensures
        gives(r, derived_struct(value_type, name, generics, fields)),
        r matches Ok(codec) ==> codec@.shape.wf(),
{
    let shape = match fields {
        Fields::Named(named) => {
            if named.len() == 0 {
                return Err(GenerationError::UnsupportedShape);
            }
            Shape::NamedRecord(named)
        },
        Fields::Unnamed(types) => {
            if types.len() != 1 {
                return Err(GenerationError::UnsupportedShape);
            }
            Shape::SingleFieldWrapper(types[0])
        },
        Fields::Unit => {
            return Err(GenerationError::UnsupportedShape);
        },
    };
    match value_lifetime(value_type, &generics.lifetimes) {
        Ok(lifetime) => Ok(assemble(value_type, name, lifetime, &generics.type_params, shape)),
        Err(error) => Err(error),
    }
}

/// Whether every member of an enumeration is without fields.
pub open spec fn all_unit(variants: Seq<Variant>) -> bool {
    forall|i: int| 0 <= i < variants.len() ==> (#[trigger] variants[i]).fields is Unit
}

/// The literal that a member was given, if it was given one.
pub open spec fn literal(variant: Variant) -> Option<Literal> {
    match variant.discriminant {
        Some(Discriminant::Literal(literal)) => Some(literal),
        _ => None,
    }
}

/// Whether every member of an enumeration was given a literal.
pub open spec fn all_literal(variants: Seq<Variant>) -> bool {
    forall|i: int| 0 <= i < variants.len() ==> literal(#[trigger] variants[i]) is Some
}

/// The members with their literals, in the order of declaration.
pub open spec fn unit_variants(variants: Seq<Variant>) -> Seq<UnitVariant> {
    Seq::new(
        variants.len(),
        |i: int| UnitVariant { name: variants[i].name, discriminant: literal(variants[i]).unwrap() },
    )
}

/// The representation that an annotation's argument names.
pub open spec fn spec_parse_repr(args: String) -> Repr {
    if args@ == "u8"@ {
        Repr::U8
    } else if args@ == "i16"@ {
        Repr::I16
    } else if args@ == "u16"@ {
        Repr::U16
    } else if args@ == "i32"@ {
        Repr::I32
    } else if args@ == "u32"@ {
        Repr::U32
    } else if args@ == "i64"@ {
        Repr::I64
    } else if args@ == "u64"@ {
        Repr::U64
    } else {
        Repr::Other(args)
    }
}

/// The argument of the first `repr` annotation among `attrs[from..]`.
pub open spec fn declared_repr(attrs: Seq<Attribute>, from: int) -> Option<String>
    decreases attrs.len() - from,
{
    if from < 0 || from >= attrs.len() {
        None
    } else if attrs[from].path@ == "repr"@ {
        Some(attrs[from].args)
    } else {
        declared_repr(attrs, from + 1)
    }
}

/// The representation of an enumeration with these attributes: the one that
/// its first `repr` annotation names, and a 32-bit unsigned integer where it
/// has no such annotation.
pub open spec fn spec_resolve_repr(attrs: Seq<Attribute>) -> Repr {
    match declared_repr(attrs, 0) {
        Some(args) => spec_parse_repr(args),
        None => Repr::U32,
    }
}

/// What [`impl_enum`] derives. The members' fields are looked at first, then
/// the discriminants, then the lifetimes. An enumeration that passes the
/// three is derived, with the representation that its attributes resolve to.
pub open spec fn derived_enum(
    value_type: ValueType,
    name: String,
    generics: Generics,
    attrs: Seq<Attribute>,
    variants: Seq<Variant>,
) -> Result<CodecView, GenerationError> {
    if !all_unit(variants) {
        Err(GenerationError::UnsupportedShape)
    } else if !all_literal(variants) {
        Err(GenerationError::MissingOrInvalidDiscriminant)
    } else if !lifetimes_admitted(value_type, generics.lifetimes@) {
        Err(GenerationError::TooManyLifetimes)
    } else {
        Ok(
            assembled(
                value_type,
                name,
                generics,
                ShapeView::UnitEnum(spec_resolve_repr(attrs), unit_variants(variants)),
            ),
        )
    }
}

/// The position of the first member among `variants[from..]` that has
/// fields.
pub open spec fn first_with_fields(variants: Seq<Variant>, from: int) -> Option<int>
    decreases variants.len() - from,
{
    if from < 0 || from >= variants.len() {
        None
    } else if !(variants[from].fields is Unit) {
        Some(from)
    } else {
        first_with_fields(variants, from + 1)
    }
}

/// Why a body has none of the three shapes; `None` where it has one.
pub open spec fn spec_refusal(data: Data) -> Option<Refusal> {
    match data {
        Data::Struct(Fields::Named(named)) => if named@.len() == 0 {
            Some(Refusal::NoFields)
        } else {
            None
        },
        Data::Struct(Fields::Unnamed(types)) => if types@.len() == 0 {
            Some(Refusal::NoFields)
        } else if types@.len() == 1 {
            None
        } else {
            Some(Refusal::SeveralUnnamedFields)
        },
        Data::Struct(Fields::Unit) => Some(Refusal::NoFields),
        Data::Enum(variants) => match first_with_fields(variants@, 0) {
            Some(position) => Some(Refusal::MemberWithFields(position as usize)),
            None => None,
        },
        Data::Union => Some(Refusal::NeitherRecordNorEnumeration),
    }
}

/// The shape that a type's body falls under.
pub open spec fn spec_classify(data: Data) -> Result<ShapeKind, GenerationError> {
    match data {
        Data::Struct(fields) => match struct_shape(fields) {
            Some(shape) => Ok(shape.kind()),
            None => Err(GenerationError::UnsupportedShape),
        },
        Data::Enum(variants) => if all_unit(variants@) {
            Ok(ShapeKind::UnitEnum)
        } else {
            Err(GenerationError::UnsupportedShape)
        },
        Data::Union => Err(GenerationError::UnsupportedShape),
    }
}

/// What [`expand_derive`] derives for a definition.
pub open spec fn derived(ast: TypeDefinition, value_type: ValueType) -> Result<
    CodecView,
    GenerationError,
> {
    match ast.data {
        Data::Struct(fields) => derived_struct(value_type, ast.ident, ast.generics, fields),
        Data::Enum(variants) => derived_enum(
            value_type,
            ast.ident,
            ast.generics,
            ast.attrs@,
            variants@,
        ),
        Data::Union => Err(GenerationError::UnsupportedShape),
    }
}

impl Repr {
    /// Reads the argument of a `repr` annotation.
    pub fn parse(args: &String) -> (r: Repr)
        ensures
            r == spec_parse_repr(*args),
    {
        if reads(args, "u8") {
            Repr::U8
        } else if reads(args, "i16") {
            Repr::I16
        } else if reads(args, "u16") {
            Repr::U16
        } else if reads(args, "i32") {
            Repr::I32
        } else if reads(args, "u32") {
            Repr::U32
        } else if reads(args, "i64") {
            Repr::I64
        } else if reads(args, "u64") {
            Repr::U64
        } else {
            Repr::Other(args.clone())
        }
    }

    /// Whether the representation can hold `n`.
    pub fn fits(&self, n: i128) -> (b: bool)
        ensures
            b == self.holds(n as int),
    {
        match self {
            Repr::U8 => 0 <= n && n <= 0xff,
            Repr::I16 => -0x8000 <= n && n <= 0x7fff,
            Repr::U16 => 0 <= n && n <= 0xffff,
            Repr::I32 => -0x8000_0000 <= n && n <= 0x7fff_ffff,
            Repr::U32 => 0 <= n && n <= 0xffff_ffff,
            Repr::I64 => -0x8000_0000_0000_0000 <= n && n <= 0x7fff_ffff_ffff_ffff,
            Repr::U64 => 0 <= n && n <= 0xffff_ffff_ffff_ffff,
            Repr::Other(_) => false,
        }
    }
}

/// Resolves the type that carries an enumeration's discriminant.
///
/// The first `repr` annotation decides; without one the discriminant is a
/// 32-bit unsigned integer.
pub fn resolve_repr(attrs: &Vec<Attribute>) -> (r: Repr)
    ensures
        r == spec_resolve_repr(attrs@),
{
    let mut i: usize = 0;
    while i < attrs.len()
        invariant
            i <= attrs.len(),
            declared_repr(attrs@, 0) == declared_repr(attrs@, i as int),
        decreases attrs.len() - i,
    {
        if reads(&attrs[i].path, "repr") {
            return Repr::parse(&attrs[i].args);
        }
        i += 1;
    }
    Repr::U32
}

/// Says whether every member of an enumeration is without fields.
fn has_only_units(variants: &Vec<Variant>) -> (b: bool)
    ensures
        b == all_unit(variants@),
{
    let mut i: usize = 0;
    while i < variants.len()
        invariant
            i <= variants.len(),
            forall|j: int| 0 <= j < i ==> (#[trigger] variants@[j]).fields is Unit,
        decreases variants.len() - i,
    {
        match &variants[i].fields {
            Fields::Unit => {},
            _ => {
                return false;
            },
        }
        i += 1;
    }
    true
}

/// Pairs each member with its literal; `None` where a member has none.
fn with_literals(variants: &Vec<Variant>) -> (r: Option<Vec<UnitVariant>>)
    ensures
        match r {
            Some(out) => all_literal(variants@) && out@ == unit_variants(variants@),
            None => !all_literal(variants@),
        },
{
    let mut out: Vec<UnitVariant> = Vec::new();
    let mut i: usize = 0;
    while i < variants.len()
        invariant
            i <= variants.len(),
            out@.len() == i,
            forall|j: int| 0 <= j < i ==> literal(#[trigger] variants@[j]) is Some,
            forall|j: int|
                0 <= j < i ==> out@[j] == (UnitVariant {
                    name: variants@[j].name,
                    discriminant: literal(variants@[j]).unwrap(),
                }),
        decreases variants.len() - i,
    {
        match &variants[i].discriminant {
            Some(Discriminant::Literal(literal)) => {
                out.push(
                    UnitVariant { name: variants[i].name.clone(), discriminant: literal.copy() },
                );
            },
            _ => {
                assert(literal(variants@[i as int]) is None);
                return None;
            },
        }
        i += 1;
    }
    assert(out@ =~= unit_variants(variants@));
    Some(out)
}

/// Derives the conversions of an enumeration.
///
/// An enumeration converts as the integer that stands for each member. A
/// member with fields has no such integer: the enumeration is refused with
/// `UnsupportedShape`. Each member must be given a literal, else the
/// enumeration is refused with `MissingOrInvalidDiscriminant`, whatever its
/// lifetimes are; two members may be given the same. Where the container
/// borrows, an enumeration whose members all have literals may declare one
/// lifetime: a second is refused with `TooManyLifetimes`. The integer's type
/// is the one that the first `repr` annotation names, and a 32-bit unsigned
/// integer without one.
pub fn impl_enum(
    value_type: ValueType,
    name: String,
    generics: Generics,
    attrs: Vec<Attribute>,
    variants: Vec<Variant>,
) -> (r: Result<Codec, GenerationError>)
    ensures
        gives(r, derived_enum(value_type, name, generics, attrs@, variants@)),
        r matches Ok(codec) ==> codec@.shape.wf(),
{
    if !has_only_units(&variants) {
        return Err(GenerationError::UnsupportedShape);
    }
    let members = match with_literals(&variants) {
        Some(members) => members,
        None => {
            return Err(GenerationError::MissingOrInvalidDiscriminant);
        },
    };
    let lifetime = match value_lifetime(value_type, &generics.lifetimes) {
        Ok(lifetime) => lifetime,
        Err(error) => {
            return Err(error);
        },
    };
    let repr = resolve_repr(&attrs);
    Ok(assemble(value_type, name, lifetime, &generics.type_params, Shape::UnitEnum(repr, members)))
}

/// Whether a member behind `from` has fields goes with what looking for one
/// finds.
pub proof fn lemma_first_with_fields(variants: Seq<Variant>, from: int)
    requires
        0 <= from,
    ensures
        match first_with_fields(variants, from) {
            Some(position) => {
                &&& from <= position < variants.len()
                &&& !(variants[position].fields is Unit)
                &&& forall|j: int| from <= j < position ==> (#[trigger] variants[j]).fields is Unit
            },
            None => forall|j: int|
                from <= j < variants.len() ==> (#[trigger] variants[j]).fields is Unit,
        },
    decreases variants.len() - from,
{
    if from < variants.len() && variants[from].fields is Unit {
        lemma_first_with_fields(variants, from + 1);
    }
}

/// Finds the first member that has fields.
fn member_with_fields(variants: &Vec<Variant>) -> (r: Option<usize>)
    ensures
        match r {
            Some(position) => first_with_fields(variants@, 0) == Some(position as int)
                && !all_unit(variants@),
            None => first_with_fields(variants@, 0) is None && all_unit(variants@),
        },
{
    proof {
        lemma_first_with_fields(variants@, 0);
    }
    let mut i: usize = 0;
    while i < variants.len()
        invariant
            i <= variants.len(),
            first_with_fields(variants@, 0) == first_with_fields(variants@, i as int),
        decreases variants.len() - i,
    {
        match &variants[i].fields {
            Fields::Unit => {},
            _ => {
                return Some(i);
            },
        }
        i += 1;
    }
    None
}

/// Says why a type's body has none of the three shapes, for a message to
/// the type's author; `None` where it has one.
pub fn refusal(data: &Data) -> (r: Option<Refusal>)
    ensures
        r == spec_refusal(*data),
        r is Some <==> spec_classify(*data) is Err,
{
    match data {
        Data::Struct(Fields::Named(named)) => {
            if named.len() == 0 {
                Some(Refusal::NoFields)
            } else {
                None
            }
        },
        Data::Struct(Fields::Unnamed(types)) => {
            if types.len() == 0 {
                Some(Refusal::NoFields)
            } else if types.len() == 1 {
                None
            } else {
                Some(Refusal::SeveralUnnamedFields)
            }
        },
        Data::Struct(Fields::Unit) => Some(Refusal::NoFields),
        Data::Enum(variants) => match member_with_fields(variants) {
            Some(position) => Some(Refusal::MemberWithFields(position)),
            None => None,
        },
        Data::Union => Some(Refusal::NeitherRecordNorEnumeration),
    }
}

/// Says which of the three shapes a type's body falls under.
///
/// A record with at least one named field is a `NamedRecord`, a record with
/// exactly one unnamed field a `SingleFieldWrapper`, an enumeration whose
/// members all have no fields a `UnitEnum`. Everything else is refused with
/// `UnsupportedShape`.
pub fn classify(data: &Data) -> (r: Result<ShapeKind, GenerationError>)
    ensures
        r == spec_classify(*data),
{
    match data {
        Data::Struct(Fields::Named(named)) => {
            if named.len() >= 1 {
                Ok(ShapeKind::NamedRecord)
            } else {
                Err(GenerationError::UnsupportedShape)
            }
        },
        Data::Struct(Fields::Unnamed(types)) => {
            if types.len() == 1 {
                Ok(ShapeKind::SingleFieldWrapper)
            } else {
                Err(GenerationError::UnsupportedShape)
            }
        },
        Data::Struct(Fields::Unit) => Err(GenerationError::UnsupportedShape),
        Data::Enum(variants) => {
            if has_only_units(variants) {
                Ok(ShapeKind::UnitEnum)
            } else {
                Err(GenerationError::UnsupportedShape)
            }
        },
        Data::Union => Err(GenerationError::UnsupportedShape),
    }
}

/// Derives the conversions of a type from its definition, for the given
/// flavour of container.
///
/// The outcome is the whole derivation or an error. A definition is refused
/// with `UnsupportedShape` exactly if [`classify`] refuses it, whatever else
/// is wrong with it, and what is derived has the shape that [`classify`]
/// names.
pub fn expand_derive(ast: TypeDefinition, value_type: ValueType) -> (r: Result<
    Codec,
    GenerationError,
>)
    ensures
        gives(r, derived(ast, value_type)),
        spec_classify(ast.data) is Err <==> r == Err::<Codec, GenerationError>(
            GenerationError::UnsupportedShape,
        ),
        r matches Ok(codec) ==> codec@.shape.wf() && spec_classify(ast.data) == Ok::<
            ShapeKind,
            GenerationError,
        >(codec@.shape.kind()),
{
    match ast.data {
        Data::Struct(fields) => impl_struct(value_type, ast.ident, ast.generics, fields),
        Data::Enum(variants) => impl_enum(value_type, ast.ident, ast.generics, ast.attrs, variants),
        Data::Union => Err(GenerationError::UnsupportedShape),
    }
}

} // verus!
