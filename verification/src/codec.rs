//! Running a derived pair of conversions: encoding an instance of a type into a
//! value, and decoding a value back into an instance.
//!
//! Both are functions of their arguments alone. Encoding an instance never
//! fails. Decoding fails when the value does not have the shape that the type
//! asks for, and never makes a value fit.
//!
//! A codec decides for the fields of a known kind. A field of a foreign type
//! decides for itself: who decodes a value asks each such field's type to
//! decode the element at the field's position, and hands in how that went,
//! one outcome for each position: `None` where the type took the element,
//! and the error where it did not. A position without an outcome counts as
//! refused with `IncorrectType`.

use vstd::prelude::*;
use crate::data::{Kind, Value, ValueView};
use crate::definition::{Field, Literal, TypeReference};
use crate::value::{Codec, Repr, Shape, ShapeView, UnitVariant};

verus! {

/// Why a value does not decode.
#[derive(Structural, Clone, Copy, Debug, PartialEq, Eq)]
pub enum DecodeError {
    /// The value, or one of its elements, is not of the kind that the type
    /// asks for; or it holds no discriminant of the enumeration.
    IncorrectType,
    /// The structure has fewer elements than the record has fields.
    ArityMismatch,
}

/// An instance of a type that conversions were derived for.
#[derive(Debug, PartialEq, Eq)]
pub enum Instance {
    /// A record, as the values of its fields in the order of declaration.
    Record(Vec<Value>),
    /// A wrapper, as the value of its one field.
    Wrapper(Value),
    /// A member of an enumeration, as its position among the members.
    Unit(usize),
}

pub enum InstanceView {
    Record(Seq<Value>),
    Wrapper(ValueView),
    Unit(int),
}

impl View for Instance {
    type V = InstanceView;

    open spec fn view(&self) -> InstanceView {
        match self {
            Instance::Record(values) => InstanceView::Record(values@),
            Instance::Wrapper(value) => InstanceView::Wrapper(value@),
            Instance::Unit(index) => InstanceView::Unit(*index as int),
        }
    }
}

/// How decoding the element at position `i` went for its own type: `None`
/// where the type took it, else the error. A position without an outcome
/// counts as refused with `IncorrectType`.
pub open spec fn outcome(outcomes: Seq<Option<DecodeError>>, i: int) -> Option<DecodeError> {
    if 0 <= i < outcomes.len() {
        outcomes[i]
    } else {
        Some(DecodeError::IncorrectType)
    }
}

/// Whether the element at position `i` was taken by its own type.
pub open spec fn verdict(outcomes: Seq<Option<DecodeError>>, i: int) -> bool {
    outcome(outcomes, i) is None
}

/// Whether the first values convert, one by one, into the fields' types,
/// given what the foreign types said of them.
pub open spec fn conforms(fields: Seq<Field>, values: Seq<Value>, outcomes: Seq<Option<DecodeError>>) -> bool {
    forall|i: int|
        0 <= i < fields.len() && i < values.len() ==> (#[trigger] fields[i]).type_reference.admits(
            values[i]@,
            verdict(outcomes, i),
        )
}

/// Whether the values are, one by one, values of the fields' types. Of a
/// field of a foreign type every value is one: it is what the type's own
/// encoding gave.
pub open spec fn well_typed(fields: Seq<Field>, values: Seq<Value>) -> bool {
    forall|i: int|
        0 <= i < fields.len() && i < values.len() ==> (#[trigger] fields[i]).type_reference.admits(
            values[i]@,
            true,
        )
}

/// The position of the first member among `variants[from..]` that `n` stands
/// for.
pub open spec fn first_match(variants: Seq<UnitVariant>, n: int, from: int) -> Option<int>
    decreases variants.len() - from,
{
    if from < 0 || from >= variants.len() {
        None
    } else if variants[from].discriminant.integer() == Some(n) {
        Some(from)
    } else {
        first_match(variants, n, from + 1)
    }
}

impl Repr {
    /// The kind of scalar that carries a discriminant of this representation.
    pub open spec fn kind(self) -> Option<Kind> {
        match self {
            Repr::U8 => Some(Kind::U8),
            Repr::I16 => Some(Kind::I16),
            Repr::U16 => Some(Kind::U16),
            Repr::I32 => Some(Kind::I32),
            Repr::U32 => Some(Kind::U32),
            Repr::I64 => Some(Kind::I64),
            Repr::U64 => Some(Kind::U64),
            Repr::Other(_) => None,
        }
    }

    /// The scalar of this representation that carries `n`.
    pub open spec fn scalar(self, n: int) -> ValueView
        recommends
            self.holds(n),
    {
        match self {
            Repr::U8 => ValueView::U8(n as u8),
            Repr::I16 => ValueView::I16(n as i16),
            Repr::U16 => ValueView::U16(n as u16),
            Repr::I32 => ValueView::I32(n as i32),
            Repr::U32 => ValueView::U32(n as u32),
            Repr::I64 => ValueView::I64(n as i64),
            Repr::U64 => ValueView::U64(n as u64),
            Repr::Other(_) => arbitrary(),
        }
    }

    /// The integer that `value` carries, if it is a scalar of this
    /// representation.
    pub open spec fn carried(self, value: ValueView) -> Option<int> {
        if self.kind() == Some(value.kind()) {
            value.integer()
        } else {
            None
        }
    }

    /// Wraps a discriminant as a scalar.
    fn wrap(&self, n: i128) -> (value: Value)
        requires
            self.holds(n as int),
        ensures
            value@ == self.scalar(n as int),
    {
        match self {
            Repr::U8 => Value::U8(n as u8),
            Repr::I16 => Value::I16(n as i16),
            Repr::U16 => Value::U16(n as u16),
            Repr::I32 => Value::I32(n as i32),
            Repr::U32 => Value::U32(n as u32),
            Repr::I64 => Value::I64(n as i64),
            Repr::U64 => Value::U64(n as u64),
            Repr::Other(_) => vstd::pervasive::unreached(),
        }
    }

    /// Takes the integer out of a scalar of this representation.
    fn unwrap(&self, value: &Value) -> (n: Option<i128>)
        ensures
            match n {
                Some(n) => self.carried(value@) == Some(n as int) && self.holds(n as int),
                None => self.carried(value@) is None,
            },
    {
        match (self, value) {
            (Repr::U8, Value::U8(n)) => Some(*n as i128),
            (Repr::I16, Value::I16(n)) => Some(*n as i128),
            (Repr::U16, Value::U16(n)) => Some(*n as i128),
            (Repr::I32, Value::I32(n)) => Some(*n as i128),
            (Repr::U32, Value::U32(n)) => Some(*n as i128),
            (Repr::I64, Value::I64(n)) => Some(*n as i128),
            (Repr::U64, Value::U64(n)) => Some(*n as i128),
            _ => None,
        }
    }
}

impl ShapeView {
    /// Whether `instance` is an instance of a type of this shape.
    ///
    /// A record is one value of each field's type, a wrapper a value of its
    /// field's type. A member of an enumeration is an instance if its
    /// discriminant is an integer that the representation holds: a member
    /// with another discriminant has no scalar to stand for it.
    pub open spec fn inhabited_by(self, instance: InstanceView) -> bool {
        match (self, instance) {
            (ShapeView::NamedRecord(fields), InstanceView::Record(values)) => values.len()
                == fields.len() && well_typed(fields, values),
            (ShapeView::SingleFieldWrapper(inner), InstanceView::Wrapper(value)) => inner.admits(
                value,
                true,
            ),
            (ShapeView::UnitEnum(repr, variants), InstanceView::Unit(index)) => {
                &&& 0 <= index < variants.len()
                &&& variants[index].discriminant matches Literal::Integer(n) && repr.holds(
                    n as int,
                )
            },
            _ => false,
        }
    }

    /// The value that an instance encodes to.
    ///
    /// A record becomes a structure of its fields' values in the order of
    /// declaration, a wrapper the value of its field with nothing around it,
    /// a member of an enumeration the scalar that carries its discriminant.
    pub open spec fn encoded(self, instance: InstanceView) -> ValueView
        recommends
            self.inhabited_by(instance),
    {
        match (self, instance) {
            (ShapeView::NamedRecord(_), InstanceView::Record(values)) => ValueView::Structure(
                values,
            ),
            (ShapeView::SingleFieldWrapper(_), InstanceView::Wrapper(value)) => value,
            (ShapeView::UnitEnum(repr, variants), InstanceView::Unit(index)) => repr.scalar(
                variants[index].discriminant.integer().unwrap(),
            ),
            _ => arbitrary(),
        }
    }

    /// What a value decodes to, given how decoding went for the foreign
    /// types at their fields' positions.
    ///
    /// A record takes a structure and nothing else. A structure with fewer
    /// elements than the record has fields is an `ArityMismatch`. The fields
    /// take the structure's first elements, one each, in the order of
    /// declaration; what follows them is left alone. An element that its
    /// field's type does not take is an `IncorrectType`, whatever the type's
    /// own error was. A wrapper takes what its field takes, and fails as its
    /// field does: with `IncorrectType` for a value of another kind, and with
    /// the foreign type's own error, which stands at position 0. An
    /// enumeration takes a scalar of its representation, and the first member
    /// that the scalar stands for is the result; all else is an
    /// `IncorrectType`.
    pub open spec fn decoded(self, value: ValueView, outcomes: Seq<Option<DecodeError>>) -> Result<
        InstanceView,
        DecodeError,
    > {
        match self {
            ShapeView::NamedRecord(fields) => match value {
                ValueView::Structure(elements) => if elements.len() < fields.len() {
                    Err(DecodeError::ArityMismatch)
                } else if conforms(fields, elements, outcomes) {
                    Ok(InstanceView::Record(elements.subrange(0, fields.len() as int)))
                } else {
                    Err(DecodeError::IncorrectType)
                },
                _ => Err(DecodeError::IncorrectType),
            },
            ShapeView::SingleFieldWrapper(inner) => match inner {
                TypeReference::Of(kind) => if value.kind() == kind {
                    Ok(InstanceView::Wrapper(value))
                } else {
                    Err(DecodeError::IncorrectType)
                },
                TypeReference::Foreign => match outcome(outcomes, 0) {
                    None => Ok(InstanceView::Wrapper(value)),
                    Some(error) => Err(error),
                },
            },
            ShapeView::UnitEnum(repr, variants) => match repr.carried(value) {
                Some(n) => match first_match(variants, n, 0) {
                    Some(index) => Ok(InstanceView::Unit(index)),
                    None => Err(DecodeError::IncorrectType),
                },
                None => Err(DecodeError::IncorrectType),
            },
        }
    }
}

/// Says whether `outcome` is what decoding is to give.
pub open spec fn yields(
    outcome: Result<Instance, DecodeError>,
    expected: Result<InstanceView, DecodeError>,
) -> bool {
    match outcome {
        Ok(instance) => expected == Ok::<InstanceView, DecodeError>(instance@),
        Err(error) => expected == Err::<InstanceView, DecodeError>(error),
    }
}

/// Looks up how decoding the element at position `i` went.
fn outcome_at(outcomes: &Vec<Option<DecodeError>>, i: usize) -> (r: Option<DecodeError>)
    ensures
        r == outcome(outcomes@, i as int),
{
    if i < outcomes.len() {
        outcomes[i]
    } else {
        Some(DecodeError::IncorrectType)
    }
}

/// Says whether the first values convert into the fields' types, given at
/// least as many values as fields.
fn check_fields(fields: &Vec<Field>, values: &Vec<Value>, outcomes: &Vec<Option<DecodeError>>) -> (b: bool)
    requires
        fields@.len() <= values@.len(),
    ensures
        b == conforms(fields@, values@, outcomes@),
{
    let mut i: usize = 0;
    while i < fields.len()
        invariant
            i <= fields.len(),
            fields@.len() <= values@.len(),
            forall|j: int|
                0 <= j < i ==> (#[trigger] fields@[j]).type_reference.admits(
                    values@[j]@,
                    verdict(outcomes@, j),
                ),
        decreases fields.len() - i,
    {
        if !fields[i].type_reference.accepts(&values[i], outcome_at(outcomes, i).is_none()) {
            return false;
        }
        i += 1;
    }
    true
}

/// Says whether the values are values of the fields' types, given as many
/// values as fields.
fn check_instance(fields: &Vec<Field>, values: &Vec<Value>) -> (b: bool)
    requires
        fields@.len() == values@.len(),
    ensures
        b == well_typed(fields@, values@),
{
    let mut i: usize = 0;
    while i < fields.len()
        invariant
            i <= fields.len(),
            fields@.len() == values@.len(),
            forall|j: int|
                0 <= j < i ==> (#[trigger] fields@[j]).type_reference.admits(values@[j]@, true),
        decreases fields.len() - i,
    {
        if !fields[i].type_reference.accepts(&values[i], true) {
            return false;
        }
        i += 1;
    }
    true
}

/// Finds the first member that `n` stands for.
fn find_member(variants: &Vec<UnitVariant>, n: i128) -> (r: Option<usize>)
    ensures
        match r {
            Some(index) => {
                &&& index < variants@.len()
                &&& variants@[index as int].discriminant == Literal::Integer(n)
                &&& first_match(variants@, n as int, 0) == Some(index as int)
            },
            None => first_match(variants@, n as int, 0) is None,
        },
{
    let mut i: usize = 0;
    while i < variants.len()
        invariant
            i <= variants.len(),
            first_match(variants@, n as int, 0) == first_match(variants@, n as int, i as int),
        decreases variants.len() - i,
    {
        match &variants[i].discriminant {
            Literal::Integer(m) => {
                if *m == n {
                    return Some(i);
                }
            },
            Literal::Other(_) => {},
        }
        i += 1;
    }
    None
}

impl Codec {
    /// Whether the codec is as a derivation leaves it: a record has a field.
    pub fn is_well_formed(&self) -> (b: bool)
        ensures
            b == self@.shape.wf(),
    {
        match &self.shape {
            Shape::NamedRecord(fields) => fields.len() >= 1,
            Shape::SingleFieldWrapper(_) => true,
            Shape::UnitEnum(_, _) => true,
        }
    }

    /// Whether `instance` is an instance of the type that the conversions
    /// were derived for.
    pub fn admits(&self, instance: &Instance) -> (b: bool)
        ensures
            b == self@.shape.inhabited_by(instance@),
    {
        match (&self.shape, instance) {
            (Shape::NamedRecord(fields), Instance::Record(values)) => {
                values.len() == fields.len() && check_instance(fields, values)
            },
            (Shape::SingleFieldWrapper(inner), Instance::Wrapper(value)) => inner.accepts(
                value,
                true,
            ),
            (Shape::UnitEnum(repr, variants), Instance::Unit(index)) => {
                if *index < variants.len() {
                    match &variants[*index].discriminant {
                        Literal::Integer(n) => repr.fits(*n),
                        Literal::Other(_) => false,
                    }
                } else {
                    false
                }
            },
            _ => false,
        }
    }

    /// Encodes an instance of the type.
    pub fn encode(&self, instance: Instance) -> (value: Value)
        requires
            self@.shape.inhabited_by(instance@),
        ensures
            value@ == self@.shape.encoded(instance@),
    {
        match instance {
            Instance::Record(values) => Value::Structure(values),
            Instance::Wrapper(value) => value,
            Instance::Unit(index) => match &self.shape {
                Shape::UnitEnum(repr, variants) => match &variants[index].discriminant {
                    Literal::Integer(n) => repr.wrap(*n),
                    Literal::Other(_) => vstd::pervasive::unreached(),
                },
                _ => vstd::pervasive::unreached(),
            },
        }
    }

    /// Decodes a value into an instance of the type, or says why it is none.
    ///
    /// `outcomes[i]` says how decoding the element at position `i` went for
    /// the type of the field at that position, where that type is foreign:
    /// `None` where the type took the element, else its error. No other
    /// outcome is read.
    pub fn decode(&self, value: Value, outcomes: &Vec<Option<DecodeError>>) -> (r: Result<Instance, DecodeError>)
        ensures
            yields(r, self@.shape.decoded(value@, outcomes@)),
            r matches Ok(instance) ==> self@.shape.inhabited_by(instance@),
    {
        match &self.shape {
            Shape::NamedRecord(fields) => match value {
                Value::Structure(elements) => {
                    let mut elements = elements;
                    if elements.len() < fields.len() {
                        return Err(DecodeError::ArityMismatch);
                    }
                    if !check_fields(fields, &elements, outcomes) {
                        return Err(DecodeError::IncorrectType);
                    }
                    let ghost given = elements@;
                    elements.truncate(fields.len());
                    assert forall|i: int| 0 <= i < fields@.len() implies (#[trigger] fields@[i])
                        .type_reference.admits(elements@[i]@, true) by {
                        assert(elements@[i] == given[i]);
                        assert(fields@[i].type_reference.admits(given[i]@, verdict(outcomes@, i)));
                    }
                    Ok(Instance::Record(elements))
                },
                _ => Err(DecodeError::IncorrectType),
            },
            Shape::SingleFieldWrapper(inner) => match inner {
                TypeReference::Of(kind) => {
                    if value.kind() == *kind {
                        Ok(Instance::Wrapper(value))
                    } else {
                        Err(DecodeError::IncorrectType)
                    }
                },
                TypeReference::Foreign => match outcome_at(outcomes, 0) {
                    None => Ok(Instance::Wrapper(value)),
                    Some(error) => Err(error),
                },
            },
            Shape::UnitEnum(repr, variants) => {
                let n = match repr.unwrap(&value) {
                    Some(n) => n,
                    None => {
                        return Err(DecodeError::IncorrectType);
                    },
                };
                match find_member(variants, n) {
                    Some(index) => Ok(Instance::Unit(index)),
                    None => Err(DecodeError::IncorrectType),
                }
            },
        }
    }
}

} // verus!
