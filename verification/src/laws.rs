//! What holds of deriving, encoding and decoding, for every type and every
//! value.

use vstd::prelude::*;
use crate::codec::{
    conforms, first_match, outcome, verdict, well_typed, DecodeError, InstanceView,
};
use crate::data::{Value, ValueView};
use crate::definition::{
    Attribute, Field, Fields, Generics, TypeDefinition, TypeReference, Variant,
};
use crate::value::{
    all_literal, all_unit, derived, derived_enum, derived_struct, lifetimes_admitted,
    spec_classify, CodecView, GenerationError, Repr, ShapeView, UnitVariant, ValueType,
};

verus! {

/// Whether no member declared before `variants[index]` has its discriminant.
pub open spec fn declared_first(variants: Seq<UnitVariant>, index: int) -> bool {
    &&& 0 <= index < variants.len()
    &&& forall|j: int|
        0 <= j < index ==> (#[trigger] variants[j]).discriminant.integer()
            != variants[index].discriminant.integer()
}

/// The position that `k` goes to where `i` and `j` change places.
pub open spec fn exchange(k: int, i: int, j: int) -> int {
    if k == i {
        j
    } else if k == j {
        i
    } else {
        k
    }
}

/// `s` with the items at `i` and `j` exchanged; `s` itself where one of the
/// two is no position of `s`.
pub open spec fn swapped<T>(s: Seq<T>, i: int, j: int) -> Seq<T> {
    if 0 <= i < s.len() && 0 <= j < s.len() {
        s.update(i, s[j]).update(j, s[i])
    } else {
        s
    }
}

/// The outcomes with those on the positions `i` and `j` exchanged, a missing
/// outcome being a refusal.
pub open spec fn swapped_outcomes(outcomes: Seq<Option<DecodeError>>, i: int, j: int) -> Seq<Option<DecodeError>> {
    let reach = if i > j {
        i + 1
    } else {
        j + 1
    };
    let len = if outcomes.len() > reach {
        outcomes.len() as int
    } else {
        reach
    };
    Seq::new(len as nat, |k: int| outcome(outcomes, exchange(k, i, j)))
}

/// Whether each foreign type takes the element at its field's position.
pub open spec fn foreign_accepted(shape: ShapeView, outcomes: Seq<Option<DecodeError>>) -> bool {
    match shape {
        ShapeView::NamedRecord(fields) => forall|i: int|
            0 <= i < fields.len() && (#[trigger] fields[i]).type_reference is Foreign ==> verdict(
                outcomes,
                i,
            ),
        ShapeView::SingleFieldWrapper(inner) => inner is Foreign ==> verdict(outcomes, 0),
        ShapeView::UnitEnum(_, _) => true,
    }
}

/// A definition is refused with `UnsupportedShape` exactly if it falls under
/// none of the three shapes: it is neither a record nor an enumeration, a
/// record without fields, a record with several unnamed fields, or an
/// enumeration with a member that has fields.
pub proof fn lemma_unsupported_only_by_shape(ast: TypeDefinition, value_type: ValueType)
    ensures
        derived(ast, value_type) == Err::<CodecView, GenerationError>(
            GenerationError::UnsupportedShape,
        ) <==> spec_classify(ast.data) is Err,
        derived(ast, value_type) matches Ok(codec) ==> spec_classify(ast.data) == Ok::<
            _,
            GenerationError,
        >(codec.shape.kind()),
{
}

/// An enumeration of members without fields is refused with
/// `MissingOrInvalidDiscriminant` exactly if one of its members was given no
/// literal, whatever its lifetimes are. One whose members all have literals
/// is refused only for its lifetimes, with `TooManyLifetimes`. Which literals
/// the members were given, and what the `repr` annotation names, refuses
/// none.
pub proof fn lemma_enum_refused_only_without_literal(
    value_type: ValueType,
    name: String,
    generics: Generics,
    attrs: Seq<Attribute>,
    variants: Seq<Variant>,
)
    requires
        all_unit(variants),
    ensures
        !all_literal(variants) <==> derived_enum(value_type, name, generics, attrs, variants)
            == Err::<CodecView, GenerationError>(GenerationError::MissingOrInvalidDiscriminant),
        all_literal(variants) && !lifetimes_admitted(value_type, generics.lifetimes@)
            <==> derived_enum(value_type, name, generics, attrs, variants) == Err::<
            CodecView,
            GenerationError,
        >(GenerationError::TooManyLifetimes),
        all_literal(variants) && lifetimes_admitted(value_type, generics.lifetimes@)
            <==> derived_enum(value_type, name, generics, attrs, variants) is Ok,
{
}

/// The conversions derived for a record with named fields take the fields as
/// they were declared: the same fields, in the same order.
pub proof fn lemma_declared_order_is_kept(
    value_type: ValueType,
    name: String,
    generics: Generics,
    fields: Fields,
    codec: CodecView,
)
    requires
        fields is Named,
        derived_struct(value_type, name, generics, fields) == Ok::<CodecView, GenerationError>(
            codec,
        ),
    ensures
        fields matches Fields::Named(named) && codec.shape == ShapeView::NamedRecord(named@),
{
}

/// Looking for `n` from `from` on finds the first member at or behind `from`
/// that `n` stands for.
pub proof fn lemma_first_match_finds(variants: Seq<UnitVariant>, n: int, from: int, index: int)
    requires
        0 <= from <= index < variants.len(),
        variants[index].discriminant.integer() == Some(n),
        forall|j: int|
            from <= j < index ==> (#[trigger] variants[j]).discriminant.integer() != Some(n),
    ensures
        first_match(variants, n, from) == Some(index),
    decreases index - from,
{
    if from < index {
        lemma_first_match_finds(variants, n, from + 1, index);
    }
}

/// What looking for `n` finds is the first member that `n` stands for, and it
/// finds nothing only where `n` stands for no member.
pub proof fn lemma_first_match_is_first(variants: Seq<UnitVariant>, n: int, from: int)
    requires
        0 <= from,
    ensures
        match first_match(variants, n, from) {
            Some(index) => {
                &&& from <= index < variants.len()
                &&& variants[index].discriminant.integer() == Some(n)
                &&& forall|j: int|
                    from <= j < index ==> (#[trigger] variants[j]).discriminant.integer() != Some(
                        n,
                    )
            },
            None => forall|j: int|
                from <= j < variants.len() ==> (#[trigger] variants[j]).discriminant.integer()
                    != Some(n),
        },
    decreases variants.len() - from,
{
    if from < variants.len() && variants[from].discriminant.integer() != Some(n) {
        lemma_first_match_is_first(variants, n, from + 1);
    }
}

/// A scalar carries the integer it was made of.
pub proof fn lemma_scalar_carries(repr: Repr, n: int)
    requires
        repr.holds(n),
    ensures
        repr.carried(repr.scalar(n)) == Some(n),
        repr.kind() == Some(repr.scalar(n).kind()),
{
}

/// What a scalar carries is an integer that its representation holds.
pub proof fn lemma_carried_is_held(repr: Repr, value: ValueView)
    ensures
        repr.carried(value) matches Some(n) ==> repr.holds(n),
{
}

/// An annotation that names no integer type of the container refuses no
/// enumeration, but leaves it without instances: no value decodes, and no
/// member encodes.
pub proof fn lemma_representation_without_scalar(
    repr: Repr,
    variants: Seq<UnitVariant>,
    value: ValueView,
    outcomes: Seq<Option<DecodeError>>,
    index: int,
)
    requires
        repr is Other,
    ensures
        ShapeView::UnitEnum(repr, variants).decoded(value, outcomes) == Err::<
            InstanceView,
            DecodeError,
        >(DecodeError::IncorrectType),
        !ShapeView::UnitEnum(repr, variants).inhabited_by(InstanceView::Unit(index)),
{
}

/// A record of so many fields encodes to a structure of so many elements:
/// the values of its fields, in the order of declaration.
pub proof fn lemma_encoded_arity(fields: Seq<Field>, values: Seq<Value>)
    requires
        ShapeView::NamedRecord(fields).inhabited_by(InstanceView::Record(values)),
    ensures
        ShapeView::NamedRecord(fields).encoded(InstanceView::Record(values))
            == ValueView::Structure(values),
        values.len() == fields.len(),
{
}

/// A wrapper adds nothing around the value of its field.
pub proof fn lemma_wrapper_is_transparent(shape: ShapeView, value: ValueView, outcomes: Seq<Option<DecodeError>>)
    requires
        shape is SingleFieldWrapper,
    ensures
        shape.encoded(InstanceView::Wrapper(value)) == value,
        shape.decoded(value, outcomes) is Ok ==> shape.decoded(value, outcomes) == Ok::<
            InstanceView,
            DecodeError,
        >(InstanceView::Wrapper(value)),
{
}

/// A foreign type decides for its field: where it refuses the element at the
/// field's position, a structure with elements enough fails with
/// `IncorrectType`, whatever it holds.
pub proof fn lemma_foreign_refusal(
    fields: Seq<Field>,
    elements: Seq<Value>,
    outcomes: Seq<Option<DecodeError>>,
    i: int,
)
    requires
        0 <= i < fields.len(),
        fields[i].type_reference is Foreign,
        !verdict(outcomes, i),
        elements.len() >= fields.len(),
    ensures
        ShapeView::NamedRecord(fields).decoded(ValueView::Structure(elements), outcomes) == Err::<
            InstanceView,
            DecodeError,
        >(DecodeError::IncorrectType),
{
    assert(!fields[i].type_reference.admits(elements[i]@, verdict(outcomes, i)));
}

/// Round trip: an instance of a type, encoded and then decoded, is the
/// instance again, where each foreign type takes what it gave. This holds
/// of every record and every wrapper, and of a member of an enumeration
/// unless a member declared before it has the same discriminant.
pub proof fn lemma_round_trip(shape: ShapeView, instance: InstanceView, outcomes: Seq<Option<DecodeError>>)
    requires
        shape.inhabited_by(instance),
        foreign_accepted(shape, outcomes),
        match (shape, instance) {
            (ShapeView::UnitEnum(_, variants), InstanceView::Unit(index)) => declared_first(
                variants,
                index,
            ),
            _ => true,
        },
    ensures
        shape.decoded(shape.encoded(instance), outcomes) == Ok::<InstanceView, DecodeError>(
            instance,
        ),
{
    match (shape, instance) {
        (ShapeView::NamedRecord(fields), InstanceView::Record(values)) => {
            assert(values.subrange(0, fields.len() as int) =~= values);
            assert forall|i: int| 0 <= i < fields.len() && i < values.len() implies (
            #[trigger] fields[i]).type_reference.admits(values[i]@, verdict(outcomes, i)) by {
                assert(fields[i].type_reference.admits(values[i]@, true));
            }
        },
        (ShapeView::SingleFieldWrapper(_), InstanceView::Wrapper(_)) => {},
        (ShapeView::UnitEnum(repr, variants), InstanceView::Unit(index)) => {
            let n = variants[index].discriminant.integer().unwrap();
            lemma_scalar_carries(repr, n);
            lemma_first_match_finds(variants, n, 0, index);
        },
        _ => {},
    }
}

/// Two members with one discriminant: the member declared later encodes as
/// the earlier one does, and decoding gives the first member declared with
/// that discriminant.
pub proof fn lemma_round_trip_to_first(
    repr: Repr,
    variants: Seq<UnitVariant>,
    index: int,
    outcomes: Seq<Option<DecodeError>>,
)
    requires
        ShapeView::UnitEnum(repr, variants).inhabited_by(InstanceView::Unit(index)),
    ensures
        match ShapeView::UnitEnum(repr, variants).decoded(
            ShapeView::UnitEnum(repr, variants).encoded(InstanceView::Unit(index)),
            outcomes,
        ) {
            Ok(InstanceView::Unit(first)) => {
                &&& declared_first(variants, first)
                &&& first <= index
                &&& variants[first].discriminant == variants[index].discriminant
                &&& ShapeView::UnitEnum(repr, variants).inhabited_by(InstanceView::Unit(first))
            },
            _ => false,
        },
{
    let n = variants[index].discriminant.integer().unwrap();
    lemma_scalar_carries(repr, n);
    lemma_first_match_is_first(variants, n, 0);
}

/// Arity: a structure with fewer elements than the record has fields fails
/// with `ArityMismatch`, whatever it holds and whatever was said of it, and
/// nothing else fails with it: not a structure with as many elements or
/// more, and no other value.
pub proof fn lemma_arity(fields: Seq<Field>, value: ValueView, outcomes: Seq<Option<DecodeError>>)
    ensures
        ShapeView::NamedRecord(fields).decoded(value, outcomes) == Err::<
            InstanceView,
            DecodeError,
        >(DecodeError::ArityMismatch) <==> (value matches ValueView::Structure(elements)
            && elements.len() < fields.len()),
{
}

/// A wrapper fails as its field does. Around a type of a known kind it takes
/// the values of that kind and fails on every other value with
/// `IncorrectType`. Around a foreign type it takes what the type took, and
/// where the type failed it fails with the type's own error, unchanged:
/// with `ArityMismatch` too, where that is what the type said.
pub proof fn lemma_wrapper_hands_on(
    inner: TypeReference,
    value: ValueView,
    outcomes: Seq<Option<DecodeError>>,
)
    ensures
        ShapeView::SingleFieldWrapper(inner).decoded(value, outcomes) == (match inner {
            TypeReference::Of(kind) => if value.kind() == kind {
                Ok::<InstanceView, DecodeError>(InstanceView::Wrapper(value))
            } else {
                Err::<InstanceView, DecodeError>(DecodeError::IncorrectType)
            },
            TypeReference::Foreign => match outcome(outcomes, 0) {
                None => Ok::<InstanceView, DecodeError>(InstanceView::Wrapper(value)),
                Some(error) => Err::<InstanceView, DecodeError>(error),
            },
        }),
{
}

/// An enumeration never fails with `ArityMismatch`, and a wrapper only where
/// that is the error of the foreign type inside it.
pub proof fn lemma_arity_outside_records(
    shape: ShapeView,
    value: ValueView,
    outcomes: Seq<Option<DecodeError>>,
)
    requires
        !(shape is NamedRecord),
    ensures
        shape.decoded(value, outcomes) == Err::<InstanceView, DecodeError>(
            DecodeError::ArityMismatch,
        ) <==> (shape matches ShapeView::SingleFieldWrapper(TypeReference::Foreign) && outcome(
            outcomes,
            0,
        ) == Some(DecodeError::ArityMismatch)),
{
}

/// What follows the elements that the fields take is neither looked at nor
/// kept: a structure decodes as its first elements alone do.
pub proof fn lemma_trailing_elements(
    fields: Seq<Field>,
    elements: Seq<Value>,
    outcomes: Seq<Option<DecodeError>>,
)
    requires
        elements.len() >= fields.len(),
    ensures
        ShapeView::NamedRecord(fields).decoded(ValueView::Structure(elements), outcomes)
            == ShapeView::NamedRecord(fields).decoded(
            ValueView::Structure(elements.subrange(0, fields.len() as int)),
            outcomes,
        ),
{
    let n = fields.len() as int;
    let front = elements.subrange(0, n);
    assert(front.subrange(0, n) =~= front);
    if conforms(fields, elements, outcomes) {
        assert forall|i: int| 0 <= i < fields.len() && i < front.len() implies (
        #[trigger] fields[i]).type_reference.admits(front[i]@, verdict(outcomes, i)) by {
            assert(front[i] == elements[i]);
        }
    }
    if conforms(fields, front, outcomes) {
        assert forall|i: int| 0 <= i < fields.len() && i < elements.len() implies (
        #[trigger] fields[i]).type_reference.admits(elements[i]@, verdict(outcomes, i)) by {
            assert(front[i] == elements[i]);
        }
    }
}

/// The outcome on a position, once two positions changed places, is the one
/// that was given on the position it came from.
pub proof fn lemma_swapped_verdict(outcomes: Seq<Option<DecodeError>>, i: int, j: int, k: int)
    requires
        0 <= i,
        0 <= j,
    ensures
        outcome(swapped_outcomes(outcomes, i, j), k) == outcome(outcomes, exchange(k, i, j)),
        verdict(swapped_outcomes(outcomes, i, j), k) == verdict(outcomes, exchange(k, i, j)),
{
}

/// Values convert into the fields' types exactly if they do so with two
/// fields, their two values and the two outcomes on them exchanged.
pub proof fn lemma_swapped_conforms(
    fields: Seq<Field>,
    values: Seq<Value>,
    outcomes: Seq<Option<DecodeError>>,
    i: int,
    j: int,
)
    requires
        0 <= i < fields.len(),
        0 <= j < fields.len(),
        values.len() >= fields.len(),
    ensures
        conforms(fields, values, outcomes) <==> conforms(
            swapped(fields, i, j),
            swapped(values, i, j),
            swapped_outcomes(outcomes, i, j),
        ),
        well_typed(fields, values) <==> well_typed(swapped(fields, i, j), swapped(values, i, j)),
{
    let fields2 = swapped(fields, i, j);
    let values2 = swapped(values, i, j);
    let outcomes2 = swapped_outcomes(outcomes, i, j);
    assert forall|k: int| 0 <= k < fields.len() implies {
        &&& fields2[k] == fields[exchange(k, i, j)]
        &&& values2[k] == values[exchange(k, i, j)]
        &&& verdict(outcomes2, k) == verdict(outcomes, exchange(k, i, j))
    } by {
        lemma_swapped_verdict(outcomes, i, j, k);
    }
    if conforms(fields, values, outcomes) {
        assert forall|k: int| 0 <= k < fields2.len() && k < values2.len() implies (
        #[trigger] fields2[k]).type_reference.admits(values2[k]@, verdict(outcomes2, k)) by {
            let m = exchange(k, i, j);
            assert(fields[m].type_reference.admits(values[m]@, verdict(outcomes, m)));
        }
    }
    if conforms(fields2, values2, outcomes2) {
        assert forall|k: int| 0 <= k < fields.len() && k < values.len() implies (
        #[trigger] fields[k]).type_reference.admits(values[k]@, verdict(outcomes, k)) by {
            let m = exchange(k, i, j);
            assert(fields2[m].type_reference.admits(values2[m]@, verdict(outcomes2, m)));
        }
    }
    if well_typed(fields, values) {
        assert forall|k: int| 0 <= k < fields2.len() && k < values2.len() implies (
        #[trigger] fields2[k]).type_reference.admits(values2[k]@, true) by {
            let m = exchange(k, i, j);
            assert(fields[m].type_reference.admits(values[m]@, true));
        }
    }
    if well_typed(fields2, values2) {
        assert forall|k: int| 0 <= k < fields.len() && k < values.len() implies (
        #[trigger] fields[k]).type_reference.admits(values[k]@, true) by {
            let m = exchange(k, i, j);
            assert(fields2[m].type_reference.admits(values2[m]@, true));
        }
    }
}

/// Positional, not nominal: where two fields change places in the
/// declaration, their values change places in what is encoded and in what is
/// decoded, and nothing else changes. An instance with the two values
/// exchanged is an instance of the new type; it encodes to the old structure
/// with the two elements exchanged; a structure with the two elements
/// exchanged decodes as the old structure did, to the record with the two
/// values exchanged or to the same error; and the new type has its own round
/// trip.
pub proof fn lemma_field_order(
    fields: Seq<Field>,
    values: Seq<Value>,
    elements: Seq<Value>,
    outcomes: Seq<Option<DecodeError>>,
    i: int,
    j: int,
)
    requires
        0 <= i < fields.len(),
        0 <= j < fields.len(),
    ensures
        ShapeView::NamedRecord(fields).inhabited_by(InstanceView::Record(values))
            ==> ShapeView::NamedRecord(swapped(fields, i, j)).inhabited_by(
            InstanceView::Record(swapped(values, i, j)),
        ),
        ShapeView::NamedRecord(fields).encoded(InstanceView::Record(values))
            matches ValueView::Structure(before) && ShapeView::NamedRecord(
            swapped(fields, i, j),
        ).encoded(InstanceView::Record(swapped(values, i, j))) == ValueView::Structure(
            swapped(before, i, j),
        ),
        match ShapeView::NamedRecord(fields).decoded(ValueView::Structure(elements), outcomes) {
            Ok(InstanceView::Record(before)) => ShapeView::NamedRecord(
                swapped(fields, i, j),
            ).decoded(
                ValueView::Structure(swapped(elements, i, j)),
                swapped_outcomes(outcomes, i, j),
            ) == Ok::<InstanceView, DecodeError>(InstanceView::Record(swapped(before, i, j))),
            Ok(_) => false,
            Err(error) => ShapeView::NamedRecord(swapped(fields, i, j)).decoded(
                ValueView::Structure(swapped(elements, i, j)),
                swapped_outcomes(outcomes, i, j),
            ) == Err::<InstanceView, DecodeError>(error),
        },
        ShapeView::NamedRecord(fields).inhabited_by(InstanceView::Record(values))
            && foreign_accepted(ShapeView::NamedRecord(fields), outcomes)
            ==> ShapeView::NamedRecord(swapped(fields, i, j)).decoded(
            ShapeView::NamedRecord(swapped(fields, i, j)).encoded(
                InstanceView::Record(swapped(values, i, j)),
            ),
            swapped_outcomes(outcomes, i, j),
        ) == Ok::<InstanceView, DecodeError>(InstanceView::Record(swapped(values, i, j))),
{
    let exchanged = swapped(fields, i, j);
    let outcomes2 = swapped_outcomes(outcomes, i, j);
    if ShapeView::NamedRecord(fields).inhabited_by(InstanceView::Record(values)) {
        lemma_swapped_conforms(fields, values, outcomes, i, j);
        if foreign_accepted(ShapeView::NamedRecord(fields), outcomes) {
            assert forall|k: int|
                0 <= k < exchanged.len() && (
                #[trigger] exchanged[k]).type_reference is Foreign implies verdict(
                outcomes2,
                k,
            ) by {
                let m = exchange(k, i, j);
                lemma_swapped_verdict(outcomes, i, j, k);
                assert(exchanged[k] == fields[m]);
                assert(fields[m].type_reference is Foreign);
            }
            lemma_round_trip(
                ShapeView::NamedRecord(exchanged),
                InstanceView::Record(swapped(values, i, j)),
                outcomes2,
            );
        }
    }
    if elements.len() >= fields.len() {
        let n = fields.len() as int;
        assert(swapped(elements, i, j).subrange(0, n) =~= swapped(elements.subrange(0, n), i, j));
        lemma_swapped_conforms(fields, elements, outcomes, i, j);
    }
}

/// Enum discriminant: a scalar of the enumeration's representation decodes to
/// the first member declared with the integer it carries, and fails with
/// `IncorrectType` where no member is declared with it.
pub proof fn lemma_decode_discriminant(
    repr: Repr,
    variants: Seq<UnitVariant>,
    n: int,
    outcomes: Seq<Option<DecodeError>>,
)
    requires
        repr.holds(n),
    ensures
        match ShapeView::UnitEnum(repr, variants).decoded(repr.scalar(n), outcomes) {
            Ok(InstanceView::Unit(index)) => declared_first(variants, index)
                && variants[index].discriminant.integer() == Some(n),
            Ok(_) => false,
            Err(error) => error == DecodeError::IncorrectType && forall|j: int|
                0 <= j < variants.len() ==> (#[trigger] variants[j]).discriminant.integer()
                    != Some(n),
        },
{
    lemma_scalar_carries(repr, n);
    lemma_first_match_is_first(variants, n, 0);
}

} // verus!
