use value_codec::codec::{DecodeError, Instance};
use value_codec::data::{Kind, Value};
use value_codec::definition::{
    Attribute, Discriminant, Field, Fields, Generics, Literal, TypeReference, Variant,
};
use value_codec::value::{impl_enum, impl_struct, Codec, Shape, ValueLifetime, ValueType};

const TAKEN: Option<DecodeError> = None;
const REFUSED: Option<DecodeError> = Some(DecodeError::IncorrectType);
const TOO_SHORT: Option<DecodeError> = Some(DecodeError::ArityMismatch);

fn decode(codec: &Codec, value: Value) -> Result<Instance, DecodeError> {
    codec.decode(value, &vec![])
}

fn no_generics() -> Generics {
    Generics { lifetimes: vec![], type_params: vec![] }
}

fn record(fields: &[(&str, TypeReference)]) -> Codec {
    let fields = fields
        .iter()
        .map(|(name, reference)| Field { name: name.to_string(), type_reference: *reference })
        .collect();
    impl_struct(ValueType::Value, "Record".to_string(), no_generics(), Fields::Named(fields))
        .unwrap()
}

fn point() -> Codec {
    record(&[("x", TypeReference::Of(Kind::I32)), ("y", TypeReference::Of(Kind::I32))])
}

fn wrapper(inner: TypeReference) -> Codec {
    impl_struct(
        ValueType::Value,
        "Wrapper".to_string(),
        no_generics(),
        Fields::Unnamed(vec![inner]),
    )
    .unwrap()
}

fn enumeration(repr: Option<&str>, members: &[(&str, i128)]) -> Codec {
    let attrs = match repr {
        Some(args) => vec![Attribute { path: "repr".to_string(), args: args.to_string() }],
        None => vec![],
    };
    let variants = members
        .iter()
        .map(|(name, literal)| Variant {
            name: name.to_string(),
            fields: Fields::Unit,
            discriminant: Some(Discriminant::Literal(Literal::Integer(*literal))),
        })
        .collect();
    impl_enum(ValueType::Value, "Enumeration".to_string(), no_generics(), attrs, variants).unwrap()
}

fn colour() -> Codec {
    enumeration(Some("u8"), &[("Red", 0), ("Green", 1), ("Blue", 2)])
}

#[test]
fn record_encodes_to_structure_in_declared_order() {
    let codec = point();
    let instance = Instance::Record(vec![Value::I32(3), Value::I32(4)]);
    assert!(codec.admits(&instance));
    assert_eq!(codec.encode(instance), Value::Structure(vec![Value::I32(3), Value::I32(4)]));
}

#[test]
fn record_decodes_from_structure() {
    let decoded = decode(&point(), Value::Structure(vec![Value::I32(3), Value::I32(4)]));
    assert_eq!(decoded, Ok(Instance::Record(vec![Value::I32(3), Value::I32(4)])));
}

#[test]
fn record_with_too_few_elements_is_an_arity_mismatch() {
    assert_eq!(
        decode(&point(), Value::Structure(vec![Value::I32(3)])),
        Err(DecodeError::ArityMismatch)
    );
    assert_eq!(decode(&point(), Value::Structure(vec![])), Err(DecodeError::ArityMismatch));
}

#[test]
fn too_few_elements_of_the_wrong_kind_are_still_an_arity_mismatch() {
    assert_eq!(
        decode(&point(), Value::Structure(vec![Value::Str("three".to_string())])),
        Err(DecodeError::ArityMismatch)
    );
}

#[test]
fn trailing_elements_are_left_alone() {
    let value = Value::Structure(vec![
        Value::I32(3),
        Value::I32(4),
        Value::Str("more".to_string()),
        Value::Bool(true),
    ]);
    assert_eq!(
        decode(&point(), value),
        Ok(Instance::Record(vec![Value::I32(3), Value::I32(4)]))
    );
}

#[test]
fn record_element_of_another_kind_is_an_incorrect_type() {
    assert_eq!(
        decode(&point(), Value::Structure(vec![Value::I32(3), Value::I64(4)])),
        Err(DecodeError::IncorrectType)
    );
    assert_eq!(
        decode(&point(), Value::Structure(vec![Value::U32(3), Value::I32(4)])),
        Err(DecodeError::IncorrectType)
    );
}

#[test]
fn record_takes_nothing_but_a_structure() {
    assert_eq!(decode(&point(), Value::I32(3)), Err(DecodeError::IncorrectType));
    assert_eq!(
        decode(&point(), Value::Array(vec![Value::I32(3), Value::I32(4)])),
        Err(DecodeError::IncorrectType)
    );
}

fn tagged() -> Codec {
    record(&[("tag", TypeReference::Of(Kind::U8)), ("body", TypeReference::Foreign)])
}

fn tagged_value() -> Value {
    Value::Structure(vec![
        Value::U8(7),
        Value::Variant("s".to_string(), Box::new(Value::Str("x".to_string()))),
    ])
}

#[test]
fn foreign_field_takes_what_its_type_accepts() {
    let codec = tagged();
    let decoded = codec.decode(tagged_value(), &vec![REFUSED, TAKEN]).unwrap();
    assert_eq!(
        decoded,
        Instance::Record(vec![
            Value::U8(7),
            Value::Variant("s".to_string(), Box::new(Value::Str("x".to_string()))),
        ])
    );
    assert!(codec.admits(&decoded));
    assert_eq!(codec.encode(decoded), tagged_value());
}

#[test]
fn foreign_field_refuses_what_its_type_refuses() {
    let codec = tagged();
    assert_eq!(
        codec.decode(tagged_value(), &vec![TAKEN, REFUSED]),
        Err(DecodeError::IncorrectType)
    );
}

#[test]
fn foreign_field_without_an_outcome_is_refused() {
    let codec = tagged();
    assert_eq!(codec.decode(tagged_value(), &vec![]), Err(DecodeError::IncorrectType));
    assert_eq!(codec.decode(tagged_value(), &vec![TAKEN]), Err(DecodeError::IncorrectType));
}

#[test]
fn outcome_on_a_field_of_known_kind_is_not_read() {
    let codec = tagged();
    assert!(codec.decode(tagged_value(), &vec![REFUSED, TAKEN, REFUSED]).is_ok());
    let wrong = Value::Structure(vec![Value::U16(7), Value::U8(0)]);
    assert_eq!(codec.decode(wrong, &vec![TAKEN, TAKEN]), Err(DecodeError::IncorrectType));
    assert_eq!(
        point().decode(Value::Structure(vec![Value::I32(3), Value::I32(4)]), &vec![REFUSED, REFUSED]),
        Ok(Instance::Record(vec![Value::I32(3), Value::I32(4)]))
    );
}

#[test]
fn arity_counts_before_any_outcome() {
    assert_eq!(
        tagged().decode(Value::Structure(vec![Value::U8(7)]), &vec![TAKEN, TAKEN]),
        Err(DecodeError::ArityMismatch)
    );
}

#[test]
fn foreign_wrapper_goes_by_the_first_outcome() {
    let codec = wrapper(TypeReference::Foreign);
    assert_eq!(
        codec.decode(Value::Bool(true), &vec![TAKEN]),
        Ok(Instance::Wrapper(Value::Bool(true)))
    );
    assert_eq!(
        codec.decode(Value::Bool(true), &vec![TAKEN, TOO_SHORT]),
        Ok(Instance::Wrapper(Value::Bool(true)))
    );
    assert_eq!(codec.decode(Value::Bool(true), &vec![REFUSED]), Err(DecodeError::IncorrectType));
    assert_eq!(codec.decode(Value::Bool(true), &vec![]), Err(DecodeError::IncorrectType));
}

#[test]
fn foreign_wrapper_hands_on_the_inner_error_unchanged() {
    let codec = wrapper(TypeReference::Foreign);
    assert_eq!(
        codec.decode(Value::Structure(vec![]), &vec![TOO_SHORT]),
        Err(DecodeError::ArityMismatch)
    );
    assert_eq!(
        codec.decode(Value::Structure(vec![]), &vec![REFUSED, TOO_SHORT]),
        Err(DecodeError::IncorrectType)
    );
}

#[test]
fn foreign_field_of_a_record_fails_with_incorrect_type_whatever_its_error() {
    assert_eq!(
        tagged().decode(tagged_value(), &vec![TAKEN, TOO_SHORT]),
        Err(DecodeError::IncorrectType)
    );
}

#[test]
fn member_beyond_the_representation_is_no_instance() {
    let codec = enumeration(Some("u8"), &[("Small", 1), ("Large", 256), ("Negative", -1)]);
    assert!(codec.admits(&Instance::Unit(0)));
    assert!(!codec.admits(&Instance::Unit(1)));
    assert!(!codec.admits(&Instance::Unit(2)));
    assert_eq!(decode(&codec, Value::U8(1)), Ok(Instance::Unit(0)));
    assert_eq!(decode(&codec, Value::U8(0)), Err(DecodeError::IncorrectType));
    assert_eq!(decode(&codec, Value::U8(255)), Err(DecodeError::IncorrectType));
}

#[test]
fn representation_without_a_scalar_decodes_nothing() {
    let codec = enumeration(Some("i8"), &[("A", 1), ("B", 2)]);
    assert_eq!(decode(&codec, Value::U8(1)), Err(DecodeError::IncorrectType));
    assert_eq!(decode(&codec, Value::I16(1)), Err(DecodeError::IncorrectType));
    assert_eq!(decode(&codec, Value::U32(2)), Err(DecodeError::IncorrectType));
    assert_eq!(decode(&codec, Value::Str("A".to_string())), Err(DecodeError::IncorrectType));
    assert!(!codec.admits(&Instance::Unit(0)));
    assert!(!codec.admits(&Instance::Unit(1)));
}

#[test]
fn member_with_another_literal_is_never_met() {
    let variants = vec![
        Variant {
            name: "A".to_string(),
            fields: Fields::Unit,
            discriminant: Some(Discriminant::Literal(Literal::Other("'a'".to_string()))),
        },
        Variant {
            name: "B".to_string(),
            fields: Fields::Unit,
            discriminant: Some(Discriminant::Literal(Literal::Integer(1))),
        },
    ];
    let codec =
        impl_enum(ValueType::Value, "E".to_string(), no_generics(), vec![], variants).unwrap();
    assert!(!codec.admits(&Instance::Unit(0)));
    assert!(codec.admits(&Instance::Unit(1)));
    assert_eq!(decode(&codec, Value::U32(1)), Ok(Instance::Unit(1)));
    assert_eq!(decode(&codec, Value::U32(97)), Err(DecodeError::IncorrectType));
    assert_eq!(codec.encode(Instance::Unit(1)), Value::U32(1));
}

#[test]
fn derived_codecs_are_well_formed() {
    assert!(point().is_well_formed());
    assert!(wrapper(TypeReference::Foreign).is_well_formed());
    assert!(colour().is_well_formed());
    assert!(enumeration(Some("i8"), &[("A", 256)]).is_well_formed());
    let empty = Codec {
        name: "Empty".to_string(),
        value_type: ValueType::Value,
        lifetime: ValueLifetime::Static,
        decode_constraints: vec![],
        encode_constraints: vec![],
        shape: Shape::NamedRecord(vec![]),
    };
    assert!(!empty.is_well_formed());
}

#[test]
fn wrapper_encodes_to_the_bare_inner_value() {
    let codec = wrapper(TypeReference::Of(Kind::F64));
    let instance = Instance::Wrapper(Value::F64(5.2f64.to_bits()));
    assert!(codec.admits(&instance));
    let encoded = codec.encode(instance);
    assert_eq!(encoded, Value::F64(5.2f64.to_bits()));
    assert_ne!(encoded.kind(), Kind::Structure);
    match encoded {
        Value::F64(bits) => assert_eq!(f64::from_bits(bits), 5.2),
        other => panic!("not a float: {:?}", other),
    }
}

#[test]
fn wrapper_decodes_and_wraps_again() {
    let codec = wrapper(TypeReference::Of(Kind::F64));
    assert_eq!(
        decode(&codec, Value::F64(5.2f64.to_bits())),
        Ok(Instance::Wrapper(Value::F64(5.2f64.to_bits())))
    );
}

#[test]
fn wrapper_refuses_text_for_a_float() {
    let codec = wrapper(TypeReference::Of(Kind::F64));
    assert_eq!(decode(&codec, Value::Str("5.2".to_string())), Err(DecodeError::IncorrectType));
}

#[test]
fn wrapper_of_known_kind_never_fails_with_arity_mismatch() {
    let codec = wrapper(TypeReference::Of(Kind::Structure));
    assert_eq!(
        codec.decode(Value::Structure(vec![]), &vec![TOO_SHORT]),
        Ok(Instance::Wrapper(Value::Structure(vec![])))
    );
    assert_eq!(
        codec.decode(Value::U8(0), &vec![TOO_SHORT]),
        Err(DecodeError::IncorrectType)
    );
}

#[test]
fn member_encodes_to_its_discriminant() {
    assert_eq!(colour().encode(Instance::Unit(1)), Value::U8(1));
    assert_eq!(colour().encode(Instance::Unit(0)), Value::U8(0));
}

#[test]
fn discriminant_decodes_to_its_member() {
    assert_eq!(decode(&colour(), Value::U8(2)), Ok(Instance::Unit(2)));
    assert_eq!(decode(&colour(), Value::U8(0)), Ok(Instance::Unit(0)));
}

#[test]
fn unknown_discriminant_is_an_incorrect_type() {
    assert_eq!(decode(&colour(), Value::U8(9)), Err(DecodeError::IncorrectType));
}

#[test]
fn scalar_of_another_width_is_an_incorrect_type() {
    assert_eq!(decode(&colour(), Value::U32(2)), Err(DecodeError::IncorrectType));
    assert_eq!(decode(&colour(), Value::Str("Blue".to_string())), Err(DecodeError::IncorrectType));
    assert_eq!(decode(&colour(), Value::Bool(true)), Err(DecodeError::IncorrectType));
}

#[test]
fn every_representation_wraps_and_unwraps() {
    let cases: Vec<(&str, i128, Value)> = vec![
        ("u8", 255, Value::U8(255)),
        ("i16", -32768, Value::I16(-32768)),
        ("u16", 65535, Value::U16(65535)),
        ("i32", -2147483648, Value::I32(-2147483648)),
        ("u32", 4294967295, Value::U32(4294967295)),
        ("i64", i64::MIN as i128, Value::I64(i64::MIN)),
        ("u64", u64::MAX as i128, Value::U64(u64::MAX)),
    ];
    for (repr, literal, scalar) in cases {
        let codec = enumeration(Some(repr), &[("Zero", 0), ("Edge", literal)]);
        let encoded = codec.encode(Instance::Unit(1));
        assert_eq!(encoded, scalar);
        assert_eq!(decode(&codec, encoded), Ok(Instance::Unit(1)));
    }
}

#[test]
fn default_representation_is_carried_as_u32() {
    let codec = enumeration(None, &[("A", 10), ("B", 20)]);
    assert_eq!(codec.encode(Instance::Unit(1)), Value::U32(20));
    assert_eq!(decode(&codec, Value::U32(10)), Ok(Instance::Unit(0)));
    assert_eq!(decode(&codec, Value::U8(10)), Err(DecodeError::IncorrectType));
}

#[test]
fn first_member_wins_among_equal_discriminants() {
    let codec = enumeration(None, &[("A", 1), ("B", 1), ("C", 2)]);
    let encoded = codec.encode(Instance::Unit(1));
    assert_eq!(encoded, Value::U32(1));
    assert_eq!(decode(&codec, encoded), Ok(Instance::Unit(0)));
    assert_eq!(decode(&codec, Value::U32(2)), Ok(Instance::Unit(2)));
}

#[test]
fn enumeration_without_members_decodes_nothing() {
    let codec = enumeration(None, &[]);
    assert_eq!(decode(&codec, Value::U32(0)), Err(DecodeError::IncorrectType));
    assert!(!codec.admits(&Instance::Unit(0)));
}

#[test]
fn round_trip_of_each_shape() {
    let record = point();
    let encoded = record.encode(Instance::Record(vec![Value::I32(-1), Value::I32(i32::MAX)]));
    assert_eq!(
        decode(&record, encoded),
        Ok(Instance::Record(vec![Value::I32(-1), Value::I32(i32::MAX)]))
    );
    let text = wrapper(TypeReference::Of(Kind::Str));
    let encoded = text.encode(Instance::Wrapper(Value::Str("hello".to_string())));
    assert_eq!(decode(&text, encoded), Ok(Instance::Wrapper(Value::Str("hello".to_string()))));
    let colour = colour();
    for index in 0..3 {
        let encoded = colour.encode(Instance::Unit(index));
        assert_eq!(decode(&colour, encoded), Ok(Instance::Unit(index)));
    }
}

#[test]
fn exchanged_fields_exchange_the_elements() {
    let declared = record(&[
        ("id", TypeReference::Of(Kind::U64)),
        ("name", TypeReference::Of(Kind::Str)),
        ("ok", TypeReference::Of(Kind::Bool)),
    ]);
    let exchanged = record(&[
        ("ok", TypeReference::Of(Kind::Bool)),
        ("name", TypeReference::Of(Kind::Str)),
        ("id", TypeReference::Of(Kind::U64)),
    ]);
    let before = declared.encode(Instance::Record(vec![
        Value::U64(9),
        Value::Str("n".to_string()),
        Value::Bool(true),
    ]));
    let after = exchanged.encode(Instance::Record(vec![
        Value::Bool(true),
        Value::Str("n".to_string()),
        Value::U64(9),
    ]));
    assert_eq!(
        before,
        Value::Structure(vec![Value::U64(9), Value::Str("n".to_string()), Value::Bool(true)])
    );
    assert_eq!(
        after,
        Value::Structure(vec![Value::Bool(true), Value::Str("n".to_string()), Value::U64(9)])
    );
    assert_eq!(
        decode(&exchanged, after),
        Ok(Instance::Record(vec![
            Value::Bool(true),
            Value::Str("n".to_string()),
            Value::U64(9)
        ]))
    );
    assert_eq!(decode(&exchanged, before), Err(DecodeError::IncorrectType));
}

#[test]
fn instances_of_another_type_are_not_admitted() {
    assert!(!point().admits(&Instance::Record(vec![Value::I32(3)])));
    assert!(!point().admits(&Instance::Record(vec![
        Value::I32(3),
        Value::I32(4),
        Value::I32(5)
    ])));
    assert!(!point().admits(&Instance::Record(vec![Value::I32(3), Value::U8(4)])));
    assert!(!point().admits(&Instance::Wrapper(Value::I32(3))));
    assert!(!point().admits(&Instance::Unit(0)));
    assert!(!wrapper(TypeReference::Of(Kind::U8)).admits(&Instance::Wrapper(Value::Bool(true))));
    assert!(wrapper(TypeReference::Foreign).admits(&Instance::Wrapper(Value::Bool(true))));
    assert!(colour().admits(&Instance::Unit(2)));
    assert!(!colour().admits(&Instance::Unit(3)));
    assert!(!colour().admits(&Instance::Wrapper(Value::U8(1))));
}

#[test]
fn kind_of_each_value() {
    assert_eq!(Value::U8(1).kind(), Kind::U8);
    assert_eq!(Value::Bool(true).kind(), Kind::Bool);
    assert_eq!(Value::I16(1).kind(), Kind::I16);
    assert_eq!(Value::U16(1).kind(), Kind::U16);
    assert_eq!(Value::I32(1).kind(), Kind::I32);
    assert_eq!(Value::U32(1).kind(), Kind::U32);
    assert_eq!(Value::I64(1).kind(), Kind::I64);
    assert_eq!(Value::U64(1).kind(), Kind::U64);
    assert_eq!(Value::F64(1).kind(), Kind::F64);
    assert_eq!(Value::Str(String::new()).kind(), Kind::Str);
    assert_eq!(Value::Array(vec![]).kind(), Kind::Array);
    assert_eq!(Value::Structure(vec![]).kind(), Kind::Structure);
    assert_eq!(Value::Variant("y".to_string(), Box::new(Value::U8(1))).kind(), Kind::Variant);
    assert!(TypeReference::Of(Kind::Array).accepts(&Value::Array(vec![]), false));
    assert!(!TypeReference::Of(Kind::Array).accepts(&Value::Structure(vec![]), true));
    assert!(TypeReference::Foreign.accepts(&Value::Structure(vec![]), true));
    assert!(!TypeReference::Foreign.accepts(&Value::Structure(vec![]), false));
}
