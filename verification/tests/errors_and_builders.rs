//! Fail-fast behavior of the unsupported shapes, the error type's surface,
//! and the builders driven one call at a time.

use pywick::content::Content;
use pywick::pyserde::to_value;
use pywick::pyserde::PyserError;
use pywick::pyserde::Serializer;
use pywick::pyserde::StructVariantSerializer;
use pywick::pyserde::TupleVariantSerializer;
use pywick::pyvalue::PyValue;

fn ser() -> Serializer {
    Serializer {}
}

fn tuple_variant() -> Content {
    Content::TupleVariant {
        name: String::from("Kind"),
        variant_index: 2,
        variant: String::from("Pair"),
        fields: vec![Content::I32(1), Content::I32(2)],
    }
}

fn struct_variant() -> Content {
    Content::StructVariant {
        name: String::from("Kind"),
        variant_index: 3,
        variant: String::from("Record"),
        fields: vec![(String::from("a"), Content::I32(1))],
    }
}

#[test]
fn tuple_variant_fails_with_not_implemented() {
    assert_eq!(to_value(ser(), &tuple_variant()), Err(PyserError::NotImplemented));
}

#[test]
fn struct_variant_fails_with_not_implemented() {
    assert_eq!(to_value(ser(), &struct_variant()), Err(PyserError::NotImplemented));
}

#[test]
fn unsupported_shape_anywhere_fails_the_whole_conversion() {
    let seq = Content::Sequence(vec![Content::I32(1), tuple_variant(), Content::I32(3)]);
    assert_eq!(to_value(ser(), &seq), Err(PyserError::NotImplemented));

    let map = Content::Mapping(vec![(Content::Str(String::from("k")), struct_variant())]);
    assert_eq!(to_value(ser(), &map), Err(PyserError::NotImplemented));

    let record = Content::Struct(
        String::from("Outer"),
        vec![(String::from("payload"), tuple_variant())],
    );
    assert_eq!(to_value(ser(), &record), Err(PyserError::NotImplemented));

    let wrapped = Content::NewtypeVariant {
        name: String::from("Kind"),
        variant_index: 0,
        variant: String::from("Wrapped"),
        inner: Box::new(struct_variant()),
    };
    assert_eq!(to_value(ser(), &wrapped), Err(PyserError::NotImplemented));
}

#[test]
fn error_messages_name_the_variant() {
    assert_eq!(PyserError::SerdeError.message(), "SerdeError");
    assert_eq!(PyserError::NotImplemented.message(), "NotImplemented");
    assert_eq!(PyserError::Other.message(), "Other");
}

#[test]
fn custom_errors_collapse_to_serde_error() {
    assert_eq!(PyserError::custom("something went wrong"), PyserError::SerdeError);
    assert_eq!(PyserError::custom(7), PyserError::SerdeError);
}

#[test]
fn array_builder_appends_in_order_and_seals() {
    let mut a = ser().serialize_seq(None).unwrap();
    a.serialize_element(&Content::I32(1)).unwrap();
    a.serialize_element(&Content::Str(String::from("two"))).unwrap();
    assert_eq!(
        a.end().unwrap(),
        PyValue::List(vec![PyValue::Int(1), PyValue::Str(String::from("two"))])
    );
}

#[test]
fn array_builder_reports_a_failing_child() {
    let mut a = ser().serialize_tuple(2).unwrap();
    a.serialize_element(&Content::I32(1)).unwrap();
    assert_eq!(a.serialize_element(&tuple_variant()), Err(PyserError::NotImplemented));
}

#[test]
fn map_builder_zips_keys_with_values() {
    let mut m = ser().serialize_map(Some(2)).unwrap();
    m.serialize_key(&Content::Str(String::from("k1"))).unwrap();
    m.serialize_value(&Content::I32(10)).unwrap();
    m.serialize_key(&Content::Str(String::from("k2"))).unwrap();
    m.serialize_value(&Content::I32(20)).unwrap();
    assert_eq!(
        m.end().unwrap(),
        PyValue::Dict(vec![
            (PyValue::Str(String::from("k1")), PyValue::Int(10)),
            (PyValue::Str(String::from("k2")), PyValue::Int(20)),
        ])
    );
}

#[test]
fn struct_builder_inserts_fields_under_their_names() {
    let mut st = ser().serialize_struct("Record", 2).unwrap();
    st.serialize_field("a", &Content::I32(1)).unwrap();
    st.serialize_field("b", &Content::Bool(false)).unwrap();
    assert_eq!(
        st.end().unwrap(),
        PyValue::Dict(vec![
            (PyValue::Str(String::from("a")), PyValue::Int(1)),
            (PyValue::Str(String::from("b")), PyValue::Bool(false)),
        ])
    );
}

#[test]
fn unsupported_builders_refuse_every_operation() {
    assert!(ser().serialize_tuple_variant("Kind", 2, "Pair", 2).is_err());
    assert!(ser().serialize_struct_variant("Kind", 3, "Record", 1).is_err());

    let mut tv = TupleVariantSerializer {};
    assert_eq!(tv.serialize_field(&Content::I32(1)), Err(PyserError::NotImplemented));
    assert_eq!(tv.end(), Err(PyserError::NotImplemented));

    let mut sv = StructVariantSerializer {};
    assert_eq!(sv.serialize_field("a", &Content::I32(1)), Err(PyserError::NotImplemented));
    assert_eq!(sv.end(), Err(PyserError::NotImplemented));
}
