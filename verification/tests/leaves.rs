//! Every leaf kind converts, never fails, and yields exactly the expected
//! scalar shape.

use pywick::content::Content;
use pywick::pyserde::to_value;
use pywick::pyserde::Serializer;
use pywick::pyvalue::PyValue;

fn ser() -> Serializer {
    Serializer {}
}

#[test]
fn bool_true_converts_to_bool_scalar() {
    assert_eq!(to_value(ser(), &Content::Bool(true)).unwrap(), PyValue::Bool(true));
    assert_eq!(to_value(ser(), &Content::Bool(false)).unwrap(), PyValue::Bool(false));
}

#[test]
fn forty_two_converts_identically_at_every_width() {
    let expected = PyValue::Int(42);
    assert_eq!(to_value(ser(), &Content::I8(42)).unwrap(), expected);
    assert_eq!(to_value(ser(), &Content::I16(42)).unwrap(), expected);
    assert_eq!(to_value(ser(), &Content::I32(42)).unwrap(), expected);
    assert_eq!(to_value(ser(), &Content::I64(42)).unwrap(), expected);
    assert_eq!(to_value(ser(), &Content::U8(42)).unwrap(), expected);
    assert_eq!(to_value(ser(), &Content::U16(42)).unwrap(), expected);
    assert_eq!(to_value(ser(), &Content::U32(42)).unwrap(), expected);
    assert_eq!(to_value(ser(), &Content::U64(42)).unwrap(), expected);
}

#[test]
fn extreme_integers_keep_their_values() {
    assert_eq!(to_value(ser(), &Content::I64(i64::MIN)).unwrap(), PyValue::Int(i64::MIN as i128));
    assert_eq!(to_value(ser(), &Content::U64(u64::MAX)).unwrap(), PyValue::Int(u64::MAX as i128));
    assert_eq!(to_value(ser(), &Content::I8(-128)).unwrap(), PyValue::Int(-128));
}

#[test]
fn float_bits_round_trip_through_the_scalar() {
    let r32 = to_value(ser(), &Content::F32Bits(1.5f32.to_bits())).unwrap();
    match r32 {
        PyValue::F32Bits(bits) => assert_eq!(f32::from_bits(bits), 1.5f32),
        other => panic!("expected a single-precision scalar, got {:?}", other),
    }
    let r64 = to_value(ser(), &Content::F64Bits((-0.25f64).to_bits())).unwrap();
    match r64 {
        PyValue::F64Bits(bits) => assert_eq!(f64::from_bits(bits), -0.25f64),
        other => panic!("expected a double-precision scalar, got {:?}", other),
    }
}

#[test]
fn char_converts_to_one_character_string() {
    assert_eq!(to_value(ser(), &Content::Char('A')).unwrap(), PyValue::Str(String::from("A")));
    assert_eq!(
        to_value(ser(), &Content::Char('\u{00e9}')).unwrap(),
        PyValue::Str(String::from("\u{00e9}"))
    );
}

#[test]
fn str_converts_to_string_scalar() {
    assert_eq!(
        to_value(ser(), &Content::Str(String::from("hello"))).unwrap(),
        PyValue::Str(String::from("hello"))
    );
    assert_eq!(
        to_value(ser(), &Content::Str(String::new())).unwrap(),
        PyValue::Str(String::new())
    );
}

#[test]
fn bytes_convert_to_byte_buffer_scalar() {
    assert_eq!(
        to_value(ser(), &Content::Bytes(vec![0u8, 255u8, 7u8])).unwrap(),
        PyValue::Bytes(vec![0u8, 255u8, 7u8])
    );
    assert_eq!(to_value(ser(), &Content::Bytes(Vec::new())).unwrap(), PyValue::Bytes(Vec::new()));
}

#[test]
fn absence_unit_and_unit_struct_convert_to_none_scalar() {
    assert_eq!(to_value(ser(), &Content::NoneVal).unwrap(), PyValue::Null);
    assert_eq!(to_value(ser(), &Content::Unit).unwrap(), PyValue::Null);
    assert_eq!(
        to_value(ser(), &Content::UnitStruct(String::from("Marker"))).unwrap(),
        PyValue::Null
    );
}

#[test]
fn unit_variant_converts_to_its_name_whatever_its_index() {
    let a = Content::UnitVariant {
        name: String::from("Kind"),
        variant_index: 0,
        variant: String::from("Foo"),
    };
    let b = Content::UnitVariant {
        name: String::from("Kind"),
        variant_index: 7,
        variant: String::from("Foo"),
    };
    assert_eq!(to_value(ser(), &a).unwrap(), PyValue::Str(String::from("Foo")));
    assert_eq!(to_value(ser(), &a).unwrap(), to_value(ser(), &b).unwrap());
}
