//! Composite kinds: order preservation, field completeness, key/value
//! pairing, transparent wrappers, and structural idempotence.

use pywick::content::Content;
use pywick::pyserde::to_value;
use pywick::pyserde::Serializer;
use pywick::pyvalue::PyValue;

fn ser() -> Serializer {
    Serializer {}
}

fn ints(values: &[i32]) -> Vec<Content> {
    values.iter().map(|v| Content::I32(*v)).collect()
}

#[test]
fn sequence_preserves_length_and_order() {
    let src = Content::Sequence(ints(&[1, 2, 3]));
    assert_eq!(
        to_value(ser(), &src).unwrap(),
        PyValue::List(vec![PyValue::Int(1), PyValue::Int(2), PyValue::Int(3)])
    );
}

#[test]
fn empty_sequence_converts_to_empty_list() {
    assert_eq!(to_value(ser(), &Content::Sequence(Vec::new())).unwrap(), PyValue::List(Vec::new()));
}

#[test]
fn tuple_and_tuple_struct_convert_like_sequences() {
    let expected = PyValue::List(vec![PyValue::Int(5), PyValue::Bool(true)]);
    let tuple = Content::Tuple(vec![Content::I32(5), Content::Bool(true)]);
    let tuple_struct = Content::TupleStruct(
        String::from("Pair"),
        vec![Content::I32(5), Content::Bool(true)],
    );
    assert_eq!(to_value(ser(), &tuple).unwrap(), expected);
    assert_eq!(to_value(ser(), &tuple_struct).unwrap(), expected);
}

#[test]
fn struct_converts_to_dict_with_every_field() {
    let src = Content::Struct(
        String::from("Record"),
        vec![
            (String::from("a"), Content::I32(1)),
            (String::from("b"), Content::Str(String::from("x"))),
        ],
    );
    assert_eq!(
        to_value(ser(), &src).unwrap(),
        PyValue::Dict(vec![
            (PyValue::Str(String::from("a")), PyValue::Int(1)),
            (PyValue::Str(String::from("b")), PyValue::Str(String::from("x"))),
        ])
    );
}

#[test]
fn map_pairs_each_key_with_its_own_value() {
    let src = Content::Mapping(vec![
        (Content::Str(String::from("k1")), Content::I32(10)),
        (Content::Str(String::from("k2")), Content::I32(20)),
    ]);
    assert_eq!(
        to_value(ser(), &src).unwrap(),
        PyValue::Dict(vec![
            (PyValue::Str(String::from("k1")), PyValue::Int(10)),
            (PyValue::Str(String::from("k2")), PyValue::Int(20)),
        ])
    );
}

#[test]
fn empty_map_converts_to_empty_dict() {
    assert_eq!(to_value(ser(), &Content::Mapping(Vec::new())).unwrap(), PyValue::Dict(Vec::new()));
}

#[test]
fn map_accepts_equal_keys_in_insertion_order() {
    let src = Content::Mapping(vec![
        (Content::Str(String::from("k")), Content::I32(1)),
        (Content::Str(String::from("k")), Content::I32(2)),
    ]);
    assert_eq!(
        to_value(ser(), &src).unwrap(),
        PyValue::Dict(vec![
            (PyValue::Str(String::from("k")), PyValue::Int(1)),
            (PyValue::Str(String::from("k")), PyValue::Int(2)),
        ])
    );
}

#[test]
fn some_is_transparent() {
    let src = Content::SomeVal(Box::new(Content::I32(5)));
    assert_eq!(to_value(ser(), &src).unwrap(), to_value(ser(), &Content::I32(5)).unwrap());
}

#[test]
fn newtype_struct_is_transparent() {
    let wrapped = Content::NewtypeStruct(String::from("Wrapper"), Box::new(Content::I32(7)));
    assert_eq!(to_value(ser(), &wrapped).unwrap(), to_value(ser(), &Content::I32(7)).unwrap());
    assert_eq!(to_value(ser(), &wrapped).unwrap(), PyValue::Int(7));
}

#[test]
fn newtype_variant_keeps_its_inner_value() {
    let src = Content::NewtypeVariant {
        name: String::from("Kind"),
        variant_index: 1,
        variant: String::from("Wrapped"),
        inner: Box::new(Content::I32(7)),
    };
    assert_eq!(to_value(ser(), &src).unwrap(), PyValue::Int(7));
}

#[test]
fn nested_trees_convert_node_for_node() {
    let src = Content::Struct(
        String::from("Outer"),
        vec![
            (
                String::from("items"),
                Content::Sequence(vec![
                    Content::Sequence(ints(&[1])),
                    Content::Sequence(Vec::new()),
                ]),
            ),
            (
                String::from("table"),
                Content::Mapping(vec![(Content::U8(9), Content::NoneVal)]),
            ),
        ],
    );
    assert_eq!(
        to_value(ser(), &src).unwrap(),
        PyValue::Dict(vec![
            (
                PyValue::Str(String::from("items")),
                PyValue::List(vec![
                    PyValue::List(vec![PyValue::Int(1)]),
                    PyValue::List(Vec::new()),
                ]),
            ),
            (
                PyValue::Str(String::from("table")),
                PyValue::Dict(vec![(PyValue::Int(9), PyValue::Null)]),
            ),
        ])
    );
}

#[test]
fn reconverting_the_same_tree_gives_structurally_equal_results() {
    let src = Content::Struct(
        String::from("Record"),
        vec![
            (String::from("xs"), Content::Sequence(ints(&[3, 1, 2]))),
            (String::from("tag"), Content::Char('t')),
        ],
    );
    let first = to_value(ser(), &src).unwrap();
    let second = to_value(ser(), &src).unwrap();
    assert_eq!(first, second);
}
