use ssz_test_gen::types::{ErrKind, FieldNode, Node};
use ssz_test_gen::value::{
    to_field_value, to_rust_bitlist, to_rust_bitvector, to_rust_struct, to_rust_u256,
    to_rust_value, to_rust_vector, value_to_compact_string,
};

fn s(text: &str) -> String {
    text.to_string()
}

#[test]
fn compact_bool_true() {
    let r = value_to_compact_string(&Node::Bool(true)).unwrap();
    assert_eq!(r, "true");
}

#[test]
fn compact_bool_false() {
    let r = value_to_compact_string(&Node::Bool(false)).unwrap();
    assert_eq!(r, "false");
}

#[test]
fn compact_int() {
    let r = value_to_compact_string(&Node::Int(18446744073709551615)).unwrap();
    assert_eq!(r, "18446744073709551615");
}

#[test]
fn compact_string_verbatim() {
    let r = value_to_compact_string(&Node::Str(s("12345"))).unwrap();
    assert_eq!(r, "12345");
}

#[test]
fn compact_rejects_sequence() {
    let e = value_to_compact_string(&Node::List(vec![])).unwrap_err();
    assert_eq!(e.kind, ErrKind::ExpectedScalar);
}

#[test]
fn u256_of_two_pow_128() {
    // 2^128 in little-endian minimal bytes is sixteen zero bytes then one,
    // padded with zero bytes to exactly 32.
    let n = Node::Str(s("340282366920938463463374607431768211456"));
    let r = to_rust_u256(&n).unwrap();
    assert_eq!(
        r,
        "U256::try_from_le_slice(Vec::<u8>::from_iter([0, 0, 0, 0, 0, 0, 0, 0, 0, 0, 0, 0, 0, 0, 0, 0, 1, 0, 0, 0, 0, 0, 0, 0, 0, 0, 0, 0, 0, 0, 0, 0]).as_ref()).unwrap()"
    );
}

#[test]
fn u256_of_zero() {
    let r = to_rust_u256(&Node::Str(s("0"))).unwrap();
    assert_eq!(
        r,
        "U256::try_from_le_slice(Vec::<u8>::from_iter([0, 0, 0, 0, 0, 0, 0, 0, 0, 0, 0, 0, 0, 0, 0, 0, 0, 0, 0, 0, 0, 0, 0, 0, 0, 0, 0, 0, 0, 0, 0, 0]).as_ref()).unwrap()"
    );
}

#[test]
fn u256_too_wide() {
    // 2^256 needs 33 little-endian bytes.
    let n = Node::Str(s(
        "115792089237316195423570985008687907853269984665640564039457584007913129639936",
    ));
    let e = to_rust_u256(&n).unwrap_err();
    assert_eq!(e.kind, ErrKind::WideIntTooWide);
}

#[test]
fn u256_bad_decimal() {
    let e = to_rust_u256(&Node::Str(s("12x4"))).unwrap_err();
    assert_eq!(e.kind, ErrKind::BadDecimal);
}

#[test]
fn u256_needs_string_scalar() {
    let e = to_rust_u256(&Node::Int(7)).unwrap_err();
    assert_eq!(e.kind, ErrKind::ExpectedString);
}

#[test]
fn bitvector_decodes_hex() {
    let r = to_rust_bitvector(&Node::Str(s("0x0102ff")), "Bitvector::<24>").unwrap();
    assert_eq!(
        r,
        "<Bitvector::<24> as TryFrom<&[u8]>>::try_from(Vec::<u8>::from_iter([1, 2, 255]).as_ref()).unwrap()"
    );
}

#[test]
fn bitlist_decodes_hex() {
    let r = to_rust_bitlist(&Node::Str(s("0x03")), "Bitlist::<5>").unwrap();
    assert_eq!(
        r,
        "<Bitlist::<5> as TryFrom<&[u8]>>::try_from(Vec::<u8>::from_iter([3]).as_ref()).unwrap()"
    );
}

#[test]
fn bitseq_requires_prefix() {
    let e = to_rust_bitvector(&Node::Str(s("0102")), "Bitvector::<16>").unwrap_err();
    assert_eq!(e.kind, ErrKind::MissingHexPrefix);
}

#[test]
fn bitseq_rejects_odd_hex() {
    let e = to_rust_bitvector(&Node::Str(s("0x012")), "Bitvector::<16>").unwrap_err();
    assert_eq!(e.kind, ErrKind::BadHex);
}

#[test]
fn vector_of_small_ints() {
    let n = Node::List(vec![Node::Int(1), Node::Int(2), Node::Int(3)]);
    let r = to_rust_vector(&n, "Vector::<u8, 3>").unwrap();
    assert_eq!(
        r,
        "Vector::<u8, 3>::try_from(Vec::<u8>::from_iter([1, 2, 3])).unwrap()"
    );
}

#[test]
fn vector_of_bools() {
    let n = Node::List(vec![Node::Bool(true), Node::Bool(false)]);
    let r = to_rust_vector(&n, "Vector::<bool, 2>").unwrap();
    assert_eq!(
        r,
        "Vector::<bool, 2>::try_from(Vec::<bool>::from_iter([true, false])).unwrap()"
    );
}

#[test]
fn vector_of_u128_trims_strings() {
    let n = Node::List(vec![Node::Str(s(" 10 ")), Node::Str(s("11"))]);
    let r = to_rust_vector(&n, "Vector::<u128, 2>").unwrap();
    assert_eq!(
        r,
        "Vector::<u128, 2>::try_from(Vec::<u128>::from_iter([10, 11])).unwrap()"
    );
}

#[test]
fn vector_of_u256_recurses() {
    let n = Node::List(vec![Node::Str(s("1"))]);
    let r = to_rust_vector(&n, "Vector::<U256, 1>").unwrap();
    assert_eq!(
        r,
        "Vector::<U256, 1>::try_from(Vec::<U256>::from_iter([U256::try_from_le_slice(Vec::<u8>::from_iter([1, 0, 0, 0, 0, 0, 0, 0, 0, 0, 0, 0, 0, 0, 0, 0, 0, 0, 0, 0, 0, 0, 0, 0, 0, 0, 0, 0, 0, 0, 0, 0]).as_ref()).unwrap()])).unwrap()"
    );
}

#[test]
fn vector_needs_sequence() {
    let e = to_rust_vector(&Node::Int(1), "Vector::<u8, 1>").unwrap_err();
    assert_eq!(e.kind, ErrKind::ExpectedSequence);
}

#[test]
fn var_test_struct_reconstruction() {
    // A mapping {a: 1, b: [1, 2, 3], c: 4} reconstructs with field b as a
    // bounded sequence of exactly [1, 2, 3].
    let n = Node::Dict(vec![
        FieldNode { key: s("a"), value: Node::Int(1) },
        FieldNode {
            key: s("b"),
            value: Node::List(vec![Node::Int(1), Node::Int(2), Node::Int(3)]),
        },
        FieldNode { key: s("c"), value: Node::Int(4) },
    ]);
    let r = to_rust_struct(&n, "VarTestStruct").unwrap();
    assert_eq!(
        r,
        "VarTestStruct{a: 1, b: List::<u16, 1024>::try_from(Vec::<u16>::from_iter([1, 2, 3])).unwrap(), c: 4}"
    );
}

#[test]
fn struct_keys_are_lowercased() {
    let n = Node::Dict(vec![FieldNode { key: s("A"), value: Node::Int(5) }]);
    let r = to_rust_struct(&n, "SingleFieldTestStruct").unwrap();
    assert_eq!(r, "SingleFieldTestStruct{a: 5}");
}

#[test]
fn struct_rejects_duplicate_keys() {
    let n = Node::Dict(vec![
        FieldNode { key: s("a"), value: Node::Int(1) },
        FieldNode { key: s("A"), value: Node::Int(2) },
        FieldNode { key: s("b"), value: Node::Int(3) },
    ]);
    let e = to_rust_struct(&n, "SmallTestStruct").unwrap_err();
    assert_eq!(e.kind, ErrKind::DuplicateField);
    assert_eq!(e.detail, "a");
}

#[test]
fn struct_rejects_missing_field() {
    // The two-field small struct given only {a: 1}: the omitted declared
    // field is a fatal error naming it.
    let n = Node::Dict(vec![FieldNode { key: s("a"), value: Node::Int(1) }]);
    let e = to_rust_struct(&n, "SmallTestStruct").unwrap_err();
    assert_eq!(e.kind, ErrKind::MissingField);
    assert_eq!(e.detail, "b");
    assert_eq!(e.message(), "missing container field: b");
}

#[test]
fn nested_struct_rejects_missing_field() {
    let inner = Node::Dict(vec![
        FieldNode { key: s("a"), value: Node::Int(1) },
        FieldNode { key: s("b"), value: Node::List(vec![]) },
    ]);
    let e = to_field_value("e", &inner, "ComplexTestStruct").unwrap_err();
    assert_eq!(e.kind, ErrKind::MissingField);
    assert_eq!(e.detail, "c");
}

#[test]
fn struct_needs_mapping() {
    let e = to_rust_struct(&Node::Int(1), "SmallTestStruct").unwrap_err();
    assert_eq!(e.kind, ErrKind::ExpectedMapping);
}

#[test]
fn complex_struct_byte_list_field() {
    let r = to_field_value("d", &Node::Str(s("0x0a0b")), "ComplexTestStruct").unwrap();
    assert_eq!(
        r,
        "List::<u8, 256>::try_from(Vec::<u8>::from_iter([10, 11])).unwrap()"
    );
}

#[test]
fn complex_struct_nested_struct_field() {
    let inner = Node::Dict(vec![
        FieldNode { key: s("a"), value: Node::Int(1) },
        FieldNode { key: s("b"), value: Node::List(vec![]) },
        FieldNode { key: s("c"), value: Node::Int(2) },
    ]);
    let r = to_field_value("e", &inner, "ComplexTestStruct").unwrap();
    assert_eq!(
        r,
        "VarTestStruct{a: 1, b: List::<u16, 1024>::try_from(Vec::<u16>::from_iter([])).unwrap(), c: 2}"
    );
}

#[test]
fn complex_struct_fixed_vector_field() {
    let one = Node::Dict(vec![
        FieldNode { key: s("a"), value: Node::Int(1) },
        FieldNode { key: s("b"), value: Node::Int(2) },
        FieldNode { key: s("c"), value: Node::Int(3) },
    ]);
    let n = Node::List(vec![one]);
    let r = to_field_value("f", &n, "ComplexTestStruct").unwrap();
    assert_eq!(
        r,
        "Vector::<FixedTestStruct, 4>::try_from(vec![FixedTestStruct{a: 1, b: 2, c: 3}]).unwrap()"
    );
}

#[test]
fn bits_struct_fields() {
    let r = to_field_value("a", &Node::Str(s("0x03")), "BitsStruct").unwrap();
    assert_eq!(
        r,
        "<Bitlist::<5> as TryFrom<&[u8]>>::try_from(Vec::<u8>::from_iter([3]).as_ref()).unwrap()"
    );
    let r = to_field_value("e", &Node::Str(s("0xff")), "BitsStruct").unwrap();
    assert_eq!(
        r,
        "<Bitvector::<8> as TryFrom<&[u8]>>::try_from(Vec::<u8>::from_iter([255]).as_ref()).unwrap()"
    );
}

#[test]
fn bits_struct_unknown_field() {
    let e = to_field_value("z", &Node::Int(0), "BitsStruct").unwrap_err();
    assert_eq!(e.kind, ErrKind::UnsupportedField);
    assert_eq!(e.detail, "z");
}

#[test]
fn rust_value_dispatches_on_name() {
    let r = to_rust_value("uint_256_max", "U256", &Node::Str(s("1"))).unwrap();
    assert!(r.starts_with("U256::try_from_le_slice"));

    let r = to_rust_value("bitvec_2_zero", "Bitvector::<2>", &Node::Str(s("0x00"))).unwrap();
    assert!(r.starts_with("<Bitvector::<2> as TryFrom<&[u8]>>"));

    let r = to_rust_value("vec_uint8_2_max", "Vector::<u8, 2>", &Node::List(vec![
        Node::Int(255),
        Node::Int(255),
    ]))
    .unwrap();
    assert_eq!(
        r,
        "Vector::<u8, 2>::try_from(Vec::<u8>::from_iter([255, 255])).unwrap()"
    );

    let r = to_rust_value(
        "SmallTestStruct_one",
        "SmallTestStruct",
        &Node::Dict(vec![
            FieldNode { key: s("a"), value: Node::Int(1) },
            FieldNode { key: s("b"), value: Node::Int(2) },
        ]),
    )
    .unwrap();
    assert_eq!(r, "SmallTestStruct{a: 1, b: 2}");

    let r = to_rust_value("true", "bool", &Node::Bool(true)).unwrap();
    assert_eq!(r, "true");
}
