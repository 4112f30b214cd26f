use ssz_test_gen::cases::{build_case, classify_part, meta_root, CaseMap, Part, PartKind};
use ssz_test_gen::emit::Generator;
use ssz_test_gen::resolve::{to_element_type, to_rust_type};
use ssz_test_gen::strutil::u64_to_dec;
use ssz_test_gen::types::{ErrKind, FieldNode, Format, Node, SszType, TestCase};

fn s(text: &str) -> String {
    text.to_string()
}

#[test]
fn dec_rendering() {
    assert_eq!(u64_to_dec(0), "0");
    assert_eq!(u64_to_dec(10), "10");
    assert_eq!(u64_to_dec(18446744073709551615), "18446744073709551615");
}

#[test]
fn category_from_token() {
    assert_eq!(SszType::from_token("basic_vector").unwrap(), SszType::BasicVector);
    assert_eq!(SszType::from_token("bitlist").unwrap(), SszType::Bitlist);
    assert_eq!(SszType::from_token("bitvector").unwrap(), SszType::Bitvector);
    assert_eq!(SszType::from_token("boolean").unwrap(), SszType::Boolean);
    assert_eq!(SszType::from_token("containers").unwrap(), SszType::Container);
    assert_eq!(SszType::from_token("uints").unwrap(), SszType::Uint);
    let e = SszType::from_token("junk").unwrap_err();
    assert_eq!(e.kind, ErrKind::UnsupportedCategory);
    assert_eq!(e.detail, "junk");
    assert_eq!(e.message(), "unsupported type: junk");
}

#[test]
fn element_type_mapping() {
    assert_eq!(to_element_type("bool").unwrap(), "bool");
    assert_eq!(to_element_type("uint256").unwrap(), "U256");
    assert_eq!(to_element_type("uint32").unwrap(), "u32");
    assert_eq!(to_element_type("uint128").unwrap(), "u128");
    let e = to_element_type("u8").unwrap_err();
    assert_eq!(e.kind, ErrKind::BadTypeName);
}

#[test]
fn resolve_basic_vector() {
    // Resolution is a pure function of category and case name.
    let r = to_rust_type(SszType::BasicVector, "vec_uint16_3_max").unwrap();
    assert_eq!(r, "Vector::<u16, 3>");
    let again = to_rust_type(SszType::BasicVector, "vec_uint16_3_max").unwrap();
    assert_eq!(r, again);
    assert_eq!(
        to_rust_type(SszType::BasicVector, "vec_bool_4_zero").unwrap(),
        "Vector::<bool, 4>"
    );
    assert_eq!(
        to_rust_type(SszType::BasicVector, "vec_uint256_2_random").unwrap(),
        "Vector::<U256, 2>"
    );
}

#[test]
fn resolve_bitlist_default_bound() {
    // A bit-list case without a declared bound falls back to 256.
    assert_eq!(to_rust_type(SszType::Bitlist, "bitlist_no_start").unwrap(), "Bitlist::<256>");
    assert_eq!(to_rust_type(SszType::Bitlist, "bitlist_8_lengthy").unwrap(), "Bitlist::<8>");
}

#[test]
fn resolve_bitvector() {
    assert_eq!(to_rust_type(SszType::Bitvector, "bitvec_9_random").unwrap(), "Bitvector::<9>");
}

#[test]
fn resolve_boolean() {
    assert_eq!(to_rust_type(SszType::Boolean, "true").unwrap(), "bool");
}

#[test]
fn resolve_container() {
    assert_eq!(
        to_rust_type(SszType::Container, "VarTestStruct_one_max").unwrap(),
        "VarTestStruct"
    );
}

#[test]
fn resolve_uint() {
    assert_eq!(to_rust_type(SszType::Uint, "uint_64_max").unwrap(), "u64");
    assert_eq!(to_rust_type(SszType::Uint, "uint_256_random").unwrap(), "U256");
    let e = to_rust_type(SszType::Uint, "uint").unwrap_err();
    assert_eq!(e.kind, ErrKind::BadTypeName);
    assert_eq!(e.detail, "uint");
}

#[test]
fn classify_parts() {
    assert_eq!(classify_part("meta.yaml").unwrap(), PartKind::Meta);
    assert_eq!(classify_part("value.yaml").unwrap(), PartKind::Value);
    assert_eq!(classify_part("serialized.ssz_snappy").unwrap(), PartKind::Payload);
}

#[test]
fn classify_rejects_stray_file() {
    // A case-directory child that is neither metadata, value nor payload
    // is a fatal error naming that file.
    let e = classify_part("rubbish.txt").unwrap_err();
    assert_eq!(e.kind, ErrKind::UnrecognizedPart);
    assert_eq!(e.detail, "rubbish.txt");
    assert_eq!(e.message(), "unrecognized case file: rubbish.txt");
}

#[test]
fn meta_root_reads_mapping() {
    let meta = Node::Dict(vec![FieldNode { key: s("root"), value: Node::Str(s("0xdead")) }]);
    assert_eq!(meta_root(&meta).unwrap(), "0xdead");
    let empty = Node::Dict(vec![]);
    let e = meta_root(&empty).unwrap_err();
    assert_eq!(e.kind, ErrKind::MalformedMeta);
}

#[test]
fn build_case_collects_parts() {
    let meta = Node::Dict(vec![FieldNode { key: s("root"), value: Node::Str(s("0xbeef")) }]);
    let parts = vec![
        Part { name: s("meta.yaml"), node: Some(meta) },
        Part { name: s("value.yaml"), node: Some(Node::Int(3)) },
        Part { name: s("serialized.ssz_snappy"), node: None },
    ];
    let case = build_case(SszType::Uint, Format::Valid, "uint_8_random", parts).unwrap();
    assert_eq!(case.root.as_deref(), Some("0xbeef"));
    assert!(matches!(case.value, Some(Node::Int(3))));
    assert_eq!(
        case.data_path.as_deref(),
        Some(
            "consensus-spec-tests/tests/general/phase0/ssz_generic/uints/valid/uint_8_random/serialized.ssz_snappy"
        )
    );
}

#[test]
fn build_case_rejects_stray_file() {
    let parts = vec![Part { name: s("notes.txt"), node: None }];
    let e = build_case(SszType::Uint, Format::Valid, "uint_8_random", parts).unwrap_err();
    assert_eq!(e.kind, ErrKind::UnrecognizedPart);
    assert_eq!(e.detail, "notes.txt");
}

fn boolean_case_parts(root: &str, value: bool) -> Vec<Part> {
    let meta = Node::Dict(vec![FieldNode { key: s("root"), value: Node::Str(s(root)) }]);
    vec![
        Part { name: s("meta.yaml"), node: Some(meta) },
        Part { name: s("value.yaml"), node: Some(Node::Bool(value)) },
        Part { name: s("serialized.ssz_snappy"), node: None },
    ]
}

#[test]
fn emits_valid_boolean_case() {
    let mut g = Generator::new(SszType::Boolean);
    g.load_test_case(Format::Valid, s("true"), boolean_case_parts("0xdeadbeef", true)).unwrap();
    let out = g.execute().unwrap();
    assert_eq!(out.target_file, "../ssz-rs/tests/boolean.rs");
    assert_eq!(out.copies.len(), 1);
    assert_eq!(
        out.copies[0].src,
        "consensus-spec-tests/tests/general/phase0/ssz_generic/boolean/valid/true/serialized.ssz_snappy"
    );
    assert_eq!(
        out.copies[0].dest,
        "../ssz-rs/tests/data/boolean/valid/true/serialized.ssz_snappy"
    );
    let expected = r#"//! This file was generated by `ssz-rs-test-gen`; do NOT manually edit.
mod test_utils;

use ssz_rs::prelude::*;
use test_utils::{
    deserialize, hash_tree_root, read_ssz_snappy_from_test_data, root_from_hex, serialize,
};

                #[test]
                fn test_boolean_true() {
                    let value = true;
                    let encoding = serialize(&value);
                    let expected_encoding = read_ssz_snappy_from_test_data("ssz-rs/tests/data/boolean/valid/true/serialized.ssz_snappy");
                    assert_eq!(encoding, expected_encoding);

                    let recovered_value: bool = deserialize(&expected_encoding);
                    assert_eq!(recovered_value, value);

                    let root = hash_tree_root(&value);
                    let expected_root = root_from_hex("0xdeadbeef");
                    assert_eq!(root, expected_root);
                }
                "#;
    assert_eq!(out.source, expected);
}

#[test]
fn emits_invalid_case_with_failure_assertion() {
    let mut g = Generator::new(SszType::Uint);
    let parts = vec![Part { name: s("serialized.ssz_snappy"), node: None }];
    g.load_test_case(Format::Invalid, s("uint_64_wrong_length"), parts).unwrap();
    let out = g.execute().unwrap();
    let expected_fragment = r#"
                #[test]
                #[should_panic]
                fn test_uints_uint_64_wrong_length() {
                    let encoding = read_ssz_snappy_from_test_data("ssz-rs/tests/data/uints/invalid/uint_64_wrong_length/serialized.ssz_snappy");

                    deserialize::<u64>(&encoding);
                }
                "#;
    assert!(out.source.ends_with(expected_fragment));
}

#[test]
fn container_category_emits_type_definitions() {
    let g = Generator::new(SszType::Container);
    let out = g.execute().unwrap();
    assert!(out.source.contains("struct SingleFieldTestStruct"));
    assert!(out.source.contains("struct BitsStruct"));
    assert_eq!(out.target_file, "../ssz-rs/tests/containers.rs");
}

#[test]
fn case_names_are_snake_cased() {
    let mut g = Generator::new(SszType::Container);
    let parts = vec![Part { name: s("serialized.ssz_snappy"), node: None }];
    g.load_test_case(Format::Invalid, s("SmallTestStruct_lengthy"), parts).unwrap();
    let out = g.execute().unwrap();
    assert!(out.source.contains("fn test_containers_small_test_struct_lengthy()"));
}

#[test]
fn loading_order_does_not_change_output() {
    // The same corpus loaded in either enumeration order emits
    // byte-identical source and the same copy plan.
    let parts = || vec![Part { name: s("serialized.ssz_snappy"), node: None }];
    let mut g1 = Generator::new(SszType::Uint);
    g1.load_test_case(Format::Invalid, s("uint_16_one_byte"), parts()).unwrap();
    g1.load_test_case(Format::Invalid, s("uint_8_too_long"), parts()).unwrap();
    let mut g2 = Generator::new(SszType::Uint);
    g2.load_test_case(Format::Invalid, s("uint_8_too_long"), parts()).unwrap();
    g2.load_test_case(Format::Invalid, s("uint_16_one_byte"), parts()).unwrap();
    let o1 = g1.execute().unwrap();
    let o2 = g2.execute().unwrap();
    assert_eq!(o1.source, o2.source);
    assert_eq!(o1.copies.len(), o2.copies.len());
    for (c1, c2) in o1.copies.iter().zip(o2.copies.iter()) {
        assert_eq!(c1.src, c2.src);
        assert_eq!(c1.dest, c2.dest);
    }
}

#[test]
fn running_twice_is_idempotent() {
    // Two runs over the same loaded state produce byte-identical output.
    let build = || {
        let mut g = Generator::new(SszType::Boolean);
        g.load_test_case(Format::Valid, s("true"), boolean_case_parts("0xaa", true)).unwrap();
        g.load_test_case(Format::Valid, s("false"), boolean_case_parts("0xbb", false)).unwrap();
        g.execute().unwrap()
    };
    let o1 = build();
    let o2 = build();
    assert_eq!(o1.source, o2.source);
    assert_eq!(o1.target_file, o2.target_file);
    assert_eq!(o1.copies.len(), o2.copies.len());
    for (c1, c2) in o1.copies.iter().zip(o2.copies.iter()) {
        assert_eq!(c1.src, c2.src);
        assert_eq!(c1.dest, c2.dest);
    }
}

#[test]
fn cases_emit_in_name_order() {
    let parts = || vec![Part { name: s("serialized.ssz_snappy"), node: None }];
    let mut g = Generator::new(SszType::Uint);
    g.load_test_case(Format::Invalid, s("uint_8_b"), parts()).unwrap();
    g.load_test_case(Format::Invalid, s("uint_8_a"), parts()).unwrap();
    let out = g.execute().unwrap();
    let first = out.source.find("test_uints_uint_8_a").unwrap();
    let second = out.source.find("test_uints_uint_8_b").unwrap();
    assert!(first < second);
}

#[test]
fn valid_case_without_value_is_fatal() {
    let mut g = Generator::new(SszType::Boolean);
    let parts = vec![Part { name: s("serialized.ssz_snappy"), node: None }];
    g.load_test_case(Format::Valid, s("true"), parts).unwrap();
    let e = g.execute().unwrap_err();
    assert_eq!(e.kind, ErrKind::MissingValue);
    assert_eq!(e.detail, "true");
}

#[test]
fn case_without_payload_is_fatal() {
    let mut g = Generator::new(SszType::Boolean);
    let parts = vec![Part { name: s("value.yaml"), node: Some(Node::Bool(true)) }];
    g.load_test_case(Format::Valid, s("true"), parts).unwrap();
    let e = g.execute().unwrap_err();
    assert_eq!(e.kind, ErrKind::MissingPayload);
}

#[test]
fn valid_case_without_root_is_fatal() {
    let mut g = Generator::new(SszType::Boolean);
    let parts = vec![
        Part { name: s("value.yaml"), node: Some(Node::Bool(true)) },
        Part { name: s("serialized.ssz_snappy"), node: None },
    ];
    g.load_test_case(Format::Valid, s("true"), parts).unwrap();
    let e = g.execute().unwrap_err();
    assert_eq!(e.kind, ErrKind::MissingRoot);
    assert_eq!(e.detail, "true");
}

#[test]
fn payload_outside_corpus_is_fatal() {
    let mut cases = CaseMap::new();
    cases.insert(
        s("true"),
        TestCase {
            root: None,
            value: None,
            data_path: Some(s("elsewhere/serialized.ssz_snappy")),
            format: Format::Invalid,
        },
    );
    let g = Generator { ssz_type: SszType::Boolean, components: vec![], test_cases: cases };
    let e = g.execute().unwrap_err();
    assert_eq!(e.kind, ErrKind::ForeignPayload);
    assert_eq!(e.detail, "elsewhere/serialized.ssz_snappy");
}

#[test]
fn unreadable_meta_is_fatal() {
    let mut g = Generator::new(SszType::Boolean);
    let parts = vec![Part { name: s("meta.yaml"), node: None }];
    let e = g.load_test_case(Format::Valid, s("true"), parts).unwrap_err();
    assert_eq!(e.kind, ErrKind::MissingNode);
    assert_eq!(e.detail, "meta.yaml");
}
