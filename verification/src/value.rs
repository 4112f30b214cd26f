//! Value Reconstructor: turns a schema-less value tree into a literal
//! expression of the resolved target type.

use vstd::prelude::*;

use crate::outside::{
    decimal_parse_ok, decimal_value, hex_bytes, hex_decode, is_hex_digit, le_min_bytes,
    parse_decimal_le_bytes,
};
use crate::strutil::{
    byte_list_str, contains_sub, dec_str, join_comma, lemma_split_from_nonempty, render_byte_list,
    spec_join_comma, spec_split, spec_trim, split_char, str_contains, trim_spaces, u64_to_dec,
};
use crate::outside::{lower_seq, to_ascii_lower};
use crate::types::{res_list_matches, res_matches, ErrKind, ErrView, FieldNode, GenError, Node};

verus! {

/// The compact scalar form of a node: booleans and integers in their
/// canonical text, strings verbatim; containers have no compact form.
pub open spec fn spec_compact(n: Node) -> Result<Seq<char>, ErrView> {
    match n {
        Node::Bool(b) => Ok(if b {
            "true"@
        } else {
            "false"@
        }),
        Node::Int(i) => Ok(dec_str(i as nat)),
        Node::Str(s) => Ok(s@),
        _ => Err(ErrView { kind: ErrKind::ExpectedScalar, detail: Seq::<char>::empty() }),
    }
}

/// Renders a node's compact scalar form.
pub fn value_to_compact_string(n: &Node) -> (r: Result<String, GenError>)
    ensures
        res_matches(r, spec_compact(*n)),
{
    match n {
        Node::Bool(b) => Ok(
            if *b {
                "true".to_owned()
            } else {
                "false".to_owned()
            },
        ),
        Node::Int(i) => Ok(u64_to_dec(*i)),
        Node::Str(s) => Ok(s.clone()),
        _ => Err(GenError::new(ErrKind::ExpectedScalar, String::new())),
    }
}

/// A byte sequence padded with zero bytes to exactly 32 bytes.
pub open spec fn padded32(b: Seq<u8>) -> Seq<u8>
    recommends
        b.len() <= 32,
{
    b + Seq::new((32 - b.len()) as nat, |i: int| 0u8)
}

fn pad_to_32(v: Vec<u8>) -> (r: Vec<u8>)
    requires
        v@.len() <= 32,
    ensures
        r@ == padded32(v@),
    decreases 32 - v@.len(),
{
    let ghost orig = v@;
    let mut v = v;
    if v.len() < 32 {
        v.push(0);
        let r = pad_to_32(v);
        proof {
            assert(r@ =~= padded32(orig));
        }
        r
    } else {
        proof {
            assert(v@ =~= padded32(v@));
        }
        v
    }
}

/// The wide-integer literal written for minimal little-endian bytes `b`.
pub open spec fn u256_literal(b: Seq<u8>) -> Seq<char>
    recommends
        b.len() <= 32,
{
    "U256::try_from_le_slice(Vec::<u8>::from_iter("@ + byte_list_str(padded32(b))
        + ").as_ref()).unwrap()"@
}

/// The wide-integer reconstruction of a node: the scalar must be a decimal
/// string whose little-endian rendering fits 32 bytes.
pub open spec fn spec_u256(n: Node) -> Result<Seq<char>, ErrView> {
    match n {
        Node::Str(s) => if !decimal_parse_ok(s@) {
            Err(ErrView { kind: ErrKind::BadDecimal, detail: s@ })
        } else if le_min_bytes(decimal_value(s@)).len() > 32 {
            Err(ErrView { kind: ErrKind::WideIntTooWide, detail: s@ })
        } else {
            Ok(u256_literal(le_min_bytes(decimal_value(s@))))
        },
        _ => Err(ErrView { kind: ErrKind::ExpectedString, detail: Seq::<char>::empty() }),
    }
}

/// Renders a wide-integer literal from a decimal string scalar.
pub fn to_rust_u256(n: &Node) -> (r: Result<String, GenError>)
    ensures
        res_matches(r, spec_u256(*n)),
{
    match n {
        Node::Str(s) => {
            match parse_decimal_le_bytes(s.as_str()) {
                Some(bytes) => {
                    if bytes.len() > 32 {
                        Err(GenError::new(ErrKind::WideIntTooWide, s.clone()))
                    } else {
                        let padded = pad_to_32(bytes);
                        let mut t = "U256::try_from_le_slice(Vec::<u8>::from_iter(".to_owned();
                        let list = render_byte_list(&padded);
                        t.append(list.as_str());
                        t.append(").as_ref()).unwrap()");
                        proof {
                            assert(t@ =~= u256_literal(le_min_bytes(decimal_value(s@))));
                        }
                        Ok(t)
                    }
                },
                None => Err(GenError::new(ErrKind::BadDecimal, s.clone())),
            }
        },
        _ => Err(GenError::new(ErrKind::ExpectedString, String::new())),
    }
}

/// Whether `s` starts with the `0x` hex prefix.
pub open spec fn has_hex_prefix(s: Seq<char>) -> bool {
    s.len() >= 2 && s[0] == '0' && s[1] == 'x'
}

/// Whether the characters after the `0x` prefix decode as hex bytes.
pub open spec fn hex_body_ok(s: Seq<char>) -> bool {
    s.skip(2).len() % 2 == 0 && forall|i: int|
        0 <= i < s.skip(2).len() ==> is_hex_digit(#[trigger] s.skip(2)[i])
}

/// The bit-sequence literal written for a target type and payload bytes.
pub open spec fn bitseq_literal(rt: Seq<char>, bytes: Seq<u8>) -> Seq<char> {
    "<"@ + rt + " as TryFrom<&[u8]>>::try_from(Vec::<u8>::from_iter("@ + byte_list_str(bytes)
        + ").as_ref()).unwrap()"@
}

/// The bit-sequence reconstruction of a node: a `0x`-prefixed hex string
/// decoded to its exact byte sequence.
pub open spec fn spec_bitseq(n: Node, rt: Seq<char>) -> Result<Seq<char>, ErrView> {
    match n {
        Node::Str(s) => if !has_hex_prefix(s@) {
            Err(ErrView { kind: ErrKind::MissingHexPrefix, detail: s@ })
        } else if !hex_body_ok(s@) {
            Err(ErrView { kind: ErrKind::BadHex, detail: s@ })
        } else {
            Ok(bitseq_literal(rt, hex_bytes(s@.skip(2))))
        },
        _ => Err(ErrView { kind: ErrKind::ExpectedString, detail: Seq::<char>::empty() }),
    }
}

fn to_rust_bitseq(n: &Node, rust_type: &str) -> (r: Result<String, GenError>)
    ensures
        res_matches(r, spec_bitseq(*n, rust_type@)),
{
    match n {
        Node::Str(s) => {
            let sl = s.as_str().unicode_len();
            if sl < 2 || s.as_str().get_char(0) != '0' || s.as_str().get_char(1) != 'x' {
                Err(GenError::new(ErrKind::MissingHexPrefix, s.clone()))
            } else {
                let body = s.as_str().substring_char(2, sl);
                proof {
                    assert(body@ =~= s@.skip(2));
                }
                match hex_decode(body) {
                    Some(bytes) => {
                        let mut t = "<".to_owned();
                        t.append(rust_type);
                        t.append(" as TryFrom<&[u8]>>::try_from(Vec::<u8>::from_iter(");
                        let list = render_byte_list(&bytes);
                        t.append(list.as_str());
                        t.append(").as_ref()).unwrap()");
                        proof {
                            assert(t@ =~= bitseq_literal(rust_type@, hex_bytes(s@.skip(2))));
                        }
                        Ok(t)
                    },
                    None => Err(GenError::new(ErrKind::BadHex, s.clone())),
                }
            }
        },
        _ => Err(GenError::new(ErrKind::ExpectedString, String::new())),
    }
}

/// Renders a bit-vector literal from a hex string scalar.
pub fn to_rust_bitvector(n: &Node, rust_type: &str) -> (r: Result<String, GenError>)
    ensures
        res_matches(r, spec_bitseq(*n, rust_type@)),
{
    to_rust_bitseq(n, rust_type)
}

/// Renders a bit-list literal from a hex string scalar.
pub fn to_rust_bitlist(n: &Node, rust_type: &str) -> (r: Result<String, GenError>)
    ensures
        res_matches(r, spec_bitseq(*n, rust_type@)),
{
    to_rust_bitseq(n, rust_type)
}

/// The wide-integer renderings of the elements from position `i` on, or
/// the first element's error.
pub open spec fn u256_items(elems: Seq<Node>, i: int) -> Result<Seq<Seq<char>>, ErrView>
    recommends
        0 <= i,
    decreases elems.len() - i,
    when 0 <= i
{
    if i >= elems.len() {
        Ok(Seq::<Seq<char>>::empty())
    } else {
        match spec_u256(elems[i]) {
            Ok(t) => match u256_items(elems, i + 1) {
                Ok(rest) => Ok(seq![t] + rest),
                Err(e) => Err(e),
            },
            Err(e) => Err(e),
        }
    }
}

fn u256_items_exec(elems: &Vec<Node>, i: usize) -> (r: Result<Vec<String>, GenError>)
    requires
        i <= elems@.len(),
    ensures
        res_list_matches(r, u256_items(elems@, i as int)),
    decreases elems@.len() - i,
{
    if i == elems.len() {
        Ok(Vec::new())
    } else {
        match to_rust_u256(&elems[i]) {
            Ok(t) => match u256_items_exec(elems, i + 1) {
                Ok(rest) => {
                    let mut rest = rest;
                    rest.insert(0, t);
                    proof {
                        let items = u256_items(elems@, i as int)->Ok_0;
                        assert forall|k: int| 0 <= k < items.len() implies rest@[k]@ == items[k] by {
                            if k > 0 {
                                assert(rest@[k]@ == u256_items(elems@, i + 1 as int)->Ok_0[k - 1]);
                            }
                        }
                    }
                    Ok(rest)
                },
                Err(e) => Err(e),
            },
            Err(e) => Err(e),
        }
    }
}

/// The trimmed string forms of the elements from position `i` on; every
/// element must be a string scalar.
pub open spec fn trimmed_items(elems: Seq<Node>, i: int) -> Result<Seq<Seq<char>>, ErrView>
    recommends
        0 <= i,
    decreases elems.len() - i,
    when 0 <= i
{
    if i >= elems.len() {
        Ok(Seq::<Seq<char>>::empty())
    } else {
        match elems[i] {
            Node::Str(s) => match trimmed_items(elems, i + 1) {
                Ok(rest) => Ok(seq![spec_trim(s@)] + rest),
                Err(e) => Err(e),
            },
            _ => Err(ErrView { kind: ErrKind::ExpectedString, detail: Seq::<char>::empty() }),
        }
    }
}

fn trimmed_items_exec(elems: &Vec<Node>, i: usize) -> (r: Result<Vec<String>, GenError>)
    requires
        i <= elems@.len(),
    ensures
        res_list_matches(r, trimmed_items(elems@, i as int)),
    decreases elems@.len() - i,
{
    if i == elems.len() {
        Ok(Vec::new())
    } else {
        match &elems[i] {
            Node::Str(s) => match trimmed_items_exec(elems, i + 1) {
                Ok(rest) => {
                    let t = trim_spaces(s.clone());
                    let mut rest = rest;
                    rest.insert(0, t);
                    proof {
                        let items = trimmed_items(elems@, i as int)->Ok_0;
                        assert forall|k: int| 0 <= k < items.len() implies rest@[k]@ == items[k] by {
                            if k > 0 {
                                assert(rest@[k]@ == trimmed_items(elems@, i + 1 as int)->Ok_0[k
                                    - 1]);
                            }
                        }
                    }
                    Ok(rest)
                },
                Err(e) => Err(e),
            },
            _ => Err(GenError::new(ErrKind::ExpectedString, String::new())),
        }
    }
}

/// The compact scalar forms of the elements from position `i` on, or the
/// first element's error.
pub open spec fn compact_items(elems: Seq<Node>, i: int) -> Result<Seq<Seq<char>>, ErrView>
    recommends
        0 <= i,
    decreases elems.len() - i,
    when 0 <= i
{
    if i >= elems.len() {
        Ok(Seq::<Seq<char>>::empty())
    } else {
        match spec_compact(elems[i]) {
            Ok(t) => match compact_items(elems, i + 1) {
                Ok(rest) => Ok(seq![t] + rest),
                Err(e) => Err(e),
            },
            Err(e) => Err(e),
        }
    }
}

fn compact_items_exec(elems: &Vec<Node>, i: usize) -> (r: Result<Vec<String>, GenError>)
    requires
        i <= elems@.len(),
    ensures
        res_list_matches(r, compact_items(elems@, i as int)),
    decreases elems@.len() - i,
{
    if i == elems.len() {
        Ok(Vec::new())
    } else {
        match value_to_compact_string(&elems[i]) {
            Ok(t) => match compact_items_exec(elems, i + 1) {
                Ok(rest) => {
                    let mut rest = rest;
                    rest.insert(0, t);
                    proof {
                        let items = compact_items(elems@, i as int)->Ok_0;
                        assert forall|k: int| 0 <= k < items.len() implies rest@[k]@ == items[k] by {
                            if k > 0 {
                                assert(rest@[k]@ == compact_items(elems@, i + 1 as int)->Ok_0[k
                                    - 1]);
                            }
                        }
                    }
                    Ok(rest)
                },
                Err(e) => Err(e),
            },
            Err(e) => Err(e),
        }
    }
}

/// The bounded-sequence reconstruction of a node. Wide-integer elements
/// recurse into the wide-integer rule, 128-bit elements keep their trimmed
/// string form, any other element type takes its compact scalar form; the
/// element type of the last case is read out of the target type's text.
pub open spec fn spec_vector(n: Node, rt: Seq<char>) -> Result<Seq<char>, ErrView> {
    if contains_sub(rt, "U256"@) {
        match n {
            Node::List(elems) => match u256_items(elems@, 0) {
                Ok(items) => Ok(
                    rt + "::try_from(Vec::<U256>::from_iter(["@ + spec_join_comma(items)
                        + "])).unwrap()"@,
                ),
                Err(e) => Err(e),
            },
            _ => Err(ErrView { kind: ErrKind::ExpectedSequence, detail: Seq::<char>::empty() }),
        }
    } else if contains_sub(rt, "u128"@) {
        match n {
            Node::List(elems) => match trimmed_items(elems@, 0) {
                Ok(items) => Ok(
                    rt + "::try_from(Vec::<u128>::from_iter(["@ + spec_join_comma(items)
                        + "])).unwrap()"@,
                ),
                Err(e) => Err(e),
            },
            _ => Err(ErrView { kind: ErrKind::ExpectedSequence, detail: Seq::<char>::empty() }),
        }
    } else {
        let parts = spec_split(rt, '<');
        if parts.len() < 2 {
            Err(ErrView { kind: ErrKind::BadTypeName, detail: rt })
        } else {
            let inner = spec_split(parts[1], ',')[0];
            match n {
                Node::List(elems) => match compact_items(elems@, 0) {
                    Ok(items) => Ok(
                        rt + "::try_from(Vec::<"@ + inner + ">::from_iter(["@ + spec_join_comma(
                            items,
                        ) + "])).unwrap()"@,
                    ),
                    Err(e) => Err(e),
                },
                _ => Err(ErrView { kind: ErrKind::ExpectedSequence, detail: Seq::<char>::empty() }),
            }
        }
    }
}

/// Renders a bounded-sequence literal from a sequence node.
pub fn to_rust_vector(n: &Node, rust_type: &str) -> (r: Result<String, GenError>)
    ensures
        res_matches(r, spec_vector(*n, rust_type@)),
{
    if str_contains(rust_type, "U256") {
        match n {
            Node::List(elems) => match u256_items_exec(elems, 0) {
                Ok(items) => {
                    let ghost sitems = u256_items(elems@, 0)->Ok_0;
                    let mut t = rust_type.to_owned();
                    t.append("::try_from(Vec::<U256>::from_iter([");
                    let inner = join_comma(&items);
                    proof {
                        assert(items@.map_values(|x: String| x@) =~= sitems);
                    }
                    t.append(inner.as_str());
                    t.append("])).unwrap()");
                    proof {
                        assert(t@ =~= rust_type@ + "::try_from(Vec::<U256>::from_iter(["@
                            + spec_join_comma(sitems) + "])).unwrap()"@);
                    }
                    Ok(t)
                },
                Err(e) => Err(e),
            },
            _ => Err(GenError::new(ErrKind::ExpectedSequence, String::new())),
        }
    } else if str_contains(rust_type, "u128") {
        match n {
            Node::List(elems) => match trimmed_items_exec(elems, 0) {
                Ok(items) => {
                    let ghost sitems = trimmed_items(elems@, 0)->Ok_0;
                    let mut t = rust_type.to_owned();
                    t.append("::try_from(Vec::<u128>::from_iter([");
                    let inner = join_comma(&items);
                    proof {
                        assert(items@.map_values(|x: String| x@) =~= sitems);
                    }
                    t.append(inner.as_str());
                    t.append("])).unwrap()");
                    proof {
                        assert(t@ =~= rust_type@ + "::try_from(Vec::<u128>::from_iter(["@
                            + spec_join_comma(sitems) + "])).unwrap()"@);
                    }
                    Ok(t)
                },
                Err(e) => Err(e),
            },
            _ => Err(GenError::new(ErrKind::ExpectedSequence, String::new())),
        }
    } else {
        let parts = split_char(rust_type, '<');
        if parts.len() < 2 {
            Err(GenError::new(ErrKind::BadTypeName, rust_type.to_owned()))
        } else {
            let inner_parts = split_char(parts[1].as_str(), ',');
            proof {
                lemma_split_from_nonempty(parts@[1]@, ',', 0);
            }
            let inner_type = inner_parts[0].as_str();
            match n {
                Node::List(elems) => match compact_items_exec(elems, 0) {
                    Ok(items) => {
                        let ghost sitems = compact_items(elems@, 0)->Ok_0;
                        let mut t = rust_type.to_owned();
                        t.append("::try_from(Vec::<");
                        t.append(inner_type);
                        t.append(">::from_iter([");
                        let inner = join_comma(&items);
                        proof {
                            assert(items@.map_values(|x: String| x@) =~= sitems);
                        }
                        t.append(inner.as_str());
                        t.append("])).unwrap()");
                        proof {
                            assert(t@ =~= rust_type@ + "::try_from(Vec::<"@ + spec_split(
                                spec_split(rust_type@, '<')[1],
                                ',',
                            )[0] + ">::from_iter(["@ + spec_join_comma(sitems) + "])).unwrap()"@);
                        }
                        Ok(t)
                    },
                    Err(e) => Err(e),
                },
                _ => Err(GenError::new(ErrKind::ExpectedSequence, String::new())),
            }
        }
    }
}

/// The reconstruction rule for one container field, keyed by the
/// container's type name and the lower-cased field name. Most fields keep
/// their compact scalar form; the exceptions are the bounded-sequence,
/// byte-string, nested-container, fixed-vector and bit-sequence fields of
/// the exemplar containers.
pub open spec fn spec_field_value(key: Seq<char>, n: Node, rt: Seq<char>) -> Result<
    Seq<char>,
    ErrView,
>
    decreases n, 1int, 0int,
{
    if rt == "VarTestStruct"@ {
        if key == "b"@ {
            match n {
                Node::List(elems) => match compact_items(elems@, 0) {
                    Ok(items) => Ok(
                        "List::<u16, 1024>::try_from(Vec::<u16>::from_iter(["@ + spec_join_comma(
                            items,
                        ) + "])).unwrap()"@,
                    ),
                    Err(e) => Err(e),
                },
                _ => Err(ErrView { kind: ErrKind::ExpectedSequence, detail: Seq::<char>::empty() }),
            }
        } else {
            spec_compact(n)
        }
    } else if rt == "ComplexTestStruct"@ {
        if key == "b"@ {
            match n {
                Node::List(elems) => match compact_items(elems@, 0) {
                    Ok(items) => Ok(
                        "List::<u16, 128>::try_from(Vec::<u16>::from_iter(["@ + spec_join_comma(
                            items,
                        ) + "])).unwrap()"@,
                    ),
                    Err(e) => Err(e),
                },
                _ => Err(ErrView { kind: ErrKind::ExpectedSequence, detail: Seq::<char>::empty() }),
            }
        } else if key == "d"@ {
            match n {
                Node::Str(s) => if !has_hex_prefix(s@) {
                    Err(ErrView { kind: ErrKind::MissingHexPrefix, detail: s@ })
                } else if !hex_body_ok(s@) {
                    Err(ErrView { kind: ErrKind::BadHex, detail: s@ })
                } else {
                    Ok(
                        "List::<u8, 256>::try_from(Vec::<u8>::from_iter("@ + byte_list_str(
                            hex_bytes(s@.skip(2)),
                        ) + ")).unwrap()"@,
                    )
                },
                _ => Err(ErrView { kind: ErrKind::ExpectedString, detail: Seq::<char>::empty() }),
            }
        } else if key == "e"@ {
            spec_struct(n, "VarTestStruct"@)
        } else if key == "f"@ {
            match n {
                Node::List(elems) => match spec_struct_elems(elems@, 0, "FixedTestStruct"@) {
                    Ok(items) => Ok(
                        "Vector::<FixedTestStruct, 4>::try_from(vec!["@ + spec_join_comma(items)
                            + "]).unwrap()"@,
                    ),
                    Err(e) => Err(e),
                },
                _ => Err(ErrView { kind: ErrKind::ExpectedSequence, detail: Seq::<char>::empty() }),
            }
        } else if key == "g"@ {
            match n {
                Node::List(elems) => match spec_struct_elems(elems@, 0, "VarTestStruct"@) {
                    Ok(items) => Ok(
                        "Vector::<VarTestStruct, 2>::try_from(vec!["@ + spec_join_comma(items)
                            + "]).unwrap()"@,
                    ),
                    Err(e) => Err(e),
                },
                _ => Err(ErrView { kind: ErrKind::ExpectedSequence, detail: Seq::<char>::empty() }),
            }
        } else {
            spec_compact(n)
        }
    } else if rt == "BitsStruct"@ {
        if key == "a"@ {
            spec_bitseq(n, "Bitlist::<5>"@)
        } else if key == "b"@ {
            spec_bitseq(n, "Bitvector::<2>"@)
        } else if key == "c"@ {
            spec_bitseq(n, "Bitvector::<1>"@)
        } else if key == "d"@ {
            spec_bitseq(n, "Bitlist::<6>"@)
        } else if key == "e"@ {
            spec_bitseq(n, "Bitvector::<8>"@)
        } else {
            Err(ErrView { kind: ErrKind::UnsupportedField, detail: key })
        }
    } else {
        spec_compact(n)
    }
}

/// The declared field names of the six exemplar containers, in declared
/// order; any other type name declares nothing.
pub open spec fn container_field_names(rt: Seq<char>) -> Seq<Seq<char>> {
    if rt == "SingleFieldTestStruct"@ {
        seq!["a"@]
    } else if rt == "SmallTestStruct"@ {
        seq!["a"@, "b"@]
    } else if rt == "FixedTestStruct"@ {
        seq!["a"@, "b"@, "c"@]
    } else if rt == "VarTestStruct"@ {
        seq!["a"@, "b"@, "c"@]
    } else if rt == "ComplexTestStruct"@ {
        seq!["a"@, "b"@, "c"@, "d"@, "e"@, "f"@, "g"@]
    } else if rt == "BitsStruct"@ {
        seq!["a"@, "b"@, "c"@, "d"@, "e"@]
    } else {
        Seq::<Seq<char>>::empty()
    }
}

/// Whether some field of the mapping carries `name` as its lower-cased key.
pub open spec fn key_present(fields: Seq<FieldNode>, name: Seq<char>) -> bool {
    exists|j: int| 0 <= j < fields.len() && lower_seq(fields[j].key@) == name
}

/// The first declared field name, from position `i` on, that the mapping
/// does not carry.
pub open spec fn first_missing(fields: Seq<FieldNode>, names: Seq<Seq<char>>, i: int) -> Option<
    Seq<char>,
>
    recommends
        0 <= i,
    decreases names.len() - i,
    when 0 <= i
{
    if i >= names.len() {
        None
    } else if !key_present(fields, names[i]) {
        Some(names[i])
    } else {
        first_missing(fields, names, i + 1)
    }
}

/// The named-container reconstruction of a node: a mapping whose fields
/// are rendered in file order under their lower-cased names; a declared
/// field the mapping omits, and a repeated field name, are errors.
pub open spec fn spec_struct(n: Node, rt: Seq<char>) -> Result<Seq<char>, ErrView>
    decreases n, 0int, 0int,
{
    match n {
        Node::Dict(fields) => match first_missing(fields@, container_field_names(rt), 0) {
            Some(name) => Err(ErrView { kind: ErrKind::MissingField, detail: name }),
            None => match spec_struct_fields(fields@, 0, rt) {
                Ok(frags) => Ok(rt + "{"@ + spec_join_comma(frags) + "}"@),
                Err(e) => Err(e),
            },
        },
        _ => Err(ErrView { kind: ErrKind::ExpectedMapping, detail: Seq::<char>::empty() }),
    }
}

/// The rendered `name: value` fragments of the fields from position `i`
/// on, or the first field's error.
pub open spec fn spec_struct_fields(fields: Seq<FieldNode>, i: int, rt: Seq<char>) -> Result<
    Seq<Seq<char>>,
    ErrView,
>
    recommends
        0 <= i,
    decreases fields, 2int, fields.len() - i,
    when 0 <= i
{
    if i >= fields.len() {
        Ok(Seq::<Seq<char>>::empty())
    } else {
        let k = lower_seq(fields[i].key@);
        if exists|j: int| 0 <= j < i && lower_seq(fields[j].key@) == k {
            Err(ErrView { kind: ErrKind::DuplicateField, detail: k })
        } else {
            match spec_field_value(k, fields[i].value, rt) {
                Ok(t) => match spec_struct_fields(fields, i + 1, rt) {
                    Ok(rest) => Ok(seq![k + ": "@ + t] + rest),
                    Err(e) => Err(e),
                },
                Err(e) => Err(e),
            }
        }
    }
}

/// The nested-container renderings of the elements from position `i` on.
pub open spec fn spec_struct_elems(elems: Seq<Node>, i: int, rt: Seq<char>) -> Result<
    Seq<Seq<char>>,
    ErrView,
>
    recommends
        0 <= i,
    decreases elems, 2int, elems.len() - i,
    when 0 <= i
{
    if i >= elems.len() {
        Ok(Seq::<Seq<char>>::empty())
    } else {
        match spec_struct(elems[i], rt) {
            Ok(t) => match spec_struct_elems(elems, i + 1, rt) {
                Ok(rest) => Ok(seq![t] + rest),
                Err(e) => Err(e),
            },
            Err(e) => Err(e),
        }
    }
}

fn key_in_prefix(fields: &Vec<FieldNode>, i: usize, k: &str) -> (r: bool)
    requires
        i <= fields@.len(),
    ensures
        r == exists|j: int| 0 <= j < i && lower_seq(fields@[j].key@) == k@,
    decreases i,
{
    if i == 0 {
        false
    } else {
        let lk = to_ascii_lower(fields[i - 1].key.as_str());
        if crate::strutil::str_eq(lk.as_str(), k) {
            true
        } else {
            key_in_prefix(fields, i - 1, k)
        }
    }
}

/// Renders the literal expression of one container field.
pub fn to_field_value(key: &str, n: &Node, rust_type: &str) -> (r: Result<String, GenError>)
    ensures
        res_matches(r, spec_field_value(key@, *n, rust_type@)),
    decreases *n, 1int, 0int,
{
    if crate::strutil::str_eq(rust_type, "VarTestStruct") {
        if crate::strutil::str_eq(key, "b") {
            match n {
                Node::List(elems) => match compact_items_exec(elems, 0) {
                    Ok(items) => {
                        let ghost sitems = compact_items(elems@, 0)->Ok_0;
                        let mut t = "List::<u16, 1024>::try_from(Vec::<u16>::from_iter([".to_owned();
                        let inner = join_comma(&items);
                        proof {
                            assert(items@.map_values(|x: String| x@) =~= sitems);
                        }
                        t.append(inner.as_str());
                        t.append("])).unwrap()");
                        proof {
                            assert(t@ =~= "List::<u16, 1024>::try_from(Vec::<u16>::from_iter(["@
                                + spec_join_comma(sitems) + "])).unwrap()"@);
                        }
                        Ok(t)
                    },
                    Err(e) => Err(e),
                },
                _ => Err(GenError::new(ErrKind::ExpectedSequence, String::new())),
            }
        } else {
            value_to_compact_string(n)
        }
    } else if crate::strutil::str_eq(rust_type, "ComplexTestStruct") {
        if crate::strutil::str_eq(key, "b") {
            match n {
                Node::List(elems) => match compact_items_exec(elems, 0) {
                    Ok(items) => {
                        let ghost sitems = compact_items(elems@, 0)->Ok_0;
                        let mut t = "List::<u16, 128>::try_from(Vec::<u16>::from_iter([".to_owned();
                        let inner = join_comma(&items);
                        proof {
                            assert(items@.map_values(|x: String| x@) =~= sitems);
                        }
                        t.append(inner.as_str());
                        t.append("])).unwrap()");
                        proof {
                            assert(t@ =~= "List::<u16, 128>::try_from(Vec::<u16>::from_iter(["@
                                + spec_join_comma(sitems) + "])).unwrap()"@);
                        }
                        Ok(t)
                    },
                    Err(e) => Err(e),
                },
                _ => Err(GenError::new(ErrKind::ExpectedSequence, String::new())),
            }
        } else if crate::strutil::str_eq(key, "d") {
            match n {
                Node::Str(s) => {
                    let sl = s.as_str().unicode_len();
                    if sl < 2 || s.as_str().get_char(0) != '0' || s.as_str().get_char(1) != 'x' {
                        Err(GenError::new(ErrKind::MissingHexPrefix, s.clone()))
                    } else {
                        let body = s.as_str().substring_char(2, sl);
                        proof {
                            assert(body@ =~= s@.skip(2));
                        }
                        match hex_decode(body) {
                            Some(bytes) => {
                                let mut t =
                                    "List::<u8, 256>::try_from(Vec::<u8>::from_iter(".to_owned();
                                let list = render_byte_list(&bytes);
                                t.append(list.as_str());
                                t.append(")).unwrap()");
                                proof {
                                    assert(t@
                                        =~= "List::<u8, 256>::try_from(Vec::<u8>::from_iter("@
                                        + byte_list_str(hex_bytes(s@.skip(2))) + ")).unwrap()"@);
                                }
                                Ok(t)
                            },
                            None => Err(GenError::new(ErrKind::BadHex, s.clone())),
                        }
                    }
                },
                _ => Err(GenError::new(ErrKind::ExpectedString, String::new())),
            }
        } else if crate::strutil::str_eq(key, "e") {
            to_rust_struct(n, "VarTestStruct")
        } else if crate::strutil::str_eq(key, "f") {
            match n {
                Node::List(elems) => match struct_elems_exec(elems, 0, "FixedTestStruct") {
                    Ok(items) => {
                        let ghost sitems = spec_struct_elems(elems@, 0, "FixedTestStruct"@)->Ok_0;
                        let mut t = "Vector::<FixedTestStruct, 4>::try_from(vec![".to_owned();
                        let inner = join_comma(&items);
                        proof {
                            assert(items@.map_values(|x: String| x@) =~= sitems);
                        }
                        t.append(inner.as_str());
                        t.append("]).unwrap()");
                        proof {
                            assert(t@ =~= "Vector::<FixedTestStruct, 4>::try_from(vec!["@
                                + spec_join_comma(sitems) + "]).unwrap()"@);
                        }
                        Ok(t)
                    },
                    Err(e) => Err(e),
                },
                _ => Err(GenError::new(ErrKind::ExpectedSequence, String::new())),
            }
        } else if crate::strutil::str_eq(key, "g") {
            match n {
                Node::List(elems) => match struct_elems_exec(elems, 0, "VarTestStruct") {
                    Ok(items) => {
                        let ghost sitems = spec_struct_elems(elems@, 0, "VarTestStruct"@)->Ok_0;
                        let mut t = "Vector::<VarTestStruct, 2>::try_from(vec![".to_owned();
                        let inner = join_comma(&items);
                        proof {
                            assert(items@.map_values(|x: String| x@) =~= sitems);
                        }
                        t.append(inner.as_str());
                        t.append("]).unwrap()");
                        proof {
                            assert(t@ =~= "Vector::<VarTestStruct, 2>::try_from(vec!["@
                                + spec_join_comma(sitems) + "]).unwrap()"@);
                        }
                        Ok(t)
                    },
                    Err(e) => Err(e),
                },
                _ => Err(GenError::new(ErrKind::ExpectedSequence, String::new())),
            }
        } else {
            value_to_compact_string(n)
        }
    } else if crate::strutil::str_eq(rust_type, "BitsStruct") {
        if crate::strutil::str_eq(key, "a") {
            to_rust_bitseq(n, "Bitlist::<5>")
        } else if crate::strutil::str_eq(key, "b") {
            to_rust_bitseq(n, "Bitvector::<2>")
        } else if crate::strutil::str_eq(key, "c") {
            to_rust_bitseq(n, "Bitvector::<1>")
        } else if crate::strutil::str_eq(key, "d") {
            to_rust_bitseq(n, "Bitlist::<6>")
        } else if crate::strutil::str_eq(key, "e") {
            to_rust_bitseq(n, "Bitvector::<8>")
        } else {
            Err(GenError::new(ErrKind::UnsupportedField, key.to_owned()))
        }
    } else {
        value_to_compact_string(n)
    }
}

fn container_fields_exec(rt: &str) -> (r: Vec<&'static str>)
    ensures
        r@.len() == container_field_names(rt@).len(),
        forall|k: int|
            0 <= k < r@.len() ==> r@[k]@ == #[trigger] container_field_names(rt@)[k],
{
    if crate::strutil::str_eq(rt, "SingleFieldTestStruct") {
        vec!["a"]
    } else if crate::strutil::str_eq(rt, "SmallTestStruct") {
        vec!["a", "b"]
    } else if crate::strutil::str_eq(rt, "FixedTestStruct") {
        vec!["a", "b", "c"]
    } else if crate::strutil::str_eq(rt, "VarTestStruct") {
        vec!["a", "b", "c"]
    } else if crate::strutil::str_eq(rt, "ComplexTestStruct") {
        vec!["a", "b", "c", "d", "e", "f", "g"]
    } else if crate::strutil::str_eq(rt, "BitsStruct") {
        vec!["a", "b", "c", "d", "e"]
    } else {
        Vec::new()
    }
}

fn first_missing_exec(fields: &Vec<FieldNode>, names: &Vec<&'static str>, i: usize) -> (r: Option<
    String,
>)
    requires
        i <= names@.len(),
    ensures
        ({
            let snames = names@.map_values(|s: &'static str| s@);
            &&& (r is Some <==> first_missing(fields@, snames, i as int) is Some)
            &&& (r is Some ==> r->0@ == first_missing(fields@, snames, i as int)->0)
        }),
    decreases names@.len() - i,
{
    if i == names.len() {
        None
    } else {
        let name = names[i];
        if !key_in_prefix(fields, fields.len(), name) {
            Some(name.to_owned())
        } else {
            first_missing_exec(fields, names, i + 1)
        }
    }
}

/// Renders the literal expression constructing a named container.
pub fn to_rust_struct(n: &Node, rust_type: &str) -> (r: Result<String, GenError>)
    ensures
        res_matches(r, spec_struct(*n, rust_type@)),
    decreases *n, 0int, 0int,
{
    match n {
        Node::Dict(fields) => {
            let declared = container_fields_exec(rust_type);
            proof {
                assert(declared@.map_values(|s: &'static str| s@) =~= container_field_names(
                    rust_type@,
                ));
            }
            match first_missing_exec(fields, &declared, 0) {
                Some(name) => Err(GenError::new(ErrKind::MissingField, name)),
                None => match struct_fields_exec(fields, 0, rust_type) {
                    Ok(frags) => {
                        let ghost sfrags = spec_struct_fields(fields@, 0, rust_type@)->Ok_0;
                        let mut t = rust_type.to_owned();
                        t.append("{");
                        let inner = join_comma(&frags);
                        proof {
                            assert(frags@.map_values(|x: String| x@) =~= sfrags);
                        }
                        t.append(inner.as_str());
                        t.append("}");
                        proof {
                            assert(t@ =~= rust_type@ + "{"@ + spec_join_comma(sfrags) + "}"@);
                        }
                        Ok(t)
                    },
                    Err(e) => Err(e),
                },
            }
        },
        _ => Err(GenError::new(ErrKind::ExpectedMapping, String::new())),
    }
}

fn struct_fields_exec(fields: &Vec<FieldNode>, i: usize, rust_type: &str) -> (r: Result<
    Vec<String>,
    GenError,
>)
    requires
        i <= fields@.len(),
    ensures
        res_list_matches(r, spec_struct_fields(fields@, i as int, rust_type@)),
    decreases fields@, 2int, fields@.len() - i,
{
    if i == fields.len() {
        Ok(Vec::new())
    } else {
        let lk = to_ascii_lower(fields[i].key.as_str());
        if key_in_prefix(fields, i, lk.as_str()) {
            Err(GenError::new(ErrKind::DuplicateField, lk))
        } else {
            match to_field_value(lk.as_str(), &fields[i].value, rust_type) {
                Ok(t) => match struct_fields_exec(fields, i + 1, rust_type) {
                    Ok(rest) => {
                        let mut frag = lk;
                        frag.append(": ");
                        frag.append(t.as_str());
                        let mut rest = rest;
                        rest.insert(0, frag);
                        proof {
                            let items = spec_struct_fields(fields@, i as int, rust_type@)->Ok_0;
                            assert(rest@[0]@ =~= lower_seq(fields@[i as int].key@) + ": "@
                                + spec_field_value(
                                lower_seq(fields@[i as int].key@),
                                fields@[i as int].value,
                                rust_type@,
                            )->Ok_0);
                            assert forall|k: int| 0 <= k < items.len() implies rest@[k]@
                                == items[k] by {
                                if k > 0 {
                                    assert(rest@[k]@ == spec_struct_fields(
                                        fields@,
                                        i + 1 as int,
                                        rust_type@,
                                    )->Ok_0[k - 1]);
                                }
                            }
                        }
                        Ok(rest)
                    },
                    Err(e) => Err(e),
                },
                Err(e) => Err(e),
            }
        }
    }
}

fn struct_elems_exec(elems: &Vec<Node>, i: usize, rust_type: &str) -> (r: Result<
    Vec<String>,
    GenError,
>)
    requires
        i <= elems@.len(),
    ensures
        res_list_matches(r, spec_struct_elems(elems@, i as int, rust_type@)),
    decreases elems@, 2int, elems@.len() - i,
{
    if i == elems.len() {
        Ok(Vec::new())
    } else {
        match to_rust_struct(&elems[i], rust_type) {
            Ok(t) => match struct_elems_exec(elems, i + 1, rust_type) {
                Ok(rest) => {
                    let mut rest = rest;
                    rest.insert(0, t);
                    proof {
                        let items = spec_struct_elems(elems@, i as int, rust_type@)->Ok_0;
                        assert forall|k: int| 0 <= k < items.len() implies rest@[k]@ == items[k] by {
                            if k > 0 {
                                assert(rest@[k]@ == spec_struct_elems(
                                    elems@,
                                    i + 1 as int,
                                    rust_type@,
                                )->Ok_0[k - 1]);
                            }
                        }
                    }
                    Ok(rest)
                },
                Err(e) => Err(e),
            },
            Err(e) => Err(e),
        }
    }
}

/// Which rule reconstructs a value, read off the case name: wide integers,
/// bit-sequences, bounded sequences, the six exemplar containers, and
/// plain scalars in that order.
pub open spec fn spec_rust_value(name: Seq<char>, rt: Seq<char>, n: Node) -> Result<
    Seq<char>,
    ErrView,
> {
    if contains_sub(name, "uint_256"@) {
        spec_u256(n)
    } else if contains_sub(name, "bitvec"@) {
        spec_bitseq(n, rt)
    } else if contains_sub(name, "bitlist"@) {
        spec_bitseq(n, rt)
    } else if contains_sub(name, "vec_"@) {
        spec_vector(n, rt)
    } else if contains_sub(name, "SingleFieldTestStruct"@) || contains_sub(name, "SmallTestStruct"@)
        || contains_sub(name, "FixedTestStruct"@) || contains_sub(name, "VarTestStruct"@)
        || contains_sub(name, "ComplexTestStruct"@) || contains_sub(name, "BitsStruct"@) {
        spec_struct(n, rt)
    } else {
        spec_compact(n)
    }
}

/// Renders the literal expression of a case's expected value, dispatching
/// on the case name.
pub fn to_rust_value(name: &str, rust_type: &str, n: &Node) -> (r: Result<String, GenError>)
    ensures
        res_matches(r, spec_rust_value(name@, rust_type@, *n)),
{
    if str_contains(name, "uint_256") {
        to_rust_u256(n)
    } else if str_contains(name, "bitvec") {
        to_rust_bitvector(n, rust_type)
    } else if str_contains(name, "bitlist") {
        to_rust_bitlist(n, rust_type)
    } else if str_contains(name, "vec_") {
        to_rust_vector(n, rust_type)
    } else if str_contains(name, "SingleFieldTestStruct") || str_contains(name, "SmallTestStruct")
        || str_contains(name, "FixedTestStruct") || str_contains(name, "VarTestStruct")
        || str_contains(name, "ComplexTestStruct") || str_contains(name, "BitsStruct") {
        to_rust_struct(n, rust_type)
    } else {
        value_to_compact_string(n)
    }
}

} // verus!
