//! Trusted boundary: the calls into outside crates (hex decoding, big-integer
//! parsing, case conversion) and one std helper that vstd gives no
//! specification, each behind a contract stated over plain values.

use vstd::prelude::*;

verus! {

/// Whether `c` is a hexadecimal digit, upper or lower case.
pub open spec fn is_hex_digit(c: char) -> bool {
    (48 <= c as u32 <= 57) || (97 <= c as u32 <= 102) || (65 <= c as u32 <= 70)
}

/// The value of a hexadecimal digit.
pub open spec fn hex_digit_val(c: char) -> nat {
    if 48 <= c as u32 <= 57 {
        (c as u32 - 48) as nat
    } else if 97 <= c as u32 <= 102 {
        (c as u32 - 87) as nat
    } else {
        (c as u32 - 55) as nat
    }
}

/// The bytes encoded by an even-length string of hex digits, two digits
/// per byte, high digit first.
pub open spec fn hex_bytes(s: Seq<char>) -> Seq<u8> {
    Seq::new(s.len() / 2, |i: int| (16 * hex_digit_val(s[2 * i]) + hex_digit_val(s[2 * i + 1])) as u8)
}

/// Relies on hex::decode: it succeeds exactly on even-length strings of hex
/// digits and returns the decoded bytes, two digits per byte.
#[verifier::external_body]
pub fn hex_decode(s: &str) -> (r: Option<Vec<u8>>)
    ensures
        r is Some <==> (s@.len() % 2 == 0 && forall|i: int|
            0 <= i < s@.len() ==> is_hex_digit(#[trigger] s@[i])),
        r is Some ==> r->0@ == hex_bytes(s@),
{
    match hex::decode(s) {
        Ok(v) => Some(v),
        Err(_) => None,
    }
}

/// Whether `c` is a decimal digit.
pub open spec fn is_dec_digit(c: char) -> bool {
    48 <= c as u32 <= 57
}

/// The value of a decimal digit.
pub open spec fn dec_digit_val(c: char) -> nat {
    (c as u32 - 48) as nat
}

/// The number written by a string of decimal digits, most significant first.
pub open spec fn dec_value(s: Seq<char>) -> nat
    decreases s.len(),
{
    if s.len() == 0 {
        0
    } else {
        dec_value(s.drop_last()) * 10 + dec_digit_val(s.last())
    }
}

/// `s` with one leading `+` removed, provided no second `+` follows it.
pub open spec fn plus_stripped(s: Seq<char>) -> Seq<char> {
    if s.len() >= 1 && s[0] == '+' && !(s.len() >= 2 && s[1] == '+') {
        s.skip(1)
    } else {
        s
    }
}

/// `s` without `_` separators.
pub open spec fn without_separators(s: Seq<char>) -> Seq<char> {
    s.filter(|c: char| c != '_')
}

/// Whether `s` is a decimal number as the big-integer parser accepts it:
/// an optional leading `+`, then decimal digits with non-leading `_`
/// separators.
pub open spec fn decimal_parse_ok(s: Seq<char>) -> bool {
    let t = plus_stripped(s);
    t.len() > 0 && t[0] != '_' && forall|i: int|
        0 <= i < t.len() ==> (is_dec_digit(#[trigger] t[i]) || t[i] == '_')
}

/// The value of a decimal number in the parser's syntax.
pub open spec fn decimal_value(s: Seq<char>) -> nat {
    dec_value(without_separators(plus_stripped(s)))
}

/// The little-endian bytes of `n` without trailing zero bytes.
pub open spec fn le_bytes(n: nat) -> Seq<u8>
    decreases n,
{
    if n == 0 {
        Seq::<u8>::empty()
    } else {
        seq![(n % 256) as u8] + le_bytes(n / 256)
    }
}

/// The minimal little-endian byte rendering of `n`: a single zero byte
/// for zero, else the little-endian bytes without trailing zeros.
pub open spec fn le_min_bytes(n: nat) -> Seq<u8> {
    if n == 0 {
        seq![0u8]
    } else {
        le_bytes(n)
    }
}

/// Relies on num_bigint::BigUint: parsing accepts an optional leading `+`,
/// then decimal digits with non-leading `_` separators; `to_bytes_le`
/// returns the value's minimal little-endian bytes, one zero byte for zero.
#[verifier::external_body]
pub fn parse_decimal_le_bytes(s: &str) -> (r: Option<Vec<u8>>)
    ensures
        r is Some <==> decimal_parse_ok(s@),
        r is Some ==> r->0@ == le_min_bytes(decimal_value(s@)),
{
    match s.parse::<num_bigint::BigUint>() {
        Ok(x) => Some(x.to_bytes_le()),
        Err(_) => None,
    }
}

/// The snake-case rendering of a string, as the case-conversion crate
/// computes it from the characters alone.
pub uninterp spec fn snake_of(s: Seq<char>) -> Seq<char>;

/// Relies on convert_case: `to_case(Case::Snake)` is a pure function of
/// the characters of its input.
#[verifier::external_body]
pub fn to_snake_case(s: &str) -> (r: String)
    ensures
        r@ == snake_of(s@),
{
    convert_case::Casing::to_case(&s, convert_case::Case::Snake)
}

/// An ASCII uppercase letter mapped to lowercase; anything else unchanged.
pub open spec fn lower_char(c: char) -> char {
    if 65 <= c as u32 <= 90 {
        (((c as u32) + 32) as u8) as char
    } else {
        c
    }
}

/// Character-wise ASCII lowering.
pub open spec fn lower_seq(s: Seq<char>) -> Seq<char> {
    s.map_values(|c: char| lower_char(c))
}

/// Relies on str::to_ascii_lowercase (std): ASCII uppercase letters are
/// mapped to their lowercase counterparts, all other characters unchanged.
#[verifier::external_body]
pub fn to_ascii_lower(s: &str) -> (r: String)
    ensures
        r@ == lower_seq(s@),
{
    s.to_ascii_lowercase()
}

} // verus!
