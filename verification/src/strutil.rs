//! Verified string utilities: decimal rendering, character search,
//! token splitting, substring containment and lexicographic order.

use vstd::prelude::*;

verus! {

/// The decimal digit character for a value below ten.
pub open spec fn digit_char(d: nat) -> char
    recommends
        d < 10,
{
    if d == 0 { '0' }
    else if d == 1 { '1' }
    else if d == 2 { '2' }
    else if d == 3 { '3' }
    else if d == 4 { '4' }
    else if d == 5 { '5' }
    else if d == 6 { '6' }
    else if d == 7 { '7' }
    else if d == 8 { '8' }
    else { '9' }
}

/// The base-ten rendering of a natural number, most significant digit first.
pub open spec fn dec_str(n: nat) -> Seq<char>
    decreases n,
{
    if n < 10 {
        seq![digit_char(n)]
    } else {
        dec_str(n / 10) + seq![digit_char(n % 10)]
    }
}

fn digit_str(d: u64) -> (r: &'static str)
    requires
        d < 10,
    ensures
        r@ == seq![digit_char(d as nat)],
{
    proof {
        reveal_strlit("0");
        reveal_strlit("1");
        reveal_strlit("2");
        reveal_strlit("3");
        reveal_strlit("4");
        reveal_strlit("5");
        reveal_strlit("6");
        reveal_strlit("7");
        reveal_strlit("8");
        reveal_strlit("9");
    }
    match d {
        0 => "0",
        1 => "1",
        2 => "2",
        3 => "3",
        4 => "4",
        5 => "5",
        6 => "6",
        7 => "7",
        8 => "8",
        _ => "9",
    }
}

/// Renders a machine integer in base ten.
pub fn u64_to_dec(n: u64) -> (r: String)
    ensures
        r@ == dec_str(n as nat),
    decreases n,
{
    if n < 10 {
        digit_str(n).to_owned()
    } else {
        let mut s = u64_to_dec(n / 10);
        s.append(digit_str(n % 10));
        s
    }
}

/// The first position at or after `i` holding `sep`, or the length of `s`
/// when no such position exists.
pub open spec fn first_index_from(s: Seq<char>, sep: char, i: int) -> int
    recommends
        0 <= i <= s.len(),
    decreases s.len() - i,
    when i <= s.len()
{
    if i < 0 {
        first_index_from(s, sep, 0)
    } else if i >= s.len() {
        s.len() as int
    } else if s[i] == sep {
        i
    } else {
        first_index_from(s, sep, i + 1)
    }
}

proof fn lemma_first_index_bounds(s: Seq<char>, sep: char, i: int)
    requires
        0 <= i <= s.len(),
    ensures
        i <= first_index_from(s, sep, i) <= s.len(),
    decreases s.len() - i,
{
    if i < s.len() && s[i] != sep {
        lemma_first_index_bounds(s, sep, i + 1);
    }
}

fn find_char_from(s: &str, sep: char, i: usize) -> (r: usize)
    requires
        i <= s@.len(),
    ensures
        r == first_index_from(s@, sep, i as int),
    decreases s@.len() - i,
{
    let n = s.unicode_len();
    if i == n {
        i
    } else if s.get_char(i) == sep {
        i
    } else {
        find_char_from(s, sep, i + 1)
    }
}

/// The `sep`-delimited tokens of `s` starting at position `i`.
pub open spec fn split_from(s: Seq<char>, sep: char, i: int) -> Seq<Seq<char>>
    recommends
        0 <= i <= s.len(),
    decreases s.len() - i,
    when 0 <= i <= s.len()
    via split_from_dec
{
    let j = first_index_from(s, sep, i);
    if j >= s.len() {
        seq![s.subrange(i, s.len() as int)]
    } else {
        seq![s.subrange(i, j)] + split_from(s, sep, j + 1)
    }
}

#[via_fn]
proof fn split_from_dec(s: Seq<char>, sep: char, i: int) {
    if 0 <= i <= s.len() {
        lemma_first_index_bounds(s, sep, i);
    }
}

/// The `sep`-delimited tokens of `s`; always at least one token.
pub open spec fn spec_split(s: Seq<char>, sep: char) -> Seq<Seq<char>> {
    split_from(s, sep, 0)
}

pub proof fn lemma_split_from_nonempty(s: Seq<char>, sep: char, i: int)
    requires
        0 <= i <= s.len(),
    ensures
        split_from(s, sep, i).len() >= 1,
{
    lemma_first_index_bounds(s, sep, i);
}

fn split_char_from(s: &str, sep: char, i: usize) -> (r: Vec<String>)
    requires
        i <= s@.len(),
    ensures
        r@.len() == split_from(s@, sep, i as int).len(),
        forall|k: int|
            0 <= k < r@.len() ==> r@[k]@ == #[trigger] split_from(s@, sep, i as int)[k],
    decreases s@.len() - i,
{
    let j = find_char_from(s, sep, i);
    proof {
        lemma_first_index_bounds(s@, sep, i as int);
    }
    let n = s.unicode_len();
    if j == n {
        let tok = s.substring_char(i, n).to_owned();
        let mut v: Vec<String> = Vec::new();
        v.push(tok);
        v
    } else {
        let tok = s.substring_char(i, j).to_owned();
        let mut rest = split_char_from(s, sep, j + 1);
        rest.insert(0, tok);
        proof {
            assert(rest@.map_values(|t: String| t@) =~= seq![s@.subrange(i as int, j as int)]
                + split_from(s@, sep, j + 1 as int).map_values(|t: Seq<char>| t));
            assert forall|k: int| 0 <= k < rest@.len() implies rest@[k]@ == #[trigger] split_from(
                s@,
                sep,
                i as int,
            )[k] by {
                if k > 0 {
                    assert(rest@[k]@ == split_from(s@, sep, j + 1 as int)[k - 1]);
                }
            }
        }
        rest
    }
}

/// Splits `s` at every occurrence of `sep`.
pub fn split_char(s: &str, sep: char) -> (r: Vec<String>)
    ensures
        r@.len() == spec_split(s@, sep).len(),
        forall|k: int| 0 <= k < r@.len() ==> r@[k]@ == #[trigger] spec_split(s@, sep)[k],
{
    split_char_from(s, sep, 0)
}

/// Whether `p` occurs in `s` starting exactly at position `i`.
pub open spec fn match_at(s: Seq<char>, p: Seq<char>, i: int) -> bool
    recommends
        0 <= i,
        i + p.len() <= s.len(),
{
    s.subrange(i, i + p.len()) == p
}

/// Whether `p` occurs in `s` at some position at or after `i`.
pub open spec fn contains_from(s: Seq<char>, p: Seq<char>, i: int) -> bool
    recommends
        0 <= i,
    decreases s.len() + 1 - i,
    when 0 <= i
{
    if i + p.len() > s.len() {
        false
    } else if match_at(s, p, i) {
        true
    } else {
        contains_from(s, p, i + 1)
    }
}

/// Whether `p` occurs anywhere in `s`.
pub open spec fn contains_sub(s: Seq<char>, p: Seq<char>) -> bool {
    contains_from(s, p, 0)
}

fn match_at_exec(s: &str, p: &str, i: usize, j: usize) -> (r: bool)
    requires
        i + p@.len() <= s@.len(),
        j <= p@.len(),
        forall|k: int| 0 <= k < j ==> s@[i + k] == p@[k],
    ensures
        r == match_at(s@, p@, i as int),
    decreases p@.len() - j,
{
    let pl = p.unicode_len();
    let sl = s.unicode_len();
    if j == pl {
        proof {
            assert(s@.subrange(i as int, i + p@.len()) =~= p@);
        }
        true
    } else if s.get_char(i + j) == p.get_char(j) {
        match_at_exec(s, p, i, j + 1)
    } else {
        proof {
            assert(s@.subrange(i as int, i + p@.len())[j as int] == s@[i + j]);
        }
        false
    }
}

fn contains_from_exec(s: &str, p: &str, i: usize) -> (r: bool)
    ensures
        r == contains_from(s@, p@, i as int),
    decreases s@.len() + 1 - i,
{
    let sl = s.unicode_len();
    let pl = p.unicode_len();
    if pl > sl || i > sl - pl {
        false
    } else if match_at_exec(s, p, i, 0) {
        true
    } else {
        proof {
            if p@.len() == 0 {
                assert(s@.subrange(i as int, i as int) =~= p@);
            }
        }
        contains_from_exec(s, p, i + 1)
    }
}

/// Whether the characters of `p` occur contiguously in `s`.
pub fn str_contains(s: &str, p: &str) -> (r: bool)
    ensures
        r == contains_sub(s@, p@),
{
    contains_from_exec(s, p, 0)
}

/// Strict lexicographic order on character sequences, by code point.
pub open spec fn lex_lt(a: Seq<char>, b: Seq<char>) -> bool
    decreases a.len(),
{
    if b.len() == 0 {
        false
    } else if a.len() == 0 {
        true
    } else if (a[0] as u32) < (b[0] as u32) {
        true
    } else if (a[0] as u32) > (b[0] as u32) {
        false
    } else {
        lex_lt(a.skip(1), b.skip(1))
    }
}

pub proof fn lemma_lex_irrefl(a: Seq<char>)
    ensures
        !lex_lt(a, a),
    decreases a.len(),
{
    if a.len() > 0 {
        lemma_lex_irrefl(a.skip(1));
    }
}

pub proof fn lemma_lex_total(a: Seq<char>, b: Seq<char>)
    ensures
        a == b || lex_lt(a, b) || lex_lt(b, a),
    decreases a.len(),
{
    if a.len() == 0 && b.len() == 0 {
        assert(a =~= b);
    } else if a.len() > 0 && b.len() > 0 && (a[0] as u32) == (b[0] as u32) {
        vstd::utf8::char_u32_cast(a[0], a[0] as u32);
        vstd::utf8::char_u32_cast(b[0], b[0] as u32);
        assert(a[0] == b[0]);
        lemma_lex_total(a.skip(1), b.skip(1));
        if a.skip(1) == b.skip(1) {
            assert(a.skip(1).len() == a.len() - 1);
            assert(b.skip(1).len() == b.len() - 1);
            assert(a.len() == b.len());
            assert forall|k: int| 0 <= k < a.len() implies a[k] == b[k] by {
                if k >= 1 {
                    assert(a[k] == a.skip(1)[k - 1]);
                    assert(b[k] == b.skip(1)[k - 1]);
                }
            }
            assert(a =~= b);
        }
    }
}

pub proof fn lemma_lex_trans(a: Seq<char>, b: Seq<char>, c: Seq<char>)
    requires
        lex_lt(a, b),
        lex_lt(b, c),
    ensures
        lex_lt(a, c),
    decreases a.len(),
{
    if a.len() > 0 && b.len() > 0 && c.len() > 0 && (a[0] as u32) == (b[0] as u32) && (
    b[0] as u32) == (c[0] as u32) {
        lemma_lex_trans(a.skip(1), b.skip(1), c.skip(1));
    }
}

fn lex_lt_from(a: &str, b: &str, i: usize) -> (r: bool)
    requires
        i <= a@.len(),
        i <= b@.len(),
    ensures
        r == lex_lt(a@.skip(i as int), b@.skip(i as int)),
    decreases a@.len() - i,
{
    let al = a.unicode_len();
    let bl = b.unicode_len();
    if i == bl {
        false
    } else if i == al {
        true
    } else {
        let ca = a.get_char(i) as u32;
        let cb = b.get_char(i) as u32;
        if ca < cb {
            true
        } else if ca > cb {
            false
        } else {
            let r = lex_lt_from(a, b, i + 1);
            proof {
                assert(a@.skip(i as int).skip(1) =~= a@.skip(i + 1 as int));
                assert(b@.skip(i as int).skip(1) =~= b@.skip(i + 1 as int));
            }
            r
        }
    }
}

/// Decides the lexicographic order `lex_lt` on two strings.
pub fn lex_lt_exec(a: &str, b: &str) -> (r: bool)
    ensures
        r == lex_lt(a@, b@),
{
    let r = lex_lt_from(a, b, 0);
    proof {
        assert(a@.skip(0) =~= a@);
        assert(b@.skip(0) =~= b@);
    }
    r
}

/// ASCII space, tab, line feed and carriage return.
pub open spec fn is_space(c: char) -> bool {
    c == ' ' || c == '\t' || c == '\n' || c == '\r'
}

/// `s` without leading space characters.
pub open spec fn trim_front(s: Seq<char>) -> Seq<char>
    decreases s.len(),
{
    if s.len() > 0 && is_space(s[0]) {
        trim_front(s.skip(1))
    } else {
        s
    }
}

/// `s` without trailing space characters.
pub open spec fn trim_back(s: Seq<char>) -> Seq<char>
    decreases s.len(),
{
    if s.len() > 0 && is_space(s[s.len() - 1]) {
        trim_back(s.take(s.len() - 1))
    } else {
        s
    }
}

/// `s` without leading and trailing space characters.
pub open spec fn spec_trim(s: Seq<char>) -> Seq<char> {
    trim_back(trim_front(s))
}

fn trim_front_exec(s: String) -> (r: String)
    ensures
        r@ == trim_front(s@),
    decreases s@.len(),
{
    let n = s.as_str().unicode_len();
    if n > 0 {
        let c = s.as_str().get_char(0);
        if c == ' ' || c == '\t' || c == '\n' || c == '\r' {
            return trim_front_exec(s.as_str().substring_char(1, n).to_owned());
        }
    }
    s
}

fn trim_back_exec(s: String) -> (r: String)
    ensures
        r@ == trim_back(s@),
    decreases s@.len(),
{
    let n = s.as_str().unicode_len();
    if n > 0 {
        let c = s.as_str().get_char(n - 1);
        if c == ' ' || c == '\t' || c == '\n' || c == '\r' {
            return trim_back_exec(s.as_str().substring_char(0, n - 1).to_owned());
        }
    }
    s
}

/// Removes leading and trailing space characters.
pub fn trim_spaces(s: String) -> (r: String)
    ensures
        r@ == spec_trim(s@),
{
    trim_back_exec(trim_front_exec(s))
}

/// The elements of `items` from position `i` on, joined with `", "`.
pub open spec fn join_comma_from(items: Seq<Seq<char>>, i: int) -> Seq<char>
    recommends
        0 <= i,
    decreases items.len() - i,
    when 0 <= i
{
    if i >= items.len() {
        Seq::<char>::empty()
    } else if i == items.len() - 1 {
        items[i]
    } else {
        items[i] + ", "@ + join_comma_from(items, i + 1)
    }
}

/// All elements of `items` joined with `", "`.
pub open spec fn spec_join_comma(items: Seq<Seq<char>>) -> Seq<char> {
    join_comma_from(items, 0)
}

fn join_comma_exec(v: &Vec<String>, i: usize) -> (r: String)
    requires
        i <= v@.len(),
    ensures
        r@ == join_comma_from(v@.map_values(|t: String| t@), i as int),
    decreases v@.len() - i,
{
    let n = v.len();
    if i == n {
        String::new()
    } else if i == n - 1 {
        v[i].clone()
    } else {
        let mut s = v[i].clone();
        s.append(", ");
        let rest = join_comma_exec(v, i + 1);
        s.append(rest.as_str());
        s
    }
}

/// Joins the strings of `v` with `", "`.
pub fn join_comma(v: &Vec<String>) -> (r: String)
    ensures
        r@ == spec_join_comma(v@.map_values(|t: String| t@)),
{
    join_comma_exec(v, 0)
}

/// The base-ten renderings of the bytes from position `i` on, joined with `", "`.
pub open spec fn bytes_inner(bs: Seq<u8>, i: int) -> Seq<char>
    recommends
        0 <= i,
    decreases bs.len() - i,
    when 0 <= i
{
    if i >= bs.len() {
        Seq::<char>::empty()
    } else if i == bs.len() - 1 {
        dec_str(bs[i] as nat)
    } else {
        dec_str(bs[i] as nat) + ", "@ + bytes_inner(bs, i + 1)
    }
}

/// A byte sequence rendered as a bracketed, comma-separated list,
/// as a debug rendering of a byte vector prints it.
pub open spec fn byte_list_str(bs: Seq<u8>) -> Seq<char> {
    "["@ + bytes_inner(bs, 0) + "]"@
}

fn bytes_inner_exec(v: &Vec<u8>, i: usize) -> (r: String)
    requires
        i <= v@.len(),
    ensures
        r@ == bytes_inner(v@, i as int),
    decreases v@.len() - i,
{
    let n = v.len();
    if i == n {
        String::new()
    } else if i == n - 1 {
        u64_to_dec(v[i] as u64)
    } else {
        let mut s = u64_to_dec(v[i] as u64);
        s.append(", ");
        let rest = bytes_inner_exec(v, i + 1);
        s.append(rest.as_str());
        s
    }
}

/// Renders a byte vector as `[b0, b1, ...]`.
pub fn render_byte_list(v: &Vec<u8>) -> (r: String)
    ensures
        r@ == byte_list_str(v@),
{
    let mut s = String::new();
    s.append("[");
    let inner = bytes_inner_exec(v, 0);
    s.append(inner.as_str());
    s.append("]");
    proof {
        assert(s@ =~= byte_list_str(v@));
    }
    s
}

/// Whether `s` begins with the characters of `p`.
pub fn starts_with(s: &str, p: &str) -> (r: bool)
    ensures
        r == (s@.len() >= p@.len() && s@.take(p@.len() as int) == p@),
{
    let sl = s.unicode_len();
    let pl = p.unicode_len();
    if pl > sl {
        false
    } else {
        let r = match_at_exec(s, p, 0, 0);
        proof {
            assert(s@.subrange(0, p@.len() as int) =~= s@.take(p@.len() as int));
        }
        r
    }
}

/// Character-wise string equality.
pub fn str_eq(a: &str, b: &str) -> (r: bool)
    ensures
        r == (a@ == b@),
{
    let al = a.unicode_len();
    let bl = b.unicode_len();
    if al != bl {
        false
    } else {
        let r = match_at_exec(a, b, 0, 0);
        proof {
            assert(a@.subrange(0, 0 + b@.len() as int) =~= a@);
        }
        r
    }
}

} // verus!
