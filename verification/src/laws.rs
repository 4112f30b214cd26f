//! Laws of the generator: emission is a function of the loaded case map,
//! and the case map itself does not depend on the order in which the
//! corpus directories were enumerated.

use vstd::prelude::*;

use crate::cases::{entries_sorted, spec_insert, CaseEntry};
use crate::resolve::spec_rust_type;
use crate::strutil::{lemma_lex_irrefl, lemma_lex_total, lemma_lex_trans, lex_lt};
use crate::types::SszType;

verus! {

/// Strict lexicographic order is asymmetric.
pub proof fn lemma_lex_asym(a: Seq<char>, b: Seq<char>)
    requires
        lex_lt(a, b),
    ensures
        !lex_lt(b, a),
{
    if lex_lt(b, a) {
        lemma_lex_trans(a, b, a);
        lemma_lex_irrefl(a);
    }
}

/// The Type Descriptor Resolver is a pure function: a fixed category and
/// case name always resolve to the same descriptor.
pub proof fn lemma_resolver_deterministic(t1: SszType, t2: SszType, n1: Seq<char>, n2: Seq<char>)
    requires
        t1 == t2,
        n1 == n2,
    ensures
        spec_rust_type(t1, n1) == spec_rust_type(t2, n2),
{
}

/// Loading two differently named cases commutes: the case map, and with
/// it the emitted source unit and copy plan, do not depend on the order
/// in which the corpus enumerated the case directories.
pub proof fn lemma_insert_commutes(entries: Seq<CaseEntry>, a: CaseEntry, b: CaseEntry)
    requires
        entries_sorted(entries),
        a.name@ != b.name@,
    ensures
        spec_insert(spec_insert(entries, a), b) == spec_insert(spec_insert(entries, b), a),
    decreases entries.len(),
{
    lemma_lex_total(a.name@, b.name@);
    if entries.len() == 0 {
        assert(seq![a].skip(1) =~= Seq::<CaseEntry>::empty());
        assert(seq![b].skip(1) =~= Seq::<CaseEntry>::empty());
        assert(spec_insert(entries, a) == seq![a]);
        assert(spec_insert(entries, b) == seq![b]);
        if lex_lt(a.name@, b.name@) {
            lemma_lex_asym(a.name@, b.name@);
            assert(spec_insert(seq![a].skip(1), b) == seq![b]);
            assert(spec_insert(seq![a], b) == seq![a] + spec_insert(seq![a].skip(1), b));
            assert(spec_insert(seq![b], a) == seq![a] + seq![b]);
            assert(spec_insert(spec_insert(entries, a), b) =~= seq![a] + seq![b]);
            assert(spec_insert(spec_insert(entries, b), a) =~= seq![a] + seq![b]);
        } else {
            lemma_lex_asym(b.name@, a.name@);
            assert(spec_insert(seq![b].skip(1), a) == seq![a]);
            assert(spec_insert(seq![b], a) == seq![b] + spec_insert(seq![b].skip(1), a));
            assert(spec_insert(seq![a], b) == seq![b] + seq![a]);
            assert(spec_insert(spec_insert(entries, a), b) =~= seq![b] + seq![a]);
            assert(spec_insert(spec_insert(entries, b), a) =~= seq![b] + seq![a]);
        }
    } else {
        let n0 = entries[0];
        let rest = entries.skip(1);
        assert(entries_sorted(rest)) by {
            assert(forall|i: int, j: int|
                0 <= i < j < rest.len() ==> rest[i] == entries[i + 1] && rest[j] == entries[j + 1]);
        }
        lemma_lex_total(n0.name@, a.name@);
        lemma_lex_total(n0.name@, b.name@);
        if lex_lt(n0.name@, a.name@) && lex_lt(n0.name@, b.name@) {
            lemma_insert_commutes(rest, a, b);
            assert((seq![n0] + spec_insert(rest, a)).skip(1) =~= spec_insert(rest, a));
            assert((seq![n0] + spec_insert(rest, b)).skip(1) =~= spec_insert(rest, b));
            assert(spec_insert(spec_insert(entries, a), b) =~= seq![n0] + spec_insert(
                spec_insert(rest, a),
                b,
            ));
            assert(spec_insert(spec_insert(entries, b), a) =~= seq![n0] + spec_insert(
                spec_insert(rest, b),
                a,
            ));
        } else if lex_lt(n0.name@, a.name@) && n0.name@ == b.name@ {
            lemma_lex_irrefl(n0.name@);
            assert((seq![n0] + spec_insert(rest, a)).skip(1) =~= spec_insert(rest, a));
            assert((seq![b] + rest).skip(1) =~= rest);
            assert(spec_insert(spec_insert(entries, a), b) =~= seq![b] + spec_insert(rest, a));
            assert(spec_insert(spec_insert(entries, b), a) =~= seq![b] + spec_insert(rest, a));
        } else if lex_lt(n0.name@, a.name@) {
            lemma_lex_asym(b.name@, n0.name@);
            lemma_lex_trans(b.name@, n0.name@, a.name@);
            assert((seq![n0] + spec_insert(rest, a)).skip(1) =~= spec_insert(rest, a));
            assert((seq![b] + entries).skip(1) =~= entries);
            assert(spec_insert(spec_insert(entries, a), b) =~= seq![b] + (seq![n0] + spec_insert(
                rest,
                a,
            )));
            assert(spec_insert(spec_insert(entries, b), a) =~= seq![b] + (seq![n0] + spec_insert(
                rest,
                a,
            )));
        } else if n0.name@ == a.name@ && lex_lt(n0.name@, b.name@) {
            lemma_lex_irrefl(n0.name@);
            assert((seq![n0] + spec_insert(rest, b)).skip(1) =~= spec_insert(rest, b));
            assert((seq![a] + rest).skip(1) =~= rest);
            assert(spec_insert(entries, a) == seq![a] + rest);
            assert(spec_insert(entries, b) == seq![n0] + spec_insert(rest, b));
            assert(spec_insert(spec_insert(entries, a), b) =~= seq![a] + spec_insert(rest, b));
            assert(spec_insert(spec_insert(entries, b), a) =~= seq![a] + spec_insert(rest, b));
        } else if n0.name@ == a.name@ {
            lemma_lex_irrefl(n0.name@);
            lemma_lex_asym(b.name@, n0.name@);
            assert((seq![a] + rest).skip(1) =~= rest);
            assert((seq![b] + entries).skip(1) =~= entries);
            assert(spec_insert(spec_insert(entries, a), b) =~= seq![b] + (seq![a] + rest));
            assert(spec_insert(spec_insert(entries, b), a) =~= seq![b] + (seq![a] + rest));
        } else if lex_lt(n0.name@, b.name@) {
            lemma_lex_asym(a.name@, n0.name@);
            lemma_lex_trans(a.name@, n0.name@, b.name@);
            assert((seq![n0] + spec_insert(rest, b)).skip(1) =~= spec_insert(rest, b));
            assert((seq![a] + entries).skip(1) =~= entries);
            assert(spec_insert(entries, a) == seq![a] + entries);
            assert(spec_insert(entries, b) == seq![n0] + spec_insert(rest, b));
            assert(spec_insert(spec_insert(entries, a), b) =~= seq![a] + (seq![n0] + spec_insert(
                rest,
                b,
            )));
            assert(spec_insert(spec_insert(entries, b), a) =~= seq![a] + (seq![n0] + spec_insert(
                rest,
                b,
            )));
        } else if n0.name@ == b.name@ {
            lemma_lex_irrefl(n0.name@);
            lemma_lex_asym(a.name@, n0.name@);
            assert((seq![b] + rest).skip(1) =~= rest);
            assert((seq![a] + entries).skip(1) =~= entries);
            assert(spec_insert(entries, a) == seq![a] + entries);
            assert(spec_insert(entries, b) == seq![b] + rest);
            assert(spec_insert(spec_insert(entries, a), b) =~= seq![a] + (seq![b] + rest));
            assert(spec_insert(spec_insert(entries, b), a) =~= seq![a] + (seq![b] + rest));
        } else {
            lemma_lex_asym(a.name@, n0.name@);
            lemma_lex_asym(b.name@, n0.name@);
            assert((seq![a] + entries).skip(1) =~= entries);
            assert((seq![b] + entries).skip(1) =~= entries);
            assert(spec_insert(entries, a) == seq![a] + entries);
            assert(spec_insert(entries, b) == seq![b] + entries);
            if lex_lt(a.name@, b.name@) {
                lemma_lex_asym(a.name@, b.name@);
                assert(spec_insert(spec_insert(entries, a), b) =~= seq![a] + (seq![b] + entries));
                assert(spec_insert(spec_insert(entries, b), a) =~= seq![a] + (seq![b] + entries));
            } else {
                lemma_lex_asym(b.name@, a.name@);
                assert(spec_insert(spec_insert(entries, a), b) =~= seq![b] + (seq![a] + entries));
                assert(spec_insert(spec_insert(entries, b), a) =~= seq![b] + (seq![a] + entries));
            }
        }
    }
}

} // verus!
