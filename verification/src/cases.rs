//! Fixture Corpus Loader model: classification of a case directory's
//! children, assembly of one test case from its classified parts, and the
//! name-ordered case map that drives deterministic emission.

use vstd::prelude::*;

use crate::strutil::{contains_sub, lemma_lex_total, lemma_lex_trans, lex_lt, lex_lt_exec,
    str_contains, str_eq};
use crate::types::{CaseView, ErrKind, ErrView, FieldNode, Format, GenError, Node, SszType,
    TestCase, category_token, format_token};

verus! {

/// The role of one file inside a case directory.
#[derive(Clone, Copy, Debug, PartialEq, Eq, Structural)]
pub enum PartKind {
    /// Carries the expected root.
    Meta,
    /// Carries the value tree.
    Value,
    /// The compressed binary payload.
    Payload,
}

/// The classification of a case-directory child by its file name: metadata,
/// value tree, or payload; any other name is a fatal error naming the file.
pub open spec fn spec_classify(name: Seq<char>) -> Result<PartKind, ErrView> {
    if contains_sub(name, "meta"@) {
        Ok(PartKind::Meta)
    } else if contains_sub(name, "value"@) {
        Ok(PartKind::Value)
    } else if contains_sub(name, "ssz_snappy"@) {
        Ok(PartKind::Payload)
    } else {
        Err(ErrView { kind: ErrKind::UnrecognizedPart, detail: name })
    }
}

/// Classifies a case-directory child by its file name.
pub fn classify_part(name: &str) -> (r: Result<PartKind, GenError>)
    ensures
        r is Ok <==> spec_classify(name@) is Ok,
        r is Ok ==> r->Ok_0 == spec_classify(name@)->Ok_0,
        r is Err ==> r->Err_0@ == spec_classify(name@)->Err_0,
{
    if str_contains(name, "meta") {
        Ok(PartKind::Meta)
    } else if str_contains(name, "value") {
        Ok(PartKind::Value)
    } else if str_contains(name, "ssz_snappy") {
        Ok(PartKind::Payload)
    } else {
        Err(GenError::new(ErrKind::UnrecognizedPart, name.to_owned()))
    }
}

/// One case-directory child handed to the loader: its file name, and its
/// parsed value tree where the file holds one.
#[derive(Debug)]
pub struct Part {
    pub name: String,
    pub node: Option<Node>,
}

/// The root entry of a metadata mapping: the string value under the first
/// `root` key.
pub open spec fn spec_root_in(fields: Seq<FieldNode>, i: int) -> Result<Seq<char>, ErrView>
    recommends
        0 <= i,
    decreases fields.len() - i,
    when 0 <= i
{
    if i >= fields.len() {
        Err(ErrView { kind: ErrKind::MalformedMeta, detail: Seq::<char>::empty() })
    } else if fields[i].key@ == "root"@ {
        match fields[i].value {
            Node::Str(s) => Ok(s@),
            _ => Err(ErrView { kind: ErrKind::MalformedMeta, detail: Seq::<char>::empty() }),
        }
    } else {
        spec_root_in(fields, i + 1)
    }
}

/// The expected root read from a metadata node: the mapping's string
/// entry under `root`.
pub open spec fn spec_meta_root(n: Node) -> Result<Seq<char>, ErrView> {
    match n {
        Node::Dict(fields) => spec_root_in(fields@, 0),
        _ => Err(ErrView { kind: ErrKind::MalformedMeta, detail: Seq::<char>::empty() }),
    }
}

fn root_in_exec(fields: &Vec<FieldNode>, i: usize) -> (r: Result<String, GenError>)
    requires
        i <= fields@.len(),
    ensures
        r is Ok <==> spec_root_in(fields@, i as int) is Ok,
        r is Ok ==> r->Ok_0@ == spec_root_in(fields@, i as int)->Ok_0,
        r is Err ==> r->Err_0@ == spec_root_in(fields@, i as int)->Err_0,
    decreases fields@.len() - i,
{
    if i == fields.len() {
        Err(GenError::new(ErrKind::MalformedMeta, String::new()))
    } else if str_eq(fields[i].key.as_str(), "root") {
        match &fields[i].value {
            Node::Str(s) => Ok(s.clone()),
            _ => Err(GenError::new(ErrKind::MalformedMeta, String::new())),
        }
    } else {
        root_in_exec(fields, i + 1)
    }
}

/// Reads the expected root out of a metadata node.
pub fn meta_root(n: &Node) -> (r: Result<String, GenError>)
    ensures
        r is Ok <==> spec_meta_root(*n) is Ok,
        r is Ok ==> r->Ok_0@ == spec_meta_root(*n)->Ok_0,
        r is Err ==> r->Err_0@ == spec_meta_root(*n)->Err_0,
{
    match n {
        Node::Dict(fields) => root_in_exec(fields, 0),
        _ => Err(GenError::new(ErrKind::MalformedMeta, String::new())),
    }
}

/// The corpus-relative path of a case-directory child.
pub open spec fn part_path(
    t: SszType,
    f: Format,
    case_name: Seq<char>,
    part_name: Seq<char>,
) -> Seq<char> {
    crate::emit::SRC_DIR@ + category_token(t) + "/"@ + format_token(f) + "/"@ + case_name + "/"@
        + part_name
}

/// The case assembled from the remaining parts, folded over the partially
/// assembled case `acc`: metadata sets the root, a value file sets the
/// value tree, a payload sets the payload path, and a later part of the
/// same role wins.
pub open spec fn spec_build_from(
    t: SszType,
    f: Format,
    case_name: Seq<char>,
    parts: Seq<Part>,
    acc: CaseView,
) -> Result<CaseView, ErrView>
    decreases parts.len(),
{
    if parts.len() == 0 {
        Ok(acc)
    } else {
        let p = parts[0];
        match spec_classify(p.name@) {
            Ok(PartKind::Meta) => match p.node {
                Some(nd) => match spec_meta_root(nd) {
                    Ok(root) => spec_build_from(
                        t,
                        f,
                        case_name,
                        parts.skip(1),
                        CaseView { root: Some(root), ..acc },
                    ),
                    Err(e) => Err(e),
                },
                None => Err(ErrView { kind: ErrKind::MissingNode, detail: p.name@ }),
            },
            Ok(PartKind::Value) => match p.node {
                Some(nd) => spec_build_from(
                    t,
                    f,
                    case_name,
                    parts.skip(1),
                    CaseView { value: Some(nd), ..acc },
                ),
                None => Err(ErrView { kind: ErrKind::MissingNode, detail: p.name@ }),
            },
            Ok(PartKind::Payload) => spec_build_from(
                t,
                f,
                case_name,
                parts.skip(1),
                CaseView { data_path: Some(part_path(t, f, case_name, p.name@)), ..acc },
            ),
            Err(e) => Err(e),
        }
    }
}

/// The case assembled from a directory's parts; the format tag is the one
/// the directory was found under.
pub open spec fn spec_build_case(
    t: SszType,
    f: Format,
    case_name: Seq<char>,
    parts: Seq<Part>,
) -> Result<CaseView, ErrView> {
    spec_build_from(
        t,
        f,
        case_name,
        parts,
        CaseView { root: None, value: None, data_path: None, format: f },
    )
}

fn part_path_exec(t: SszType, f: Format, case_name: &str, part_name: &str) -> (r: String)
    ensures
        r@ == part_path(t, f, case_name@, part_name@),
{
    let mut p = crate::emit::SRC_DIR.to_owned();
    let tok = t.token();
    p.append(tok.as_str());
    p.append("/");
    let ftok = f.token();
    p.append(ftok.as_str());
    p.append("/");
    p.append(case_name);
    p.append("/");
    p.append(part_name);
    proof {
        assert(p@ =~= part_path(t, f, case_name@, part_name@));
    }
    p
}

fn build_from_exec(t: SszType, f: Format, case_name: &str, parts: Vec<Part>, acc: TestCase) -> (r:
    Result<TestCase, GenError>)
    ensures
        r is Ok <==> spec_build_from(t, f, case_name@, parts@, acc@) is Ok,
        r is Ok ==> r->Ok_0@ == spec_build_from(t, f, case_name@, parts@, acc@)->Ok_0,
        r is Err ==> r->Err_0@ == spec_build_from(t, f, case_name@, parts@, acc@)->Err_0,
    decreases parts@.len(),
{
    let mut parts = parts;
    if parts.len() == 0 {
        Ok(acc)
    } else {
        let p = parts.remove(0);
        match classify_part(p.name.as_str()) {
            Ok(PartKind::Meta) => match p.node {
                Some(nd) => match meta_root(&nd) {
                    Ok(root) => build_from_exec(
                        t,
                        f,
                        case_name,
                        parts,
                        TestCase { root: Some(root), ..acc },
                    ),
                    Err(e) => Err(e),
                },
                None => Err(GenError::new(ErrKind::MissingNode, p.name)),
            },
            Ok(PartKind::Value) => match p.node {
                Some(nd) => build_from_exec(
                    t,
                    f,
                    case_name,
                    parts,
                    TestCase { value: Some(nd), ..acc },
                ),
                None => Err(GenError::new(ErrKind::MissingNode, p.name)),
            },
            Ok(PartKind::Payload) => {
                let path = part_path_exec(t, f, case_name, p.name.as_str());
                build_from_exec(t, f, case_name, parts, TestCase { data_path: Some(path), ..acc })
            },
            Err(e) => Err(e),
        }
    }
}

/// Assembles one test case from the classified children of its directory.
pub fn build_case(t: SszType, f: Format, case_name: &str, parts: Vec<Part>) -> (r: Result<
    TestCase,
    GenError,
>)
    ensures
        r is Ok <==> spec_build_case(t, f, case_name@, parts@) is Ok,
        r is Ok ==> r->Ok_0@ == spec_build_case(t, f, case_name@, parts@)->Ok_0,
        r is Err ==> r->Err_0@ == spec_build_case(t, f, case_name@, parts@)->Err_0,
{
    let acc = TestCase { root: None, value: None, data_path: None, format: f };
    build_from_exec(t, f, case_name, parts, acc)
}

/// One named case of the map.
#[derive(Debug)]
pub struct CaseEntry {
    pub name: String,
    pub case: TestCase,
}

/// The entries of `entries` with `e` inserted at its place in name order;
/// an entry of the same name is replaced.
pub open spec fn spec_insert(entries: Seq<CaseEntry>, e: CaseEntry) -> Seq<CaseEntry>
    decreases entries.len(),
{
    if entries.len() == 0 {
        seq![e]
    } else if lex_lt(entries[0].name@, e.name@) {
        seq![entries[0]] + spec_insert(entries.skip(1), e)
    } else if entries[0].name@ == e.name@ {
        seq![e] + entries.skip(1)
    } else {
        seq![e] + entries
    }
}

/// Strictly increasing name order.
pub open spec fn entries_sorted(entries: Seq<CaseEntry>) -> bool {
    forall|i: int, j: int|
        0 <= i < j < entries.len() ==> lex_lt(entries[i].name@, entries[j].name@)
}

/// Every entry of an insertion's result is the new entry or one of the
/// old ones.
proof fn lemma_insert_elems(entries: Seq<CaseEntry>, e: CaseEntry)
    ensures
        forall|k: int|
            0 <= k < spec_insert(entries, e).len() ==> (#[trigger] spec_insert(entries, e)[k]) == e
                || entries.contains(spec_insert(entries, e)[k]),
    decreases entries.len(),
{
    if entries.len() > 0 && lex_lt(entries[0].name@, e.name@) {
        lemma_insert_elems(entries.skip(1), e);
        assert forall|k: int| 0 <= k < spec_insert(entries, e).len() implies (#[trigger] spec_insert(
            entries,
            e,
        )[k]) == e || entries.contains(spec_insert(entries, e)[k]) by {
            if k > 0 {
                let x = spec_insert(entries, e)[k];
                assert(x == spec_insert(entries.skip(1), e)[k - 1]);
                if x != e {
                    let j = choose|j: int|
                        0 <= j < entries.skip(1).len() && entries.skip(1)[j] == x;
                    assert(entries[j + 1] == x);
                }
            }
        }
    } else if entries.len() > 0 && entries[0].name@ == e.name@ {
        assert forall|k: int| 0 <= k < spec_insert(entries, e).len() implies (#[trigger] spec_insert(
            entries,
            e,
        )[k]) == e || entries.contains(spec_insert(entries, e)[k]) by {
            if k > 0 {
                assert(entries[k] == spec_insert(entries, e)[k]);
            }
        }
    } else if entries.len() > 0 {
        assert forall|k: int| 0 <= k < spec_insert(entries, e).len() implies (#[trigger] spec_insert(
            entries,
            e,
        )[k]) == e || entries.contains(spec_insert(entries, e)[k]) by {
            if k > 0 {
                assert(entries[k - 1] == spec_insert(entries, e)[k]);
            }
        }
    }
}

/// Insertion keeps the strict name order.
pub proof fn lemma_insert_sorted(entries: Seq<CaseEntry>, e: CaseEntry)
    requires
        entries_sorted(entries),
    ensures
        entries_sorted(spec_insert(entries, e)),
    decreases entries.len(),
{
    if entries.len() == 0 {
    } else if lex_lt(entries[0].name@, e.name@) {
        assert(entries_sorted(entries.skip(1)));
        lemma_insert_sorted(entries.skip(1), e);
        lemma_insert_elems(entries.skip(1), e);
        let r = spec_insert(entries, e);
        assert forall|i: int, j: int| 0 <= i < j < r.len() implies lex_lt(r[i].name@, r[j].name@) by {
            if i == 0 {
                let x = r[j];
                assert(x == spec_insert(entries.skip(1), e)[j - 1]);
                if x == e {
                } else {
                    let m = choose|m: int|
                        0 <= m < entries.skip(1).len() && entries.skip(1)[m] == x;
                    assert(entries[m + 1] == x);
                    assert(lex_lt(entries[0].name@, x.name@));
                }
            } else {
                assert(r[i] == spec_insert(entries.skip(1), e)[i - 1]);
                assert(r[j] == spec_insert(entries.skip(1), e)[j - 1]);
                assert(entries_sorted(spec_insert(entries.skip(1), e)));
            }
        }
    } else if entries[0].name@ == e.name@ {
        let r = spec_insert(entries, e);
        assert forall|i: int, j: int| 0 <= i < j < r.len() implies lex_lt(r[i].name@, r[j].name@) by {
            if i == 0 {
                assert(r[j] == entries[j]);
                assert(lex_lt(entries[0].name@, entries[j].name@));
            } else {
                assert(r[i] == entries[i] && r[j] == entries[j]);
            }
        }
    } else {
        lemma_lex_total(entries[0].name@, e.name@);
        let r = spec_insert(entries, e);
        assert forall|i: int, j: int| 0 <= i < j < r.len() implies lex_lt(r[i].name@, r[j].name@) by {
            if i == 0 {
                assert(r[j] == entries[j - 1]);
                if j > 1 {
                    lemma_lex_trans(e.name@, entries[0].name@, entries[j - 1].name@);
                }
            } else {
                assert(r[i] == entries[i - 1] && r[j] == entries[j - 1]);
            }
        }
    }
}

fn insert_sorted_vec(v: &mut Vec<CaseEntry>, e: CaseEntry)
    ensures
        final(v)@ == spec_insert(old(v)@, e),
    decreases old(v)@.len(),
{
    if v.len() == 0 {
        v.push(e);
        proof {
            assert(v@ =~= seq![e]);
        }
    } else if lex_lt_exec(v[0].name.as_str(), e.name.as_str()) {
        let first = v.remove(0);
        let ghost rest = v@;
        insert_sorted_vec(v, e);
        v.insert(0, first);
        proof {
            assert(v@ =~= seq![first] + spec_insert(rest, e));
            assert(old(v)@.skip(1) =~= rest);
        }
    } else if str_eq(v[0].name.as_str(), e.name.as_str()) {
        let _replaced = v.remove(0);
        v.insert(0, e);
        proof {
            assert(old(v)@[0].name@ == e.name@);
            assert(v@ =~= seq![e] + old(v)@.skip(1));
        }
    } else {
        v.insert(0, e);
        proof {
            assert(v@ =~= seq![e] + old(v)@);
        }
    }
}

/// The case map of one run: cases keyed by name, kept in strictly
/// increasing name order for deterministic emission.
#[derive(Debug)]
pub struct CaseMap {
    entries: Vec<CaseEntry>,
}

impl View for CaseMap {
    type V = Seq<CaseEntry>;

    closed spec fn view(&self) -> Seq<CaseEntry> {
        self.entries@
    }
}

impl CaseMap {
    /// The map's entries are in strictly increasing name order.
    pub closed spec fn wf(&self) -> bool {
        entries_sorted(self.entries@)
    }

    /// An empty case map.
    pub fn new() -> (r: CaseMap)
        ensures
            r@ == Seq::<CaseEntry>::empty(),
            r.wf(),
    {
        CaseMap { entries: Vec::new() }
    }

    /// Inserts a case under its name, keeping name order; a case already
    /// held under that name is replaced.
    pub fn insert(&mut self, name: String, case: TestCase)
        requires
            old(self).wf(),
        ensures
            final(self)@ == spec_insert(old(self)@, CaseEntry { name, case }),
            final(self).wf(),
    {
        let e = CaseEntry { name, case };
        proof {
            lemma_insert_sorted(self.entries@, e);
        }
        insert_sorted_vec(&mut self.entries, e);
    }

    /// Grants read access to the entries in name order.
    pub fn entries(&self) -> (r: &Vec<CaseEntry>)
        ensures
            r@ == self@,
    {
        &self.entries
    }

    /// How many cases the map holds.
    pub fn len(&self) -> (r: usize)
        ensures
            r == self@.len(),
    {
        self.entries.len()
    }
}

} // verus!
