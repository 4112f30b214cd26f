//! Source Emitter and Driver state: the per-run generator, the fixed
//! preamble and exemplar container definitions, one test fragment per
//! case, and the artifact copy plan.

use vstd::prelude::*;

use crate::cases::{spec_build_case, spec_insert, CaseEntry, CaseMap, Part};
use crate::outside::{snake_of, to_snake_case};
use crate::resolve::{spec_rust_type, to_rust_type};
use crate::strutil::starts_with;
use crate::types::{
    category_token, CaseView, ErrKind, ErrView, Format, GenError, SszType, TestCase,
};
use crate::value::{spec_rust_value, to_rust_value};

verus! {

/// Root of the fixture corpus, relative to the invocation directory.
pub const SRC_DIR: &'static str = "consensus-spec-tests/tests/general/phase0/ssz_generic/";

/// Where the generated source and mirrored artifacts go, relative to the
/// invocation directory.
pub const TARGET_DIR: &'static str = "../ssz-rs/tests/";

/// The same target tree as the consuming project sees it, with the
/// leading parent step removed.
pub const TARGET_DIR_IN_PROJECT: &'static str = "ssz-rs/tests/";

/// Fixed preamble of every emitted source unit.
pub const SRC_PREAMBLE: &'static str = r#"//! This file was generated by `ssz-rs-test-gen`; do NOT manually edit.
mod test_utils;

use ssz_rs::prelude::*;
use test_utils::{
    deserialize, hash_tree_root, read_ssz_snappy_from_test_data, root_from_hex, serialize,
};
"#;

/// The six exemplar container type definitions, emitted verbatim for the
/// container category.
pub const CONTAINERS_DEFN: &'static str = r#"
#[derive(PartialEq, Eq, Debug, Default, SimpleSerialize)]
struct SingleFieldTestStruct {
    a: u8,
}

#[derive(PartialEq, Eq, Debug, Default, SimpleSerialize)]
struct SmallTestStruct {
    a: u16,
    b: u16,
}

#[derive(PartialEq, Eq, Debug, Default, Clone, SimpleSerialize)]
struct FixedTestStruct {
    a: u8,
    b: u64,
    c: u32,
}

#[derive(PartialEq, Eq, Debug, Default, Clone, SimpleSerialize)]
struct VarTestStruct {
    a: u16,
    b: List<u16, 1024>,
    c: u8,
}

#[derive(PartialEq, Eq, Debug, Default, SimpleSerialize)]
struct ComplexTestStruct {
    a: u16,
    b: List<u16, 128>,
    c: u8,
    d: List<u8, 256>,
    e: VarTestStruct,
    f: Vector<FixedTestStruct, 4>,
    g: Vector<VarTestStruct, 2>,
}

#[derive(PartialEq, Eq, Debug, Default, SimpleSerialize)]
struct BitsStruct {
    a: Bitlist<5>,
    b: Bitvector<2>,
    c: Bitvector<1>,
    d: Bitlist<6>,
    e: Bitvector<8>,
}
"#;

pub const VALID_A: &'static str = r#"
                #[test]
                fn test_"#;

pub const VALID_B: &'static str = r#"() {
                    let value = "#;

pub const VALID_C: &'static str = r#";
                    let encoding = serialize(&value);
                    let expected_encoding = read_ssz_snappy_from_test_data(""#;

pub const VALID_D: &'static str = r#"");
                    assert_eq!(encoding, expected_encoding);

                    let recovered_value: "#;

pub const VALID_E: &'static str = r#" = deserialize(&expected_encoding);
                    assert_eq!(recovered_value, value);

                    let root = hash_tree_root(&value);
                    let expected_root = root_from_hex(""#;

pub const VALID_F: &'static str = r#"");
                    assert_eq!(root, expected_root);
                }
                "#;

pub const INVALID_A: &'static str = r#"
                #[test]
                #[should_panic]
                fn test_"#;

pub const INVALID_B: &'static str = r#"() {
                    let encoding = read_ssz_snappy_from_test_data(""#;

pub const INVALID_C: &'static str = r#"");

                    deserialize::<"#;

pub const INVALID_D: &'static str = r#">(&encoding);
                }
                "#;

/// The test fragment of a valid case: construct the expected value,
/// compare its encoding against the mirrored payload, decode the payload
/// back, and compare the content root against the expected root.
pub open spec fn valid_fragment(
    cat: Seq<char>,
    snake: Seq<char>,
    value: Seq<char>,
    data_path: Seq<char>,
    rt: Seq<char>,
    root: Seq<char>,
) -> Seq<char> {
    VALID_A@ + cat + "_"@ + snake + VALID_B@ + value + VALID_C@ + data_path + VALID_D@ + rt
        + VALID_E@ + root + VALID_F@
}

/// The test fragment of an invalid case: decoding the mirrored payload
/// into the declared type must fail.
pub open spec fn invalid_fragment(
    cat: Seq<char>,
    snake: Seq<char>,
    data_path: Seq<char>,
    rt: Seq<char>,
) -> Seq<char> {
    INVALID_A@ + cat + "_"@ + snake + INVALID_B@ + data_path + INVALID_C@ + rt + INVALID_D@
}

/// One artifact copy: the corpus file and its destination in the target
/// test-data tree.
#[derive(Debug)]
pub struct CopyJob {
    pub src: String,
    pub dest: String,
}

/// The mathematical content of a copy job.
pub struct CopyView {
    pub src: Seq<char>,
    pub dest: Seq<char>,
}

impl View for CopyJob {
    type V = CopyView;

    open spec fn view(&self) -> CopyView {
        CopyView { src: self.src@, dest: self.dest@ }
    }
}

/// The emitted fragment and copy job of one case, or the first error: a
/// case must hold a payload under the corpus root and a resolvable type;
/// a valid case must also hold a value tree that reconstructs, and a root.
pub open spec fn spec_case_output(t: SszType, name: Seq<char>, c: CaseView) -> Result<
    (Seq<char>, CopyView),
    ErrView,
> {
    match c.data_path {
        None => Err(ErrView { kind: ErrKind::MissingPayload, detail: name }),
        Some(dp) => {
            if !(dp.len() >= SRC_DIR@.len() && dp.take(SRC_DIR@.len() as int) == SRC_DIR@) {
                Err(ErrView { kind: ErrKind::ForeignPayload, detail: dp })
            } else {
                let suffix = dp.skip(SRC_DIR@.len() as int);
                let dest = TARGET_DIR@ + "data/"@ + suffix;
                let project = TARGET_DIR_IN_PROJECT@ + "data/"@ + suffix;
                match spec_rust_type(t, name) {
                    None => Err(ErrView { kind: ErrKind::BadTypeName, detail: name }),
                    Some(rt) => match c.format {
                        Format::Valid => match c.value {
                            None => Err(ErrView { kind: ErrKind::MissingValue, detail: name }),
                            Some(nd) => match spec_rust_value(name, rt, nd) {
                                Err(e) => Err(e),
                                Ok(value_text) => match c.root {
                                    None => Err(
                                        ErrView { kind: ErrKind::MissingRoot, detail: name },
                                    ),
                                    Some(root) => Ok(
                                        (
                                            valid_fragment(
                                                category_token(t),
                                                snake_of(name),
                                                value_text,
                                                project,
                                                rt,
                                                root,
                                            ),
                                            CopyView { src: dp, dest },
                                        ),
                                    ),
                                },
                            },
                        },
                        Format::Invalid => Ok(
                            (
                                invalid_fragment(category_token(t), snake_of(name), project, rt),
                                CopyView { src: dp, dest },
                            ),
                        ),
                    },
                }
            }
        },
    }
}

/// The concatenated fragments and copy jobs of the cases from position
/// `i` on, in map order, or the first case's error.
pub open spec fn spec_cases_output(t: SszType, entries: Seq<CaseEntry>, i: int) -> Result<
    (Seq<char>, Seq<CopyView>),
    ErrView,
>
    recommends
        0 <= i,
    decreases entries.len() - i,
    when 0 <= i
{
    if i >= entries.len() {
        Ok((Seq::<char>::empty(), Seq::<CopyView>::empty()))
    } else {
        match spec_case_output(t, entries[i].name@, entries[i].case@) {
            Ok(pair) => match spec_cases_output(t, entries, i + 1) {
                Ok(rest) => Ok((pair.0 + rest.0, seq![pair.1] + rest.1)),
                Err(e) => Err(e),
            },
            Err(e) => Err(e),
        }
    }
}

/// The concatenation of the components from position `i` on.
pub open spec fn concat_all(items: Seq<Seq<char>>, i: int) -> Seq<char>
    recommends
        0 <= i,
    decreases items.len() - i,
    when 0 <= i
{
    if i >= items.len() {
        Seq::<char>::empty()
    } else {
        items[i] + concat_all(items, i + 1)
    }
}

/// The path of the emitted source unit for a category.
pub open spec fn target_file_spec(t: SszType) -> Seq<char> {
    TARGET_DIR@ + category_token(t) + ".rs"@
}

/// Everything one run produces: the target file path, the full source
/// text, and the artifact copy plan.
#[derive(Debug)]
pub struct GenOutput {
    pub target_file: String,
    pub source: String,
    pub copies: Vec<CopyJob>,
}

fn concat_components(v: &Vec<String>, i: usize) -> (r: String)
    requires
        i <= v@.len(),
    ensures
        r@ == concat_all(v@.map_values(|c: String| c@), i as int),
    decreases v@.len() - i,
{
    if i == v.len() {
        String::new()
    } else {
        let mut s = v[i].clone();
        let rest = concat_components(v, i + 1);
        s.append(rest.as_str());
        s
    }
}

fn emit_case(t: SszType, name: &str, c: &TestCase) -> (r: Result<(String, CopyJob), GenError>)
    ensures
        r is Ok <==> spec_case_output(t, name@, c@) is Ok,
        r is Ok ==> r->Ok_0.0@ == spec_case_output(t, name@, c@)->Ok_0.0 && r->Ok_0.1@
            == spec_case_output(t, name@, c@)->Ok_0.1,
        r is Err ==> r->Err_0@ == spec_case_output(t, name@, c@)->Err_0,
{
    match &c.data_path {
        None => Err(GenError::new(ErrKind::MissingPayload, name.to_owned())),
        Some(dp) => {
            if !starts_with(dp.as_str(), SRC_DIR) {
                Err(GenError::new(ErrKind::ForeignPayload, dp.clone()))
            } else {
                let dpl = dp.as_str().unicode_len();
                let pre = SRC_DIR.unicode_len();
                let suffix = dp.as_str().substring_char(pre, dpl);
                proof {
                    assert(suffix@ =~= dp@.skip(SRC_DIR@.len() as int));
                }
                let mut dest = TARGET_DIR.to_owned();
                dest.append("data/");
                dest.append(suffix);
                let mut project = TARGET_DIR_IN_PROJECT.to_owned();
                project.append("data/");
                project.append(suffix);
                proof {
                    assert(dest@ =~= TARGET_DIR@ + "data/"@ + dp@.skip(SRC_DIR@.len() as int));
                    assert(project@ =~= TARGET_DIR_IN_PROJECT@ + "data/"@ + dp@.skip(
                        SRC_DIR@.len() as int,
                    ));
                }
                match to_rust_type(t, name) {
                    Err(e) => Err(e),
                    Ok(rt) => match c.format {
                        Format::Valid => match &c.value {
                            None => Err(GenError::new(ErrKind::MissingValue, name.to_owned())),
                            Some(nd) => match to_rust_value(name, rt.as_str(), nd) {
                                Err(e) => Err(e),
                                Ok(value_text) => match &c.root {
                                    None => Err(
                                        GenError::new(ErrKind::MissingRoot, name.to_owned()),
                                    ),
                                    Some(root) => {
                                        let cat = t.token();
                                        let snake = to_snake_case(name);
                                        let mut frag = VALID_A.to_owned();
                                        frag.append(cat.as_str());
                                        frag.append("_");
                                        frag.append(snake.as_str());
                                        frag.append(VALID_B);
                                        frag.append(value_text.as_str());
                                        frag.append(VALID_C);
                                        frag.append(project.as_str());
                                        frag.append(VALID_D);
                                        frag.append(rt.as_str());
                                        frag.append(VALID_E);
                                        frag.append(root.as_str());
                                        frag.append(VALID_F);
                                        proof {
                                            assert(frag@ =~= valid_fragment(
                                                category_token(t),
                                                snake_of(name@),
                                                spec_rust_value(
                                                    name@,
                                                    spec_rust_type(t, name@)->0,
                                                    *nd,
                                                )->Ok_0,
                                                project@,
                                                spec_rust_type(t, name@)->0,
                                                root@,
                                            ));
                                        }
                                        Ok((frag, CopyJob { src: dp.clone(), dest }))
                                    },
                                },
                            },
                        },
                        Format::Invalid => {
                            let cat = t.token();
                            let snake = to_snake_case(name);
                            let mut frag = INVALID_A.to_owned();
                            frag.append(cat.as_str());
                            frag.append("_");
                            frag.append(snake.as_str());
                            frag.append(INVALID_B);
                            frag.append(project.as_str());
                            frag.append(INVALID_C);
                            frag.append(rt.as_str());
                            frag.append(INVALID_D);
                            proof {
                                assert(frag@ =~= invalid_fragment(
                                    category_token(t),
                                    snake_of(name@),
                                    project@,
                                    spec_rust_type(t, name@)->0,
                                ));
                            }
                            Ok((frag, CopyJob { src: dp.clone(), dest }))
                        },
                    },
                }
            }
        },
    }
}

fn emit_cases(t: SszType, entries: &Vec<CaseEntry>, i: usize) -> (r: Result<
    (String, Vec<CopyJob>),
    GenError,
>)
    requires
        i <= entries@.len(),
    ensures
        r is Ok <==> spec_cases_output(t, entries@, i as int) is Ok,
        r is Ok ==> r->Ok_0.0@ == spec_cases_output(t, entries@, i as int)->Ok_0.0
            && r->Ok_0.1@.len() == spec_cases_output(t, entries@, i as int)->Ok_0.1.len() && forall|
            k: int,
        |
            0 <= k < r->Ok_0.1@.len() ==> r->Ok_0.1@[k]@ == spec_cases_output(
                t,
                entries@,
                i as int,
            )->Ok_0.1[k],
        r is Err ==> r->Err_0@ == spec_cases_output(t, entries@, i as int)->Err_0,
    decreases entries@.len() - i,
{
    if i == entries.len() {
        Ok((String::new(), Vec::new()))
    } else {
        match emit_case(t, entries[i].name.as_str(), &entries[i].case) {
            Ok(pair) => match emit_cases(t, entries, i + 1) {
                Ok(rest) => {
                    let (mut frag, job) = pair;
                    let (rest_src, rest_jobs) = rest;
                    frag.append(rest_src.as_str());
                    let mut jobs = rest_jobs;
                    jobs.insert(0, job);
                    proof {
                        let s = spec_cases_output(t, entries@, i as int)->Ok_0;
                        assert forall|k: int| 0 <= k < jobs@.len() implies jobs@[k]@ == s.1[k] by {
                            if k > 0 {
                                assert(jobs@[k]@ == spec_cases_output(
                                    t,
                                    entries@,
                                    i + 1 as int,
                                )->Ok_0.1[k - 1]);
                            }
                        }
                    }
                    Ok((frag, jobs))
                },
                Err(e) => Err(e),
            },
            Err(e) => Err(e),
        }
    }
}

/// The per-run generator: the selected category, the fixed leading
/// components of the source unit, and the loaded case map.
#[derive(Debug)]
pub struct Generator {
    pub ssz_type: SszType,
    pub components: Vec<String>,
    pub test_cases: CaseMap,
}

impl Generator {
    /// A fresh generator for a category: the preamble, the exemplar
    /// container definitions for the container category, and no cases.
    pub fn new(ssz_type: SszType) -> (r: Generator)
        ensures
            r.ssz_type == ssz_type,
            r.components@.map_values(|c: String| c@) == if ssz_type is Container {
                seq![SRC_PREAMBLE@, CONTAINERS_DEFN@]
            } else {
                seq![SRC_PREAMBLE@]
            },
            r.test_cases@ == Seq::<CaseEntry>::empty(),
            r.test_cases.wf(),
    {
        let mut components: Vec<String> = Vec::new();
        components.push(SRC_PREAMBLE.to_owned());
        if matches!(ssz_type, SszType::Container) {
            components.push(CONTAINERS_DEFN.to_owned());
        }
        proof {
            if ssz_type is Container {
                assert(components@.map_values(|c: String| c@) =~= seq![
                    SRC_PREAMBLE@,
                    CONTAINERS_DEFN@,
                ]);
            } else {
                assert(components@.map_values(|c: String| c@) =~= seq![SRC_PREAMBLE@]);
            }
        }
        Generator { ssz_type, components, test_cases: CaseMap::new() }
    }

    /// Assembles a case from one directory's classified children and
    /// records it under the case's directory name.
    pub fn load_test_case(&mut self, format: Format, case_name: String, parts: Vec<Part>) -> (r:
        Result<(), GenError>)
        requires
            old(self).test_cases.wf(),
        ensures
            final(self).ssz_type == old(self).ssz_type,
            final(self).components == old(self).components,
            final(self).test_cases.wf(),
            r is Ok <==> spec_build_case(old(self).ssz_type, format, case_name@, parts@) is Ok,
            r is Ok ==> exists|c: TestCase|
                c@ == spec_build_case(old(self).ssz_type, format, case_name@, parts@)->Ok_0
                    && final(self).test_cases@ == spec_insert(
                    old(self).test_cases@,
                    CaseEntry { name: case_name, case: c },
                ),
            r is Err ==> final(self).test_cases@ == old(self).test_cases@ && r->Err_0@
                == spec_build_case(old(self).ssz_type, format, case_name@, parts@)->Err_0,
    {
        match crate::cases::build_case(self.ssz_type, format, case_name.as_str(), parts) {
            Ok(case) => {
                let ghost c = case;
                self.test_cases.insert(case_name, case);
                proof {
                    assert(c@ == spec_build_case(self.ssz_type, format, case_name@, parts@)->Ok_0);
                }
                Ok(())
            },
            Err(e) => Err(e),
        }
    }

    /// Renders the run's whole output: the target file path, the source
    /// unit (components, then one fragment per case in name order), and
    /// the copy plan with one job per case in the same order.
    pub fn execute(self) -> (r: Result<GenOutput, GenError>)
        ensures
            r is Ok <==> spec_cases_output(self.ssz_type, self.test_cases@, 0) is Ok,
            r is Ok ==> r->Ok_0.target_file@ == target_file_spec(self.ssz_type)
                && r->Ok_0.source@ == concat_all(self.components@.map_values(|c: String| c@), 0)
                + spec_cases_output(self.ssz_type, self.test_cases@, 0)->Ok_0.0
                && r->Ok_0.copies@.len() == spec_cases_output(
                self.ssz_type,
                self.test_cases@,
                0,
            )->Ok_0.1.len() && forall|k: int|
                0 <= k < r->Ok_0.copies@.len() ==> r->Ok_0.copies@[k]@ == spec_cases_output(
                    self.ssz_type,
                    self.test_cases@,
                    0,
                )->Ok_0.1[k],
            r is Err ==> r->Err_0@ == spec_cases_output(self.ssz_type, self.test_cases@, 0)->Err_0,
    {
        let mut target_file = TARGET_DIR.to_owned();
        let tok = self.ssz_type.token();
        target_file.append(tok.as_str());
        target_file.append(".rs");
        proof {
            assert(target_file@ =~= target_file_spec(self.ssz_type));
        }
        let head = concat_components(&self.components, 0);
        match emit_cases(self.ssz_type, self.test_cases.entries(), 0) {
            Ok(pair) => {
                let (body, copies) = pair;
                let mut source = head;
                source.append(body.as_str());
                Ok(GenOutput { target_file, source, copies })
            },
            Err(e) => Err(e),
        }
    }
}

} // verus!
