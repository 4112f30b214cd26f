//! Data model: fixture categories, case formats, schema-less value trees,
//! loaded test cases and the error type shared by the whole pipeline.

use vstd::prelude::*;

verus! {

/// The fixture-type category selected for one generator run.
#[derive(Clone, Copy, Debug, PartialEq, Eq, Structural)]
pub enum SszType {
    BasicVector,
    Bitlist,
    Bitvector,
    Boolean,
    Container,
    Uint,
}

/// The command-line / directory token of a category.
pub open spec fn category_token(t: SszType) -> Seq<char> {
    match t {
        SszType::BasicVector => "basic_vector"@,
        SszType::Bitlist => "bitlist"@,
        SszType::Bitvector => "bitvector"@,
        SszType::Boolean => "boolean"@,
        SszType::Container => "containers"@,
        SszType::Uint => "uints"@,
    }
}

/// Whether a case carries an expected value ("valid") or only a payload
/// that must fail to decode ("invalid").
#[derive(Clone, Copy, Debug, PartialEq, Eq, Structural)]
pub enum Format {
    Valid,
    Invalid,
}

/// The directory token of a format.
pub open spec fn format_token(f: Format) -> Seq<char> {
    match f {
        Format::Valid => "valid"@,
        Format::Invalid => "invalid"@,
    }
}

/// What went wrong; every error aborts the run.
#[derive(Clone, Copy, Debug, PartialEq, Eq, Structural)]
pub enum ErrKind {
    /// The category token is not one of the six known categories.
    UnsupportedCategory,
    /// A case directory child is neither metadata, value nor payload.
    UnrecognizedPart,
    /// A metadata node without a string-valued root entry.
    MalformedMeta,
    /// A metadata or value child whose tree could not be supplied.
    MissingNode,
    /// A valid case without a value tree.
    MissingValue,
    /// A valid case without an expected root.
    MissingRoot,
    /// A case without a payload file.
    MissingPayload,
    /// A payload path outside the corpus tree.
    ForeignPayload,
    /// A scalar node was expected.
    ExpectedScalar,
    /// A string scalar node was expected.
    ExpectedString,
    /// A sequence node was expected.
    ExpectedSequence,
    /// A mapping node was expected.
    ExpectedMapping,
    /// A bit-sequence value without the `0x` prefix.
    MissingHexPrefix,
    /// A hex string with an odd length or a non-hex character.
    BadHex,
    /// A wide-integer scalar that is not a decimal number.
    BadDecimal,
    /// A wide-integer value needing more than 32 bytes.
    WideIntTooWide,
    /// A case name that does not parse into a target type.
    BadTypeName,
    /// A container field with no reconstruction rule.
    UnsupportedField,
    /// A mapping with the same field name twice.
    DuplicateField,
    /// A mapping that omits one of the container's declared fields.
    MissingField,
}

/// The mathematical content of an error: its kind and the offending
/// name or text.
pub struct ErrView {
    pub kind: ErrKind,
    pub detail: Seq<char>,
}

/// A fatal error, carrying the offending path, name or text.
#[derive(Debug)]
pub struct GenError {
    pub kind: ErrKind,
    pub detail: String,
}

impl View for GenError {
    type V = ErrView;

    open spec fn view(&self) -> ErrView {
        ErrView { kind: self.kind, detail: self.detail@ }
    }
}

impl GenError {
    /// Builds an error of the given kind naming the offending text.
    pub fn new(kind: ErrKind, detail: String) -> (r: GenError)
        ensures
            r@ == (ErrView { kind, detail: detail@ }),
    {
        GenError { kind, detail }
    }

    /// A human-readable rendering: the offending text is appended to the
    /// kind's description.
    pub fn message(&self) -> (r: String)
        ensures
            r@ == err_kind_text(self.kind) + self.detail@,
    {
        let mut s = err_kind_text_exec(self.kind).to_owned();
        s.append(self.detail.as_str());
        s
    }
}

/// The fixed description of an error kind.
pub open spec fn err_kind_text(k: ErrKind) -> Seq<char> {
    match k {
        ErrKind::UnsupportedCategory => "unsupported type: "@,
        ErrKind::UnrecognizedPart => "unrecognized case file: "@,
        ErrKind::MalformedMeta => "metadata without a string root: "@,
        ErrKind::MissingNode => "unreadable metadata or value file: "@,
        ErrKind::MissingValue => "valid case without a value: "@,
        ErrKind::MissingRoot => "valid case without a root: "@,
        ErrKind::MissingPayload => "case without a payload: "@,
        ErrKind::ForeignPayload => "payload outside the corpus tree: "@,
        ErrKind::ExpectedScalar => "expected a scalar value: "@,
        ErrKind::ExpectedString => "expected a string value: "@,
        ErrKind::ExpectedSequence => "expected a sequence value: "@,
        ErrKind::ExpectedMapping => "expected a mapping value: "@,
        ErrKind::MissingHexPrefix => "hex string without 0x prefix: "@,
        ErrKind::BadHex => "malformed hex string: "@,
        ErrKind::BadDecimal => "malformed decimal number: "@,
        ErrKind::WideIntTooWide => "number exceeds 32 bytes: "@,
        ErrKind::BadTypeName => "unsupported case-name pattern: "@,
        ErrKind::UnsupportedField => "unsupported container field: "@,
        ErrKind::DuplicateField => "duplicate container field: "@,
        ErrKind::MissingField => "missing container field: "@,
    }
}

fn err_kind_text_exec(k: ErrKind) -> (r: &'static str)
    ensures
        r@ == err_kind_text(k),
{
    match k {
        ErrKind::UnsupportedCategory => "unsupported type: ",
        ErrKind::UnrecognizedPart => "unrecognized case file: ",
        ErrKind::MalformedMeta => "metadata without a string root: ",
        ErrKind::MissingNode => "unreadable metadata or value file: ",
        ErrKind::MissingValue => "valid case without a value: ",
        ErrKind::MissingRoot => "valid case without a root: ",
        ErrKind::MissingPayload => "case without a payload: ",
        ErrKind::ForeignPayload => "payload outside the corpus tree: ",
        ErrKind::ExpectedScalar => "expected a scalar value: ",
        ErrKind::ExpectedString => "expected a string value: ",
        ErrKind::ExpectedSequence => "expected a sequence value: ",
        ErrKind::ExpectedMapping => "expected a mapping value: ",
        ErrKind::MissingHexPrefix => "hex string without 0x prefix: ",
        ErrKind::BadHex => "malformed hex string: ",
        ErrKind::BadDecimal => "malformed decimal number: ",
        ErrKind::WideIntTooWide => "number exceeds 32 bytes: ",
        ErrKind::BadTypeName => "unsupported case-name pattern: ",
        ErrKind::UnsupportedField => "unsupported container field: ",
        ErrKind::DuplicateField => "duplicate container field: ",
        ErrKind::MissingField => "missing container field: ",
    }
}

/// Relates an executable result to its mathematical mirror: same success,
/// same rendered text, same error.
pub open spec fn res_matches(r: Result<String, GenError>, s: Result<Seq<char>, ErrView>) -> bool {
    &&& (r is Ok <==> s is Ok)
    &&& (r is Ok ==> r->Ok_0@ == s->Ok_0)
    &&& (r is Err ==> r->Err_0@ == s->Err_0)
}

/// Relates an executable list of rendered items to its mathematical mirror.
pub open spec fn res_list_matches(
    r: Result<Vec<String>, GenError>,
    s: Result<Seq<Seq<char>>, ErrView>,
) -> bool {
    &&& (r is Ok <==> s is Ok)
    &&& (r is Ok ==> r->Ok_0@.len() == s->Ok_0.len() && forall|k: int|
        0 <= k < s->Ok_0.len() ==> r->Ok_0@[k]@ == s->Ok_0[k])
    &&& (r is Err ==> r->Err_0@ == s->Err_0)
}

/// One field of a mapping node.
#[derive(Debug)]
pub struct FieldNode {
    pub key: String,
    pub value: Node,
}

/// A schema-less value tree, as parsed from a case's value or metadata file.
#[derive(Debug)]
pub enum Node {
    /// A boolean scalar.
    Bool(bool),
    /// A non-negative integer scalar that fits a machine word; wider
    /// numbers arrive as strings.
    Int(u64),
    /// A string scalar.
    Str(String),
    /// A sequence of nodes.
    List(Vec<Node>),
    /// A mapping from field names to nodes, in file order.
    Dict(Vec<FieldNode>),
}

/// One fixture case: its expected root and value tree when present, the
/// path of its binary payload, and its format tag.
#[derive(Debug)]
pub struct TestCase {
    pub root: Option<String>,
    pub value: Option<Node>,
    pub data_path: Option<String>,
    pub format: Format,
}

/// The mathematical content of a test case.
pub struct CaseView {
    pub root: Option<Seq<char>>,
    pub value: Option<Node>,
    pub data_path: Option<Seq<char>>,
    pub format: Format,
}

impl View for TestCase {
    type V = CaseView;

    open spec fn view(&self) -> CaseView {
        CaseView {
            root: match self.root {
                Some(s) => Some(s@),
                None => None,
            },
            value: self.value,
            data_path: match self.data_path {
                Some(s) => Some(s@),
                None => None,
            },
            format: self.format,
        }
    }
}

impl SszType {
    /// Parses a category token; exactly the six known tokens are accepted.
    pub fn from_token(s: &str) -> (r: Result<SszType, GenError>)
        ensures
            r is Ok <==> (s@ == "basic_vector"@ || s@ == "bitlist"@ || s@ == "bitvector"@ || s@
                == "boolean"@ || s@ == "containers"@ || s@ == "uints"@),
            r is Ok ==> category_token(r->Ok_0) == s@,
            r is Err ==> r->Err_0@ == (ErrView { kind: ErrKind::UnsupportedCategory, detail: s@ }),
    {
        if crate::strutil::str_eq(s, "basic_vector") {
            Ok(SszType::BasicVector)
        } else if crate::strutil::str_eq(s, "bitlist") {
            Ok(SszType::Bitlist)
        } else if crate::strutil::str_eq(s, "bitvector") {
            Ok(SszType::Bitvector)
        } else if crate::strutil::str_eq(s, "boolean") {
            Ok(SszType::Boolean)
        } else if crate::strutil::str_eq(s, "containers") {
            Ok(SszType::Container)
        } else if crate::strutil::str_eq(s, "uints") {
            Ok(SszType::Uint)
        } else {
            Err(GenError::new(ErrKind::UnsupportedCategory, s.to_owned()))
        }
    }

    /// The category's directory and file-name token.
    pub fn token(&self) -> (r: String)
        ensures
            r@ == category_token(*self),
    {
        match self {
            SszType::BasicVector => "basic_vector".to_owned(),
            SszType::Bitlist => "bitlist".to_owned(),
            SszType::Bitvector => "bitvector".to_owned(),
            SszType::Boolean => "boolean".to_owned(),
            SszType::Container => "containers".to_owned(),
            SszType::Uint => "uints".to_owned(),
        }
    }
}

impl Format {
    /// The format's directory token.
    pub fn token(&self) -> (r: String)
        ensures
            r@ == format_token(*self),
    {
        match self {
            Format::Valid => "valid".to_owned(),
            Format::Invalid => "invalid".to_owned(),
        }
    }
}

} // verus!
