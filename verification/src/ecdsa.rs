//! ECDSA verification test suites: the document model, and the two entry
//! points that turn the bytes of a suite into test records.

use crate::json::{json_parse, parse};
use crate::model::views;
use crate::test_info::{TestInfo, TestInfoView};
use crate::projection::{
    project, projected, violation_text, SchemaViolation, SchemaViolationView,
};
use crate::schema::{decode_suite, suite_of};
use crate::wycheproof::{Case, CaseView, Group, GroupView, Suite, SuiteView};
use serde_json::Value;
use vstd::prelude::*;

verus! {

/// Which of the two layouts of a suite document to read.
#[derive(Clone, Copy, Debug, PartialEq, Eq, Structural)]
pub enum SchemaVersion {
    /// The first layout: `keyDer`, `keyPem`, `key`.
    Legacy,
    /// The later layout: `publicKeyDer`, `publicKeyPem`, `publicKey`.
    V1,
}

/// The public key of a test group.
#[derive(Debug, PartialEq, Eq)]
pub struct TestKey {
    /// The name of the curve.
    pub curve: String,
    /// The kind of key, as the suite names it.
    pub key_type: String,
    /// The affine x-coordinate, big-endian.
    pub wx: Vec<u8>,
    /// The affine y-coordinate, big-endian.
    pub wy: Vec<u8>,
}

/// A [`TestKey`] as specifications see it.
pub struct TestKeyView {
    pub curve: Seq<char>,
    pub key_type: Seq<char>,
    pub wx: Seq<u8>,
    pub wy: Seq<u8>,
}

impl View for TestKey {
    type V = TestKeyView;

    open spec fn view(&self) -> TestKeyView {
        TestKeyView { curve: self.curve@, key_type: self.key_type@, wx: self.wx@, wy: self.wy@ }
    }
}

/// One test case: a message, a signature over it, and what verifying the
/// signature should give.
#[derive(Debug, PartialEq, Eq)]
pub struct TestCase {
    /// The header of the case.
    pub case: Case,
    /// The message.
    pub msg: Vec<u8>,
    /// The signature.
    pub sig: Vec<u8>,
}

/// A [`TestCase`] as specifications see it.
pub struct TestCaseView {
    pub case: CaseView,
    pub msg: Seq<u8>,
    pub sig: Seq<u8>,
}

impl View for TestCase {
    type V = TestCaseView;

    open spec fn view(&self) -> TestCaseView {
        TestCaseView { case: self.case@, msg: self.msg@, sig: self.sig@ }
    }
}

/// The test cases that share one public key and one hash function.
#[derive(Debug, PartialEq, Eq)]
pub struct TestGroup {
    /// The header of the group.
    pub group: Group,
    /// The key in DER, as text. Carried, not read.
    pub key_der: String,
    /// The key in PEM. Carried, not read.
    pub key_pem: String,
    /// The name of the hash function.
    pub sha: String,
    /// The public key.
    pub key: TestKey,
    /// The cases, in document order.
    pub tests: Vec<TestCase>,
}

/// A [`TestGroup`] as specifications see it.
pub struct TestGroupView {
    pub group: GroupView,
    pub key_der: Seq<char>,
    pub key_pem: Seq<char>,
    pub sha: Seq<char>,
    pub key: TestKeyView,
    pub tests: Seq<TestCaseView>,
}

impl View for TestGroup {
    type V = TestGroupView;

    open spec fn view(&self) -> TestGroupView {
        TestGroupView {
            group: self.group@,
            key_der: self.key_der@,
            key_pem: self.key_pem@,
            sha: self.sha@,
            key: self.key@,
            tests: views(self.tests@),
        }
    }
}

/// A whole suite document.
#[derive(Debug, PartialEq, Eq)]
pub struct TestSuite {
    /// The header of the suite.
    pub suite: Suite,
    /// The groups, in document order.
    pub test_groups: Vec<TestGroup>,
}

/// A [`TestSuite`] as specifications see it.
pub struct TestSuiteView {
    pub suite: SuiteView,
    pub test_groups: Seq<TestGroupView>,
}

impl View for TestSuite {
    type V = TestSuiteView;

    open spec fn view(&self) -> TestSuiteView {
        TestSuiteView { suite: self.suite@, test_groups: views(self.test_groups@) }
    }
}

/// Why a suite gave no records.
#[derive(Debug, PartialEq, Eq)]
pub enum GenerateError {
    /// The bytes are not a suite document of the layout that was asked for.
    Malformed,
    /// A group of the suite does not meet an expectation.
    Schema(SchemaViolation),
}

/// A [`GenerateError`] as specifications see it.
pub enum GenerateErrorView {
    Malformed,
    Schema(SchemaViolationView),
}

impl View for GenerateError {
    type V = GenerateErrorView;

    open spec fn view(&self) -> GenerateErrorView {
        match self {
            GenerateError::Malformed => GenerateErrorView::Malformed,
            GenerateError::Schema(violation) => GenerateErrorView::Schema(violation@),
        }
    }
}

/// The line that reports `error`.
pub open spec fn error_text(error: GenerateErrorView) -> Seq<char> {
    match error {
        GenerateErrorView::Malformed => "the input is not a test suite of the expected layout"@,
        GenerateErrorView::Schema(violation) => violation_text(violation),
    }
}

impl GenerateError {
    /// A line of text that reports the error.
    pub fn message(&self) -> (r: String)
        ensures
            r@ == error_text(self@),
    {
        match self {
            GenerateError::Malformed => "the input is not a test suite of the expected layout".to_owned(),
            GenerateError::Schema(violation) => violation.message(),
        }
    }
}

/// What the JSON document `document`, read in the layout `version`, gives
/// for `algorithm`.
///
/// A document that has not the shape of a suite is malformed. A suite gives
/// what [`projected`] says: its records, or the first group that does not
/// meet an expectation.
pub open spec fn generated_from_document(
    document: Value,
    algorithm: Seq<char>,
    version: SchemaVersion,
) -> Result<Seq<TestInfoView>, GenerateErrorView> {
    match suite_of(document, version) {
        None => Err(GenerateErrorView::Malformed),
        Some(suite) => match projected(suite, algorithm) {
            Ok(infos) => Ok(infos),
            Err(violation) => Err(GenerateErrorView::Schema(violation)),
        },
    }
}

/// What the bytes `data`, read in the layout `version`, give for `algorithm`.
///
/// Bytes that are not one JSON text are malformed. All others give what
/// their document gives.
pub open spec fn generated(data: Seq<u8>, algorithm: Seq<char>, version: SchemaVersion) -> Result<
    Seq<TestInfoView>,
    GenerateErrorView,
> {
    match json_parse(data) {
        None => Err(GenerateErrorView::Malformed),
        Some(document) => generated_from_document(document, algorithm, version),
    }
}

/// The suite that the bytes `data` hold in the layout `version`: they must
/// be one JSON text, and the document must have the shape of a suite.
pub open spec fn decoded(data: Seq<u8>, version: SchemaVersion) -> Option<TestSuiteView> {
    match json_parse(data) {
        Some(document) => suite_of(document, version),
        None => None,
    }
}

/// The view of what a generation returned.
pub open spec fn outcome(r: Result<Vec<TestInfo>, GenerateError>) -> Result<
    Seq<TestInfoView>,
    GenerateErrorView,
> {
    match r {
        Ok(infos) => Ok(views(infos@)),
        Err(e) => Err(e@),
    }
}

/// Reads a suite from the JSON document `document` in the layout `version`
/// and gives its records for `algorithm`.
///
/// Fails as malformed exactly where the document has not the shape of a
/// suite, and with a violation exactly where it has and a group does not meet
/// an expectation.
pub fn generate_from_document(document: &Value, algorithm: &str, version: SchemaVersion) -> (r:
    Result<Vec<TestInfo>, GenerateError>)
    ensures
        outcome(r) == generated_from_document(*document, algorithm@, version),
{
    let suite = match decode_suite(document, version) {
        Some(suite) => suite,
        None => {
            return Err(GenerateError::Malformed);
        },
    };
    match project(&suite, algorithm) {
        Ok(infos) => Ok(infos),
        Err(violation) => Err(GenerateError::Schema(violation)),
    }
}

/// Reads a suite from `data` in the layout `version` and gives its records
/// for `algorithm`. The key size takes no part in the result.
///
/// Fails as malformed where the bytes are not one JSON text; what a JSON
/// document gives is what [`generate_from_document`] gives for it.
pub fn generate(data: &[u8], algorithm: &str, _key_size: u32, version: SchemaVersion) -> (r:
    Result<Vec<TestInfo>, GenerateError>)
    ensures
        outcome(r) == generated(data@, algorithm@, version),
{
    match parse(data) {
        Ok(document) => generate_from_document(&document, algorithm, version),
        Err(_) => Err(GenerateError::Malformed),
    }
}

/// The records of a suite in the first layout.
pub fn generator(data: &[u8], algorithm: &str, _key_size: u32) -> (r: Result<
    Vec<TestInfo>,
    GenerateError,
>)
    ensures
        outcome(r) == generated(data@, algorithm@, SchemaVersion::Legacy),
{
    generate(data, algorithm, _key_size, SchemaVersion::Legacy)
}

/// The records of a suite in the later layout.
pub fn generator_v1(data: &[u8], algorithm: &str, _key_size: u32) -> (r: Result<
    Vec<TestInfo>,
    GenerateError,
>)
    ensures
        outcome(r) == generated(data@, algorithm@, SchemaVersion::V1),
{
    generate(data, algorithm, _key_size, SchemaVersion::V1)
}

} // verus!
