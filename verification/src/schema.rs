//! The mapping from a JSON document to the suite model, for both layouts.
//!
//! A suite is an object with the strings `algorithm` and `generatorVersion`,
//! the object `notes`, of which the member names are kept, and the array
//! `testGroups`. A group is an object with the strings `type`, `sha`, the key
//! in DER and the key in PEM, the key itself and the array `tests`. A key is
//! an object with the strings `curve` and `type` and the hexadecimal strings
//! `wx` and `wy`. A case is an object with the integer `tcId`, the strings
//! `comment` and `result`, the hexadecimal strings `msg` and `sig`, and an
//! array of strings `flags`.
//!
//! Every one of these members is required, but `flags`, which may be absent
//! and then stands for no flags. Members that are not named here are passed
//! over. The two layouts differ in three member names of a group: `keyDer`,
//! `keyPem` and `key` in the first, `publicKeyDer`, `publicKeyPem` and
//! `publicKey` in the later one.

use crate::ecdsa::{
    SchemaVersion, TestCase, TestCaseView, TestGroup, TestGroupView, TestKey, TestKeyView,
    TestSuite, TestSuiteView,
};
use crate::hex::{hex_decode, hex_decoded};
use crate::json::{json_integer, json_items, json_keys, json_member, json_text, keys, member};
use crate::model::views;
use crate::wycheproof::{
    parse_result, result_named, Case, CaseView, Group, GroupView, Suite, SuiteView,
};
use serde_json::Value;
use vstd::prelude::*;

verus! {

/// The text of the member `key` of `v`, where `v` has it and it is a string.
pub open spec fn text_member(v: Value, key: Seq<char>) -> Option<Seq<char>> {
    match json_member(v, key) {
        Some(m) => json_text(m),
        None => None,
    }
}

/// The bytes that the member `key` of `v` writes in hexadecimal.
pub open spec fn hex_member(v: Value, key: Seq<char>) -> Option<Seq<u8>> {
    match text_member(v, key) {
        Some(t) => hex_decoded(t),
        None => None,
    }
}

/// The elements of the member `key` of `v`, where `v` has it and it is an array.
pub open spec fn items_member(v: Value, key: Seq<char>) -> Option<Seq<Value>> {
    match json_member(v, key) {
        Some(m) => json_items(m),
        None => None,
    }
}

/// The integer that is the member `key` of `v`.
pub open spec fn integer_member(v: Value, key: Seq<char>) -> Option<i64> {
    match json_member(v, key) {
        Some(m) => json_integer(m),
        None => None,
    }
}

/// Each element of `items` as `read` reads it, where it can read them all.
pub open spec fn each_of<T>(items: Seq<Value>, read: spec_fn(Value) -> Option<T>) -> Option<
    Seq<T>,
> {
    if forall|i: int| 0 <= i < items.len() ==> (#[trigger] read(items[i])) is Some {
        Some(Seq::new(items.len(), |i: int| read(items[i]).unwrap()))
    } else {
        None
    }
}

/// Elements that are all read give the sequence of what was read.
proof fn lemma_each_of_all<T>(items: Seq<Value>, read: spec_fn(Value) -> Option<T>, out: Seq<T>)
    requires
        out.len() == items.len(),
        forall|k: int| 0 <= k < items.len() ==> read(items[k]) == Some(#[trigger] out[k]),
    ensures
        each_of(items, read) == Some(out),
{
    assert forall|k: int| 0 <= k < items.len() implies (#[trigger] read(items[k])) is Some by {
        assert(read(items[k]) == Some(out[k]));
    }
}

/// One element that cannot be read leaves nothing of the sequence.
proof fn lemma_each_of_none<T>(items: Seq<Value>, read: spec_fn(Value) -> Option<T>, i: int)
    requires
        0 <= i < items.len(),
        read(items[i]) is None,
    ensures
        each_of(items, read) is None,
{
}

/// The name of the member that holds the key in DER.
pub open spec fn key_der_name(version: SchemaVersion) -> Seq<char> {
    match version {
        SchemaVersion::Legacy => "keyDer"@,
        SchemaVersion::V1 => "publicKeyDer"@,
    }
}

/// The name of the member that holds the key in PEM.
pub open spec fn key_pem_name(version: SchemaVersion) -> Seq<char> {
    match version {
        SchemaVersion::Legacy => "keyPem"@,
        SchemaVersion::V1 => "publicKeyPem"@,
    }
}

/// The name of the member that holds the key's coordinates.
pub open spec fn key_name(version: SchemaVersion) -> Seq<char> {
    match version {
        SchemaVersion::Legacy => "key"@,
        SchemaVersion::V1 => "publicKey"@,
    }
}

/// The flags of the case `v`: none where it has no `flags`, else the strings
/// of that array.
pub open spec fn flags_of(v: Value) -> Option<Seq<Seq<char>>> {
    match json_member(v, "flags"@) {
        None => Some(Seq::empty()),
        Some(f) => match json_items(f) {
            Some(items) => each_of(items, |e: Value| json_text(e)),
            None => None,
        },
    }
}

/// The case header that `v` holds.
pub open spec fn case_header_of(v: Value) -> Option<CaseView> {
    let id = integer_member(v, "tcId"@);
    let comment = text_member(v, "comment"@);
    let result = match text_member(v, "result"@) {
        Some(t) => result_named(t),
        None => None,
    };
    let flags = flags_of(v);
    if id is Some && comment is Some && result is Some && flags is Some {
        Some(
            CaseView {
                case_id: id.unwrap() as int,
                comment: comment.unwrap(),
                result: result.unwrap(),
                flags: flags.unwrap(),
            },
        )
    } else {
        None
    }
}

/// The test case that `v` holds.
pub open spec fn case_of(v: Value) -> Option<TestCaseView> {
    let case = case_header_of(v);
    let msg = hex_member(v, "msg"@);
    let sig = hex_member(v, "sig"@);
    if case is Some && msg is Some && sig is Some {
        Some(TestCaseView { case: case.unwrap(), msg: msg.unwrap(), sig: sig.unwrap() })
    } else {
        None
    }
}

/// The public key that `v` holds.
pub open spec fn key_of(v: Value) -> Option<TestKeyView> {
    let curve = text_member(v, "curve"@);
    let key_type = text_member(v, "type"@);
    let wx = hex_member(v, "wx"@);
    let wy = hex_member(v, "wy"@);
    if curve is Some && key_type is Some && wx is Some && wy is Some {
        Some(
            TestKeyView {
                curve: curve.unwrap(),
                key_type: key_type.unwrap(),
                wx: wx.unwrap(),
                wy: wy.unwrap(),
            },
        )
    } else {
        None
    }
}

/// The test group that `v` holds in the layout `version`.
pub open spec fn group_of(v: Value, version: SchemaVersion) -> Option<TestGroupView> {
    let group_type = text_member(v, "type"@);
    let key_der = text_member(v, key_der_name(version));
    let key_pem = text_member(v, key_pem_name(version));
    let sha = text_member(v, "sha"@);
    let key = match json_member(v, key_name(version)) {
        Some(k) => key_of(k),
        None => None,
    };
    let tests = match items_member(v, "tests"@) {
        Some(items) => each_of(items, |e: Value| case_of(e)),
        None => None,
    };
    if group_type is Some && key_der is Some && key_pem is Some && sha is Some && key is Some
        && tests is Some {
        Some(
            TestGroupView {
                group: GroupView { group_type: group_type.unwrap() },
                key_der: key_der.unwrap(),
                key_pem: key_pem.unwrap(),
                sha: sha.unwrap(),
                key: key.unwrap(),
                tests: tests.unwrap(),
            },
        )
    } else {
        None
    }
}

/// The suite header that `v` holds.
pub open spec fn suite_header_of(v: Value) -> Option<SuiteView> {
    let algorithm = text_member(v, "algorithm"@);
    let generator_version = text_member(v, "generatorVersion"@);
    let notes = match json_member(v, "notes"@) {
        Some(n) => json_keys(n),
        None => None,
    };
    if algorithm is Some && generator_version is Some && notes is Some {
        Some(
            SuiteView {
                algorithm: algorithm.unwrap(),
                generator_version: generator_version.unwrap(),
                notes: notes.unwrap(),
            },
        )
    } else {
        None
    }
}

/// The suite that the document `v` holds in the layout `version`, or `None`
/// where `v` does not have that shape.
pub open spec fn suite_of(v: Value, version: SchemaVersion) -> Option<TestSuiteView> {
    let suite = suite_header_of(v);
    let groups = match items_member(v, "testGroups"@) {
        Some(items) => each_of(items, |e: Value| group_of(e, version)),
        None => None,
    };
    if suite is Some && groups is Some {
        Some(TestSuiteView { suite: suite.unwrap(), test_groups: groups.unwrap() })
    } else {
        None
    }
}

fn text_at(v: &Value, key: &str) -> (r: Option<String>)
    ensures
        match r {
            Some(s) => text_member(*v, key@) == Some(s@),
            None => text_member(*v, key@) is None,
        },
{
    Some(member(v, key)?.as_str()?.to_owned())
}

fn hex_at(v: &Value, key: &str) -> (r: Option<Vec<u8>>)
    ensures
        match r {
            Some(b) => hex_member(*v, key@) == Some(b@),
            None => hex_member(*v, key@) is None,
        },
{
    hex_decode(member(v, key)?.as_str()?)
}

fn items_at<'a>(v: &'a Value, key: &str) -> (r: Option<&'a Vec<Value>>)
    ensures
        match r {
            Some(a) => items_member(*v, key@) == Some(a@),
            None => items_member(*v, key@) is None,
        },
{
    member(v, key)?.as_array()
}

fn integer_at(v: &Value, key: &str) -> (r: Option<i64>)
    ensures
        r == integer_member(*v, key@),
{
    member(v, key)?.as_i64()
}

fn key_der_key(version: SchemaVersion) -> (r: &'static str)
    ensures
        r@ == key_der_name(version),
{
    match version {
        SchemaVersion::Legacy => "keyDer",
        SchemaVersion::V1 => "publicKeyDer",
    }
}

fn key_pem_key(version: SchemaVersion) -> (r: &'static str)
    ensures
        r@ == key_pem_name(version),
{
    match version {
        SchemaVersion::Legacy => "keyPem",
        SchemaVersion::V1 => "publicKeyPem",
    }
}

fn key_key(version: SchemaVersion) -> (r: &'static str)
    ensures
        r@ == key_name(version),
{
    match version {
        SchemaVersion::Legacy => "key",
        SchemaVersion::V1 => "publicKey",
    }
}

fn decode_flags(v: &Value) -> (r: Option<Vec<String>>)
    ensures
        match r {
            Some(flags) => flags_of(*v) == Some(views(flags@)),
            None => flags_of(*v) is None,
        },
{
    let mut out: Vec<String> = Vec::new();
    let items = match member(v, "flags") {
        None => {
            return Some(out);
        },
        Some(f) => f.as_array()?,
    };
    let mut i: usize = 0;
    while i < items.len()
        invariant
            i <= items.len(),
            out@.len() == i,
            flags_of(*v) == each_of(items@, |e: Value| json_text(e)),
            forall|k: int| 0 <= k < i ==> json_text(items@[k]) == Some(#[trigger] out@[k]@),
        decreases items.len() - i,
    {
        match items[i].as_str() {
            Some(s) => {
                out.push(s.to_owned());
            },
            None => {
                proof {
                    lemma_each_of_none(items@, |e: Value| json_text(e), i as int);
                }
                return None;
            },
        }
        i += 1;
    }
    proof {
        lemma_each_of_all(items@, |e: Value| json_text(e), views(out@));
    }
    Some(out)
}

/// Reads the header of one test case.
pub fn decode_case_header(v: &Value) -> (r: Option<Case>)
    ensures
        match r {
            Some(case) => case_header_of(*v) == Some(case@),
            None => case_header_of(*v) is None,
        },
{
    let case_id = integer_at(v, "tcId")?;
    let comment = text_at(v, "comment")?;
    let result = parse_result(text_at(v, "result")?.as_str())?;
    let flags = decode_flags(v)?;
    Some(Case { case_id, comment, result, flags })
}

/// Reads one test case.
pub fn decode_case(v: &Value) -> (r: Option<TestCase>)
    ensures
        match r {
            Some(case) => case_of(*v) == Some(case@),
            None => case_of(*v) is None,
        },
{
    let case = decode_case_header(v)?;
    let msg = hex_at(v, "msg")?;
    let sig = hex_at(v, "sig")?;
    Some(TestCase { case, msg, sig })
}

/// Reads one public key.
pub fn decode_key(v: &Value) -> (r: Option<TestKey>)
    ensures
        match r {
            Some(key) => key_of(*v) == Some(key@),
            None => key_of(*v) is None,
        },
{
    let curve = text_at(v, "curve")?;
    let key_type = text_at(v, "type")?;
    let wx = hex_at(v, "wx")?;
    let wy = hex_at(v, "wy")?;
    Some(TestKey { curve, key_type, wx, wy })
}

fn decode_cases(items: &Vec<Value>) -> (r: Option<Vec<TestCase>>)
    ensures
        match r {
            Some(cases) => each_of(items@, |e: Value| case_of(e)) == Some(views(cases@)),
            None => each_of(items@, |e: Value| case_of(e)) is None,
        },
{
    let mut out: Vec<TestCase> = Vec::new();
    let mut i: usize = 0;
    while i < items.len()
        invariant
            i <= items.len(),
            out@.len() == i,
            forall|k: int| 0 <= k < i ==> case_of(items@[k]) == Some(#[trigger] out@[k]@),
        decreases items.len() - i,
    {
        match decode_case(&items[i]) {
            Some(case) => {
                out.push(case);
            },
            None => {
                proof {
                    lemma_each_of_none(items@, |e: Value| case_of(e), i as int);
                }
                return None;
            },
        }
        i += 1;
    }
    proof {
        lemma_each_of_all(items@, |e: Value| case_of(e), views(out@));
    }
    Some(out)
}

/// Reads one test group in the layout `version`.
pub fn decode_group(v: &Value, version: SchemaVersion) -> (r: Option<TestGroup>)
    ensures
        match r {
            Some(group) => group_of(*v, version) == Some(group@),
            None => group_of(*v, version) is None,
        },
{
    let group_type = text_at(v, "type")?;
    let key_der = text_at(v, key_der_key(version))?;
    let key_pem = text_at(v, key_pem_key(version))?;
    let sha = text_at(v, "sha")?;
    let key = decode_key(member(v, key_key(version))?)?;
    let tests = decode_cases(items_at(v, "tests")?)?;
    Some(TestGroup { group: Group { group_type }, key_der, key_pem, sha, key, tests })
}

fn decode_groups(items: &Vec<Value>, version: SchemaVersion) -> (r: Option<Vec<TestGroup>>)
    ensures
        match r {
            Some(groups) => each_of(items@, |e: Value| group_of(e, version)) == Some(
                views(groups@),
            ),
            None => each_of(items@, |e: Value| group_of(e, version)) is None,
        },
{
    let mut out: Vec<TestGroup> = Vec::new();
    let mut i: usize = 0;
    while i < items.len()
        invariant
            i <= items.len(),
            out@.len() == i,
            forall|k: int|
                0 <= k < i ==> group_of(items@[k], version) == Some(#[trigger] out@[k]@),
        decreases items.len() - i,
    {
        match decode_group(&items[i], version) {
            Some(group) => {
                out.push(group);
            },
            None => {
                proof {
                    lemma_each_of_none(items@, |e: Value| group_of(e, version), i as int);
                }
                return None;
            },
        }
        i += 1;
    }
    proof {
        lemma_each_of_all(items@, |e: Value| group_of(e, version), views(out@));
    }
    Some(out)
}

/// Reads the header of a suite.
pub fn decode_suite_header(v: &Value) -> (r: Option<Suite>)
    ensures
        match r {
            Some(suite) => suite_header_of(*v) == Some(suite@),
            None => suite_header_of(*v) is None,
        },
{
    let algorithm = text_at(v, "algorithm")?;
    let generator_version = text_at(v, "generatorVersion")?;
    let notes = keys(member(v, "notes")?)?;
    Some(Suite { algorithm, generator_version, notes })
}

/// Reads a whole suite document in the layout `version`. Gives the suite
/// exactly where the document has the shape that [`suite_of`] describes.
pub fn decode_suite(v: &Value, version: SchemaVersion) -> (r: Option<TestSuite>)
    ensures
        match r {
            Some(suite) => suite_of(*v, version) == Some(suite@),
            None => suite_of(*v, version) is None,
        },
{
    let suite = decode_suite_header(v)?;
    let test_groups = decode_groups(items_at(v, "testGroups")?, version)?;
    Some(TestSuite { suite, test_groups })
}

} // verus!
