use serde_json::Value;
use wycheproof2blb::ecdsa::{SchemaVersion, TestCase, TestGroup, TestKey, TestSuite};
use wycheproof2blb::schema::{
    decode_case, decode_case_header, decode_group, decode_key, decode_suite, decode_suite_header,
};
use wycheproof2blb::wycheproof::{Case, CaseResult, Group, Suite};

const LEGACY: &str = r#"{
    "algorithm": "ECDSA",
    "generatorVersion": "0.8r12",
    "numberOfTests": 2,
    "header": ["Test vectors of type EcdsaVerify."],
    "notes": {"BER": "Alternative encoding.", "WeakHash": "The hash is weak."},
    "schema": "ecdsa_verify_schema.json",
    "testGroups": [
        {
            "type": "EcdsaVerify",
            "keyDer": "3059",
            "keyPem": "-----BEGIN PUBLIC KEY-----",
            "sha": "SHA-256",
            "key": {
                "curve": "secp256r1",
                "keySize": 256,
                "type": "EcPublicKey",
                "uncompressed": "04",
                "wx": "2927b1",
                "wy": "00C7"
            },
            "tests": [
                {
                    "tcId": 1,
                    "comment": "signature malleability",
                    "msg": "313233",
                    "sig": "3044",
                    "result": "valid",
                    "flags": ["BER", "WeakHash"]
                },
                {
                    "tcId": 2,
                    "comment": "",
                    "msg": "",
                    "sig": "30",
                    "result": "invalid"
                }
            ]
        }
    ]
}"#;

fn legacy() -> Value {
    serde_json::from_str(LEGACY).unwrap()
}

fn v1() -> Value {
    let mut document = legacy();
    let group = document.pointer_mut("/testGroups/0").unwrap().as_object_mut().unwrap();
    let der = group.remove("keyDer").unwrap();
    let pem = group.remove("keyPem").unwrap();
    let key = group.remove("key").unwrap();
    group.insert(String::from("publicKeyDer"), der);
    group.insert(String::from("publicKeyPem"), pem);
    group.insert(String::from("publicKey"), key);
    document
}

fn without(mut document: Value, at: &str, member: &str) -> Value {
    let removed = document.pointer_mut(at).unwrap().as_object_mut().unwrap().remove(member);
    assert!(removed.is_some());
    document
}

fn with(mut document: Value, at: &str, member: &str, value: &str) -> Value {
    let value: Value = serde_json::from_str(value).unwrap();
    document.pointer_mut(at).unwrap().as_object_mut().unwrap().insert(String::from(member), value);
    document
}

fn expected() -> TestSuite {
    TestSuite {
        suite: Suite {
            algorithm: String::from("ECDSA"),
            generator_version: String::from("0.8r12"),
            notes: vec![String::from("BER"), String::from("WeakHash")],
        },
        test_groups: vec![TestGroup {
            group: Group { group_type: String::from("EcdsaVerify") },
            key_der: String::from("3059"),
            key_pem: String::from("-----BEGIN PUBLIC KEY-----"),
            sha: String::from("SHA-256"),
            key: TestKey {
                curve: String::from("secp256r1"),
                key_type: String::from("EcPublicKey"),
                wx: vec![0x29, 0x27, 0xB1],
                wy: vec![0x00, 0xC7],
            },
            tests: vec![
                TestCase {
                    case: Case {
                        case_id: 1,
                        comment: String::from("signature malleability"),
                        result: CaseResult::Valid,
                        flags: vec![String::from("BER"), String::from("WeakHash")],
                    },
                    msg: vec![0x31, 0x32, 0x33],
                    sig: vec![0x30, 0x44],
                },
                TestCase {
                    case: Case {
                        case_id: 2,
                        comment: String::new(),
                        result: CaseResult::Invalid,
                        flags: vec![],
                    },
                    msg: vec![],
                    sig: vec![0x30],
                },
            ],
        }],
    }
}

#[test]
fn legacy_document_is_read() {
    assert_eq!(decode_suite(&legacy(), SchemaVersion::Legacy), Some(expected()));
}

#[test]
fn v1_document_is_read() {
    assert_eq!(decode_suite(&v1(), SchemaVersion::V1), Some(expected()));
}

#[test]
fn layouts_do_not_read_each_other() {
    assert_eq!(decode_suite(&legacy(), SchemaVersion::V1), None);
    assert_eq!(decode_suite(&v1(), SchemaVersion::Legacy), None);
}

#[test]
fn each_v1_name_is_required() {
    for name in ["publicKeyDer", "publicKeyPem", "publicKey"] {
        assert_eq!(decode_suite(&without(v1(), "/testGroups/0", name), SchemaVersion::V1), None);
    }
}

#[test]
fn suite_members_are_required() {
    for name in ["algorithm", "generatorVersion", "notes", "testGroups"] {
        assert_eq!(decode_suite(&without(legacy(), "", name), SchemaVersion::Legacy), None);
    }
}

#[test]
fn group_members_are_required() {
    for name in ["type", "keyDer", "keyPem", "sha", "key", "tests"] {
        assert_eq!(
            decode_suite(&without(legacy(), "/testGroups/0", name), SchemaVersion::Legacy),
            None
        );
    }
}

#[test]
fn key_members_are_required() {
    for name in ["curve", "type", "wx", "wy"] {
        assert_eq!(
            decode_suite(&without(legacy(), "/testGroups/0/key", name), SchemaVersion::Legacy),
            None
        );
    }
}

#[test]
fn case_members_are_required() {
    for name in ["tcId", "comment", "msg", "sig", "result"] {
        assert_eq!(
            decode_suite(
                &without(legacy(), "/testGroups/0/tests/1", name),
                SchemaVersion::Legacy
            ),
            None
        );
    }
}

#[test]
fn absent_flags_are_no_flags() {
    let document = without(legacy(), "/testGroups/0/tests/0", "flags");
    let suite = decode_suite(&document, SchemaVersion::Legacy).unwrap();
    assert_eq!(suite.test_groups[0].tests[0].case.flags, Vec::<String>::new());
}

#[test]
fn members_outside_the_model_are_passed_over() {
    let with_more = with(legacy(), "/testGroups/0/tests/0", "extra", r#"{"a": [1, 2.5, null]}"#);
    let with_more = with(with_more, "/testGroups/0", "jwk", "true");
    let with_more = with(with_more, "", "numberOfTests", r#""many""#);
    assert_eq!(decode_suite(&with_more, SchemaVersion::Legacy), Some(expected()));
    let with_less = without(without(legacy(), "", "header"), "/testGroups/0/key", "keySize");
    assert_eq!(decode_suite(&with_less, SchemaVersion::Legacy), Some(expected()));
}

#[test]
fn members_of_another_type_are_rejected() {
    let cases = [
        ("", "algorithm", "1"),
        ("", "generatorVersion", "null"),
        ("", "notes", "[]"),
        ("", "notes", r#""none""#),
        ("", "testGroups", "{}"),
        ("", "testGroups", r#"["group"]"#),
        ("/testGroups/0", "type", "[]"),
        ("/testGroups/0", "keyDer", "3059"),
        ("/testGroups/0", "keyPem", "false"),
        ("/testGroups/0", "sha", "256"),
        ("/testGroups/0", "key", r#""secp256r1""#),
        ("/testGroups/0", "key", r#"["secp256r1", "EcPublicKey", "01", "02"]"#),
        ("/testGroups/0", "tests", r#"{"tcId": 1}"#),
        ("/testGroups/0", "tests", "[1]"),
        ("/testGroups/0/key", "curve", "256"),
        ("/testGroups/0/key", "type", "null"),
        ("/testGroups/0/key", "wx", "41"),
        ("/testGroups/0/key", "wy", r#"["00"]"#),
        ("/testGroups/0/tests/0", "tcId", r#""1""#),
        ("/testGroups/0/tests/0", "tcId", "1.5"),
        ("/testGroups/0/tests/0", "tcId", "1.0"),
        ("/testGroups/0/tests/0", "tcId", "9223372036854775808"),
        ("/testGroups/0/tests/0", "comment", "0"),
        ("/testGroups/0/tests/0", "msg", "[49, 50]"),
        ("/testGroups/0/tests/0", "sig", "null"),
        ("/testGroups/0/tests/0", "result", "true"),
        ("/testGroups/0/tests/0", "flags", "null"),
        ("/testGroups/0/tests/0", "flags", r#""BER""#),
        ("/testGroups/0/tests/0", "flags", r#"["BER", 1]"#),
    ];
    for (at, member, value) in cases {
        assert_eq!(
            decode_suite(&with(legacy(), at, member, value), SchemaVersion::Legacy),
            None,
            "{} {} {}",
            at,
            member,
            value
        );
    }
}

#[test]
fn values_outside_the_schema_are_rejected() {
    let cases = [
        ("/testGroups/0/key", "wx", r#""012""#),
        ("/testGroups/0/key", "wy", r#""0x01""#),
        ("/testGroups/0/tests/0", "msg", r#""zz""#),
        ("/testGroups/0/tests/0", "sig", r#""30 44""#),
        ("/testGroups/0/tests/0", "result", r#""maybe""#),
        ("/testGroups/0/tests/0", "result", r#""VALID""#),
    ];
    for (at, member, value) in cases {
        assert_eq!(
            decode_suite(&with(legacy(), at, member, value), SchemaVersion::Legacy),
            None,
            "{} {} {}",
            at,
            member,
            value
        );
    }
}

#[test]
fn documents_that_are_no_object_are_rejected() {
    for text in ["null", "true", "7", r#""suite""#, "[]", "{}"] {
        let document: Value = serde_json::from_str(text).unwrap();
        assert_eq!(decode_suite(&document, SchemaVersion::Legacy), None);
        assert_eq!(decode_suite(&document, SchemaVersion::V1), None);
    }
}

#[test]
fn case_identifiers_span_the_signed_range() {
    let least = with(legacy(), "/testGroups/0/tests/0", "tcId", "-9223372036854775808");
    let suite = decode_suite(&least, SchemaVersion::Legacy).unwrap();
    assert_eq!(suite.test_groups[0].tests[0].case.case_id, i64::MIN);
    let most = with(legacy(), "/testGroups/0/tests/0", "tcId", "9223372036854775807");
    let suite = decode_suite(&most, SchemaVersion::Legacy).unwrap();
    assert_eq!(suite.test_groups[0].tests[0].case.case_id, i64::MAX);
}

#[test]
fn empty_arrays_and_objects_are_read() {
    let document = with(with(legacy(), "", "notes", "{}"), "/testGroups/0", "tests", "[]");
    let suite = decode_suite(&document, SchemaVersion::Legacy).unwrap();
    assert_eq!(suite.suite.notes, Vec::<String>::new());
    assert_eq!(suite.test_groups[0].tests, vec![]);
    let none = with(legacy(), "", "testGroups", "[]");
    assert_eq!(decode_suite(&none, SchemaVersion::Legacy).unwrap().test_groups, vec![]);
}

#[test]
fn parts_are_read_alone() {
    let document = legacy();
    let want = expected();
    assert_eq!(decode_suite_header(&document), Some(want.suite));
    let group = document.pointer("/testGroups/0").unwrap();
    assert_eq!(decode_group(group, SchemaVersion::V1), None);
    let got = decode_group(group, SchemaVersion::Legacy).unwrap();
    assert_eq!(got.sha, "SHA-256");
    let key = decode_key(group.get("key").unwrap()).unwrap();
    assert_eq!(key, got.key);
    assert_eq!(key.wx, vec![0x29u8, 0x27, 0xB1]);
    let first = document.pointer("/testGroups/0/tests/0").unwrap();
    assert_eq!(decode_case(first).unwrap(), got.tests[0]);
    assert_eq!(decode_case_header(first).unwrap().case_id, 1);
    assert_eq!(decode_key(first), None);
    assert_eq!(decode_case(group), None);
}
