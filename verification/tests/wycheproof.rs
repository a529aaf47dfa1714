use wycheproof2blb::wycheproof::{case_result, description, parse_result, Case, CaseResult, Suite};

fn suite() -> Suite {
    Suite {
        algorithm: String::from("ECDSA"),
        generator_version: String::from("0.8r12"),
        notes: vec![String::from("WeakHash")],
    }
}

fn case(case_id: i64, comment: &str, result: CaseResult, flags: &[&str]) -> Case {
    Case {
        case_id,
        comment: String::from(comment),
        result,
        flags: flags.iter().map(|flag| String::from(*flag)).collect(),
    }
}

#[test]
fn result_byte_is_zero_for_invalid_only() {
    assert_eq!(case_result(&case(1, "", CaseResult::Valid, &[])), 1);
    assert_eq!(case_result(&case(1, "", CaseResult::Invalid, &[])), 0);
    assert_eq!(case_result(&case(1, "", CaseResult::Acceptable, &[])), 1);
}

#[test]
fn results_are_read_by_name() {
    assert_eq!(parse_result("valid"), Some(CaseResult::Valid));
    assert_eq!(parse_result("invalid"), Some(CaseResult::Invalid));
    assert_eq!(parse_result("acceptable"), Some(CaseResult::Acceptable));
    assert_eq!(parse_result("Valid"), None);
    assert_eq!(parse_result("valid "), None);
    assert_eq!(parse_result(""), None);
    assert_eq!(parse_result("unknown"), None);
}

#[test]
fn description_without_flags() {
    assert_eq!(
        description(&suite(), &case(42, "edge case", CaseResult::Valid, &[])),
        "ECDSA (0.8r12) case 42 [] edge case"
    );
}

#[test]
fn description_with_one_flag() {
    assert_eq!(
        description(&suite(), &case(1, "weak", CaseResult::Acceptable, &["WeakHash"])),
        "ECDSA (0.8r12) case 1 [WeakHash] weak"
    );
}

#[test]
fn description_with_several_flags() {
    assert_eq!(
        description(
            &suite(),
            &case(307, "r too large", CaseResult::Invalid, &["BER", "MissingZero", "Range"])
        ),
        "ECDSA (0.8r12) case 307 [BER,MissingZero,Range] r too large"
    );
}

#[test]
fn description_of_unusual_values() {
    let bare = Suite { algorithm: String::new(), generator_version: String::new(), notes: vec![] };
    assert_eq!(description(&bare, &case(0, "", CaseResult::Valid, &[])), " () case 0 [] ");
    assert_eq!(
        description(&bare, &case(-12, "\u{e9}", CaseResult::Valid, &["", ""])),
        " () case -12 [,] \u{e9}"
    );
}
