use wycheproof2blb::text::{chars_of, push_decimal, push_signed_decimal, same_text, starts_with};

#[test]
fn prefix_is_tested_from_the_start() {
    assert!(starts_with("secp256r1", "secp256r1"));
    assert!(starts_with("secp256r1_sha256", "secp256r1"));
    assert!(starts_with("anything", ""));
    assert!(starts_with("", ""));
    assert!(!starts_with("secp256", "secp256r1"));
    assert!(!starts_with("ECDSA_NISTP256", "NISTP256"));
    assert!(!starts_with("secp256k1", "secp256r1"));
    assert!(!starts_with("", "a"));
}

#[test]
fn prefix_goes_by_characters() {
    assert!(starts_with("\u{e9}t\u{e9}", "\u{e9}t"));
    assert!(!starts_with("\u{e9}t\u{e9}", "e"));
}

#[test]
fn same_text_compares_every_character() {
    assert!(same_text("SHA-256", "SHA-256"));
    assert!(same_text("", ""));
    assert!(!same_text("SHA-256", "SHA-255"));
    assert!(!same_text("SHA-256", "SHA-25"));
    assert!(!same_text("SHA-256", "sha-256"));
    assert!(!same_text("", "a"));
}

#[test]
fn characters_are_collected_in_order() {
    assert_eq!(chars_of("a\u{e9}z"), vec!['a', '\u{e9}', 'z']);
    assert_eq!(chars_of(""), Vec::<char>::new());
}

#[test]
fn decimal_is_appended() {
    let mut out = String::from("n=");
    push_decimal(&mut out, 0);
    assert_eq!(out, "n=0");
    push_decimal(&mut out, 7);
    push_decimal(&mut out, 10);
    push_decimal(&mut out, 1234567890);
    assert_eq!(out, "n=07101234567890");
    let mut most = String::new();
    push_decimal(&mut most, u64::MAX);
    assert_eq!(most, "18446744073709551615");
}

#[test]
fn signed_decimal_is_appended() {
    let mut out = String::new();
    push_signed_decimal(&mut out, -1);
    assert_eq!(out, "-1");
    let mut least = String::from("<");
    push_signed_decimal(&mut least, i64::MIN);
    assert_eq!(least, "<-9223372036854775808");
    let mut most = String::new();
    push_signed_decimal(&mut most, i64::MAX);
    assert_eq!(most, "9223372036854775807");
    let mut zero = String::new();
    push_signed_decimal(&mut zero, 0);
    assert_eq!(zero, "0");
}
