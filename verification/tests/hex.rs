use wycheproof2blb::hex::{hex_decode, hex_digit};

#[test]
fn decodes_pairs_of_digits() {
    assert_eq!(hex_decode("00"), Some(vec![0x00u8]));
    assert_eq!(hex_decode("0aff10"), Some(vec![0x0Au8, 0xFF, 0x10]));
    assert_eq!(hex_decode("7f80"), Some(vec![0x7Fu8, 0x80]));
}

#[test]
fn decodes_both_cases() {
    assert_eq!(hex_decode("DeadBEEF"), Some(vec![0xDEu8, 0xAD, 0xBE, 0xEF]));
    assert_eq!(hex_decode("abcdef"), hex_decode("ABCDEF"));
}

#[test]
fn empty_text_is_no_bytes() {
    assert_eq!(hex_decode(""), Some(Vec::<u8>::new()));
}

#[test]
fn odd_length_is_rejected() {
    assert_eq!(hex_decode("0"), None);
    assert_eq!(hex_decode("abc"), None);
}

#[test]
fn foreign_characters_are_rejected() {
    assert_eq!(hex_decode("0g"), None);
    assert_eq!(hex_decode("g0"), None);
    assert_eq!(hex_decode("0x10"), None);
    assert_eq!(hex_decode(" 10 "), None);
    assert_eq!(hex_decode("1\u{e9}"), None);
    assert_eq!(hex_decode("\u{ff11}\u{ff10}"), None);
}

#[test]
fn digit_values() {
    assert_eq!(hex_digit('0'), Some(0));
    assert_eq!(hex_digit('9'), Some(9));
    assert_eq!(hex_digit('a'), Some(10));
    assert_eq!(hex_digit('f'), Some(15));
    assert_eq!(hex_digit('A'), Some(10));
    assert_eq!(hex_digit('F'), Some(15));
    assert_eq!(hex_digit('g'), None);
    assert_eq!(hex_digit('G'), None);
    assert_eq!(hex_digit('/'), None);
    assert_eq!(hex_digit(':'), None);
    assert_eq!(hex_digit('@'), None);
    assert_eq!(hex_digit('`'), None);
}
