use assistant_bot::text::{
    chars_of, join, parse_decimal, parse_i64, parse_u16, parse_u64, parse_u8, push_decimal,
    push_signed, same_text,
};

#[test]
fn quantity_accepts_plain_digits() {
    assert_eq!(parse_u8("5"), Some(5));
    assert_eq!(parse_u8("0"), Some(0));
    assert_eq!(parse_u8("10"), Some(10));
    assert_eq!(parse_u8("255"), Some(255));
    assert_eq!(parse_u8("007"), Some(7));
}

#[test]
fn quantity_rejects_overflow_sign_and_non_digits() {
    assert_eq!(parse_u8("256"), None);
    assert_eq!(parse_u8("1000"), None);
    assert_eq!(parse_u8("99999999999999999999999999"), None);
    assert_eq!(parse_u8("-1"), None);
    assert_eq!(parse_u8("+5"), None);
    assert_eq!(parse_u8(""), None);
    assert_eq!(parse_u8(" 5"), None);
    assert_eq!(parse_u8("5 "), None);
    assert_eq!(parse_u8("5.0"), None);
    assert_eq!(parse_u8("five"), None);
    assert_eq!(parse_u8("٥"), None);
}

#[test]
fn minutes_fit_sixteen_bits() {
    assert_eq!(parse_u16("0"), Some(0));
    assert_eq!(parse_u16("45"), Some(45));
    assert_eq!(parse_u16("65535"), Some(65535));
    assert_eq!(parse_u16("65536"), None);
    assert_eq!(parse_u16("-45"), None);
    assert_eq!(parse_u16("4 5"), None);
}

#[test]
fn seconds_fit_sixty_four_bits() {
    assert_eq!(parse_u64("10"), Some(10));
    assert_eq!(parse_u64("18446744073709551615"), Some(u64::MAX));
    assert_eq!(parse_u64("18446744073709551616"), None);
}

#[test]
fn identifiers_take_an_optional_sign() {
    assert_eq!(parse_i64("17"), Some(17));
    assert_eq!(parse_i64("+17"), Some(17));
    assert_eq!(parse_i64("-17"), Some(-17));
    assert_eq!(parse_i64("-0"), Some(0));
    assert_eq!(parse_i64("9223372036854775807"), Some(i64::MAX));
    assert_eq!(parse_i64("-9223372036854775808"), Some(i64::MIN));
    assert_eq!(parse_i64("9223372036854775808"), None);
    assert_eq!(parse_i64("-9223372036854775809"), None);
    assert_eq!(parse_i64(""), None);
    assert_eq!(parse_i64("-"), None);
    assert_eq!(parse_i64("+"), None);
    assert_eq!(parse_i64("--1"), None);
    assert_eq!(parse_i64("1-"), None);
    assert_eq!(parse_i64("1a"), None);
}

#[test]
fn decimal_is_read_from_a_position() {
    let chars = chars_of("ab123");
    assert_eq!(parse_decimal(&chars, 2, 1000), Some(123));
    assert_eq!(parse_decimal(&chars, 2, 122), None);
    assert_eq!(parse_decimal(&chars, 0, 1000), None);
    assert_eq!(parse_decimal(&chars, 5, 1000), None);
}

#[test]
fn chars_follow_the_text() {
    assert_eq!(chars_of("Йо1"), vec!['Й', 'о', '1']);
    assert_eq!(chars_of(""), Vec::<char>::new());
}

#[test]
fn numbers_are_written_without_padding() {
    let mut out = String::from("n=");
    push_decimal(&mut out, 0);
    assert_eq!(out, "n=0");
    let mut out = String::new();
    push_decimal(&mut out, 1001);
    assert_eq!(out, "1001");
    let mut out = String::new();
    push_decimal(&mut out, u64::MAX);
    assert_eq!(out, "18446744073709551615");
}

#[test]
fn signed_numbers_are_written_with_their_sign() {
    let mut out = String::new();
    push_signed(&mut out, -42);
    assert_eq!(out, "-42");
    let mut out = String::new();
    push_signed(&mut out, 42);
    assert_eq!(out, "42");
    let mut out = String::new();
    push_signed(&mut out, i64::MIN);
    assert_eq!(out, "-9223372036854775808");
    let mut out = String::new();
    push_signed(&mut out, 0);
    assert_eq!(out, "0");
}

#[test]
fn written_numbers_are_read_back() {
    for n in [0u64, 1, 9, 10, 99, 100, 255, 65535, 1_000_000_007, u64::MAX] {
        let mut out = String::new();
        push_decimal(&mut out, n);
        assert_eq!(parse_u64(&out), Some(n));
    }
    for n in [i64::MIN, -1, 0, 1, i64::MAX] {
        let mut out = String::new();
        push_signed(&mut out, n);
        assert_eq!(parse_i64(&out), Some(n));
    }
}

#[test]
fn texts_are_compared_by_their_characters() {
    assert!(same_text("Занятия", "Занятия"));
    assert!(!same_text("Занятия", "занятия"));
    assert!(!same_text("Занятия", "Занятия "));
    assert!(same_text("", ""));
}

#[test]
fn lines_are_joined_by_line_breaks() {
    assert_eq!(join(&vec![]), "");
    assert_eq!(join(&vec!["a".to_string()]), "a");
    assert_eq!(join(&vec!["a".to_string(), "b".to_string(), "c".to_string()]), "a\nb\nc");
    assert_eq!(join(&vec!["".to_string(), "".to_string()]), "\n");
}
