use mms_rs::text::push_decimal;
use mms_rs::text::push_signed_decimal;
use mms_rs::text::str_eq;

#[test]
fn strings_are_equal_when_their_characters_are() {
    assert!(str_eq("", ""));
    assert!(str_eq("ack", "ack"));
    assert!(str_eq("größe", "größe"));
    assert!(!str_eq("ack", "ac"));
    assert!(!str_eq("ac", "ack"));
    assert!(!str_eq("ack", "acK"));
    assert!(!str_eq("ack", "bck"));
    assert!(!str_eq("", "a"));
    assert!(!str_eq("e\u{301}", "\u{e9}"));
}

#[test]
fn numbers_are_appended_in_decimal() {
    for n in [0u32, 1, 9, 10, 11, 99, 100, 101, 65535, 1000000, u32::MAX] {
        let mut out = String::from("x=");
        push_decimal(&mut out, n);
        assert_eq!(out, format!("x={}", n));
    }
}

#[test]
fn signed_numbers_are_appended_with_their_sign() {
    for v in [0i32, 1, -1, 9, -9, 10, -10, 12345, -12345, i32::MAX, i32::MIN] {
        let mut out = String::from("v:");
        push_signed_decimal(&mut out, v);
        assert_eq!(out, format!("v:{}", v));
    }
}
