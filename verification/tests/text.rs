use social_preview::text::chars_of;
use social_preview::text::join;
use social_preview::text::decimal_text;
use social_preview::text::has_prefix;
use social_preview::text::parse_u64;
use social_preview::text::same_text;
use social_preview::text::split_once;
use social_preview::text::starts_with;
use social_preview::text::strip_prefix;

#[test]
fn numbers_are_written_in_decimal() {
    assert_eq!(decimal_text(0), "0");
    assert_eq!(decimal_text(7), "7");
    assert_eq!(decimal_text(10), "10");
    assert_eq!(decimal_text(100), "100");
    assert_eq!(decimal_text(9876543210), "9876543210");
    assert_eq!(decimal_text(u64::MAX), "18446744073709551615");
}

#[test]
fn written_numbers_read_back() {
    for n in [0u64, 1, 9, 10, 11, 99, 100, 12345, 1 << 40, u64::MAX - 1, u64::MAX] {
        assert_eq!(parse_u64(&decimal_text(n)), Some(n));
        assert_eq!(decimal_text(n), n.to_string());
    }
}

#[test]
fn numbers_are_read_as_std_reads_them() {
    for text in [
        "", "+", "-", "0", "+0", "-0", "00", "007", "+007", "++1", "+-1", "1+", "12a", "a12", " 1",
        "1 ", "1_000", "0x10", "1e3", "1.0", "\u{661}\u{662}", "18446744073709551615",
        "18446744073709551616", "99999999999999999999", "+18446744073709551615",
        "000000000000000000000000018446744073709551615",
    ] {
        assert_eq!(parse_u64(text), text.parse::<u64>().ok(), "{:?}", text);
    }
}

#[test]
fn split_once_cuts_at_the_first_separator() {
    assert_eq!(split_once("a/b/c", '/'), Some(("a".to_string(), "b/c".to_string())));
    assert_eq!(split_once("/b", '/'), Some((String::new(), "b".to_string())));
    assert_eq!(split_once("a/", '/'), Some(("a".to_string(), String::new())));
    assert_eq!(split_once("abc", '/'), None);
    assert_eq!(split_once("", '/'), None);
    assert_eq!(split_once("\u{e9}:\u{4e2d}", ':'), Some(("\u{e9}".to_string(), "\u{4e2d}".to_string())));
}

#[test]
fn prefixes_are_told_and_stripped() {
    assert!(starts_with("https://x", "https://"));
    assert!(starts_with("abc", ""));
    assert!(starts_with("abc", "abc"));
    assert!(!starts_with("ab", "abc"));
    assert!(!starts_with("http://x", "https://"));
    assert_eq!(strip_prefix("ar://abc", "ar://"), Some("abc".to_string()));
    assert_eq!(strip_prefix("ar://", "ar://"), Some(String::new()));
    assert_eq!(strip_prefix("ar:/abc", "ar://"), None);
    assert_eq!(strip_prefix("\u{e9}\u{e9}x", "\u{e9}"), Some("\u{e9}x".to_string()));
}

#[test]
fn texts_are_compared_character_by_character() {
    assert!(same_text("", ""));
    assert!(same_text("abc", "abc"));
    assert!(!same_text("abc", "abd"));
    assert!(!same_text("abc", "ab"));
    assert!(!same_text("ab", "abc"));
}

#[test]
fn text_is_taken_apart_into_its_characters() {
    let chars = chars_of("h\u{e9}llo");
    assert_eq!(chars, vec!['h', '\u{e9}', 'l', 'l', 'o']);
    assert_eq!(chars_of(""), Vec::<char>::new());
    assert!(has_prefix(&chars, &vec!['h', '\u{e9}']));
    assert!(has_prefix(&chars, &Vec::new()));
    assert!(!has_prefix(&vec!['h'], &chars));
}

#[test]
fn join_puts_two_texts_together() {
    assert_eq!(join("ab", "cd"), "abcd");
    assert_eq!(join("", "cd"), "cd");
    assert_eq!(join("ab", ""), "ab");
}
