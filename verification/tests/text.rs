use image_relay::decimal::{parse_u64, to_decimal};
use image_relay::text::{contains, same_text};

#[test]
fn contains_finds_a_word_inside() {
    assert!(contains("/th?id=http-ish", "http"));
    assert!(contains("https://cdn.example.com/x.jpg", "http"));
    assert!(!contains("/th?id=OHR.Test_EN-US", "http"));
    assert!(!contains("htt", "http"));
    assert!(contains("anything", ""));
    assert!(contains("", ""));
}

#[test]
fn same_text_compares_characters() {
    assert!(same_text("true", "true"));
    assert!(!same_text("true", "True"));
    assert!(!same_text("true", "tru"));
}

#[test]
fn decimal_reads_and_writes() {
    assert_eq!(parse_u64("0"), Some(0));
    assert_eq!(parse_u64("42"), Some(42));
    assert_eq!(parse_u64("+42"), Some(42));
    assert_eq!(parse_u64("007"), Some(7));
    assert_eq!(parse_u64("18446744073709551615"), Some(u64::MAX));
    assert_eq!(parse_u64("18446744073709551616"), None);
    assert_eq!(parse_u64(""), None);
    assert_eq!(parse_u64("+"), None);
    assert_eq!(parse_u64("-1"), None);
    assert_eq!(parse_u64(" 1"), None);
    assert_eq!(parse_u64("1_000"), None);
    assert_eq!(to_decimal(0), "0");
    assert_eq!(to_decimal(10), "10");
    assert_eq!(to_decimal(u64::MAX), "18446744073709551615");
}
