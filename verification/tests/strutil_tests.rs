use flashcap::strutil::str_eq;
use flashcap::strutil::str_starts_with;
use flashcap::strutil::trim_whitespace;
use flashcap::strutil::u64_to_decimal;
use flashcap::strutil::u64_to_pad2;
use flashcap::strutil::u64_to_pad4;

#[test]
fn decimal_rendering() {
    assert_eq!(u64_to_decimal(0), "0");
    assert_eq!(u64_to_decimal(7), "7");
    assert_eq!(u64_to_decimal(12345), "12345");
    assert_eq!(u64_to_decimal(1000), "1000");
}

#[test]
fn zero_padded_rendering() {
    assert_eq!(u64_to_pad2(0), "00");
    assert_eq!(u64_to_pad2(7), "07");
    assert_eq!(u64_to_pad2(42), "42");
    assert_eq!(u64_to_pad4(7), "0007");
    assert_eq!(u64_to_pad4(2024), "2024");
}

#[test]
fn string_equality_and_prefix() {
    assert!(str_eq("abc", "abc"));
    assert!(!str_eq("abc", "abd"));
    assert!(!str_eq("abc", "abcd"));
    assert!(str_starts_with("custom:/x", "custom:"));
    assert!(!str_starts_with("custo", "custom:"));
    assert!(!str_starts_with("Custom:/x", "custom:"));
}

#[test]
fn trimming_strips_both_ends() {
    assert_eq!(trim_whitespace("  /a/b\n"), "/a/b");
    assert_eq!(trim_whitespace("/a/b"), "/a/b");
    assert_eq!(trim_whitespace(" \t\r\n"), "");
    assert_eq!(trim_whitespace(""), "");
}
