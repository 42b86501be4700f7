//! The text utilities: decimal rendering and string predicates.

use breeze::text::{str_eq, str_starts_with, u32_to_string, u64_to_string};

#[test]
fn decimal_of_small_numbers() {
    assert_eq!(u64_to_string(0), "0");
    assert_eq!(u64_to_string(7), "7");
    assert_eq!(u64_to_string(10), "10");
    assert_eq!(u64_to_string(99), "99");
}

#[test]
fn decimal_of_large_numbers() {
    assert_eq!(u64_to_string(1_234_567_890), "1234567890");
    assert_eq!(u64_to_string(u64::MAX), "18446744073709551615");
    assert_eq!(u32_to_string(u32::MAX), "4294967295");
}

#[test]
fn prefix_test_agrees_with_examples() {
    assert!(str_starts_with("wlreq-approve-r1", "wlreq-"));
    assert!(str_starts_with("abc", ""));
    assert!(str_starts_with("abc", "abc"));
    assert!(!str_starts_with("ab", "abc"));
    assert!(!str_starts_with("abc", "abd"));
    assert!(str_starts_with("ünïcode", "ünï"));
}

#[test]
fn string_equality_is_character_wise() {
    assert!(str_eq("", ""));
    assert!(str_eq("abc", "abc"));
    assert!(!str_eq("abc", "abd"));
    assert!(!str_eq("abc", "ab"));
    assert!(str_eq("ünïcode", "ünïcode"));
    assert!(!str_eq("ünïcode", "unicode"));
}
