//! The shared text helpers.

use wake::{ascii_lower, ascii_upper, contains_string, str_contains, str_eq, u64_to_string, usize_to_string};

#[test]
fn decimal_rendering() {
    assert_eq!(u64_to_string(0), "0");
    assert_eq!(u64_to_string(7), "7");
    assert_eq!(u64_to_string(115200), "115200");
    assert_eq!(u64_to_string(u64::MAX), "18446744073709551615");
    assert_eq!(usize_to_string(40), "40");
}

#[test]
fn ascii_case_mapping() {
    assert_eq!(ascii_lower("ESP32-Dev"), "esp32-dev");
    assert_eq!(ascii_upper("esp32-dev"), "ESP32-DEV");
    // Non-ASCII characters pass through unchanged.
    assert_eq!(ascii_lower("Ω-3"), "Ω-3");
}

#[test]
fn substring_search() {
    assert!(str_contains("device not acknowledged", "not acknowledged"));
    assert!(str_contains("abc", ""));
    assert!(!str_contains("abc", "abcd"));
    assert!(!str_contains("nac", "nack"));
    assert!(str_contains("xxnackxx", "nack"));
}

#[test]
fn string_equality_and_lookup() {
    assert!(str_eq("same", "same"));
    assert!(!str_eq("same", "sam"));
    let names = vec!["GP0".to_string(), "GP1".to_string()];
    assert!(contains_string(&names, "GP1"));
    assert!(!contains_string(&names, "GP2"));
}
