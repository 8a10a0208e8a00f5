use krypto::text::{decimal_string, str_eq, trim};

#[test]
fn decimal_strings() {
    assert_eq!(decimal_string(0), "0");
    assert_eq!(decimal_string(7), "7");
    assert_eq!(decimal_string(10), "10");
    assert_eq!(decimal_string(u64::MAX), u64::MAX.to_string());
}

#[test]
fn trimming_matches_str_trim() {
    for s in ["  a b  ", "\n\t", "", "x", "\u{3000}y\u{a0}", " \u{2029}z\u{85}"] {
        assert_eq!(trim(s), s.trim());
    }
}

#[test]
fn string_equality() {
    assert!(str_eq("abc", "abc"));
    assert!(!str_eq("abc", "abd"));
    assert!(!str_eq("ab", "abc"));
}
