use fiscal_core::text::{joined, contains, decimal_string, spaced, str_eq, str_less};

#[test]
fn decimal_strings() {
    assert_eq!(decimal_string(0), "0");
    assert_eq!(decimal_string(9), "9");
    assert_eq!(decimal_string(10), "10");
    assert_eq!(decimal_string(2026), "2026");
    assert_eq!(decimal_string(u64::MAX), u64::MAX.to_string());
}

#[test]
fn infixes() {
    assert!(contains("prestations_bic", "bic"));
    assert!(contains("abc", ""));
    assert!(contains("", ""));
    assert!(!contains("bi", "bic"));
    assert!(contains("hébergement", "gement"));
    assert!(!contains("hebergement", "hé"));
}

#[test]
fn comparisons() {
    assert!(str_eq("pacse", "pacse"));
    assert!(!str_eq("pacse", "pacs"));
    assert!(str_less("a", "b"));
    assert!(str_less("ab", "abc"));
    assert!(!str_less("abc", "ab"));
    assert!(!str_less("x", "x"));
    assert!(str_less("ir.scale", "ir.scale.rate"));
    assert!(str_less("Z", "a"));
    assert_eq!(str_less("é", "z"), "é" < "z");
}

#[test]
fn building_strings() {
    assert_eq!(joined("ab", "cd"), "abcd");
    assert_eq!(spaced("a_b__c"), "a b  c");
    assert_eq!(spaced(""), "");
}
