use rina::text::{parse_u64, str_contains, str_eq, str_starts_with, u64_to_dec};

#[test]
fn dec_renders_zero() {
    assert_eq!(u64_to_dec(0), "0");
}

#[test]
fn dec_renders_digits() {
    assert_eq!(u64_to_dec(7), "7");
    assert_eq!(u64_to_dec(10), "10");
    assert_eq!(u64_to_dec(12345), "12345");
    assert_eq!(u64_to_dec(u64::MAX), "18446744073709551615");
}

#[test]
fn parse_reads_plain_numbers() {
    assert_eq!(parse_u64("0"), Some(0));
    assert_eq!(parse_u64("42"), Some(42));
    assert_eq!(parse_u64("007"), Some(7));
}

#[test]
fn parse_rejects_non_numbers() {
    assert_eq!(parse_u64(""), None);
    assert_eq!(parse_u64("abc"), None);
    assert_eq!(parse_u64("4a"), None);
    assert_eq!(parse_u64("-3"), None);
    assert_eq!(parse_u64("+3"), None);
    assert_eq!(parse_u64("3 "), None);
}

#[test]
fn parse_handles_the_largest_value() {
    assert_eq!(parse_u64("18446744073709551615"), Some(u64::MAX));
    assert_eq!(parse_u64("18446744073709551616"), None);
    assert_eq!(parse_u64("99999999999999999999999"), None);
}

#[test]
fn parse_inverts_rendering() {
    let values: Vec<u64> = vec![0, 1, 9, 10, 99, 100, 4096, u64::MAX];
    for v in values {
        let s = u64_to_dec(v);
        assert_eq!(parse_u64(s.as_str()), Some(v));
    }
}

#[test]
fn equality_compares_characters() {
    assert!(str_eq("", ""));
    assert!(str_eq("abc", "abc"));
    assert!(!str_eq("abc", "abd"));
    assert!(!str_eq("abc", "ab"));
}

#[test]
fn prefix_check() {
    assert!(str_starts_with("http://x", "http"));
    assert!(str_starts_with("abc", ""));
    assert!(!str_starts_with("htt", "http"));
    assert!(!str_starts_with("xhttp", "http"));
}

#[test]
fn containment_check() {
    assert!(str_contains("https://y?v=1&list=abc", "&list="));
    assert!(!str_contains("https://y?v=1", "&list="));
    assert!(str_contains("abc", ""));
    assert!(str_contains("abc", "abc"));
    assert!(!str_contains("ab", "abc"));
}
