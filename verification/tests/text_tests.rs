use n0_snafu::text::{clean_text, str_ends_with, str_starts_with, u64_to_dec, u64_to_dec_pad3};

#[test]
fn test_clean_text_strips_suffix_and_separator() {
    assert_eq!(clean_text("A: B", "B"), "A");
}

#[test]
fn test_clean_text_strips_repeated_suffix() {
    assert_eq!(clean_text("ABB", "B"), "A");
}

#[test]
fn test_clean_text_non_match_is_unchanged() {
    assert_eq!(clean_text("abc", "xyz"), "abc");
}

#[test]
fn test_clean_text_empty_cause_still_trims() {
    assert_eq!(clean_text("abc", ""), "abc");
    assert_eq!(clean_text("A: ", "X"), "A");
}

#[test]
fn test_clean_text_exact_match_only() {
    // Matching is exact trailing-substring equality: case differences are
    // never stripped.
    assert_eq!(clean_text("A: b", "B"), "A: b");
}

#[test]
fn test_prefix_and_suffix_checks() {
    assert!(str_starts_with("hello world", "hello"));
    assert!(!str_starts_with("hello", "hello world"));
    assert!(str_ends_with("hello world", "world"));
    assert!(!str_ends_with("world", "hello world"));
    assert!(str_ends_with("anything", ""));
}

#[test]
fn test_decimal_rendering() {
    assert_eq!(u64_to_dec(0), "0");
    assert_eq!(u64_to_dec(7), "7");
    assert_eq!(u64_to_dec(12345), "12345");
    assert_eq!(u64_to_dec_pad3(7), "  7");
    assert_eq!(u64_to_dec_pad3(42), " 42");
    assert_eq!(u64_to_dec_pad3(123), "123");
    assert_eq!(u64_to_dec_pad3(4096), "4096");
}

#[test]
fn test_clean_text_trims_unicode_whitespace() {
    // A non-breaking space before the separator is trimmed like any other
    // whitespace.
    assert_eq!(clean_text("A:\u{a0}", "X"), "A");
    assert_eq!(clean_text("A: B\u{2009}", "B\u{2009}"), "A");
}
