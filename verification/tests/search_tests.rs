use rustified::search::find_subsequence;
use rustified::search::str_contains;

#[test]
fn finds_needle_at_first_position() {
    assert_eq!(find_subsequence(b"abcdef", b"cd"), Some(2));
}

#[test]
fn finds_first_of_several_occurrences() {
    assert_eq!(find_subsequence(b"xbarbar", b"bar"), Some(1));
}

#[test]
fn missing_needle_is_none() {
    assert_eq!(find_subsequence(b"abcdef", b"xy"), None);
}

#[test]
fn needle_longer_than_haystack_is_none() {
    assert_eq!(find_subsequence(b"ab", b"abc"), None);
}

#[test]
fn empty_needle_matches_at_start() {
    assert_eq!(find_subsequence(b"abc", b""), Some(0));
}

#[test]
fn needle_at_end_is_found() {
    assert_eq!(find_subsequence(b"hello rust_panic", b"rust_panic"), Some(6));
}

#[test]
fn equal_buffers_match_at_zero() {
    assert_eq!(find_subsequence(b"rust_eh_personality", b"rust_eh_personality"), Some(0));
}

#[test]
fn str_contains_substring() {
    assert!(str_contains("_ZN3std9panicking10rust_panic17hE", "rust_panic"));
}

#[test]
fn str_contains_is_case_sensitive() {
    assert!(!str_contains("RUST_PANIC", "rust_panic"));
}

#[test]
fn str_contains_no_match() {
    assert!(!str_contains("main", "rust_panic"));
}

#[test]
fn str_contains_handles_multibyte_text() {
    assert!(str_contains("caf\u{e9} rust_panic caf\u{e9}", "rust_panic"));
    assert!(!str_contains("caf\u{e9}", "rust_panic"));
}
