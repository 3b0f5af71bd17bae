use crates_io_logic::text::{
    chars_of, contains_str, decimal_string, join_strings, push_decimal, split_by,
    split_once_by, split_terminator_by, starts_with_str, str_eq, string_of,
};

#[test]
fn decimal_rendering() {
    assert_eq!(decimal_string(0), "0");
    assert_eq!(decimal_string(1234567890), "1234567890");
    assert_eq!(decimal_string(u64::MAX), u64::MAX.to_string());
    let mut s = "n=".to_string();
    push_decimal(&mut s, 42);
    assert_eq!(s, "n=42");
}

#[test]
fn splitting_like_std() {
    for (s, sep) in [("a,b,,c", ','), ("", ','), (",", ','), ("abc", ':'), ("a:b:", ':')] {
        let expected: Vec<String> = s.split(sep).map(|p| p.to_string()).collect();
        assert_eq!(split_by(s, sep), expected, "{s:?}");
        let expected: Vec<String> = s.split_terminator(sep).map(|p| p.to_string()).collect();
        assert_eq!(split_terminator_by(s, sep), expected, "{s:?}");
    }
    assert_eq!(
        split_once_by("a=b=c", '='),
        Some(("a".to_string(), "b=c".to_string()))
    );
    assert_eq!(split_once_by("abc", '='), None);
}

#[test]
fn comparing_and_searching() {
    assert!(str_eq("abc", "abc"));
    assert!(!str_eq("abc", "abd"));
    assert!(contains_str("hello world", "o w"));
    assert!(contains_str("hello", ""));
    assert!(!contains_str("hello", "hello!"));
    assert!(starts_with_str("dep:serde", "dep:"));
    assert!(!starts_with_str("de", "dep:"));
}

#[test]
fn joining_and_slicing() {
    let parts = vec!["a".to_string(), "b".to_string(), "c".to_string()];
    assert_eq!(join_strings(&parts, ", "), "a, b, c");
    assert_eq!(join_strings(&vec![], ", "), "");
    let chars = chars_of("héllo");
    assert_eq!(chars, vec!['h', 'é', 'l', 'l', 'o']);
    assert_eq!(string_of(&chars, 1, 3), "él");
}
