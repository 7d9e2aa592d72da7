use qa_rs::text::{
    contains, int_to_string, parse_i64, prefix_before, strip_prefix, suffix_after, text_eq, trim,
};

#[test]
fn int_to_string_renders_decimal() {
    assert_eq!(int_to_string(0), "0");
    assert_eq!(int_to_string(7), "7");
    assert_eq!(int_to_string(1234), "1234");
    assert_eq!(int_to_string(-42), "-42");
    assert_eq!(int_to_string(i64::MAX), "9223372036854775807");
    assert_eq!(int_to_string(i64::MIN), "-9223372036854775808");
}

#[test]
fn parse_i64_matches_std() {
    for t in ["0", "12", "-12", "+12", "", "-", "+", "1a", " 1", "9223372036854775807",
        "9223372036854775808", "-9223372036854775808", "-9223372036854775809", "007"]
    {
        assert_eq!(parse_i64(t), t.parse::<i64>().ok(), "text {:?}", t);
    }
}

#[test]
fn decimal_round_trip_on_samples() {
    for i in [0i64, 1, -1, 99, 100, -100, i64::MAX, i64::MIN, 123456789] {
        assert_eq!(parse_i64(&int_to_string(i)), Some(i));
    }
}

#[test]
fn contains_finds_substrings() {
    assert!(contains("UNIQUE constraint failed", "UNIQUE"));
    assert!(!contains("unique", "UNIQUE"));
    assert!(contains("abc", ""));
    assert!(!contains("ab", "abc"));
    assert!(contains("xxabc", "abc"));
}

#[test]
fn text_eq_compares_characters() {
    assert!(text_eq("true", "true"));
    assert!(!text_eq("true", "True"));
    assert!(!text_eq("", "x"));
}

#[test]
fn trim_matches_std() {
    for t in ["", "  ", " a ", "\t\nhello world\r\n", "x", "\u{3000}wide\u{a0}", "a b"] {
        assert_eq!(trim(t), t.trim(), "text {:?}", t);
    }
}

#[test]
fn prefix_and_suffix_around_separator() {
    assert_eq!(prefix_before("127.0.0.1:80", ':'), "127.0.0.1");
    assert_eq!(prefix_before("localhost", ':'), "localhost");
    assert_eq!(suffix_after("title\nbody\nmore", '\n'), "body\nmore");
    assert_eq!(suffix_after("title", '\n'), "");
}

#[test]
fn strip_prefix_matches_std() {
    assert_eq!(strip_prefix("sqlite://qa.db", "sqlite://"), Some("qa.db"));
    assert_eq!(strip_prefix("postgres://x", "sqlite://"), None);
    assert_eq!(strip_prefix("sq", "sqlite:"), None);
}
