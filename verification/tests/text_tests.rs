use genius_clan::text::{
    comma_items, eq_ignore_ascii_case, i64_text, is_blank_text, parse_i64, parse_u16, parse_u8,
    split_once_char, strip_whitespace, to_ascii_lowercase, trim, u64_text,
};

#[test]
fn parse_u8_accepts_plus_and_range() {
    assert_eq!(parse_u8("24"), Some(24));
    assert_eq!(parse_u8("+7"), Some(7));
    assert_eq!(parse_u8("255"), Some(255));
    assert_eq!(parse_u8("256"), None);
    assert_eq!(parse_u8("-1"), None);
    assert_eq!(parse_u8(""), None);
    assert_eq!(parse_u8("+"), None);
    assert_eq!(parse_u8("1a"), None);
}

#[test]
fn parse_u16_matches_std() {
    for s in ["0", "8080", "65535", "65536", "00080", "+443", " 1", "x"] {
        assert_eq!(parse_u16(s), s.parse::<u16>().ok(), "input {s:?}");
    }
}

#[test]
fn parse_i64_matches_std() {
    for s in ["15", "-30", "+4", "-", "", "9223372036854775807", "9223372036854775808", "-9223372036854775808", "-9223372036854775809", "12x"] {
        assert_eq!(parse_i64(s), s.parse::<i64>().ok(), "input {s:?}");
    }
}

#[test]
fn decimal_text_matches_to_string() {
    for n in [0i64, 7, -7, 10, 1234567890, i64::MAX, i64::MIN] {
        assert_eq!(i64_text(n), n.to_string());
    }
    assert_eq!(u64_text(u64::MAX), u64::MAX.to_string());
}

#[test]
fn comma_items_trim_and_drop_blanks() {
    assert_eq!(comma_items(" 1.2.3.4 , ,10.0.0.0/8,"), vec!["1.2.3.4".to_string(), "10.0.0.0/8".to_string()]);
    assert!(comma_items("").is_empty());
    assert!(comma_items(" , ").is_empty());
}

#[test]
fn trim_and_blank() {
    assert_eq!(trim("  a b \t"), "a b");
    assert_eq!(trim("   "), "");
    assert!(is_blank_text(" \n\t"));
    assert!(!is_blank_text(" x "));
}

#[test]
fn split_once_on_first_separator() {
    assert_eq!(split_once_char("a/b/c", '/'), Some(("a".to_string(), "b/c".to_string())));
    assert_eq!(split_once_char("abc", '/'), None);
}

#[test]
fn strip_whitespace_removes_inner_spaces() {
    assert_eq!(strip_whitespace("abcd efgh ijkl mnop"), "abcdefghijklmnop");
}

#[test]
fn ascii_case_helpers() {
    assert_eq!(to_ascii_lowercase("/WP-Admin"), "/wp-admin");
    assert!(eq_ignore_ascii_case("E4", "e4"));
    assert!(!eq_ignore_ascii_case("e4", "e5"));
}
