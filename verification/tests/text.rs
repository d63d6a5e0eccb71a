use amect::text::{
    char_vec, concat2, concat3, decimal_string, find_char, is_white_space, last_line_start,
    substring, trim_bounds, trimmed,
};
use amect::user::{parse_user_sid, user_name_from_buffer};
use amect::winutils::parse_env_var;

#[test]
fn trims_white_space_on_both_ends() {
    assert_eq!(trimmed("  \r\n hello world \t\r\n"), "hello world");
    assert_eq!(trimmed("plain"), "plain");
    assert_eq!(trimmed(""), "");
    assert_eq!(trimmed(" \r\n\t "), "");
    assert_eq!(trimmed("\u{A0}x\u{3000}"), "x");
}

#[test]
fn trim_bounds_of_blank_text_are_empty() {
    let v = char_vec("   ");
    let (a, b) = trim_bounds(&v);
    assert_eq!(a, b);
    let v = char_vec(" ab ");
    assert_eq!(trim_bounds(&v), (1, 3));
}

#[test]
fn white_space_is_the_unicode_property() {
    assert_eq!(trimmed(" \t\r\n\u{A0}\u{2003}x\u{3000}\u{85}"), "x");
    assert_eq!(trimmed("\\x\\"), "\\x\\");
    assert_eq!(trimmed("a"), "a");
}

#[test]
fn white_space_agrees_with_the_standard_library_on_every_char() {
    for u in 0u32..=0x10FFFF {
        if let Some(c) = char::from_u32(u) {
            assert_eq!(is_white_space(c), c.is_whitespace(), "U+{:04X}", u);
        }
    }
    assert!(is_white_space('\u{85}'));
    assert!(!is_white_space('\u{200B}'));
    assert!(!is_white_space('x'));
}

#[test]
fn decimal_notation() {
    assert_eq!(decimal_string(0), "0");
    assert_eq!(decimal_string(7), "7");
    assert_eq!(decimal_string(2221), "2221");
    assert_eq!(decimal_string(1080), "1080");
    assert_eq!(decimal_string(u64::MAX), u64::MAX.to_string());
}

#[test]
fn utf8_decoding_accepts_only_valid_bytes() {
    assert_eq!(parse_env_var(b"abc"), Ok("abc".to_string()));
    assert_eq!(parse_env_var("é越".as_bytes()), Ok("é越".to_string()));
    assert!(parse_env_var(&[0x66, 0xff, 0x66]).is_err());
    assert!(parse_env_var(&[0xe8, 0xb6]).is_err());
    assert_eq!(parse_user_sid("S-1\n\u{e9}".as_bytes()), Some("\u{e9}".to_string()));
}

#[test]
fn utf16_lossy_decoding_replaces_lone_surrogates() {
    let mut units: Vec<u16> = "a😀b".encode_utf16().collect();
    units.push(0);
    let n = units.len() as u32;
    assert_eq!(user_name_from_buffer(true, &units, n), Some("a😀b".to_string()));
    assert_eq!(
        user_name_from_buffer(true, &[0x61, 0xD800, 0x62, 0], 4),
        Some("a\u{FFFD}b".to_string())
    );
    assert_eq!(user_name_from_buffer(true, &[0xDC00, 0], 2), Some("\u{FFFD}".to_string()));
    assert_eq!(user_name_from_buffer(true, &[0xD83D, 0xD83D, 0xDE00, 0], 4), Some("\u{FFFD}😀".to_string()));
}

#[test]
fn line_and_separator_search() {
    let v = char_vec("first\r\nsecond\nthird");
    assert_eq!(last_line_start(&v), 14);
    let v = char_vec("no newline");
    assert_eq!(last_line_start(&v), 0);
    let v = char_vec("DOM\\user\\x");
    assert_eq!(find_char(&v, '\\'), 3);
    assert_eq!(find_char(&v, '#'), v.len());
}

#[test]
fn substrings_and_concatenation_count_characters() {
    assert_eq!(substring("héllo", 1, 4), "éll");
    assert_eq!(concat2("a", "é"), "aé");
    assert_eq!(concat3("name='", "bob", "'"), "name='bob'");
}
