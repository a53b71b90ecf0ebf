use claude_cli::digits::u64_to_dec;
use claude_cli::text::char_is_whitespace;
use claude_cli::text::trim_str;

#[test]
fn test_trim_surrounding_whitespace() {
    assert_eq!(trim_str("  Hello world  \n"), "Hello world".to_string());
}

#[test]
fn test_trim_empty_and_blank() {
    assert_eq!(trim_str(""), "".to_string());
    assert_eq!(trim_str(" \t\r\n"), "".to_string());
}

#[test]
fn test_trim_keeps_interior_whitespace() {
    assert_eq!(trim_str(" a b "), "a b".to_string());
    assert_eq!(trim_str("abc"), "abc".to_string());
}

#[test]
fn test_trim_unicode_whitespace() {
    assert_eq!(trim_str("\u{00A0}\u{2003}abc\u{3000}"), "abc".to_string());
}

#[test]
fn test_trim_keeps_non_whitespace_controls() {
    assert_eq!(trim_str("\u{200B}x\u{200B}"), "\u{200B}x\u{200B}".to_string());
}

#[test]
fn test_char_is_whitespace_matches_unicode_property() {
    assert!(char_is_whitespace(' '));
    assert!(char_is_whitespace('\t'));
    assert!(char_is_whitespace('\n'));
    assert!(char_is_whitespace('\u{2028}'));
    assert!(char_is_whitespace('\u{202F}'));
    assert!(!char_is_whitespace('a'));
    assert!(!char_is_whitespace('\u{200B}'));
    assert!(!char_is_whitespace('\u{0}'));
}

#[test]
fn test_u64_to_dec_small_values() {
    assert_eq!(u64_to_dec(0), "0".to_string());
    assert_eq!(u64_to_dec(7), "7".to_string());
    assert_eq!(u64_to_dec(30), "30".to_string());
}

#[test]
fn test_u64_to_dec_larger_values() {
    assert_eq!(u64_to_dec(100), "100".to_string());
    assert_eq!(u64_to_dec(12345), "12345".to_string());
    assert_eq!(u64_to_dec(u64::MAX), "18446744073709551615".to_string());
}
