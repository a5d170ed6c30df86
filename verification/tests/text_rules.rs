use admin_portal::text::{
    chars_of, contains, decimal_string, is_white_space, lines, parse_u32, signed_decimal_string, starts_with,
    substring, to_opt, trim, words,
};

fn strings(v: &[&str]) -> Vec<String> {
    v.iter().map(|s| s.to_string()).collect()
}

#[test]
fn trim_removes_unicode_white_space_at_both_ends() {
    assert_eq!(trim("  a b \t\n"), "a b");
    assert_eq!(trim("\u{3000}x\u{a0}"), "x");
    assert_eq!(trim(" \r\n "), "");
    assert_eq!(trim(""), "");
    assert_eq!(trim("abc"), "abc");
}

#[test]
fn trim_agrees_with_str_trim_on_every_char() {
    for c in (0u32..=0x10FFFF).filter_map(char::from_u32) {
        let s = format!("{c}a{c}");
        assert_eq!(trim(&s), s.trim(), "char U+{:04X}", c as u32);
    }
}

#[test]
fn white_space_is_what_char_reports() {
    for c in (0u32..=0x10FFFF).filter_map(char::from_u32) {
        assert_eq!(is_white_space(c), c.is_whitespace(), "char U+{:04X}", c as u32);
    }
}

#[test]
fn trim_twice_is_trim_once() {
    for s in ["  x ", "\t\ty\u{2003}", "", "   ", "a  b"] {
        let once = trim(s);
        assert_eq!(trim(&once), once);
    }
}

#[test]
fn to_opt_drops_blank_fields() {
    assert_eq!(to_opt("   ".to_string()), None);
    assert_eq!(to_opt(String::new()), None);
    assert_eq!(to_opt("  /bin/bash ".to_string()), Some("/bin/bash".to_string()));
}

#[test]
fn parse_u32_follows_from_str() {
    assert_eq!(parse_u32("1001"), Some(1001));
    assert_eq!(parse_u32("+12"), Some(12));
    assert_eq!(parse_u32("007"), Some(7));
    assert_eq!(parse_u32("4294967295"), Some(u32::MAX));
    assert_eq!(parse_u32("4294967296"), None);
    assert_eq!(parse_u32("99999999999999999999"), None);
    assert_eq!(parse_u32(""), None);
    assert_eq!(parse_u32("+"), None);
    assert_eq!(parse_u32("-1"), None);
    assert_eq!(parse_u32("-0"), None);
    assert_eq!(parse_u32(" 5"), None);
    assert_eq!(parse_u32("12a"), None);
    for s in ["0", "+0", "42", "x", "1e3"] {
        assert_eq!(parse_u32(s), s.parse::<u32>().ok());
    }
}

#[test]
fn decimal_text_matches_display() {
    for n in [0u64, 7, 10, 365, 1001, u32::MAX as u64, u64::MAX] {
        assert_eq!(decimal_string(n), n.to_string());
    }
    for i in [0i32, -1, 127, i32::MIN, i32::MAX] {
        assert_eq!(signed_decimal_string(i), i.to_string());
    }
}

#[test]
fn printed_numbers_read_back() {
    for n in [0u32, 1, 65534, 1_000_000, u32::MAX] {
        assert_eq!(parse_u32(&decimal_string(n as u64)), Some(n));
    }
}

#[test]
fn contains_and_starts_with_find_substrings() {
    assert!(contains("Unable to load left_ptr", "Unable to load"));
    assert!(contains("abc", ""));
    assert!(!contains("ab", "abc"));
    assert!(!contains("Curs", "Cursor"));
    assert!(starts_with("Uid:\t0", "Uid:"));
    assert!(!starts_with("Gid:\t0", "Uid:"));
    assert!(!starts_with("Ui", "Uid:"));
}

#[test]
fn lines_split_like_str_lines() {
    for s in ["a\nb", "a\r\nb\r\n", "a\n\nb\n", "", "\n", "x\r", "a\rb\nc"] {
        let expected: Vec<String> = s.lines().map(|l| l.to_string()).collect();
        assert_eq!(lines(s), expected, "text {:?}", s);
    }
}

#[test]
fn words_split_like_split_whitespace() {
    for s in ["Uid:\t1000\t1000\t1000\t1000", "  a  b ", "", "   ", "one"] {
        let expected: Vec<String> = s.split_whitespace().map(|w| w.to_string()).collect();
        assert_eq!(words(s), expected, "text {:?}", s);
    }
    assert_eq!(words(" x\u{2028}y "), strings(&["x", "y"]));
}

#[test]
fn chars_and_substrings() {
    let v = chars_of("héllo");
    assert_eq!(v, vec!['h', 'é', 'l', 'l', 'o']);
    assert_eq!(substring(&v, 1, 3), "él");
    assert_eq!(substring(&v, 2, 2), "");
}
