use s3_fileserver::text::{decimal_text, ends_with, parse_decimal, strip_prefix, trim_end};

#[test]
fn ends_with_looks_at_the_last_character() {
    assert!(ends_with("docs/", '/'));
    assert!(ends_with("/", '/'));
    assert!(!ends_with("docs", '/'));
    assert!(!ends_with("/docs", '/'));
    assert!(!ends_with("", '/'));
    assert!(ends_with("caf\u{e9}", '\u{e9}'));
}

#[test]
fn strip_prefix_removes_a_leading_prefix() {
    assert_eq!(strip_prefix("docs/a.txt", "docs/"), Some("a.txt"));
    assert_eq!(strip_prefix("docs/a.txt", ""), Some("docs/a.txt"));
    assert_eq!(strip_prefix("docs/", "docs/"), Some(""));
    assert_eq!(strip_prefix("", ""), Some(""));
}

#[test]
fn strip_prefix_refuses_what_does_not_start_with_the_prefix() {
    assert_eq!(strip_prefix("docs/a.txt", "other/"), None);
    assert_eq!(strip_prefix("doc", "docs/"), None);
    assert_eq!(strip_prefix("", "docs/"), None);
    assert_eq!(strip_prefix("a/docs/b", "docs/"), None);
    assert_eq!(strip_prefix("docs/a.txt", "docs/b"), None);
}

#[test]
fn strip_prefix_counts_characters_not_bytes() {
    assert_eq!(strip_prefix("\u{65e5}\u{672c}/\u{8a9e}.txt", "\u{65e5}\u{672c}/"), Some("\u{8a9e}.txt"));
    assert_eq!(strip_prefix("\u{e9}t\u{e9}/x", "\u{e9}"), Some("t\u{e9}/x"));
    assert_eq!(strip_prefix("\u{e9}t\u{e9}/x", "e"), None);
}

#[test]
fn trim_end_removes_every_trailing_delimiter() {
    assert_eq!(trim_end("sub/", '/'), "sub");
    assert_eq!(trim_end("sub///", '/'), "sub");
    assert_eq!(trim_end("sub", '/'), "sub");
    assert_eq!(trim_end("a/b/", '/'), "a/b");
    assert_eq!(trim_end("/a", '/'), "/a");
    assert_eq!(trim_end("///", '/'), "");
    assert_eq!(trim_end("", '/'), "");
    assert_eq!(trim_end("\u{8a9e}/", '/'), "\u{8a9e}");
}

#[test]
fn decimal_text_writes_numbers_without_leading_zeros() {
    assert_eq!(decimal_text(0), "0");
    assert_eq!(decimal_text(7), "7");
    assert_eq!(decimal_text(9), "9");
    assert_eq!(decimal_text(10), "10");
    assert_eq!(decimal_text(42), "42");
    assert_eq!(decimal_text(1000), "1000");
    assert_eq!(decimal_text(10000), "10000");
    assert_eq!(decimal_text(1234567890), "1234567890");
    assert_eq!(decimal_text(usize::MAX), usize::MAX.to_string());
}

#[test]
fn parse_decimal_reads_digits() {
    assert_eq!(parse_decimal("0"), Some(0));
    assert_eq!(parse_decimal("7"), Some(7));
    assert_eq!(parse_decimal("25"), Some(25));
    assert_eq!(parse_decimal("1000"), Some(1000));
    assert_eq!(parse_decimal("007"), Some(7));
    assert_eq!(parse_decimal("+5"), Some(5));
    assert_eq!(parse_decimal("+0"), Some(0));
}

#[test]
fn parse_decimal_refuses_anything_else() {
    assert_eq!(parse_decimal(""), None);
    assert_eq!(parse_decimal("+"), None);
    assert_eq!(parse_decimal("-5"), None);
    assert_eq!(parse_decimal("++5"), None);
    assert_eq!(parse_decimal("5+"), None);
    assert_eq!(parse_decimal(" 5"), None);
    assert_eq!(parse_decimal("5 "), None);
    assert_eq!(parse_decimal("1_000"), None);
    assert_eq!(parse_decimal("1.5"), None);
    assert_eq!(parse_decimal("0x10"), None);
    assert_eq!(parse_decimal("ten"), None);
    assert_eq!(parse_decimal("\u{0663}"), None);
}

#[test]
fn parse_decimal_stops_at_the_largest_usize() {
    assert_eq!(parse_decimal(&usize::MAX.to_string()), Some(usize::MAX));
    assert_eq!(parse_decimal(&format!("{}0", usize::MAX)), None);
    assert_eq!(parse_decimal(&format!("{}", usize::MAX as u128 + 1)), None);
    assert_eq!(parse_decimal("99999999999999999999999999999999999999999"), None);
    assert_eq!(parse_decimal(&format!("000{}", usize::MAX)), Some(usize::MAX));
}

#[test]
fn parse_decimal_agrees_with_the_standard_library() {
    for text in ["", "+", "0", "+12", "-1", "12a", "0012", "4294967295", "4294967296", "18446744073709551615", "18446744073709551616"] {
        assert_eq!(parse_decimal(text), text.parse::<usize>().ok());
    }
}

#[test]
fn parse_decimal_reads_back_what_decimal_text_writes() {
    for n in [0usize, 1, 9, 10, 11, 99, 100, 101, 3600, 10000, 65535, usize::MAX - 1, usize::MAX] {
        assert_eq!(parse_decimal(&decimal_text(n)), Some(n));
    }
}
