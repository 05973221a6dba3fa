use cookbook_generator::number::{format_int, parse_i32};
use cookbook_generator::text::{
    chars_of, ends_with, is_space_char, join, precedes, same_text, starts_with, trim,
};

#[test]
fn trim_takes_white_space_off_both_ends() {
    assert_eq!(trim("  a b \t\r\n"), "a b");
    assert_eq!(trim("\u{3000}x\u{00a0}"), "x");
    assert_eq!(trim("   "), "");
    assert_eq!(trim(""), "");
    assert_eq!(trim("word"), "word");
}

#[test]
fn white_space_is_the_unicode_property() {
    assert!(is_space_char(' '));
    assert!(is_space_char('\n'));
    assert!(is_space_char('\u{2003}'));
    assert!(is_space_char('\u{0085}'));
    assert!(!is_space_char('a'));
    assert!(!is_space_char('\u{200b}'));
    assert!(!is_space_char('\u{001c}'));
}

#[test]
fn chars_of_gives_the_characters_in_order() {
    assert_eq!(chars_of("a\u{0e2a}b"), vec!['a', '\u{0e2a}', 'b']);
    assert_eq!(chars_of(""), Vec::<char>::new());
}

#[test]
fn precedes_is_the_lexicographic_order() {
    assert!(precedes("", ""));
    assert!(precedes("", "a"));
    assert!(!precedes("a", ""));
    assert!(precedes("00_preface.md", "01_intro.md"));
    assert!(!precedes("10_x.md", "02_y.md"));
    assert!(precedes("a", "ab"));
    assert!(!precedes("ab", "a"));
    assert!(precedes("same", "same"));
    assert!(precedes("Z", "a"));
}

#[test]
fn same_text_tells_equal_from_different() {
    assert!(same_text("abc", "abc"));
    assert!(same_text("", ""));
    assert!(!same_text("abc", "abd"));
    assert!(!same_text("abc", "ab"));
    assert!(!same_text("ab", "abc"));
}

#[test]
fn prefixes_and_suffixes() {
    assert!(starts_with("00_preface.md", "00"));
    assert!(!starts_with("10_preface.md", "00"));
    assert!(!starts_with("0", "00"));
    assert!(starts_with("x", ""));
    assert!(ends_with("a.md", ".md"));
    assert!(!ends_with("a.mdx", ".md"));
    assert!(!ends_with("md", ".md"));
}

#[test]
fn join_puts_the_separator_between_parts() {
    let parts = vec!["a".to_string(), "b".to_string(), "c".to_string()];
    assert_eq!(join(&parts, " "), "a b c");
    assert_eq!(join(&vec!["only".to_string()], ", "), "only");
    assert_eq!(join(&Vec::<String>::new(), ", "), "");
    assert_eq!(join(&vec!["".to_string(), "".to_string()], "-"), "-");
}

#[test]
fn parse_i32_reads_signed_decimals() {
    assert_eq!(parse_i32("0"), Some(0));
    assert_eq!(parse_i32("42"), Some(42));
    assert_eq!(parse_i32("+7"), Some(7));
    assert_eq!(parse_i32("-7"), Some(-7));
    assert_eq!(parse_i32("007"), Some(7));
    assert_eq!(parse_i32("2147483647"), Some(i32::MAX));
    assert_eq!(parse_i32("-2147483648"), Some(i32::MIN));
    assert_eq!(parse_i32("0000000000000000000012"), Some(12));
}

#[test]
fn parse_i32_refuses_what_is_no_number() {
    assert_eq!(parse_i32(""), None);
    assert_eq!(parse_i32("+"), None);
    assert_eq!(parse_i32("-"), None);
    assert_eq!(parse_i32("--1"), None);
    assert_eq!(parse_i32("1 "), None);
    assert_eq!(parse_i32(" 1"), None);
    assert_eq!(parse_i32("12a"), None);
    assert_eq!(parse_i32("1.5"), None);
    assert_eq!(parse_i32("2147483648"), None);
    assert_eq!(parse_i32("-2147483649"), None);
    assert_eq!(parse_i32("99999999999999999999999"), None);
    assert_eq!(parse_i32("\u{0663}"), None);
}

#[test]
fn parse_i32_agrees_with_the_standard_parser() {
    let samples = vec![
        "", "0", "-0", "+0", "12", "-12", "+12", "1e3", "0x10", "2147483647", "2147483648",
        "-2147483648", "-2147483649", "+-1", "1-", "١٢",
    ];
    for sample in samples {
        assert_eq!(parse_i32(sample), sample.parse::<i32>().ok());
    }
}

#[test]
fn format_int_writes_decimals() {
    assert_eq!(format_int(0), "0");
    assert_eq!(format_int(7), "7");
    assert_eq!(format_int(10), "10");
    assert_eq!(format_int(-1), "-1");
    assert_eq!(format_int(2147483647), "2147483647");
    assert_eq!(format_int(-2147483649), "-2147483649");
    assert_eq!(format_int(i64::MAX), i64::MAX.to_string());
    assert_eq!(format_int(i64::MIN), i64::MIN.to_string());
}

#[test]
fn reading_what_was_written_gives_the_number_back() {
    let numbers: Vec<i32> = vec![0, 1, -1, 9, 10, 99, 100, 12345, -98765, i32::MAX, i32::MIN];
    for n in numbers {
        assert_eq!(parse_i32(&format_int(n as i64)), Some(n));
    }
}
