use clipse::text::{
    char_is_space, chars_of, contains, copy_text, join, parse_i32, parse_trimmed_i32, same_text,
    split, starts_with, trim,
};

#[test]
fn white_space_is_what_the_standard_library_calls_so() {
    for code in 0..=0x10ffffu32 {
        if let Some(c) = char::from_u32(code) {
            assert_eq!(char_is_space(c), c.is_whitespace(), "U+{:04X}", code);
        }
    }
}

#[test]
fn trim_takes_off_white_space_on_both_sides() {
    assert_eq!(trim("  4711\n"), "4711");
    assert_eq!(trim("\t a b \r\n"), "a b");
    assert_eq!(trim(""), "");
    assert_eq!(trim(" \n\t "), "");
    assert_eq!(trim("x"), "x");
}

#[test]
fn trim_knows_the_white_space_beyond_ascii() {
    assert_eq!(trim("\u{a0}\u{2003}tty\u{3000}\u{85}"), "tty");
    assert_eq!(trim("\u{1680}\u{2028}\u{2029}\u{202f}\u{205f}a"), "a");
    assert_eq!(trim("\u{200b}a\u{200b}"), "\u{200b}a\u{200b}");
}

#[test]
fn trim_agrees_with_the_standard_library() {
    let samples = [
        "", " ", "a", " a", "a ", "  a b  ", "\n\n", "\u{b}\u{c}x\u{1c}", "\u{2000}y\u{200a}",
        "\u{180e}z", "\u{feff}w",
    ];
    for s in samples {
        assert_eq!(trim(s), s.trim());
    }
}

#[test]
fn parse_i32_reads_signed_decimals() {
    assert_eq!(parse_i32("0"), Some(0));
    assert_eq!(parse_i32("42"), Some(42));
    assert_eq!(parse_i32("+5"), Some(5));
    assert_eq!(parse_i32("-17"), Some(-17));
    assert_eq!(parse_i32("-0"), Some(0));
    assert_eq!(parse_i32("007"), Some(7));
    assert_eq!(parse_i32("2147483647"), Some(i32::MAX));
    assert_eq!(parse_i32("-2147483648"), Some(i32::MIN));
}

#[test]
fn parse_i32_refuses_what_is_no_number() {
    assert_eq!(parse_i32(""), None);
    assert_eq!(parse_i32("-"), None);
    assert_eq!(parse_i32("+"), None);
    assert_eq!(parse_i32("12a"), None);
    assert_eq!(parse_i32("a12"), None);
    assert_eq!(parse_i32(" 12"), None);
    assert_eq!(parse_i32("1 2"), None);
    assert_eq!(parse_i32("--1"), None);
    assert_eq!(parse_i32("\u{661}"), None);
}

#[test]
fn parse_i32_refuses_what_is_out_of_range() {
    assert_eq!(parse_i32("2147483648"), None);
    assert_eq!(parse_i32("-2147483649"), None);
    assert_eq!(parse_i32("99999999999999999999999999"), None);
    assert_eq!(parse_i32("00000000000000000000000001"), Some(1));
}

#[test]
fn parse_i32_agrees_with_the_standard_library() {
    let samples = [
        "", "0", "-0", "+0", "1", "-1", "+", "-", "2147483647", "2147483648", "-2147483648",
        "-2147483649", "1e3", "0x10", "12 ", "٣",
    ];
    for s in samples {
        assert_eq!(parse_i32(s), s.parse::<i32>().ok());
    }
}

#[test]
fn parse_trimmed_i32_looks_past_white_space() {
    assert_eq!(parse_trimmed_i32(" 4711\n"), Some(4711));
    assert_eq!(parse_trimmed_i32("\t-3 "), Some(-3));
    assert_eq!(parse_trimmed_i32("4 7"), None);
    assert_eq!(parse_trimmed_i32("  "), None);
}

#[test]
fn split_keeps_empty_pieces() {
    assert_eq!(split("a+b", '+'), vec!["a", "b"]);
    assert_eq!(split("a+", '+'), vec!["a", ""]);
    assert_eq!(split("+a", '+'), vec!["", "a"]);
    assert_eq!(split("", '+'), vec![""]);
    assert_eq!(split("++", '+'), vec!["", "", ""]);
    assert_eq!(split("abc", '+'), vec!["abc"]);
}

#[test]
fn split_agrees_with_the_standard_library() {
    let samples = ["", "a", "a\nb", "\n", "a\n\nb\n", "1\n2\n3"];
    for s in samples {
        let expected: Vec<String> = s.split('\n').map(|p| p.to_string()).collect();
        assert_eq!(split(s, '\n'), expected);
    }
}

#[test]
fn starts_with_and_contains_find_their_pattern() {
    assert!(starts_with("/dev/ttys001", "/dev/"));
    assert!(!starts_with("ttys001", "/dev/"));
    assert!(!starts_with("/dev", "/dev/"));
    assert!(starts_with("abc", ""));
    assert!(starts_with("", ""));
    assert!(contains("/applications/ghostty.app", "ghostty"));
    assert!(contains("ghostty", "ghostty"));
    assert!(!contains("ghostt", "ghostty"));
    assert!(!contains("ghost ty", "ghostty"));
    assert!(contains("abc", ""));
    assert!(contains("", ""));
    assert!(contains("xxghostty", "ghostty"));
}

#[test]
fn texts_are_copied_joined_and_compared() {
    assert_eq!(copy_text("héllo"), "héllo");
    assert_eq!(join("/dev/", "ttys001"), "/dev/ttys001");
    assert_eq!(join("", ""), "");
    assert!(same_text("abc", "abc"));
    assert!(!same_text("abc", "abd"));
    assert!(!same_text("abc", "ab"));
    assert!(same_text("", ""));
    assert_eq!(chars_of("aé"), vec!['a', 'é']);
}
