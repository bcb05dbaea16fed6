use windows_icons::text::{
    char_is_whitespace, chars_of, contains_chars, find, matches_at, parse_decimal_i32, trim_bounds,
};

fn chars(s: &str) -> Vec<char> {
    s.chars().collect()
}

fn trim_with_library(s: &str) -> String {
    let v = chars(s);
    let (from, to) = trim_bounds(&v);
    v[from..to].iter().collect()
}

fn parse_with_library(s: &str) -> Option<i32> {
    parse_decimal_i32(&chars(s))
}

#[test]
fn chars_of_gives_the_characters_in_order() {
    assert_eq!(chars_of("a<é>z"), vec!['a', '<', 'é', '>', 'z']);
    assert_eq!(chars_of(""), Vec::<char>::new());
}

#[test]
fn find_gives_the_first_of_several_occurrences() {
    assert_eq!(find(&chars("abcabc"), &chars("bc")), Some(1));
    assert_eq!(find(&chars("aaa"), &chars("aa")), Some(0));
    assert_eq!(find(&chars("abc"), &chars("abc")), Some(0));
    assert_eq!(find(&chars("xxabc"), &chars("abc")), Some(2));
}

#[test]
fn find_gives_none_where_there_is_no_occurrence() {
    assert_eq!(find(&chars("abc"), &chars("abd")), None);
    assert_eq!(find(&chars("ab"), &chars("abc")), None);
    assert_eq!(find(&chars(""), &chars("a")), None);
}

#[test]
fn find_of_the_empty_needle_is_the_start() {
    assert_eq!(find(&chars("abc"), &chars("")), Some(0));
    assert_eq!(find(&chars(""), &chars("")), Some(0));
}

#[test]
fn find_agrees_with_the_standard_library() {
    let hays = ["", "a", "ab", "aab", "abab", "<Logo>x</Logo>", "</Logo><Logo>", "ééa"];
    let needles = ["", "a", "b", "ab", "ba", "<Logo>", "</Logo>", "é"];
    for hay in hays {
        for needle in needles {
            let expected = hay.find(needle).map(|at| hay[..at].chars().count());
            assert_eq!(find(&chars(hay), &chars(needle)), expected);
            assert_eq!(contains_chars(&chars(hay), &chars(needle)), hay.contains(needle));
        }
    }
}

#[test]
fn matches_at_tests_one_position() {
    assert!(matches_at(&chars("abcabc"), &chars("bc"), 1));
    assert!(matches_at(&chars("abcabc"), &chars("bc"), 4));
    assert!(!matches_at(&chars("abcabc"), &chars("bc"), 0));
    assert!(!matches_at(&chars("abcabc"), &chars("bc"), 5));
    assert!(!matches_at(&chars("abcabc"), &chars("bc"), 100));
    assert!(matches_at(&chars("abc"), &chars(""), 3));
    assert!(!matches_at(&chars("abc"), &chars(""), 4));
}

#[test]
fn whitespace_is_the_unicode_property_for_every_character() {
    let mut code: u32 = 0;
    while code <= 0x10_FFFF {
        if let Some(c) = char::from_u32(code) {
            assert_eq!(char_is_whitespace(c), c.is_whitespace());
        }
        code += 1;
    }
}

#[test]
fn trim_takes_white_space_from_both_ends_only() {
    assert_eq!(trim_with_library("  a b \t\n"), "a b");
    assert_eq!(trim_with_library("a"), "a");
    assert_eq!(trim_with_library(""), "");
    assert_eq!(trim_with_library(" \u{3000}\u{a0} "), "");
    assert_eq!(trim_with_library("\u{2003}x\u{85}"), "x");
}

#[test]
fn trim_bounds_of_a_blank_text_are_empty() {
    let v = chars("   ");
    let (from, to) = trim_bounds(&v);
    assert_eq!(from, to);
    assert!(to <= v.len());
}

#[test]
fn trim_agrees_with_the_standard_library() {
    let samples = ["", " ", "a", " a", "a ", " a b ", "\t\r\n x \u{2028}", "\u{feff}a", "\u{200b}a "];
    for s in samples {
        assert_eq!(trim_with_library(s), s.trim());
    }
}

#[test]
fn parse_reads_signs_digits_and_the_limits() {
    assert_eq!(parse_with_library("0"), Some(0));
    assert_eq!(parse_with_library("16770"), Some(16770));
    assert_eq!(parse_with_library("+7"), Some(7));
    assert_eq!(parse_with_library("-7"), Some(-7));
    assert_eq!(parse_with_library("-0"), Some(0));
    assert_eq!(parse_with_library("0000000000000000012"), Some(12));
    assert_eq!(parse_with_library("2147483647"), Some(i32::MAX));
    assert_eq!(parse_with_library("-2147483648"), Some(i32::MIN));
}

#[test]
fn parse_refuses_what_is_no_number_of_32_bits() {
    assert_eq!(parse_with_library(""), None);
    assert_eq!(parse_with_library("+"), None);
    assert_eq!(parse_with_library("-"), None);
    assert_eq!(parse_with_library("2147483648"), None);
    assert_eq!(parse_with_library("-2147483649"), None);
    assert_eq!(parse_with_library("99999999999999999999999"), None);
    assert_eq!(parse_with_library("#16770"), None);
    assert_eq!(parse_with_library("12a"), None);
    assert_eq!(parse_with_library(" 12"), None);
    assert_eq!(parse_with_library("1_000"), None);
    assert_eq!(parse_with_library("--1"), None);
    assert_eq!(parse_with_library("１２"), None);
}

#[test]
fn parse_agrees_with_the_standard_library() {
    let samples = [
        "", "0", "-0", "+0", "1", "-1", "+1", "007", "2147483647", "2147483648", "-2147483648",
        "-2147483649", "4294967296", "+-1", "1-", "a", "1a", "0x10", " 1", "1 ", "٣",
        "21474836470", "-21474836480", "00000000002147483647",
    ];
    for s in samples {
        assert_eq!(parse_with_library(s), s.parse::<i32>().ok());
    }
}
