use sgx_sdk_tools::gcc::{detect_gcc_version, parse_gcc_version, version_from_parts};
use sgx_sdk_tools::text::{
    chars_of, concat2, concat3, contains_text, first_line, is_white_space_char, parse_u32,
    push_string, push_text, replace_char, replace_text, split_char, split_text, split_words,
    str_eq, string_of, u32_to_decimal,
};

fn cs(s: &str) -> Vec<char> {
    s.chars().collect()
}

#[test]
fn chars_and_strings_convert_both_ways() {
    assert_eq!(chars_of("héllo"), vec!['h', 'é', 'l', 'l', 'o']);
    assert_eq!(string_of(&vec!['a', 'ß', 'c']), "aßc");
    assert_eq!(string_of(&Vec::new()), "");
}

#[test]
fn concatenation_and_equality() {
    assert_eq!(concat2("ab", "cd"), "abcd");
    assert_eq!(concat3("a", "", "c"), "ac");
    assert!(str_eq("abc", "abc"));
    assert!(!str_eq("abc", "abd"));
    assert!(!str_eq("abc", "ab"));
}

#[test]
fn parse_u32_accepts_what_from_str_accepts() {
    assert_eq!(parse_u32(&cs("0")), Some(0));
    assert_eq!(parse_u32(&cs("42")), Some(42));
    assert_eq!(parse_u32(&cs("+7")), Some(7));
    assert_eq!(parse_u32(&cs("007")), Some(7));
    assert_eq!(parse_u32(&cs("4294967295")), Some(u32::MAX));
}

#[test]
fn parse_u32_rejects_what_from_str_rejects() {
    assert_eq!(parse_u32(&cs("")), None);
    assert_eq!(parse_u32(&cs("+")), None);
    assert_eq!(parse_u32(&cs("-1")), None);
    assert_eq!(parse_u32(&cs("4294967296")), None);
    assert_eq!(parse_u32(&cs("0-1ubuntu1~20")), None);
    assert_eq!(parse_u32(&cs(" 1")), None);
}

#[test]
fn parse_u32_agrees_with_std_on_samples() {
    for s in ["1", "12a", "99999999999", "+0", "++1", "3", ""] {
        assert_eq!(parse_u32(&cs(s)), s.parse::<u32>().ok(), "input {s:?}");
    }
}

#[test]
fn split_keeps_empty_pieces() {
    assert_eq!(split_text("a:b::c", ':'), vec!["a", "b", "", "c"]);
    assert_eq!(split_text("", ':'), vec![""]);
    assert_eq!(split_text(":", ':'), vec!["", ""]);
    let parts = split_char(&cs("9.4.0"), '.');
    assert_eq!(parts, vec![cs("9"), cs("4"), cs("0")]);
}

#[test]
fn split_words_skips_runs_of_white_space() {
    let words = split_words(&cs("  gcc (GCC)\t13.2.1  "));
    assert_eq!(words, vec![cs("gcc"), cs("(GCC)"), cs("13.2.1")]);
    assert_eq!(split_words(&cs("   ")), Vec::<Vec<char>>::new());
    assert!(is_white_space_char('\u{3000}'));
    assert!(!is_white_space_char('x'));
}

#[test]
fn first_line_drops_line_ending() {
    assert_eq!(first_line(&cs("one\r\ntwo")), Some(cs("one")));
    assert_eq!(first_line(&cs("one\ntwo")), Some(cs("one")));
    assert_eq!(first_line(&cs("only")), Some(cs("only")));
    assert_eq!(first_line(&cs("\nsecond")), Some(cs("")));
    assert_eq!(first_line(&cs("")), None);
}

#[test]
fn decimal_notation() {
    assert_eq!(u32_to_decimal(0), "0");
    assert_eq!(u32_to_decimal(8), "8");
    assert_eq!(u32_to_decimal(13), "13");
    assert_eq!(u32_to_decimal(u32::MAX), "4294967295");
}

#[test]
fn replace_and_contains() {
    assert_eq!(replace_char("my-enclave-app", '-', '_'), "my_enclave_app");
    assert!(contains_text("unstable: json-target-spec", "json-target-spec"));
    assert!(!contains_text("json-target", "json-target-spec"));
    assert!(contains_text("abc", ""));
    assert_eq!(replace_text("aXbXc", "X", "--"), "a--b--c");
    assert_eq!(replace_text("aaa", "aa", "b"), "ba");
    assert_eq!(replace_text("{{A}}{{A}}", "{{A}}", ""), "");
}

#[test]
fn replace_empty_pattern_matches_every_boundary() {
    for (s, rep) in [("abc", "x"), ("", "-"), ("é", "<>"), ("ab", "")] {
        assert_eq!(replace_text(s, "", rep), s.replace("", rep), "input {s:?}");
    }
    assert_eq!(replace_text("ab", "", "-"), "-a-b-");
}

#[test]
fn push_helpers_append() {
    let mut v: Vec<String> = Vec::new();
    push_text(&mut v, "a");
    push_string(&mut v, "b".to_string());
    assert_eq!(v, vec!["a", "b"]);
}

#[test]
fn gcc_version_from_ubuntu_banner() {
    assert_eq!(
        parse_gcc_version("gcc (Ubuntu 9.4.0-1ubuntu1~20.04.1) 9.4.0\nCopyright (C) 2019"),
        Some((9, 4, 0))
    );
}

#[test]
fn gcc_version_from_plain_banner() {
    assert_eq!(parse_gcc_version("gcc (GCC) 13.2.1 20230801\n"), Some((13, 2, 1)));
    assert_eq!(parse_gcc_version("cc 8.1"), Some((8, 1, 0)));
    assert_eq!(parse_gcc_version("cc 8.1.x"), Some((8, 1, 0)));
}

#[test]
fn gcc_version_absent() {
    assert_eq!(parse_gcc_version(""), None);
    assert_eq!(parse_gcc_version("no version here\n1.2.3"), None);
    assert_eq!(parse_gcc_version("gcc 12"), None);
}

#[test]
fn gcc_version_from_bytes() {
    assert_eq!(detect_gcc_version(b"gcc (GCC) 11.4.0\n"), Some((11, 4, 0)));
    assert_eq!(detect_gcc_version(&[0x67, 0xff, 0x20, 0x31, 0x2e, 0x32]), None);
    assert_eq!(detect_gcc_version(b""), None);
}

#[test]
fn version_from_word_parts() {
    assert_eq!(version_from_parts(&vec![cs("10"), cs("2")]), Some((10, 2, 0)));
    assert_eq!(version_from_parts(&vec![cs("10")]), None);
    assert_eq!(version_from_parts(&vec![cs("x"), cs("2"), cs("3")]), None);
}
