use nexsock::text::{
    chars_of, concat_str, contains, find_char, i64_to_chars, is_blank, join_from, lines_of,
    parse_i64_chars, parse_usize_chars, split_by, starts_with, string_of, to_lowercase,
    trim_chars, u64_to_chars, words_of,
};

fn cs(s: &str) -> Vec<char> {
    s.chars().collect()
}

fn st(v: &[char]) -> String {
    v.iter().collect()
}

fn strs(v: &[Vec<char>]) -> Vec<String> {
    v.iter().map(|c| st(c)).collect()
}

#[test]
fn chars_round_trip() {
    let c = chars_of("héllo");
    assert_eq!(c, cs("héllo"));
    assert_eq!(string_of(&c), "héllo");
    assert_eq!(concat_str("ab", "cd"), "abcd");
}

#[test]
fn trimming_and_blank_text() {
    assert_eq!(st(&trim_chars(&cs("  a b \n"))), "a b");
    assert_eq!(st(&trim_chars(&cs("\t\n"))), "");
    assert!(is_blank(&cs(" \r\n\t")));
    assert!(!is_blank(&cs(" M file.rs")));
}

#[test]
fn lines_split_like_str_lines() {
    assert_eq!(strs(&lines_of(&cs("a\r\nb\n\nc"))), vec!["a", "b", "", "c"]);
    assert_eq!(strs(&lines_of(&cs("a\n"))), vec!["a"]);
    assert!(lines_of(&cs("")).is_empty());
}

#[test]
fn words_split_on_whitespace() {
    assert_eq!(strs(&words_of(&cs("  12\t 3 "))), vec!["12", "3"]);
    assert!(words_of(&cs("   ")).is_empty());
}

#[test]
fn split_and_join() {
    let parts = split_by(&cs("a--b--"), &cs("--"));
    assert_eq!(strs(&parts), vec!["a", "b", ""]);
    let joined = join_from(&vec![cs("x"), cs("y"), cs("z")], 1, &cs(", "));
    assert_eq!(st(&joined), "y, z");
}

#[test]
fn searching() {
    assert!(contains(&cs("a -> b"), &cs("->")));
    assert!(!contains(&cs("a - > b"), &cs("->")));
    assert!(starts_with(&cs("* main"), &cs("* ")));
    assert_eq!(find_char(&cs("KEY=a=b"), '='), Some(3));
    assert_eq!(find_char(&cs("KEY"), '='), None);
}

#[test]
fn decimal_formatting() {
    assert_eq!(st(&u64_to_chars(0)), "0");
    assert_eq!(st(&u64_to_chars(18446744073709551615)), "18446744073709551615");
    assert_eq!(st(&i64_to_chars(-120)), "-120");
    assert_eq!(st(&i64_to_chars(i64::MIN)), "-9223372036854775808");
}

#[test]
fn integer_parsing_matches_str_parse() {
    for s in ["42", "-7", "+5", "-9223372036854775808", "9223372036854775807", "0"] {
        assert_eq!(parse_i64_chars(&cs(s)), s.parse::<i64>().ok());
    }
    for s in ["9223372036854775808", "-9223372036854775809", "abc", "", "-", "+", " 1", "1 "] {
        assert_eq!(parse_i64_chars(&cs(s)), None);
    }
    assert_eq!(parse_usize_chars(&cs("+3")), Some(3));
    assert_eq!(parse_usize_chars(&cs("-3")), None);
    assert_eq!(parse_usize_chars(&cs("12x")), None);
}

#[test]
fn lowercase_uses_std() {
    assert_eq!(to_lowercase("ÄbC"), "äbc");
}
