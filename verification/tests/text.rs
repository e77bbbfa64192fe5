use tinydiff::text::{
    chars_of, contains_nul, decimal_string, has_dot_dot, split_lines, str_eq, string_from_chars,
    trim_end, trim_trailing_newlines,
};

fn std_lines(text: &str) -> Vec<String> {
    text.lines().map(String::from).collect()
}

#[test]
fn split_lines_of_plain_text() {
    assert_eq!(split_lines("alpha\nbeta\ngamma"), vec!["alpha", "beta", "gamma"]);
}

#[test]
fn split_lines_ignores_final_line_ending() {
    assert_eq!(split_lines("a\nb\n"), vec!["a", "b"]);
    assert_eq!(split_lines("a\nb"), vec!["a", "b"]);
}

#[test]
fn split_lines_of_empty_text_is_empty() {
    assert!(split_lines("").is_empty());
}

#[test]
fn split_lines_keeps_empty_lines() {
    assert_eq!(split_lines("\n"), vec![""]);
    assert_eq!(split_lines("a\n\nb"), vec!["a", "", "b"]);
    assert_eq!(split_lines("\n\n"), vec!["", ""]);
}

#[test]
fn split_lines_strips_carriage_return_before_line_feed_only() {
    assert_eq!(split_lines("a\r\nb\r\n"), vec!["a", "b"]);
    assert_eq!(split_lines("a\r"), vec!["a\r"]);
    assert_eq!(split_lines("a\r\r\n"), vec!["a\r"]);
    assert_eq!(split_lines("a\rb\n"), vec!["a\rb"]);
    assert_eq!(split_lines("\r\n"), vec![""]);
}

#[test]
fn split_lines_agrees_with_std_lines() {
    let samples = [
        "",
        "\n",
        "\r",
        "\r\n",
        "one",
        "one\n",
        "one\r\n",
        "one\ntwo",
        "one\r\ntwo\r",
        "one\n\n\ntwo\n",
        "\n\none",
        "trailing\r\r\n",
        "caf\u{e9}\nna\u{ef}ve\r\n\u{1F600}",
        "tab\there\n  spaces  \n",
    ];
    for sample in samples {
        assert_eq!(split_lines(sample), std_lines(sample), "for {:?}", sample);
    }
}

#[test]
fn chars_of_gives_every_character() {
    assert_eq!(chars_of("a\u{e9}\u{1F600}"), vec!['a', '\u{e9}', '\u{1F600}']);
    assert!(chars_of("").is_empty());
}

#[test]
fn string_from_chars_takes_the_range() {
    let chars = vec!['h', 'e', 'l', 'l', 'o'];
    assert_eq!(string_from_chars(&chars, 1, 4), "ell");
    assert_eq!(string_from_chars(&chars, 0, 5), "hello");
    assert_eq!(string_from_chars(&chars, 2, 2), "");
}

#[test]
fn str_eq_compares_text() {
    assert!(str_eq("", ""));
    assert!(str_eq("abc", "abc"));
    assert!(!str_eq("abc", "abd"));
    assert!(!str_eq("abc", "ab"));
    assert!(str_eq("caf\u{e9}", "caf\u{e9}"));
    assert!(!str_eq("cafe", "caf\u{e9}"));
}

#[test]
fn has_dot_dot_finds_two_dots_in_a_row() {
    assert!(has_dot_dot(&chars_of("..")));
    assert!(has_dot_dot(&chars_of("a/../b")));
    assert!(has_dot_dot(&chars_of("a..b")));
    assert!(has_dot_dot(&chars_of("trailing..")));
    assert!(!has_dot_dot(&chars_of("")));
    assert!(!has_dot_dot(&chars_of(".")));
    assert!(!has_dot_dot(&chars_of("a.b.c")));
    assert!(!has_dot_dot(&chars_of("./a/./b")));
}

#[test]
fn contains_nul_finds_a_nul_byte() {
    assert!(contains_nul(&[0]));
    assert!(contains_nul(&[1, 2, 0, 3]));
    assert!(!contains_nul(&[]));
    assert!(!contains_nul(&[1, 2, 3]));
}

#[test]
fn trim_trailing_newlines_removes_line_feeds_only() {
    assert_eq!(trim_trailing_newlines("line\n"), "line");
    assert_eq!(trim_trailing_newlines("line\n\n\n"), "line");
    assert_eq!(trim_trailing_newlines("line"), "line");
    assert_eq!(trim_trailing_newlines("line\r\n"), "line\r");
    assert_eq!(trim_trailing_newlines("a\nb\n"), "a\nb");
    assert_eq!(trim_trailing_newlines("\n"), "");
    assert_eq!(trim_trailing_newlines(""), "");
    assert_eq!(trim_trailing_newlines("line \n"), "line ");
}

#[test]
fn trim_end_removes_trailing_white_space() {
    assert_eq!(trim_end("@@ -1,3 +1,3 @@ fn main() \n"), "@@ -1,3 +1,3 @@ fn main()");
    assert_eq!(trim_end("text \t\r\n"), "text");
    assert_eq!(trim_end("  lead"), "  lead");
    assert_eq!(trim_end("   "), "");
    assert_eq!(trim_end(""), "");
    assert_eq!(trim_end("wide\u{3000}"), "wide");
}

#[test]
fn trim_end_agrees_with_std() {
    let samples = ["", " ", "a ", " a", "a\u{a0}", "a\u{2028}\n", "x\u{200b}", "tab\t\t"];
    for sample in samples {
        assert_eq!(trim_end(sample), sample.trim_end(), "for {:?}", sample);
    }
}

#[test]
fn decimal_string_writes_digits() {
    assert_eq!(decimal_string(0), "0");
    assert_eq!(decimal_string(7), "7");
    assert_eq!(decimal_string(10), "10");
    assert_eq!(decimal_string(52_428_800), "52428800");
    assert_eq!(decimal_string(1_234_567_890), "1234567890");
    assert_eq!(decimal_string(u64::MAX), "18446744073709551615");
}
