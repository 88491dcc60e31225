use vcs_modes::text::chars_of;
use vcs_modes::text::digit;
use vcs_modes::text::find_in;
use vcs_modes::text::lines;
use vcs_modes::text::matches_at_index;
use vcs_modes::text::parse_number;
use vcs_modes::text::push_chars;
use vcs_modes::text::push_decimal;
use vcs_modes::text::starts_with;
use vcs_modes::text::string_of;

fn decimal(n: u32) -> String {
    let mut out = String::new();
    push_decimal(&mut out, n);
    out
}

fn number(text: &str) -> Option<u32> {
    let chars = chars_of(text);
    parse_number(&chars, 0, chars.len())
}

#[test]
fn chars_of_keeps_every_character() {
    assert_eq!(chars_of(""), Vec::<char>::new());
    assert_eq!(chars_of("a\u{e9}\u{4e2d}"), vec!['a', '\u{e9}', '\u{4e2d}']);
}

#[test]
fn string_of_copies_the_range() {
    let chars = chars_of("h\u{e9}llo");
    assert_eq!(string_of(&chars, 0, 5), "h\u{e9}llo");
    assert_eq!(string_of(&chars, 1, 3), "\u{e9}l");
    assert_eq!(string_of(&chars, 2, 2), "");
}

#[test]
fn push_chars_appends() {
    let chars = chars_of("abcdef");
    let mut out = String::from("x");
    push_chars(&mut out, &chars, 2, 5);
    assert_eq!(out, "xcde");
}

#[test]
fn starts_with_compares_the_prefix() {
    let text = chars_of("diff --git a b");
    assert!(starts_with(&text, &chars_of("diff --git")));
    assert!(starts_with(&text, &chars_of("")));
    assert!(!starts_with(&text, &chars_of("diff --gix")));
    assert!(!starts_with(&chars_of("di"), &chars_of("diff")));
}

#[test]
fn matches_at_index_checks_bounds() {
    let text = chars_of("abcabc");
    assert!(matches_at_index(&text, &chars_of("bc"), 1));
    assert!(matches_at_index(&text, &chars_of("bc"), 4));
    assert!(!matches_at_index(&text, &chars_of("bc"), 5));
    assert!(!matches_at_index(&text, &chars_of("bc"), 7));
    assert!(matches_at_index(&text, &chars_of(""), 6));
}

#[test]
fn find_in_gives_the_first_occurrence() {
    let text = chars_of("a b/c b/d");
    assert_eq!(find_in(&text, &chars_of(" b/")), Some(1));
    assert_eq!(find_in(&text, &chars_of("b/d")), Some(6));
    assert_eq!(find_in(&text, &chars_of("x")), None);
    assert_eq!(find_in(&text, &chars_of("")), Some(0));
    assert_eq!(find_in(&chars_of(""), &chars_of("")), Some(0));
    assert_eq!(find_in(&chars_of("ab"), &chars_of("abc")), None);
    assert_eq!(find_in(&chars_of("aab"), &chars_of("ab")), Some(1));
}

#[test]
fn lines_split_at_line_feeds() {
    assert_eq!(lines(""), Vec::<String>::new());
    assert_eq!(lines("a"), vec!["a"]);
    assert_eq!(lines("a\n"), vec!["a"]);
    assert_eq!(lines("a\nb"), vec!["a", "b"]);
    assert_eq!(lines("a\n\nb\n"), vec!["a", "", "b"]);
    assert_eq!(lines("\n"), vec![""]);
    assert_eq!(lines("\n\n"), vec!["", ""]);
}

#[test]
fn lines_drop_a_carriage_return_before_a_line_feed_only() {
    assert_eq!(lines("a\r\nb\r\n"), vec!["a", "b"]);
    assert_eq!(lines("a\r"), vec!["a\r"]);
    assert_eq!(lines("a\rb\n"), vec!["a\rb"]);
    assert_eq!(lines("a\r\r\n"), vec!["a\r"]);
    assert_eq!(lines("\r\n"), vec![""]);
}

#[test]
fn lines_agree_with_the_standard_library() {
    for text in [
        "",
        "one",
        "one\ntwo",
        "one\r\ntwo\r\n",
        "\n\nx\n",
        "foo\nbar\n\r\nbaz\r",
        "\r",
        "a\u{e9}\nb",
    ] {
        let expected: Vec<String> = text.lines().map(String::from).collect();
        assert_eq!(lines(text), expected);
    }
}

#[test]
fn digit_values() {
    assert_eq!(digit('0'), Some(0));
    assert_eq!(digit('7'), Some(7));
    assert_eq!(digit('9'), Some(9));
    assert_eq!(digit('a'), None);
    assert_eq!(digit('/'), None);
    assert_eq!(digit(':'), None);
    assert_eq!(digit('\u{661}'), None);
}

#[test]
fn parse_number_reads_decimal_digits() {
    assert_eq!(number("0"), Some(0));
    assert_eq!(number("10"), Some(10));
    assert_eq!(number("0042"), Some(42));
    assert_eq!(number("+42"), Some(42));
    assert_eq!(number("4294967295"), Some(4294967295));
    assert_eq!(number("4294967296"), None);
    assert_eq!(number("4294967300"), None);
    assert_eq!(number("99999999999"), None);
    assert_eq!(number(""), None);
    assert_eq!(number("+"), None);
    assert_eq!(number("-1"), None);
    assert_eq!(number("1 "), None);
    assert_eq!(number(" 1"), None);
    assert_eq!(number("1+"), None);
    assert_eq!(number("++1"), None);
    assert_eq!(number("12a"), None);
}

#[test]
fn parse_number_agrees_with_the_standard_library() {
    for text in ["", "+", "0", "+0", "00", "17", "4294967295", "4294967296", "x", "1x", "-0"] {
        assert_eq!(number(text), text.parse::<u32>().ok());
    }
}

#[test]
fn parse_number_reads_a_range() {
    let chars = chars_of("ab123cd");
    assert_eq!(parse_number(&chars, 2, 5), Some(123));
    assert_eq!(parse_number(&chars, 2, 6), None);
    assert_eq!(parse_number(&chars, 3, 3), None);
}

#[test]
fn push_decimal_writes_base_ten() {
    assert_eq!(decimal(0), "0");
    assert_eq!(decimal(7), "7");
    assert_eq!(decimal(10), "10");
    assert_eq!(decimal(909), "909");
    assert_eq!(decimal(4294967295), "4294967295");
    let mut out = String::from("Line ");
    push_decimal(&mut out, 120);
    assert_eq!(out, "Line 120");
}

#[test]
fn decimal_and_parse_are_inverse() {
    for n in [0u32, 1, 9, 10, 11, 99, 100, 65535, 1000000, 4294967295] {
        assert_eq!(number(&decimal(n)), Some(n));
    }
}
