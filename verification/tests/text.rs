use media_inspector::decimal::{are_digits, char_is_digit, decimal_of};
use media_inspector::text::{
    char_is_whitespace, chars_of, contains_chars, find_char, remove_char, split_lines,
    str_contains, string_of, trim_chars,
};

fn chars(s: &str) -> Vec<char> {
    s.chars().collect()
}

fn lines(s: &str) -> Vec<String> {
    split_lines(&chars(s)).iter().map(|l| l.iter().collect()).collect()
}

#[test]
fn chars_and_back() {
    assert_eq!(chars_of("héllo"), vec!['h', 'é', 'l', 'l', 'o']);
    assert_eq!(string_of(&vec!['a', 'ß', 'c']), "aßc");
    assert_eq!(string_of(&chars_of("")), "");
}

#[test]
fn contains_finds_parts() {
    assert!(str_contains("1920x1080", "192"));
    assert!(str_contains("1920x1080", "1080"));
    assert!(str_contains("abc", ""));
    assert!(str_contains("", ""));
    assert!(!str_contains("", "a"));
    assert!(!str_contains("abc", "abcd"));
    assert!(!str_contains("abc", "ac"));
    assert!(str_contains("aab", "ab"));
    assert!(contains_chars(&chars("max_bit_rate"), &chars("bit_rate")));
    assert!(!contains_chars(&chars("bit_rate"), &chars("max_bit_rate")));
}

#[test]
fn contains_is_case_sensitive() {
    assert!(!str_contains("H264", "h264"));
}

#[test]
fn contains_agrees_with_std() {
    let hay = ["", "a", "ab", "aba", "abab", "bbaab", "h264 hevc", "xhapx"];
    let needles = ["", "a", "b", "ab", "ba", "aab", "hap", "hevc", "abc"];
    for h in hay {
        for n in needles {
            assert_eq!(str_contains(h, n), h.contains(n), "{:?} in {:?}", n, h);
        }
    }
}

#[test]
fn find_char_gives_first_index_or_length() {
    let s = chars("a:b:c");
    assert_eq!(find_char(&s, ':', 0), 1);
    assert_eq!(find_char(&s, ':', 1), 1);
    assert_eq!(find_char(&s, ':', 2), 3);
    assert_eq!(find_char(&s, ':', 4), 5);
    assert_eq!(find_char(&s, ',', 0), 5);
    assert_eq!(find_char(&s, 'a', 9), 5);
}

#[test]
fn lines_split_at_line_feeds() {
    assert_eq!(lines("a\nb"), vec!["a", "b"]);
    assert_eq!(lines("a\nb\n"), vec!["a", "b"]);
    assert_eq!(lines("a\n\nb"), vec!["a", "", "b"]);
    assert_eq!(lines("\n"), vec![""]);
    assert_eq!(lines(""), Vec::<String>::new());
    assert_eq!(lines("one"), vec!["one"]);
}

#[test]
fn lines_drop_carriage_return_before_line_feed_only() {
    assert_eq!(lines("a\r\nb\r\n"), vec!["a", "b"]);
    assert_eq!(lines("a\r"), vec!["a\r"]);
    assert_eq!(lines("a\rb\n"), vec!["a\rb"]);
    assert_eq!(lines("a\r\r\n"), vec!["a\r"]);
}

#[test]
fn lines_agree_with_std() {
    let texts = ["", "\n", "\r\n", "a", "a\n", "a\r\n", "a\nb", "\n\n", "a\r", "x\n\ry\r\n\nz"];
    for t in texts {
        let expected: Vec<String> = t.lines().map(|l| l.to_string()).collect();
        assert_eq!(lines(t), expected, "{:?}", t);
    }
}

#[test]
fn trim_takes_whitespace_from_both_ends() {
    assert_eq!(trim_chars(&chars("  a b \t\r\n")), chars("a b"));
    assert_eq!(trim_chars(&chars("   ")), chars(""));
    assert_eq!(trim_chars(&chars("")), chars(""));
    assert_eq!(trim_chars(&chars("x")), chars("x"));
    assert_eq!(trim_chars(&chars("\u{a0}\u{3000}x\u{2003}")), chars("x"));
}

#[test]
fn whitespace_agrees_with_std() {
    let mut n: u32 = 0;
    while n < 0x11000 {
        if let Some(c) = char::from_u32(n) {
            assert_eq!(char_is_whitespace(c), c.is_whitespace(), "U+{:04X}", n);
        }
        n += 1;
    }
}

#[test]
fn remove_char_takes_every_occurrence() {
    assert_eq!(remove_char(&chars("\"50\"0\""), '"'), chars("500"));
    assert_eq!(remove_char(&chars("abc"), '"'), chars("abc"));
    assert_eq!(remove_char(&chars("\"\""), '"'), chars(""));
}

#[test]
fn decimal_of_writes_numbers() {
    assert_eq!(decimal_of(0), chars("0"));
    assert_eq!(decimal_of(7), chars("7"));
    assert_eq!(decimal_of(10), chars("10"));
    assert_eq!(decimal_of(1905), chars("1905"));
    assert_eq!(decimal_of(u64::MAX), chars("18446744073709551615"));
}

#[test]
fn digits_are_recognised() {
    assert!(char_is_digit('0'));
    assert!(char_is_digit('9'));
    assert!(!char_is_digit('a'));
    assert!(!char_is_digit('/'));
    assert!(!char_is_digit(':'));
    assert!(!char_is_digit('٣'));
    assert!(are_digits(&chars("0123456789")));
    assert!(are_digits(&chars("")));
    assert!(!are_digits(&chars("12a")));
    assert!(!are_digits(&chars("-1")));
}
