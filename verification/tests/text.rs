use md2bbcode::text::{
    append_hex, append_str, chars_of, ends_with, equals, is_whitespace, starts_with, string_of,
    trimmed, truncate_white_space,
};

fn chars(s: &str) -> Vec<char> {
    s.chars().collect()
}

#[test]
fn white_space_is_what_std_takes_for_it() {
    let mut n: u32 = 0;
    while n <= 0x10ffff {
        if let Some(c) = char::from_u32(n) {
            assert_eq!(is_whitespace(c), c.is_whitespace(), "U+{:x}", n);
        }
        n += 1;
    }
}

#[test]
fn trimming_is_what_std_does() {
    for s in ["", " ", "a", " a ", "\n\ta b\u{a0}\u{3000}", "\u{2028}x\u{85}", "a\u{200b}", "  \n "] {
        assert_eq!(string_of(&trimmed(&chars(s))), s.trim());
        let mut buf = chars(s);
        truncate_white_space(&mut buf);
        assert_eq!(string_of(&buf), s.trim_end());
    }
}

#[test]
fn chars_and_strings_convert_both_ways() {
    for s in ["", "abc", "\u{231c}x\u{231d}", "a\u{1f600}b"] {
        assert_eq!(chars_of(s), chars(s));
        assert_eq!(string_of(&chars(s)), s);
    }
}

#[test]
fn append_str_keeps_what_was_there() {
    let mut buf = chars("ab");
    append_str(&mut buf, "cd\u{e9}");
    assert_eq!(buf, chars("abcd\u{e9}"));
    append_str(&mut buf, "");
    assert_eq!(buf, chars("abcd\u{e9}"));
}

#[test]
fn prefixes_suffixes_and_equality() {
    let s = chars("<summary>x</summary>");
    assert!(starts_with(&s, "<summary"));
    assert!(starts_with(&s, ""));
    assert!(!starts_with(&s, "<summarx"));
    assert!(!starts_with(&chars("<su"), "<summary"));
    assert!(ends_with(&s, "</summary>"));
    assert!(ends_with(&s, ""));
    assert!(!ends_with(&s, "<summary>"));
    assert!(!ends_with(&chars("y>"), "</summary>"));
    assert!(equals(&chars("<b>"), "<b>"));
    assert!(!equals(&chars("<b>"), "<b"));
    assert!(!equals(&chars("<b"), "<b>"));
    assert!(!equals(&chars("<i>"), "<b>"));
    assert!(equals(&chars(""), ""));
}

#[test]
fn hexadecimal_numbers() {
    for (n, text) in [
        (0u32, "0"),
        (9, "9"),
        (10, "a"),
        (15, "f"),
        (16, "10"),
        (255, "ff"),
        (0xfffe, "fffe"),
        (0x1f600, "1f600"),
        (u32::MAX, "ffffffff"),
    ] {
        let mut buf = chars("U+");
        append_hex(&mut buf, n);
        assert_eq!(string_of(&buf), format!("U+{}", text));
        assert_eq!(text, format!("{:x}", n));
    }
}
