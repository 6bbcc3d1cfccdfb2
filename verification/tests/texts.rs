use fedquery::text::{
    blank, chars_of, has_prefix, has_suffix, join, lower, names_match, replace_char, same_text, tail_from, whitespace,
};

#[test]
fn joining() {
    assert_eq!(join(&vec![], ","), "");
    assert_eq!(join(&vec!["a".to_string()], ","), "a");
    assert_eq!(join(&vec!["a".to_string(), "".to_string(), "c".to_string()], ", "), "a, , c");
}

#[test]
fn replacing() {
    assert_eq!(replace_char("it's", '\'', "''"), "it''s");
    assert_eq!(replace_char("\"\"", '"', "\\\""), "\\\"\\\"");
    assert_eq!(replace_char("plain", 'x', "y"), "plain");
    assert_eq!(replace_char("aaa", 'a', ""), "");
}

#[test]
fn blank_texts() {
    assert!(blank(""));
    assert!(blank(" \t\r\n"));
    assert!(blank("\u{a0}\u{2003}\u{3000}"));
    assert!(!blank(" x "));
    assert!(!blank("\u{200b}"));
    for c in ['\u{9}', '\u{d}', ' ', '\u{85}', '\u{1680}', '\u{2028}', '\u{202f}', '\u{205f}', 'a', '\u{8}', '\u{e}', '\u{200b}', '\u{180e}'] {
        assert_eq!(whitespace(c), c.is_whitespace(), "{:?}", c);
    }
    for s in ["", "  ", " a", "\n\t", "\u{feff}"] {
        assert_eq!(blank(s), s.trim().is_empty(), "{:?}", s);
    }
}

#[test]
fn prefixes_and_suffixes() {
    let s: Vec<char> = "stdin:orders".chars().collect();
    assert!(has_prefix(&s, &"stdin:".chars().collect()));
    assert!(!has_prefix(&s, &"stdout".chars().collect()));
    assert!(has_prefix(&s, &vec![]));
    assert!(!has_prefix(&"std".chars().collect(), &"stdin".chars().collect()));
    assert!(has_suffix(&s, &"orders".chars().collect()));
    assert!(!has_suffix(&s, &"order".chars().collect()));
    assert_eq!(tail_from(&s, 6), "orders".chars().collect::<Vec<char>>());
    assert_eq!(tail_from(&s, 12), Vec::<char>::new());
    assert_eq!(chars_of("héllo"), vec!['h', 'é', 'l', 'l', 'o']);
    assert!(same_text("a", "a"));
    assert!(!same_text("a", "b"));
    assert!(!same_text("a", "ab"));
}

#[test]
fn names_ignore_ascii_case() {
    assert!(names_match("People", "pEOPLE"));
    assert!(names_match("", ""));
    assert!(!names_match("people", "peopl"));
    assert!(!names_match("ÄB", "äb"));
    assert!(names_match("Äb", "ÄB"));
    assert!(!names_match("a_b", "a-b"));
    for c in ['A', 'Z', 'a', 'z', '@', '[', '0', 'É'] {
        assert_eq!(lower(c), c.to_ascii_lowercase(), "{:?}", c);
    }
    for (a, b) in [("Tab", "tAB"), ("x", "y"), ("İ", "i")] {
        assert_eq!(names_match(a, b), a.eq_ignore_ascii_case(b));
    }
}
