use regnotes::text::{char_is_whitespace, chars_of, same_text, strip_prefix, trim};

#[test]
fn whitespace_agrees_with_std_on_every_char() {
    let mut code: u32 = 0;
    while code <= 0x10ffff {
        if let Some(c) = char::from_u32(code) {
            assert_eq!(char_is_whitespace(c), c.is_whitespace(), "U+{:04X}", code);
        }
        code += 1;
    }
}

#[test]
fn whitespace_on_named_characters() {
    assert!(char_is_whitespace(' '));
    assert!(char_is_whitespace('\t'));
    assert!(char_is_whitespace('\n'));
    assert!(char_is_whitespace('\r'));
    assert!(char_is_whitespace('\u{0b}'));
    assert!(char_is_whitespace('\u{0c}'));
    assert!(char_is_whitespace('\u{85}'));
    assert!(char_is_whitespace('\u{a0}'));
    assert!(char_is_whitespace('\u{3000}'));
    assert!(!char_is_whitespace('a'));
    assert!(!char_is_whitespace('\u{08}'));
    assert!(!char_is_whitespace('\u{0e}'));
    assert!(!char_is_whitespace('\u{200b}'));
    assert!(!char_is_whitespace('\u{180e}'));
}

#[test]
fn trim_removes_both_ends_only() {
    assert_eq!(trim("  arg1  "), "arg1");
    assert_eq!(trim("\t a b \n"), "a b");
    assert_eq!(trim("a"), "a");
    assert_eq!(trim(" a"), "a");
    assert_eq!(trim("a "), "a");
}

#[test]
fn trim_of_blank_text_is_empty() {
    assert_eq!(trim(""), "");
    assert_eq!(trim(" "), "");
    assert_eq!(trim(" \t\r\n "), "");
}

#[test]
fn trim_keeps_text_without_whitespace() {
    assert_eq!(trim("arg1"), "arg1");
    assert_eq!(trim("RAX : x"), "RAX : x");
}

#[test]
fn trim_handles_wide_characters() {
    assert_eq!(trim("\u{3000}\u{e9}t\u{e9}\u{a0}"), "\u{e9}t\u{e9}");
    assert_eq!(trim(" \u{1f600} "), "\u{1f600}");
    assert_eq!(trim("\u{200b}x\u{200b}"), "\u{200b}x\u{200b}");
}

#[test]
fn trim_agrees_with_std() {
    let samples = [
        "",
        " ",
        "x",
        "  x  y  ",
        "\n\nline\r\n",
        "\u{2003}wide\u{2009}",
        "\u{feff}bom ",
        " \u{85}next\u{85} ",
        "tab\there",
    ];
    for s in samples {
        assert_eq!(trim(s), s.trim(), "{:?}", s);
    }
}

#[test]
fn trim_twice_is_trim_once() {
    let samples = ["  a  ", " \t", "b", "  c d\n"];
    for s in samples {
        assert_eq!(trim(trim(s)), trim(s));
    }
}

#[test]
fn chars_of_lists_every_character() {
    assert_eq!(chars_of(""), Vec::<char>::new());
    assert_eq!(chars_of("R8"), vec!['R', '8']);
    assert_eq!(chars_of("a\u{e9}\u{1f600}"), vec!['a', '\u{e9}', '\u{1f600}']);
}

#[test]
fn same_text_compares_whole_strings() {
    assert!(same_text("", ""));
    assert!(same_text("clear", "clear"));
    assert!(!same_text("clear", "Clear"));
    assert!(!same_text("clear", "clea"));
    assert!(!same_text("clea", "clear"));
    assert!(!same_text("dump", "dumq"));
    assert!(same_text("\u{e9}", "\u{e9}"));
    assert!(!same_text("\u{e9}", "e"));
}

#[test]
fn strip_prefix_returns_what_follows() {
    assert_eq!(strip_prefix("end main", "end "), Some("main"));
    assert_eq!(strip_prefix("end ", "end "), Some(""));
    assert_eq!(strip_prefix("end  two", "end "), Some(" two"));
    assert_eq!(strip_prefix("anything", ""), Some("anything"));
    assert_eq!(strip_prefix("", ""), Some(""));
}

#[test]
fn strip_prefix_refuses_other_starts() {
    assert_eq!(strip_prefix("end", "end "), None);
    assert_eq!(strip_prefix("End main", "end "), None);
    assert_eq!(strip_prefix(" end main", "end "), None);
    assert_eq!(strip_prefix("", "end "), None);
    assert_eq!(strip_prefix("loa", "load "), None);
}

#[test]
fn strip_prefix_counts_characters_not_bytes() {
    assert_eq!(strip_prefix("\u{e9}t\u{e9}", "\u{e9}"), Some("t\u{e9}"));
    assert_eq!(strip_prefix("about \u{e9}", "about "), Some("\u{e9}"));
}

#[test]
fn strip_prefix_agrees_with_std() {
    let cases = [
        ("end main", "end "),
        ("load x", "load "),
        ("about rsp", "about "),
        ("abou", "about "),
        ("", "x"),
        ("x", ""),
        ("\u{1f600}a", "\u{1f600}"),
    ];
    for (s, p) in cases {
        assert_eq!(strip_prefix(s, p), s.strip_prefix(p), "{:?} {:?}", s, p);
    }
}
