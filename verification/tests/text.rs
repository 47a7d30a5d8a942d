use app_template::text::{char_is_whitespace, str_contains_char, str_is_blank};

#[test]
fn whitespace_is_what_the_standard_library_calls_whitespace() {
    let mut count = 0;
    for code in 0..=0x10FFFFu32 {
        if let Some(c) = char::from_u32(code) {
            assert_eq!(char_is_whitespace(c), c.is_whitespace(), "U+{code:04X}");
            if char_is_whitespace(c) {
                count += 1;
            }
        }
    }
    assert_eq!(count, 25);
}

#[test]
fn whitespace_on_chosen_characters() {
    for c in [' ', '\t', '\n', '\u{b}', '\u{c}', '\r', '\u{85}', '\u{a0}', '\u{1680}', '\u{2000}',
        '\u{200a}', '\u{2028}', '\u{2029}', '\u{202f}', '\u{205f}', '\u{3000}']
    {
        assert!(char_is_whitespace(c), "{c:?}");
    }
    for c in ['a', '@', '0', '\u{0}', '\u{8}', '\u{e}', '\u{1f}', '!', '\u{84}', '\u{86}',
        '\u{180e}', '\u{200b}', '\u{2060}', '\u{feff}', '\u{10ffff}']
    {
        assert!(!char_is_whitespace(c), "{c:?}");
    }
}

#[test]
fn blank_is_empty_after_trimming() {
    let samples = [
        "", " ", "  ", "\t\n", " a", "a ", " a ", "a", "\u{3000}", "\u{3000}x\u{3000}",
        "\u{200b}", " \u{a0}\u{2028} ", "John Doe", "   .   ",
    ];
    for s in samples {
        assert_eq!(str_is_blank(s), s.trim().is_empty(), "{s:?}");
    }
    assert!(str_is_blank(""));
    assert!(str_is_blank(" \t\r\n"));
    assert!(!str_is_blank(" x "));
}

#[test]
fn contains_finds_the_character_anywhere() {
    assert!(str_contains_char("@", '@'));
    assert!(str_contains_char("a@", '@'));
    assert!(str_contains_char("@a", '@'));
    assert!(str_contains_char("john@example.com", '@'));
    assert!(str_contains_char("\u{e9}@\u{e9}", '@'));
    assert!(!str_contains_char("", '@'));
    assert!(!str_contains_char("invalid-email", '@'));
    assert!(!str_contains_char("\u{ff20}", '@'));
    for s in ["", "abc", "a@b", "@@", "\u{1f600}@"] {
        for c in ['@', 'a', '\u{1f600}'] {
            assert_eq!(str_contains_char(s, c), s.contains(c), "{s:?} {c:?}");
        }
    }
}
