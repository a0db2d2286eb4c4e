use search_forwarder::whitespace::{is_whitespace_char, trim};

#[test]
fn white_space_is_what_unicode_says() {
    let mut code: u32 = 0;
    while code <= 0x10FFFF {
        if let Some(c) = char::from_u32(code) {
            assert_eq!(is_whitespace_char(c), c.is_whitespace(), "U+{:04X}", code);
        }
        code += 1;
    }
}

#[test]
fn white_space_characters_by_name() {
    for c in [' ', '\t', '\n', '\u{0B}', '\u{0C}', '\r', '\u{85}', '\u{A0}', '\u{1680}',
        '\u{2000}', '\u{200A}', '\u{2028}', '\u{2029}', '\u{202F}', '\u{205F}', '\u{3000}']
    {
        assert!(is_whitespace_char(c), "{:?}", c);
    }
    for c in ['a', '0', '_', '\u{08}', '\u{0E}', '\u{1F}', '\u{200B}', '\u{180E}', '\u{FEFF}',
        '\u{2060}', '越']
    {
        assert!(!is_whitespace_char(c), "{:?}", c);
    }
}

#[test]
fn trim_removes_white_space_at_both_ends() {
    assert_eq!(trim("  hello  "), "hello");
    assert_eq!(trim("hello  "), "hello");
    assert_eq!(trim("  hello"), "hello");
    assert_eq!(trim("\t\n rust search \r\n"), "rust search");
}

#[test]
fn trim_keeps_white_space_inside() {
    assert_eq!(trim(" a  b\tc "), "a  b\tc");
}

#[test]
fn trim_leaves_trimmed_text_alone() {
    assert_eq!(trim("hello"), "hello");
    assert_eq!(trim("x"), "x");
}

#[test]
fn trim_of_blank_text_is_empty() {
    assert_eq!(trim(""), "");
    assert_eq!(trim(" "), "");
    assert_eq!(trim("   "), "");
    assert_eq!(trim("\t\r\n\u{3000}"), "");
}

#[test]
fn trim_of_one_character_between_white_space() {
    assert_eq!(trim(" x "), "x");
    assert_eq!(trim("\u{A0}x\u{2003}"), "x");
}

#[test]
fn trim_knows_white_space_beyond_ascii() {
    assert_eq!(trim("\u{3000}検索 エンジン\u{2028}"), "検索 エンジン");
    assert_eq!(trim("\u{85}é\u{1680}"), "é");
}

#[test]
fn trim_keeps_what_only_looks_like_white_space() {
    assert_eq!(trim("\u{200B}a\u{200B}"), "\u{200B}a\u{200B}");
    assert_eq!(trim(" \u{FEFF}a "), "\u{FEFF}a");
}

#[test]
fn trim_agrees_with_the_standard_library() {
    let samples = [
        "",
        " ",
        "a",
        " a",
        "a ",
        " a ",
        "  two words  ",
        "\n\nline\n\n",
        "\u{2009}thin\u{2009}",
        "tab\tinside",
        "\u{1F600} ",
        " \u{1F600}",
        "   \u{0B}\u{0C}  ",
        "a\u{A0}",
        "\u{A0}\u{A0}b c\u{A0}\u{A0}",
    ];
    for s in samples {
        assert_eq!(trim(s), s.trim(), "{:?}", s);
    }
}

#[test]
fn trim_twice_is_trim_once() {
    for s in ["  a b  ", "", "   ", "x", "\t x\u{3000}y \n"] {
        assert_eq!(trim(trim(s)), trim(s), "{:?}", s);
    }
}
