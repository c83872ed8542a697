use chat_gateway::chars::{char_is_whitespace, trim};

#[test]
fn whitespace_is_what_the_standard_library_calls_whitespace() {
    let mut code: u32 = 0;
    while code <= 0x10FFFF {
        if let Some(c) = char::from_u32(code) {
            assert_eq!(char_is_whitespace(c), c.is_whitespace(), "U+{:04X}", code);
        }
        code += 1;
    }
}

#[test]
fn whitespace_samples() {
    assert!(char_is_whitespace(' '));
    assert!(char_is_whitespace('\t'));
    assert!(char_is_whitespace('\n'));
    assert!(char_is_whitespace('\r'));
    assert!(char_is_whitespace('\u{0B}'));
    assert!(char_is_whitespace('\u{0C}'));
    assert!(char_is_whitespace('\u{85}'));
    assert!(char_is_whitespace('\u{A0}'));
    assert!(char_is_whitespace('\u{1680}'));
    assert!(char_is_whitespace('\u{2000}'));
    assert!(char_is_whitespace('\u{200A}'));
    assert!(char_is_whitespace('\u{2028}'));
    assert!(char_is_whitespace('\u{2029}'));
    assert!(char_is_whitespace('\u{202F}'));
    assert!(char_is_whitespace('\u{205F}'));
    assert!(char_is_whitespace('\u{3000}'));
    assert!(!char_is_whitespace('a'));
    assert!(!char_is_whitespace('\u{08}'));
    assert!(!char_is_whitespace('\u{0E}'));
    assert!(!char_is_whitespace('\u{1F}'));
    assert!(!char_is_whitespace('\u{200B}'));
    assert!(!char_is_whitespace('\u{180E}'));
    assert!(!char_is_whitespace('\u{FEFF}'));
}

#[test]
fn trim_removes_whitespace_at_both_ends_only() {
    assert_eq!(trim("  Hi there! \n"), "Hi there!");
    assert_eq!(trim("Hi "), "Hi");
    assert_eq!(trim("\t\r\n a  b \u{3000}"), "a  b");
    assert_eq!(trim("abc"), "abc");
}

#[test]
fn trim_of_blank_text_is_empty() {
    assert_eq!(trim(""), "");
    assert_eq!(trim(" "), "");
    assert_eq!(trim(" \t\r\n\u{A0}\u{2003}"), "");
}

#[test]
fn trim_agrees_with_the_standard_library() {
    let samples = [
        "",
        " ",
        "a",
        " a",
        "a ",
        " a ",
        "\u{85}x\u{85}",
        "\u{200B} zero width is kept \u{200B}",
        "  inner   spaces  ",
        "\n\nline\n\n",
        "é\u{2028}",
        "\u{205F}🌍\u{202F}",
    ];
    for sample in samples {
        assert_eq!(trim(sample), sample.trim(), "{:?}", sample);
    }
}

#[test]
fn trim_twice_is_trim_once() {
    let once = trim("  some text \t");
    assert_eq!(trim(&once), once);
}
