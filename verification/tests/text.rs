use vex_data::text::{char_is_whitespace, same_text, text_is_blank};

#[test]
fn whitespace_agrees_with_the_standard_library_on_every_char() {
    let mut n: u32 = 0;
    while n <= 0x10FFFF {
        if let Some(c) = char::from_u32(n) {
            assert_eq!(char_is_whitespace(c), c.is_whitespace(), "U+{:04X}", n);
        }
        n += 1;
    }
}

#[test]
fn whitespace_on_chosen_chars() {
    assert!(char_is_whitespace(' '));
    assert!(char_is_whitespace('\t'));
    assert!(char_is_whitespace('\n'));
    assert!(char_is_whitespace('\r'));
    assert!(char_is_whitespace('\u{00A0}'));
    assert!(char_is_whitespace('\u{3000}'));
    assert!(!char_is_whitespace('a'));
    assert!(!char_is_whitespace('0'));
    assert!(!char_is_whitespace('\u{200B}'));
    assert!(!char_is_whitespace('\u{0008}'));
    assert!(!char_is_whitespace('\u{000E}'));
}

#[test]
fn blank_means_empty_after_trimming() {
    let samples = [
        "",
        " ",
        "   ",
        "\t\n\r",
        " \u{00A0}\u{2003} ",
        "a",
        " a",
        "a ",
        "  libfoo 1.2  ",
        "\u{200B}",
        " \u{00E9} ",
        "\n.\n",
    ];
    for s in samples {
        assert_eq!(text_is_blank(s), s.trim().is_empty(), "{:?}", s);
    }
    assert!(text_is_blank(""));
    assert!(text_is_blank(" \t "));
    assert!(!text_is_blank(" x "));
}

#[test]
fn same_text_is_equality() {
    assert!(same_text("", ""));
    assert!(same_text("High", "High"));
    assert!(!same_text("High", "high"));
    assert!(!same_text("High", "Hig"));
    assert!(!same_text("Hig", "High"));
    assert!(!same_text("", " "));
    assert!(same_text("caf\u{00E9}", "caf\u{00E9}"));
    assert!(!same_text("caf\u{00E9}", "cafe"));
}
