use agent_orchestration::text::blank;
use agent_orchestration::text::char_is_white_space;
use agent_orchestration::text::decimal_text;
use agent_orchestration::text::join2;
use agent_orchestration::text::join3;
use agent_orchestration::text::trim;

#[test]
fn white_space_is_that_of_std_for_every_character() {
    for code in 0..=0x10ffffu32 {
        if let Some(c) = char::from_u32(code) {
            assert_eq!(char_is_white_space(c), c.is_whitespace(), "U+{code:04X}");
        }
    }
}

#[test]
fn trim_agrees_with_std() {
    for s in [
        "",
        " ",
        "a",
        "  a",
        "a  ",
        " \t\u{a0}a b\u{3000}\r\n",
        "\u{2003}\u{2003}",
        "\u{200b}a\u{200b}",
        "é ñ ",
        " \u{1f600} ",
    ] {
        assert_eq!(trim(s), s.trim(), "{s:?}");
        assert_eq!(blank(s), s.trim().is_empty(), "{s:?}");
    }
}

#[test]
fn decimal_agrees_with_std() {
    for n in [0usize, 1, 9, 10, 11, 99, 100, 101, 12345, usize::MAX - 1, usize::MAX] {
        assert_eq!(decimal_text(n), n.to_string());
    }
}

#[test]
fn texts_are_joined_in_order() {
    assert_eq!(join2("ab", "cd"), "abcd");
    assert_eq!(join2("", ""), "");
    assert_eq!(join3("a", "", "é"), "aé");
    assert_eq!(join3("1", "2", "3"), "123");
}
