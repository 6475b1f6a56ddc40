use macronx_tui::json::{char_is_white_space, choose_json_text, json_text_for, text_is_blank};

#[test]
fn valid_json_is_sent_as_typed() {
    assert_eq!(json_text_for("{\"a\": 1}"), Some("{\"a\": 1}".to_string()));
    assert_eq!(json_text_for(" [1, 2] "), Some(" [1, 2] ".to_string()));
    assert_eq!(json_text_for("null"), Some("null".to_string()));
}

#[test]
fn blank_field_becomes_empty_object() {
    assert_eq!(json_text_for(""), Some("{}".to_string()));
    assert_eq!(json_text_for("  \t\n"), Some("{}".to_string()));
}

#[test]
fn invalid_json_is_refused() {
    assert_eq!(json_text_for("{"), None);
    assert_eq!(json_text_for("hello"), None);
    assert_eq!(json_text_for("{} {}"), None);
}

#[test]
fn blank_means_white_space_only() {
    assert!(text_is_blank(""));
    assert!(text_is_blank(" \t\r\n\u{a0}\u{3000}"));
    assert!(!text_is_blank(" a "));
    assert!(!text_is_blank("x"));
}

#[test]
fn choice_follows_the_parse_result() {
    assert_eq!(choose_json_text("abc", true), Some("abc".to_string()));
    assert_eq!(choose_json_text("abc", false), None);
    assert_eq!(choose_json_text(" ", false), Some("{}".to_string()));
    assert_eq!(choose_json_text(" ", true), Some(" ".to_string()));
}

#[test]
fn white_space_agrees_with_std() {
    for c in (0u32..=0x10FFFF).filter_map(char::from_u32) {
        assert_eq!(char_is_white_space(c), c.is_whitespace(), "{:?}", c);
    }
    assert!(char_is_white_space(' '));
    assert!(!char_is_white_space('\u{180e}'));
    assert!(!char_is_white_space('\u{200b}'));
}

#[test]
fn blank_agrees_with_trim() {
    for t in ["", " ", "\t\n", " x ", "\u{2003}", "\u{200b}"] {
        assert_eq!(text_is_blank(t), t.trim().is_empty());
    }
}
