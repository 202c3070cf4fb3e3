use audio_library::text::{characters, is_white_space, join, non_empty, trim};

#[test]
fn white_space_is_the_unicode_property() {
    for code in 0..=0x10ffffu32 {
        if let Some(c) = char::from_u32(code) {
            assert_eq!(is_white_space(c), c.is_whitespace(), "{code:x}");
        }
    }
}

#[test]
fn trimming_removes_white_space_at_both_ends_only() {
    for text in [
        "",
        " ",
        "a",
        "  a  b \t\n",
        "\u{a0}\u{3000}Ünïcode\u{2003}",
        "\u{200b} zero width stays",
        "\n\n",
    ] {
        assert_eq!(trim(text), text.trim());
    }
    assert_eq!(trim("  Morning talk "), "Morning talk");
}

#[test]
fn trimming_twice_changes_nothing() {
    let once = trim(" \t x y \r\n");
    assert_eq!(once, "x y");
    assert_eq!(trim(once), once);
}

#[test]
fn only_non_blank_text_is_kept() {
    assert_eq!(non_empty(""), None);
    assert_eq!(non_empty(" \t\u{2028}"), None);
    assert_eq!(non_empty("  x "), Some("x".to_string()));
}

#[test]
fn text_is_joined_and_taken_apart() {
    assert_eq!(join("Playing: ", "é"), "Playing: é");
    assert_eq!(characters("aé▶"), vec!['a', 'é', '▶']);
}
