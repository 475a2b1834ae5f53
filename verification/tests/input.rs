use flappy::input::{is_flap_key, is_jump_key, is_word, same_bytes};

#[test]
fn space_flaps_by_code_or_by_character() {
    assert!(is_flap_key("Space", " ", false));
    assert!(is_flap_key("Space", "x", false));
    assert!(is_flap_key("KeyX", " ", false));
    assert!(!is_flap_key("KeyX", "x", false));
    assert!(!is_flap_key("ArrowUp", "ArrowUp", false));
    assert!(!is_flap_key("space", "", false));
    assert!(!is_flap_key("Space", " ", true));
    assert!(!is_flap_key("", "", false));
    assert!(!is_flap_key("Spacebar", "  ", false));
}

#[test]
fn space_and_arrow_up_jump() {
    assert!(is_jump_key("Space", false));
    assert!(is_jump_key("ArrowUp", false));
    assert!(!is_jump_key("ArrowDown", false));
    assert!(!is_jump_key("Enter", false));
    assert!(!is_jump_key("", false));
    assert!(!is_jump_key("Space", true));
    assert!(!is_jump_key("ArrowUp", true));
    assert!(!is_jump_key("Space ", false));
}

#[test]
fn words_are_compared_byte_by_byte() {
    assert!(is_word("", ""));
    assert!(is_word("abc", "abc"));
    assert!(!is_word("abc", "abd"));
    assert!(!is_word("abc", "ab"));
    assert!(!is_word("ab", "abc"));
    assert!(is_word("\u{e9}", "\u{e9}"));
    assert!(same_bytes(b"", b""));
    assert!(same_bytes(&[1, 2, 3], &[1, 2, 3]));
    assert!(!same_bytes(&[1, 2, 3], &[1, 2, 4]));
    assert!(!same_bytes(&[1, 2, 3], &[1, 2]));
}
