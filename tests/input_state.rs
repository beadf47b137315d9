use ime_input::input::{InputState, TypingMethod, MAX_POSSIBLE_WORD_LENGTH};

fn push_all(s: &mut InputState, keys: &str) {
    for c in keys.chars() {
        s.push(c);
    }
}

#[test]
fn starts_enabled_tracking_with_telex() {
    let s = InputState::new();
    assert!(s.is_enabled());
    assert!(s.is_tracking());
    assert!(s.is_buffer_empty());
    assert!(s.get_method() == TypingMethod::Telex);
}

#[test]
fn telex_trigger_keys() {
    let s = InputState::new();
    for c in ['a', 'e', 'o', 'd', 's', 't', 'j', 'f', 'x', 'r', 'w', 'z'] {
        assert!(s.should_transform_keys(&c));
    }
    for c in ['b', 'v', 'A', 'E', '1', ' '] {
        assert!(!s.should_transform_keys(&c));
    }
}

#[test]
fn vni_trigger_keys_are_decimal_digits() {
    let mut s = InputState::new();
    s.set_method(TypingMethod::VNI);
    for c in ['0', '1', '5', '9'] {
        assert!(s.should_transform_keys(&c));
    }
    for c in ['a', 's', '\u{b2}', '\u{bd}'] {
        assert!(!s.should_transform_keys(&c));
    }
}

#[test]
fn disabled_never_transforms() {
    let mut s = InputState::new();
    s.toggle_vietnamese();
    assert!(!s.is_enabled());
    for c in ['a', 'w', '5', 'b'] {
        assert!(!s.should_transform_keys(&c));
    }
    s.set_method(TypingMethod::VNI);
    for c in ['0', '9', 'a'] {
        assert!(!s.should_transform_keys(&c));
    }
    s.toggle_vietnamese();
    assert!(s.should_transform_keys(&'9'));
}

#[test]
fn push_then_pop_restores_buffer() {
    let mut s = InputState::new();
    push_all(&mut s, "vi");
    s.push('e');
    s.pop();
    assert!(s.transform_keys() == "vi");
    assert!(!s.should_send_keyboard_event("vi"));
    // the display buffer keeps all three characters
    assert_eq!(s.get_backspace_count(true), 3);
    assert!(s.is_tracking());
}

#[test]
fn pop_to_empty_starts_fresh_word() {
    let mut s = InputState::new();
    s.push('a');
    s.pop();
    assert!(s.is_buffer_empty());
    assert!(s.is_tracking());
    s.pop();
    assert!(s.is_buffer_empty());
}

#[test]
fn new_word_empties_and_tracks() {
    let mut s = InputState::new();
    push_all(&mut s, "viet");
    s.new_word();
    assert!(s.is_buffer_empty());
    assert!(s.is_tracking());
    assert_eq!(s.get_backspace_count(true), 0);
    s.stop_tracking();
    s.new_word();
    assert!(s.is_buffer_empty());
    assert!(s.is_tracking());
}

#[test]
fn stop_tracking_empties_and_untracks() {
    let mut s = InputState::new();
    push_all(&mut s, "ab");
    s.stop_tracking();
    assert!(s.is_buffer_empty());
    assert!(!s.is_tracking());
    assert_eq!(s.get_backspace_count(true), 0);
}

#[test]
fn clear_keeps_flags() {
    let mut s = InputState::new();
    s.set_method(TypingMethod::VNI);
    push_all(&mut s, "ab");
    s.clear();
    assert!(s.is_buffer_empty());
    assert!(s.is_tracking());
    assert!(s.is_enabled());
    assert!(s.get_method() == TypingMethod::VNI);
}

#[test]
fn four_identical_keys_stop_tracking() {
    let mut s = InputState::new();
    push_all(&mut s, "ooo");
    assert!(s.is_tracking());
    assert!(!s.should_stop_tracking());
    s.push('o');
    assert!(!s.is_tracking());
    assert!(s.is_buffer_empty());
}

#[test]
fn run_must_be_at_the_end() {
    let mut s = InputState::new();
    push_all(&mut s, "ooxo");
    assert!(s.is_tracking());
    assert!(!s.is_buffer_empty());
}

#[test]
fn pushes_past_the_limit_are_dropped() {
    let mut s = InputState::new();
    push_all(&mut s, "abcdefghij");
    assert_eq!(s.get_backspace_count(true), MAX_POSSIBLE_WORD_LENGTH);
    // the eleventh keystroke finds the buffer full and is dropped
    s.push('k');
    assert_eq!(s.get_backspace_count(true), MAX_POSSIBLE_WORD_LENGTH);
    assert!(!s.should_send_keyboard_event("abcdefghij"));
    s.push('l');
    s.push('m');
    assert_eq!(s.get_backspace_count(true), MAX_POSSIBLE_WORD_LENGTH);
    assert!(!s.should_send_keyboard_event("abcdefghij"));
    assert!(s.is_tracking());
}

#[test]
fn backspace_count_on_five_shown() {
    let mut s = InputState::new();
    s.replace(String::from("hello"));
    assert_eq!(s.get_backspace_count(true), 5);
    assert_eq!(s.get_backspace_count(false), 4);
}

#[test]
fn backspace_count_on_nothing_shown_is_zero() {
    let s = InputState::new();
    assert_eq!(s.get_backspace_count(true), 0);
    assert_eq!(s.get_backspace_count(false), 0);
}

#[test]
fn replace_counts_characters_not_bytes() {
    let mut s = InputState::new();
    push_all(&mut s, "vieetj");
    s.replace(String::from("vi\u{1ec7}t"));
    assert_eq!(s.get_backspace_count(true), 4);
    assert_eq!(s.get_backspace_count(false), 3);
    // the raw buffer is untouched
    assert!(!s.should_send_keyboard_event("vieetj"));
}

#[test]
fn telex_transforms_word() {
    let mut s = InputState::new();
    push_all(&mut s, "vieetj");
    let word = s.transform_keys();
    assert_eq!(word, "vi\u{1ec7}t");
    assert!(s.should_send_keyboard_event(&word));
}

#[test]
fn vni_transforms_word() {
    let mut s = InputState::new();
    s.set_method(TypingMethod::VNI);
    push_all(&mut s, "viet56");
    let word = s.transform_keys();
    assert_eq!(word, "vi\u{1ec7}t");
    assert!(s.should_send_keyboard_event(&word));
}

#[test]
fn plain_word_needs_no_event() {
    let mut s = InputState::new();
    push_all(&mut s, "ban");
    let word = s.transform_keys();
    assert_eq!(word, "ban");
    assert!(!s.should_send_keyboard_event(&word));
    assert!(s.should_send_keyboard_event("ba"));
    assert!(s.should_send_keyboard_event("bam"));
}

#[test]
fn set_method_mid_word_abandons_it() {
    let mut s = InputState::new();
    push_all(&mut s, "vie");
    s.set_method(TypingMethod::VNI);
    assert!(s.is_buffer_empty());
    assert!(s.is_tracking());
    assert!(s.get_method() == TypingMethod::VNI);
}

#[test]
fn toggle_mid_word_abandons_it() {
    let mut s = InputState::new();
    push_all(&mut s, "vie");
    s.toggle_vietnamese();
    assert!(s.is_buffer_empty());
    assert!(s.is_tracking());
    assert!(!s.is_enabled());
}
