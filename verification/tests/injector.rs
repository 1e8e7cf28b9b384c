use evdev::Key;
use vosk_dictation::injector::{
    char_to_key, key_event_value, keystrokes, supported_keys, KeyAction, KeyCode, CHAR_DELAY_MS,
    KEY_DELAY_MS,
};

/// Plays key actions on a model of a US QWERTY keyboard and returns the typed
/// text and whether any key is still held.
fn play(actions: &[KeyAction]) -> (String, bool) {
    let mut held: Vec<KeyCode> = Vec::new();
    let mut typed = String::new();
    for a in actions {
        match a {
            KeyAction::Press(k) => {
                let shift = held.contains(&KeyCode::LeftShift) || held.contains(&KeyCode::RightShift);
                if *k != KeyCode::LeftShift && *k != KeyCode::RightShift {
                    let found = (0u32..0x80)
                        .filter_map(char::from_u32)
                        .find(|c| char_to_key(*c) == Some((*k, shift)));
                    if let Some(c) = found {
                        typed.push(c);
                    }
                }
                held.push(*k);
            }
            KeyAction::Release(k) => held.retain(|h| h != k),
            _ => {}
        }
    }
    (typed, !held.is_empty())
}

#[test]
fn letters_map_to_their_keys() {
    assert_eq!(char_to_key('a'), Some((KeyCode::A, false)));
    assert_eq!(char_to_key('z'), Some((KeyCode::Z, false)));
    assert_eq!(char_to_key('Q'), Some((KeyCode::Q, true)));
    assert_eq!(char_to_key('7'), Some((KeyCode::Digit7, false)));
}

#[test]
fn punctuation_maps_with_and_without_shift() {
    assert_eq!(char_to_key('!'), Some((KeyCode::Digit1, true)));
    assert_eq!(char_to_key(')'), Some((KeyCode::Digit0, true)));
    assert_eq!(char_to_key('?'), Some((KeyCode::Slash, true)));
    assert_eq!(char_to_key('/'), Some((KeyCode::Slash, false)));
    assert_eq!(char_to_key('"'), Some((KeyCode::Apostrophe, true)));
    assert_eq!(char_to_key('~'), Some((KeyCode::Grave, true)));
    assert_eq!(char_to_key(' '), Some((KeyCode::Space, false)));
    assert_eq!(char_to_key('\n'), Some((KeyCode::Enter, false)));
    assert_eq!(char_to_key('\t'), Some((KeyCode::Tab, false)));
}

#[test]
fn characters_without_a_key_are_unmapped() {
    assert_eq!(char_to_key('é'), None);
    assert_eq!(char_to_key('€'), None);
    assert_eq!(char_to_key('\r'), None);
    assert_eq!(char_to_key('\u{0}'), None);
}

#[test]
fn key_codes_match_evdev() {
    let pairs = [
        (KeyCode::A, Key::KEY_A), (KeyCode::B, Key::KEY_B), (KeyCode::C, Key::KEY_C),
        (KeyCode::D, Key::KEY_D), (KeyCode::E, Key::KEY_E), (KeyCode::F, Key::KEY_F),
        (KeyCode::G, Key::KEY_G), (KeyCode::H, Key::KEY_H), (KeyCode::I, Key::KEY_I),
        (KeyCode::J, Key::KEY_J), (KeyCode::K, Key::KEY_K), (KeyCode::L, Key::KEY_L),
        (KeyCode::M, Key::KEY_M), (KeyCode::N, Key::KEY_N), (KeyCode::O, Key::KEY_O),
        (KeyCode::P, Key::KEY_P), (KeyCode::Q, Key::KEY_Q), (KeyCode::R, Key::KEY_R),
        (KeyCode::S, Key::KEY_S), (KeyCode::T, Key::KEY_T), (KeyCode::U, Key::KEY_U),
        (KeyCode::V, Key::KEY_V), (KeyCode::W, Key::KEY_W), (KeyCode::X, Key::KEY_X),
        (KeyCode::Y, Key::KEY_Y), (KeyCode::Z, Key::KEY_Z),
        (KeyCode::Digit0, Key::KEY_0), (KeyCode::Digit1, Key::KEY_1), (KeyCode::Digit2, Key::KEY_2),
        (KeyCode::Digit3, Key::KEY_3), (KeyCode::Digit4, Key::KEY_4), (KeyCode::Digit5, Key::KEY_5),
        (KeyCode::Digit6, Key::KEY_6), (KeyCode::Digit7, Key::KEY_7), (KeyCode::Digit8, Key::KEY_8),
        (KeyCode::Digit9, Key::KEY_9),
        (KeyCode::Space, Key::KEY_SPACE), (KeyCode::Enter, Key::KEY_ENTER),
        (KeyCode::Backspace, Key::KEY_BACKSPACE), (KeyCode::Tab, Key::KEY_TAB),
        (KeyCode::Dot, Key::KEY_DOT), (KeyCode::Comma, Key::KEY_COMMA),
        (KeyCode::Semicolon, Key::KEY_SEMICOLON), (KeyCode::Apostrophe, Key::KEY_APOSTROPHE),
        (KeyCode::LeftBrace, Key::KEY_LEFTBRACE), (KeyCode::RightBrace, Key::KEY_RIGHTBRACE),
        (KeyCode::Minus, Key::KEY_MINUS), (KeyCode::Equal, Key::KEY_EQUAL),
        (KeyCode::Slash, Key::KEY_SLASH), (KeyCode::Backslash, Key::KEY_BACKSLASH),
        (KeyCode::Grave, Key::KEY_GRAVE), (KeyCode::LeftShift, Key::KEY_LEFTSHIFT),
        (KeyCode::RightShift, Key::KEY_RIGHTSHIFT),
    ];
    for (k, e) in pairs {
        assert_eq!(k.code(), e.code(), "{:?}", k);
    }
}

#[test]
fn keystrokes_for_lowercase_letter() {
    assert_eq!(
        keystrokes("a"),
        vec![
            KeyAction::Press(KeyCode::A),
            KeyAction::Pause(KEY_DELAY_MS),
            KeyAction::Release(KeyCode::A),
            KeyAction::Pause(CHAR_DELAY_MS),
        ]
    );
}

#[test]
fn keystrokes_hold_shift_around_uppercase() {
    assert_eq!(
        keystrokes("H!"),
        vec![
            KeyAction::Press(KeyCode::LeftShift),
            KeyAction::Press(KeyCode::H),
            KeyAction::Pause(5),
            KeyAction::Release(KeyCode::H),
            KeyAction::Release(KeyCode::LeftShift),
            KeyAction::Pause(10),
            KeyAction::Press(KeyCode::LeftShift),
            KeyAction::Press(KeyCode::Digit1),
            KeyAction::Pause(5),
            KeyAction::Release(KeyCode::Digit1),
            KeyAction::Release(KeyCode::LeftShift),
            KeyAction::Pause(10),
        ]
    );
}

#[test]
fn keystrokes_report_unmapped_characters() {
    assert_eq!(keystrokes("é"), vec![KeyAction::Unmapped('é')]);
    assert_eq!(keystrokes(""), vec![]);
}

#[test]
fn typing_reproduces_text() {
    let text = "Hello, World! (it's 42 degrees: \"hot\") ~a_b+c={d}|e<f>g?\n\tend.";
    let (typed, held) = play(&keystrokes(text));
    assert_eq!(typed, text);
    assert!(!held);
}

#[test]
fn typing_skips_untypeable_characters() {
    let (typed, held) = play(&keystrokes("café au lait"));
    assert_eq!(typed, "caf au lait");
    assert!(!held);
}

#[test]
fn every_key_is_registered_once() {
    let keys = supported_keys();
    assert_eq!(keys.len(), 53);
    for (i, k) in keys.iter().enumerate() {
        assert!(!keys[i + 1..].contains(k));
    }
    assert!(keys.contains(&KeyCode::LeftShift));
    assert!(keys.contains(&KeyCode::Backspace));
    for c in (0u32..0x80).filter_map(char::from_u32) {
        if let Some((k, _)) = char_to_key(c) {
            assert!(keys.contains(&k));
        }
    }
}

#[test]
fn key_event_values() {
    assert_eq!(key_event_value(true), 1);
    assert_eq!(key_event_value(false), 0);
}
