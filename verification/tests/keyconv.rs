use kaijutsu_app::input::keys::{HeldKeys, Key, KeyCode, KeyboardInput};
use kaijutsu_app::input::vim::keyconv::bevy_to_terminal_key;
use modalkit::crossterm::event::{KeyCode as CtKeyCode, KeyEvent, KeyModifiers};
use modalkit::key::TerminalKey;

fn make_event(key_code: KeyCode, logical_key: Key) -> KeyboardInput {
    KeyboardInput {
        key_code,
        logical_key,
        pressed: true,
        repeat: false,
    }
}

fn no_modifiers() -> HeldKeys {
    HeldKeys::new()
}

fn with_modifier(modifier: KeyCode) -> HeldKeys {
    let mut keys = HeldKeys::new();
    keys.press(modifier);
    keys
}

// ── Character keys ──

#[test]
fn char_a() {
    let event = make_event(KeyCode::KeyA, Key::Character("a".into()));
    let result = bevy_to_terminal_key(&event, &no_modifiers()).unwrap();
    let expected = TerminalKey::from(KeyEvent::new(CtKeyCode::Char('a'), KeyModifiers::NONE));
    assert_eq!(result, expected);
}

#[test]
fn char_space() {
    let event = make_event(KeyCode::Space, Key::Space);
    let result = bevy_to_terminal_key(&event, &no_modifiers()).unwrap();
    let expected = TerminalKey::from(KeyEvent::new(CtKeyCode::Char(' '), KeyModifiers::NONE));
    assert_eq!(result, expected);
}

// ── Named keys ──

#[test]
fn named_enter() {
    let event = make_event(KeyCode::Enter, Key::Enter);
    let result = bevy_to_terminal_key(&event, &no_modifiers()).unwrap();
    let expected = TerminalKey::from(KeyEvent::new(CtKeyCode::Enter, KeyModifiers::NONE));
    assert_eq!(result, expected);
}

#[test]
fn named_escape() {
    let event = make_event(KeyCode::Escape, Key::Escape);
    let result = bevy_to_terminal_key(&event, &no_modifiers()).unwrap();
    let expected = TerminalKey::from(KeyEvent::new(CtKeyCode::Esc, KeyModifiers::NONE));
    assert_eq!(result, expected);
}

#[test]
fn named_backspace() {
    let event = make_event(KeyCode::Backspace, Key::Backspace);
    let result = bevy_to_terminal_key(&event, &no_modifiers()).unwrap();
    let expected = TerminalKey::from(KeyEvent::new(CtKeyCode::Backspace, KeyModifiers::NONE));
    assert_eq!(result, expected);
}

#[test]
fn named_tab() {
    let event = make_event(KeyCode::Tab, Key::Tab);
    let result = bevy_to_terminal_key(&event, &no_modifiers()).unwrap();
    let expected = TerminalKey::from(KeyEvent::new(CtKeyCode::Tab, KeyModifiers::NONE));
    assert_eq!(result, expected);
}

#[test]
fn named_arrows() {
    for (kc, key, ct) in [
        (KeyCode::ArrowLeft, Key::ArrowLeft, CtKeyCode::Left),
        (KeyCode::ArrowRight, Key::ArrowRight, CtKeyCode::Right),
        (KeyCode::ArrowUp, Key::ArrowUp, CtKeyCode::Up),
        (KeyCode::ArrowDown, Key::ArrowDown, CtKeyCode::Down),
    ] {
        let event = make_event(kc, key);
        let result = bevy_to_terminal_key(&event, &no_modifiers()).unwrap();
        let expected = TerminalKey::from(KeyEvent::new(ct, KeyModifiers::NONE));
        assert_eq!(result, expected);
    }
}

// ── Function keys ──

#[test]
fn function_keys() {
    let event = make_event(KeyCode::F1, Key::F1);
    let result = bevy_to_terminal_key(&event, &no_modifiers()).unwrap();
    let expected = TerminalKey::from(KeyEvent::new(CtKeyCode::F(1), KeyModifiers::NONE));
    assert_eq!(result, expected);

    let event = make_event(KeyCode::F12, Key::F12);
    let result = bevy_to_terminal_key(&event, &no_modifiers()).unwrap();
    let expected = TerminalKey::from(KeyEvent::new(CtKeyCode::F(12), KeyModifiers::NONE));
    assert_eq!(result, expected);
}

// ── Modifiers ──

#[test]
fn ctrl_c() {
    let event = make_event(KeyCode::KeyC, Key::Character("c".into()));
    let keys = with_modifier(KeyCode::ControlLeft);
    let result = bevy_to_terminal_key(&event, &keys).unwrap();
    let expected = TerminalKey::from(KeyEvent::new(CtKeyCode::Char('c'), KeyModifiers::CONTROL));
    assert_eq!(result, expected);
}

#[test]
fn shift_a_uppercase() {
    // The layout gives logical_key = Character("A") when Shift+A is pressed
    let event = make_event(KeyCode::KeyA, Key::Character("A".into()));
    let keys = with_modifier(KeyCode::ShiftLeft);
    let result = bevy_to_terminal_key(&event, &keys).unwrap();
    // Result: Char('A') + SHIFT — modalkit should handle this
    let expected = TerminalKey::from(KeyEvent::new(CtKeyCode::Char('A'), KeyModifiers::SHIFT));
    assert_eq!(result, expected);
}

#[test]
fn alt_x() {
    let event = make_event(KeyCode::KeyX, Key::Character("x".into()));
    let keys = with_modifier(KeyCode::AltLeft);
    let result = bevy_to_terminal_key(&event, &keys).unwrap();
    let expected = TerminalKey::from(KeyEvent::new(CtKeyCode::Char('x'), KeyModifiers::ALT));
    assert_eq!(result, expected);
}

// ── Rejection cases ──

#[test]
fn multi_char_rejected() {
    // Dead key compose sequences produce multi-char strings
    let event = make_event(KeyCode::KeyA, Key::Character("fi".into()));
    let result = bevy_to_terminal_key(&event, &no_modifiers());
    assert!(result.is_none());
}

#[test]
fn dead_key_rejected() {
    let event = make_event(KeyCode::KeyA, Key::Dead(Some('`')));
    let result = bevy_to_terminal_key(&event, &no_modifiers());
    assert!(result.is_none());
}

#[test]
fn unidentified_letter_rejected() {
    // Letter keys still require logical_key — physical fallback would
    // produce wrong chars on non-QWERTY layouts.
    let event = make_event(KeyCode::KeyA, Key::Unidentified);
    let result = bevy_to_terminal_key(&event, &no_modifiers());
    assert!(result.is_none());
}

#[test]
fn unidentified_escape_falls_back_to_key_code() {
    // A synthetic key press may carry no logical key: the physical key then
    // decides, so vim still receives the press.
    let event = make_event(
        KeyCode::Escape,
        Key::Unidentified,
    );
    let result = bevy_to_terminal_key(&event, &no_modifiers()).unwrap();
    let expected = TerminalKey::from(KeyEvent::new(CtKeyCode::Esc, KeyModifiers::NONE));
    assert_eq!(result, expected);
}

#[test]
fn unidentified_arrow_falls_back_to_key_code() {
    let event = make_event(
        KeyCode::ArrowLeft,
        Key::Unidentified,
    );
    let result = bevy_to_terminal_key(&event, &no_modifiers()).unwrap();
    let expected = TerminalKey::from(KeyEvent::new(CtKeyCode::Left, KeyModifiers::NONE));
    assert_eq!(result, expected);
}
