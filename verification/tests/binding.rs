use kaijutsu_app::input::action::Action;
use kaijutsu_app::input::binding::{Binding, InputSource, Modifiers};
use kaijutsu_app::input::bindings_config::binding_to_entry;
use kaijutsu_app::input::context::InputContext;
use kaijutsu_app::input::keys::{GamepadButton, KeyCode, NativeKeyCode};
use kaijutsu_app::input::names::{
    action_of, action_to_name, button_of, button_to_str, context_of, context_to_str, key_code_of,
    key_code_to_str, native_to_str,
};
use kaijutsu_app::input::prefix::{PrefixState, PREFIX_TIMEOUT_MS};
use kaijutsu_app::input::sequence::SequenceState;
use kaijutsu_app::time::Moment;

#[test]
fn a_sequence_binding_waits_for_its_prefix() {
    let plain = Binding::key_seq(
        KeyCode::KeyG,
        KeyCode::KeyT,
        InputContext::Navigation,
        Action::CycleFocusForward,
        "Next area",
    );
    assert_eq!(plain.source, InputSource::Key(KeyCode::KeyT));
    assert_eq!(plain.modifiers, Modifiers::none());
    assert_eq!(plain.sequence_prefix, Some(InputSource::Key(KeyCode::KeyG)));
    assert_eq!(plain.description, "Next area");
    let shifted = Binding::key_seq_mod(
        KeyCode::KeyG,
        KeyCode::KeyT,
        Modifiers::ctrl_shift(),
        InputContext::Navigation,
        Action::CycleFocusBackward,
        "Previous area",
    );
    assert!(shifted.modifiers.ctrl && shifted.modifiers.shift);
    assert!(!shifted.modifiers.alt && !shifted.modifiers.super_key);
    assert_eq!(shifted.action, Action::CycleFocusBackward);
}

#[test]
fn a_binding_is_written_under_its_names() {
    let b = Binding::key(KeyCode::F12, InputContext::Global, Action::Screenshot, "Screenshot");
    let entry = binding_to_entry(&b, &Vec::new());
    assert_eq!(entry.key, "F12");
    assert_eq!(entry.action, "Screenshot");
    assert_eq!(entry.context, "Global");
    assert_eq!(entry.label, "Screenshot");
    assert!(!entry.gamepad);
}

/// Every key is written under a name of its own, also one that no bindings file can name.
#[test]
fn every_key_has_a_name_of_its_own() {
    let entry = |key| {
        let b = Binding::key(key, InputContext::Global, Action::Screenshot, "Screenshot");
        binding_to_entry(&b, &Vec::new()).key
    };
    assert_eq!(entry(KeyCode::Numpad1), "Numpad1");
    assert_eq!(entry(KeyCode::MediaPlayPause), "MediaPlayPause");
    assert_eq!(entry(KeyCode::Unidentified(NativeKeyCode::Xkb(30))), "Unidentified(Xkb(30))");
    assert_eq!(
        entry(KeyCode::Unidentified(NativeKeyCode::Unidentified)),
        "Unidentified(Unidentified)"
    );
    assert_eq!(native_to_str(NativeKeyCode::Android(7)), "Android(7)");
    assert_eq!(native_to_str(NativeKeyCode::MacOS(0)), "MacOS(0)");
    assert_eq!(native_to_str(NativeKeyCode::Windows(65535)), "Windows(65535)");
    assert_eq!(key_code_of("Numpad1"), None);
}

#[test]
fn names_read_back() {
    assert_eq!(key_code_of(&key_code_to_str(KeyCode::BracketLeft)), Some(KeyCode::BracketLeft));
    assert_eq!(key_code_of("NoSuchKey"), None);
    let south = button_to_str(GamepadButton::South);
    assert_eq!(button_of(&south), Some(GamepadButton::South));
    assert_eq!(button_of("NoSuchButton"), None);
    assert_eq!(context_of(context_to_str(InputContext::TextInput)), Some(InputContext::TextInput));
    assert_eq!(context_of("Nowhere"), None);
    assert_eq!(action_of(action_to_name(&Action::Quit)), Some(Action::Quit));
    assert_eq!(action_of("NoSuchAction"), None);
}

#[test]
fn an_armed_prefix_lapses() {
    let mut prefix = PrefixState::default();
    let start = Moment { nanos: 0 };
    prefix.arm_at(start);
    let late = Moment { nanos: (PREFIX_TIMEOUT_MS as i64 + 1) * 1_000_000 };
    assert!(!prefix.tick_timeout_at(start));
    assert!(prefix.armed());
    assert!(prefix.tick_timeout_at(late));
    assert!(!prefix.armed());
    prefix.arm_at(start);
    prefix.disarm();
    assert!(!prefix.tick_timeout_at(late));
}

#[test]
fn a_sequence_expires_only_once_it_started() {
    let mut sequence = SequenceState::default();
    assert!(!sequence.is_expired(0));
    sequence.start(InputSource::Key(KeyCode::KeyG));
    assert!(!sequence.is_expired(60_000));
    assert!(sequence.matches_prefix(&InputSource::Key(KeyCode::KeyG)));
}
