use kaijutsu_app::input::action::Action;
use kaijutsu_app::input::keys::KeyCode;
use kaijutsu_app::input::prefix::{
    is_bare_modifier, resolve_chord, PrefixState, PREFIX_TIMEOUT_MS,
};
use kaijutsu_app::time::Moment;

#[test]
fn digits_resolve_to_seats_with_or_without_ctrl() {
    // Screen fingers do both: Ctrl held through the digit, or released.
    assert_eq!(
        resolve_chord(KeyCode::Digit2, true, false),
        Some(Action::SwitchToActiveSeat(2))
    );
    assert_eq!(
        resolve_chord(KeyCode::Digit2, false, false),
        Some(Action::SwitchToActiveSeat(2))
    );
}

#[test]
fn ctrl_a_ctrl_a_toggles_last_but_bare_a_is_literal() {
    assert_eq!(
        resolve_chord(KeyCode::KeyA, true, false),
        Some(Action::SwitchToPreviousContext)
    );
    assert_eq!(
        resolve_chord(KeyCode::KeyA, false, false),
        Some(Action::SendLiteralPrefix)
    );
}

#[test]
fn well_chords() {
    assert_eq!(resolve_chord(KeyCode::KeyW, false, false), Some(Action::GoToWell));
    assert_eq!(resolve_chord(KeyCode::Quote, false, true), Some(Action::GoToWell));
}

#[test]
fn prompt_chords() {
    // ' — switch-by-prompt; A (shift+a) — rename prompt.
    assert_eq!(
        resolve_chord(KeyCode::Quote, false, false),
        Some(Action::PromptContextSwitch)
    );
    assert_eq!(
        resolve_chord(KeyCode::KeyA, false, true),
        Some(Action::PromptContextRename)
    );
    // Ctrl wins over shift on the A family (Ctrl+A Ctrl+A with shift
    // accidentally down is still the toggle).
    assert_eq!(
        resolve_chord(KeyCode::KeyA, true, true),
        Some(Action::SwitchToPreviousContext)
    );
}

#[test]
fn unbound_is_none() {
    assert_eq!(resolve_chord(KeyCode::KeyX, false, false), None);
    assert_eq!(resolve_chord(KeyCode::Escape, false, false), None);
}

#[test]
fn timeout_disarms() {
    let mut s = PrefixState::default();
    s.arm();
    assert!(s.armed());
    // Backdate the arm so the next tick expires it.
    s.armed_at = Some(Moment {
        nanos: s.clock.now().nanos - (PREFIX_TIMEOUT_MS as i64 + 10) * 1_000_000,
    });
    assert!(s.tick_timeout());
    assert!(!s.armed());
}

#[test]
fn modifiers_are_bare() {
    assert!(is_bare_modifier(KeyCode::ControlLeft));
    assert!(is_bare_modifier(KeyCode::ShiftRight));
    assert!(!is_bare_modifier(KeyCode::KeyA));
}
