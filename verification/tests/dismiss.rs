use kaijutsu_app::input::vim::dismiss::{should_dismiss_after_escape, EscapeDismissState};

#[test]
fn dismiss_helper_fires_on_second_press_in_normal_mode() {
    let mut s = EscapeDismissState::default();
    assert!(!should_dismiss_after_escape(&mut s, true));
    assert!(should_dismiss_after_escape(&mut s, true));
}

#[test]
fn dismiss_helper_does_not_fire_outside_normal_mode() {
    // First Esc lands in Insert (non-Normal). It bumps count but
    // doesn't dismiss — Insert→Normal is the work for that press.
    let mut s = EscapeDismissState::default();
    assert!(!should_dismiss_after_escape(&mut s, false));
    // Second Esc — now in Normal mode (the first one took us there).
    assert!(should_dismiss_after_escape(&mut s, true));
}

#[test]
fn saturated_count_stays_armed_until_normal_mode() {
    // Esc Esc both landing outside Normal (e.g. visual → normal
    // transitions still in flight): the counter saturates at 2 and
    // stays armed, so the NEXT rapid Esc in Normal mode dismisses.
    let mut s = EscapeDismissState::default();
    assert!(!should_dismiss_after_escape(&mut s, false));
    assert!(!should_dismiss_after_escape(&mut s, false));
    assert!(should_dismiss_after_escape(&mut s, true));
}

#[test]
fn dismiss_helper_resets_state_on_fire() {
    // After firing, the next press starts a fresh count of 1 — so we
    // don't accidentally dismiss on every subsequent Esc.
    let mut s = EscapeDismissState::default();
    should_dismiss_after_escape(&mut s, true);
    should_dismiss_after_escape(&mut s, true);
    // State was reset by the dismiss above; this single press must not
    // fire even in Normal mode.
    assert!(!should_dismiss_after_escape(&mut s, true));
}

#[test]
fn reset_breaks_the_gesture() {
    // A non-Escape key between taps calls reset() — `Esc x Esc` must
    // not dismiss.
    let mut s = EscapeDismissState::default();
    assert!(!should_dismiss_after_escape(&mut s, true));
    s.reset();
    assert!(!should_dismiss_after_escape(&mut s, true));
}
