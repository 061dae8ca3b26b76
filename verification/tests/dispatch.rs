use kaijutsu_app::input::action::{Action, Scalar};
use kaijutsu_app::input::binding::{Binding, Modifiers};
use kaijutsu_app::input::context::{ActiveInputContexts, InputContext, KeyboardGrab};
use kaijutsu_app::input::defaults::default_bindings;
use kaijutsu_app::input::dispatch::{
    context_priority, dispatch_input, dispatch_key, find_direct_match, Dispatched, GamepadFrame,
    InputFrame, KeyOutcome,
};
use kaijutsu_app::input::events::ActionFired;
use kaijutsu_app::input::keys::{GamepadButton, HeldKeys, Key, KeyCode, KeyboardInput};
use kaijutsu_app::input::prefix::{PrefixState, PREFIX_TIMEOUT_MS};
use kaijutsu_app::time::Moment;

const T0: Moment = Moment { nanos: 1_000_000_000 };

fn scalar(x: f32) -> Scalar {
    Scalar { bits: x.to_bits() }
}

fn held(keys: &[KeyCode]) -> HeldKeys {
    let mut held = HeldKeys::new();
    for key in keys {
        held.press(*key);
    }
    held
}

fn active(contexts: &[InputContext]) -> ActiveInputContexts {
    ActiveInputContexts { contexts: contexts.to_vec() }
}

fn press(key_code: KeyCode) -> KeyboardInput {
    KeyboardInput { key_code, logical_key: Key::Unidentified, pressed: true, repeat: false }
}

fn repeat(key_code: KeyCode) -> KeyboardInput {
    KeyboardInput { repeat: true, ..press(key_code) }
}

fn fired(action: Action, context: InputContext) -> ActionFired {
    ActionFired::new(action, context)
}

fn bindings() -> Vec<Binding> {
    vec![
        Binding::key(KeyCode::KeyQ, InputContext::Global, Action::Quit, "quit"),
        Binding::key(KeyCode::KeyQ, InputContext::Navigation, Action::Unfocus, "leave"),
        Binding::key_mod(
            KeyCode::KeyD,
            Modifiers::ctrl(),
            InputContext::Navigation,
            Action::HalfPageDown,
            "half page",
        ),
        Binding::gamepad(GamepadButton::South, InputContext::Navigation, Action::Activate, "go"),
    ]
}

fn one(
    event: KeyboardInput,
    keys: &HeldKeys,
    contexts: &ActiveInputContexts,
    grab: KeyboardGrab,
    prefix: &mut PrefixState,
) -> KeyOutcome {
    dispatch_key(&event, keys, &bindings(), contexts, grab, prefix, T0)
}

#[test]
fn the_most_specific_context_wins() {
    let none = HeldKeys::new();
    let both = active(&[InputContext::Global, InputContext::Navigation]);
    assert_eq!(
        find_direct_match(KeyCode::KeyQ, &none, &bindings(), false, &both),
        Some(fired(Action::Unfocus, InputContext::Navigation))
    );
    let global = active(&[InputContext::Global]);
    assert_eq!(
        find_direct_match(KeyCode::KeyQ, &none, &bindings(), false, &global),
        Some(fired(Action::Quit, InputContext::Global))
    );
    assert!(context_priority(InputContext::Dialog) > context_priority(InputContext::Global));
}

#[test]
fn modifiers_must_match_exactly() {
    let nav = active(&[InputContext::Navigation]);
    let with = |keys: &[KeyCode]| {
        find_direct_match(KeyCode::KeyD, &held(keys), &bindings(), false, &nav)
    };
    assert!(with(&[]).is_none());
    assert!(with(&[KeyCode::ControlLeft]).is_some());
    assert!(with(&[KeyCode::ControlRight]).is_some());
    assert!(with(&[KeyCode::ControlLeft, KeyCode::ShiftLeft]).is_none());
}

/// Under a grab only global bindings match; other keys go to who grabbed them.
#[test]
fn a_grab_takes_what_is_not_global() {
    let contexts = active(&[InputContext::Global, InputContext::Navigation]);
    let mut prefix = PrefixState::default();
    let none = HeldKeys::new();
    let grab = KeyboardGrab::EditorSession;
    assert_eq!(
        one(press(KeyCode::KeyQ), &none, &contexts, grab, &mut prefix),
        KeyOutcome::Fire(fired(Action::Quit, InputContext::Global))
    );
    assert_eq!(
        one(press(KeyCode::KeyX), &none, &contexts, grab, &mut prefix),
        KeyOutcome::Grab
    );
    assert_eq!(
        one(press(KeyCode::KeyX), &none, &contexts, KeyboardGrab::NoGrab, &mut prefix),
        KeyOutcome::Dropped
    );
}

#[test]
fn a_repeat_never_fires() {
    let contexts = active(&[InputContext::Global]);
    let mut prefix = PrefixState::default();
    let none = HeldKeys::new();
    let grab = KeyboardGrab::ComposeVim;
    assert_eq!(
        one(repeat(KeyCode::KeyQ), &none, &contexts, grab, &mut prefix),
        KeyOutcome::Dropped
    );
    assert_eq!(
        one(repeat(KeyCode::KeyX), &none, &contexts, grab, &mut prefix),
        KeyOutcome::Grab,
        "an unbound key repeats into the grab"
    );
}

#[test]
fn the_prefix_arms_and_swallows_the_next_key() {
    let contexts = active(&[InputContext::Global]);
    let mut prefix = PrefixState::default();
    let ctrl = held(&[KeyCode::ControlLeft]);
    let none = HeldKeys::new();
    let grab = KeyboardGrab::ComposeVim;
    assert_eq!(
        one(press(KeyCode::KeyA), &ctrl, &contexts, grab, &mut prefix),
        KeyOutcome::Dropped
    );
    assert!(prefix.armed());
    assert_eq!(
        one(press(KeyCode::ShiftLeft), &none, &contexts, grab, &mut prefix),
        KeyOutcome::Dropped
    );
    assert!(prefix.armed(), "a bare modifier does not resolve the prefix");
    assert_eq!(
        one(press(KeyCode::KeyW), &none, &contexts, grab, &mut prefix),
        KeyOutcome::Fire(fired(Action::GoToWell, InputContext::Global))
    );
    assert!(!prefix.armed());

    one(press(KeyCode::KeyA), &ctrl, &contexts, grab, &mut prefix);
    assert_eq!(
        one(press(KeyCode::KeyA), &none, &contexts, grab, &mut prefix),
        KeyOutcome::Literal
    );
    one(press(KeyCode::KeyA), &ctrl, &contexts, grab, &mut prefix);
    assert_eq!(
        one(press(KeyCode::KeyX), &none, &contexts, grab, &mut prefix),
        KeyOutcome::Dropped,
        "an unbound chord goes nowhere, not even to the grab"
    );
}

fn frame(events: Vec<KeyboardInput>) -> InputFrame {
    InputFrame {
        wheel: Vec::new(),
        middle_clicked: false,
        events,
        keys: HeldKeys::new(),
        gamepad: None,
    }
}

#[test]
fn a_frame_hands_on_everything_in_order() {
    let contexts = active(&[InputContext::Global, InputContext::Navigation]);
    let mut prefix = PrefixState::default();
    let frame = InputFrame {
        wheel: vec![scalar(-3.0)],
        middle_clicked: true,
        gamepad: Some(GamepadFrame {
            just_pressed: vec![GamepadButton::South],
            stick_scroll: Some(scalar(0.5)),
            stick_fly: None,
        }),
        ..frame(vec![press(KeyCode::KeyQ), press(KeyCode::KeyX)])
    };
    let grab = KeyboardGrab::ComposeVim;
    let out = dispatch_input(&frame, &bindings(), &contexts, grab, &mut prefix, T0);
    assert_eq!(
        out[..4],
        [
            Dispatched::Fire(fired(Action::ScrollDelta(scalar(-3.0)), InputContext::Global)),
            Dispatched::Fire(fired(Action::PastePrimary, InputContext::TextInput)),
            Dispatched::Fire(fired(Action::Quit, InputContext::Global)),
            Dispatched::Grab(1),
        ]
    );
    assert!(out[4..].contains(&Dispatched::Fire(fired(
        Action::Activate,
        InputContext::Navigation
    ))));
}

#[test]
fn a_middle_click_pastes_only_into_compose() {
    let contexts = active(&[InputContext::Global]);
    let mut prefix = PrefixState::default();
    let clicked = InputFrame { middle_clicked: true, ..frame(Vec::new()) };
    let out = dispatch_input(
        &clicked,
        &bindings(),
        &contexts,
        KeyboardGrab::NoGrab,
        &mut prefix,
        T0,
    );
    assert!(out.is_empty());
}

#[test]
fn an_old_prefix_lapses_before_the_frame() {
    let contexts = active(&[InputContext::Global]);
    let mut prefix = PrefixState::default();
    prefix.arm_at(T0);
    let later = Moment { nanos: T0.nanos + PREFIX_TIMEOUT_MS as i64 * 1_000_000 };
    let out = dispatch_input(
        &frame(vec![press(KeyCode::KeyW)]),
        &bindings(),
        &contexts,
        KeyboardGrab::NoGrab,
        &mut prefix,
        later,
    );
    assert!(out.is_empty() && !prefix.armed());
}

#[test]
fn the_default_table_navigates_with_j() {
    let table = default_bindings();
    assert!(!table.is_empty());
    let nav = active(&[InputContext::Global, InputContext::Navigation]);
    let down = find_direct_match(KeyCode::KeyJ, &HeldKeys::new(), &table, false, &nav);
    assert_eq!(down, Some(fired(Action::FocusNextBlock, InputContext::Navigation)));
}

#[test]
fn the_prefix_remembers_when_it_was_armed() {
    let contexts = active(&[InputContext::Global]);
    let mut prefix = PrefixState::default();
    let arming =
        InputFrame { keys: held(&[KeyCode::ControlLeft]), ..frame(vec![press(KeyCode::KeyA)]) };
    dispatch_input(&arming, &bindings(), &contexts, KeyboardGrab::NoGrab, &mut prefix, T0);
    assert_eq!(prefix.armed_at, Some(T0));
    let soon = Moment { nanos: T0.nanos + 1_000_000 };
    let waiting = frame(vec![press(KeyCode::ShiftLeft)]);
    dispatch_input(&waiting, &bindings(), &contexts, KeyboardGrab::NoGrab, &mut prefix, soon);
    assert_eq!(prefix.armed_at, Some(T0));
}
