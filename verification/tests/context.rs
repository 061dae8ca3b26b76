use kaijutsu_app::input::context::{
    derive_contexts, ApprovalSurfaces, InputContext, KeyboardGrab, Screen, Station,
};
use kaijutsu_app::input::focus::FocusArea;

#[test]
fn conversation_compose_grabs_for_vim() {
    let (ctxs, grab) = derive_contexts(Screen::Conversation, None, &FocusArea::Compose, false, surfaces(false, false));
    assert!(ctxs.contains(&InputContext::Global));
    assert!(ctxs.contains(&InputContext::TextInput));
    assert_eq!(grab, KeyboardGrab::ComposeVim);
}

#[test]
fn conversation_navigation_no_grab() {
    let (ctxs, grab) = derive_contexts(Screen::Conversation, None, &FocusArea::Conversation, false, surfaces(false, false));
    assert!(ctxs.contains(&InputContext::Navigation));
    assert!(!ctxs.contains(&InputContext::TextInput));
    assert_eq!(grab, KeyboardGrab::NoGrab);
}

#[test]
fn dialog_gets_both_contexts() {
    let (ctxs, grab) = derive_contexts(Screen::Conversation, None, &FocusArea::Dialog, false, surfaces(false, false));
    assert!(ctxs.contains(&InputContext::Dialog));
    assert!(ctxs.contains(&InputContext::TextInput));
    assert_eq!(grab, KeyboardGrab::NoGrab);
}

#[test]
fn editor_is_a_grab_with_global_only() {
    // Focus parks on Conversation while the editor owns the screen —
    // the grab must not depend on focus.
    let (ctxs, grab) = derive_contexts(Screen::Editor, None, &FocusArea::Conversation, false, surfaces(false, false));
    assert_eq!(ctxs, vec![InputContext::Global]);
    assert_eq!(grab, KeyboardGrab::EditorSession);
}

#[test]
fn diff_view_is_a_grab_with_global_only() {
    // Same contract as the editor: focus parks on Conversation while the
    // viewer owns the screen, so the grab must not depend on focus. Only
    // Global stays matchable — in particular Navigation must NOT, or `q`
    // would fire the app's Quit binding instead of reaching DiffCore.
    let (ctxs, grab) = derive_contexts(Screen::Diff, None, &FocusArea::Conversation, false, surfaces(false, false));
    assert_eq!(ctxs, vec![InputContext::Global]);
    assert_eq!(grab, KeyboardGrab::DiffView);
}

#[test]
fn diff_view_grab_holds_even_with_compose_focus() {
    // A stale FocusArea::Compose (e.g. the viewer opened from a state that
    // hadn't parked focus yet) must not hand the keyboard to the compose
    // VimMachine — the screen decides, not the focus.
    let (_, grab) = derive_contexts(Screen::Diff, None, &FocusArea::Compose, false, surfaces(false, false));
    assert_eq!(grab, KeyboardGrab::DiffView);
}

#[test]
fn room_unzoomed_is_carousel() {
    let (ctxs, grab) = derive_contexts(Screen::Room, None, &FocusArea::Conversation, false, surfaces(false, false));
    assert!(ctxs.contains(&InputContext::RoomNav));
    assert!(!ctxs.contains(&InputContext::Navigation));
    assert_eq!(grab, KeyboardGrab::NoGrab);
}

#[test]
fn room_zoomed_well() {
    let (ctxs, _) = derive_contexts(
        Screen::Room,
        Some(Station::TimeWell),
        &FocusArea::Conversation,
        false,
        surfaces(false, false),
    );
    assert!(ctxs.contains(&InputContext::WellZoomed));
    assert!(!ctxs.contains(&InputContext::RoomNav));
}

#[test]
fn room_zoomed_plain_station() {
    let (ctxs, _) = derive_contexts(
        Screen::Room,
        Some(Station::Radiators),
        &FocusArea::Conversation,
        false,
        surfaces(false, false),
    );
    assert!(ctxs.contains(&InputContext::StationZoomed));
    assert!(!ctxs.contains(&InputContext::WellZoomed));
}

/// A held quick-context overlay adds its context ON TOP of whatever
/// surface is underneath, on every screen — it floats, so it must not be
/// a state of any one surface.
#[test]
fn a_held_overlay_layers_over_every_surface() {
    for (screen, zoomed, under) in [
        (Screen::Conversation, None, InputContext::Navigation),
        (Screen::Room, None, InputContext::RoomNav),
        (
            Screen::Room,
            Some(Station::TimeWell),
            InputContext::WellZoomed,
        ),
    ] {
        let (ctxs, _) = derive_contexts(screen, zoomed, &FocusArea::Conversation, true, surfaces(false, false));
        assert!(
            ctxs.contains(&InputContext::QuickContext),
            "held overlay missing on {screen:?}"
        );
        assert!(
            ctxs.contains(&under),
            "the surface under the overlay must stay live on {screen:?}"
        );
    }
}

/// Releasing the hold takes the context away again — nothing lingers to
/// swallow a later Esc.
#[test]
fn a_released_overlay_leaves_no_context_behind() {
    let (ctxs, _) = derive_contexts(Screen::Room, None, &FocusArea::Conversation, false, surfaces(false, false));
    assert!(!ctxs.contains(&InputContext::QuickContext));
}

/// The four approval-surface cases the tests below exercise.
fn surfaces(sheet: bool, ribbon: bool) -> ApprovalSurfaces {
    ApprovalSurfaces { sheet, ribbon }
}

/// A vi surface still owns the keyboard with the overlay held: the grab
/// is unchanged, and under a grab only `Global` bindings match, so the
/// overlay's Esc never reaches vi's.
#[test]
fn a_held_overlay_never_steals_the_keyboard_from_vi() {
    let (_, grab) = derive_contexts(Screen::Editor, None, &FocusArea::Conversation, true, surfaces(false, false));
    assert_eq!(grab, KeyboardGrab::EditorSession);
    let (_, grab) = derive_contexts(Screen::Conversation, None, &FocusArea::Compose, true, surfaces(false, false));
    assert_eq!(grab, KeyboardGrab::ComposeVim);
}

// ── the approval surfaces ─────────────────────────────────────────────

/// The sheet owns the keyboard outright: only its own context is
/// derived, and the compose grab is SUSPENDED — that suspension is what
/// holds typed text, so `a` on the sheet is an allow and never an `a`
/// in the draft.
#[test]
fn the_ask_sheet_owns_the_keyboard_and_suspends_the_compose_grab() {
    let (ctxs, grab) = derive_contexts(
        Screen::Conversation,
        None,
        &FocusArea::Compose,
        false,
        surfaces(true, false),
    );
    assert_eq!(ctxs, vec![InputContext::Global, InputContext::AskSheet]);
    assert_eq!(grab, KeyboardGrab::NoGrab, "typed text is held, not grabbed");
}

/// The sheet raises on the room too — the switchboard lamp says an ask
/// is waiting there, so the answer must be reachable without leaving.
#[test]
fn the_ask_sheet_layers_over_the_room_as_well() {
    let (ctxs, grab) = derive_contexts(
        Screen::Room,
        Some(Station::TimeWell),
        &FocusArea::Conversation,
        false,
        surfaces(true, false),
    );
    assert_eq!(ctxs, vec![InputContext::Global, InputContext::AskSheet]);
    assert!(
        !ctxs.contains(&InputContext::WellZoomed),
        "the well's own keys must not fight the sheet's"
    );
    assert_eq!(grab, KeyboardGrab::NoGrab);
}

/// A vi surface owns the keys where it is live, so neither approval
/// surface is derived on `Editor` or `Diff` — even if one were somehow
/// flagged up, the grab wins and the contexts stay the vi ones.
#[test]
fn no_approval_surface_takes_keys_from_a_vi_screen() {
    for (screen, expected) in [
        (Screen::Editor, KeyboardGrab::EditorSession),
        (Screen::Diff, KeyboardGrab::DiffView),
    ] {
        for surface in [surfaces(true, false), surfaces(false, true)] {
            let (ctxs, grab) =
                derive_contexts(screen, None, &FocusArea::Conversation, false, surface);
            assert_eq!(ctxs, vec![InputContext::Global], "{screen:?} {surface:?}");
            assert_eq!(grab, expected, "{screen:?} {surface:?}");
        }
    }
}

/// The ribbon is what `v` on the sheet opens, so while both are up the
/// ribbon has the keys and the sheet waits behind it.
#[test]
fn the_ribbon_outranks_the_sheet_while_both_are_up() {
    let (ctxs, grab) = derive_contexts(
        Screen::Conversation,
        None,
        &FocusArea::Conversation,
        false,
        surfaces(true, true),
    );
    assert_eq!(ctxs, vec![InputContext::Global, InputContext::LedgerRibbon]);
    assert_eq!(grab, KeyboardGrab::NoGrab);
}

/// A modal outranks everything, the one rule the approval surfaces do
/// not get to break.
#[test]
fn a_dialog_still_outranks_an_approval_surface() {
    let (ctxs, _) = derive_contexts(
        Screen::Conversation,
        None,
        &FocusArea::Dialog,
        false,
        surfaces(true, false),
    );
    assert!(ctxs.contains(&InputContext::Dialog));
    assert!(ctxs.contains(&InputContext::AskSheet));
}

/// Down again, nothing lingers: the ordinary surface contexts and the
/// compose grab come straight back.
#[test]
fn dismissing_the_sheet_restores_the_surface_underneath() {
    let (ctxs, grab) = derive_contexts(
        Screen::Conversation,
        None,
        &FocusArea::Compose,
        false,
        surfaces(false, false),
    );
    assert!(ctxs.contains(&InputContext::TextInput));
    assert!(!ctxs.contains(&InputContext::AskSheet));
    assert_eq!(grab, KeyboardGrab::ComposeVim);
}
