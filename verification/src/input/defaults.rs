//! Default key bindings: the out-of-box binding table.

use vstd::prelude::*;
use vstd::string::*;
use crate::input::action::Action;
use crate::input::binding::{Binding, BindingView, InputSource, Modifiers};
use crate::input::context::InputContext;
use crate::input::keys::{GamepadButton, KeyCode};
use crate::strutil;

verus! {

/// A row of the table: a key with modifiers.
pub open spec fn key_row(
    key: KeyCode,
    modifiers: Modifiers,
    context: InputContext,
    action: Action,
    description: &str,
) -> BindingView {
    BindingView {
        source: InputSource::Key(key),
        modifiers,
        context,
        action,
        description: description@,
        sequence_prefix: None,
    }
}

/// A row of the table: a gamepad button.
pub open spec fn pad_row(
    button: GamepadButton,
    context: InputContext,
    action: Action,
    description: &str,
) -> BindingView {
    BindingView {
        source: InputSource::GamepadButton(button),
        modifiers: Modifiers::none(),
        context,
        action,
        description: description@,
        sequence_prefix: None,
    }
}

/// The views of a list of bindings.
pub open spec fn binding_views(bindings: Seq<Binding>) -> Seq<BindingView> {
    bindings.map_values(|b: Binding| b@)
}

/// The key of a digit.
pub open spec fn digit_key(n: int) -> KeyCode {
    if n == 0 {
        KeyCode::Digit0
    } else if n == 1 {
        KeyCode::Digit1
    } else if n == 2 {
        KeyCode::Digit2
    } else if n == 3 {
        KeyCode::Digit3
    } else if n == 4 {
        KeyCode::Digit4
    } else if n == 5 {
        KeyCode::Digit5
    } else if n == 6 {
        KeyCode::Digit6
    } else if n == 7 {
        KeyCode::Digit7
    } else if n == 8 {
        KeyCode::Digit8
    } else {
        KeyCode::Digit9
    }
}

/// In the well, digit `n` jumps to seat `n` of the focused ring.
pub open spec fn digit_row(n: int) -> BindingView {
    BindingView {
        source: InputSource::Key(digit_key(n)),
        modifiers: Modifiers::none(),
        context: InputContext::WellZoomed,
        action: Action::JumpSeat(n as usize),
        description: "Jump to seat "@ + strutil::digits_of(n as nat),
        sequence_prefix: None,
    }
}

/// Global: always active, regardless of focus.
pub open spec fn global_rows() -> Seq<BindingView> {
    seq![
        key_row(KeyCode::F1, Modifiers::none(), InputContext::Global, Action::DebugToggle, "Toggle debug overlay"),
        key_row(KeyCode::F12, Modifiers::none(), InputContext::Global, Action::Screenshot, "Save screenshot"),
        key_row(KeyCode::KeyH, Modifiers::alt(), InputContext::Global, Action::FocusPaneLeft, "Focus pane left"),
        key_row(KeyCode::KeyJ, Modifiers::alt(), InputContext::Global, Action::FocusPaneDown, "Focus pane below"),
        key_row(KeyCode::KeyK, Modifiers::alt(), InputContext::Global, Action::FocusPaneUp, "Focus pane above"),
        key_row(KeyCode::KeyL, Modifiers::alt(), InputContext::Global, Action::FocusPaneRight, "Focus pane right"),
        key_row(KeyCode::KeyV, Modifiers::alt(), InputContext::Global, Action::SplitVertical, "Split pane vertical"),
        key_row(KeyCode::KeyS, Modifiers::alt(), InputContext::Global, Action::SplitHorizontal, "Split pane horizontal"),
        key_row(KeyCode::KeyQ, Modifiers::alt(), InputContext::Global, Action::ClosePane, "Close pane"),
        key_row(KeyCode::BracketLeft, Modifiers::alt(), InputContext::Global, Action::ShrinkPane, "Shrink pane"),
        key_row(KeyCode::BracketRight, Modifiers::alt(), InputContext::Global, Action::GrowPane, "Grow pane"),
        key_row(KeyCode::Digit6, Modifiers::ctrl(), InputContext::Global, Action::TogglePreviousPaneFocus, "Toggle previous pane focus"),
    ]
}

/// Navigation: conversation block list focused.
pub open spec fn navigation_rows() -> Seq<BindingView> {
    seq![
        key_row(KeyCode::KeyJ, Modifiers::none(), InputContext::Navigation, Action::FocusNextBlock, "Next block"),
        key_row(KeyCode::KeyK, Modifiers::none(), InputContext::Navigation, Action::FocusPrevBlock, "Previous block"),
        key_row(KeyCode::KeyG, Modifiers::shift(), InputContext::Navigation, Action::FocusLastBlock, "Last block"),
        key_row(KeyCode::Home, Modifiers::none(), InputContext::Navigation, Action::FocusFirstBlock, "First block"),
        key_row(KeyCode::End, Modifiers::none(), InputContext::Navigation, Action::FocusLastBlock, "Last block"),
        key_row(KeyCode::KeyX, Modifiers::none(), InputContext::Navigation, Action::ToggleBlockExcluded, "Toggle block excluded"),
        key_row(KeyCode::Tab, Modifiers::none(), InputContext::Navigation, Action::CycleFocusForward, "Cycle focus forward"),
        key_row(KeyCode::Tab, Modifiers::shift(), InputContext::Navigation, Action::CycleFocusBackward, "Cycle focus backward"),
        key_row(KeyCode::KeyI, Modifiers::none(), InputContext::Navigation, Action::SummonChat, "Summon chat input"),
        key_row(KeyCode::Space, Modifiers::none(), InputContext::Navigation, Action::SummonChat, "Summon chat input"),
        key_row(KeyCode::KeyZ, Modifiers::ctrl(), InputContext::Navigation, Action::ToggleSurface, "Toggle shell/chat surface"),
        key_row(KeyCode::Enter, Modifiers::none(), InputContext::Navigation, Action::Activate, "Activate focused block"),
        key_row(KeyCode::Escape, Modifiers::none(), InputContext::Navigation, Action::PopLevel, "Pop view"),
        key_row(KeyCode::KeyC, Modifiers::ctrl(), InputContext::Navigation, Action::InterruptContext { immediate: false }, "Interrupt context"),
        key_row(KeyCode::KeyC, Modifiers::none(), InputContext::Navigation, Action::CollapseToggle, "Toggle collapse"),
        key_row(KeyCode::KeyD, Modifiers::ctrl(), InputContext::Navigation, Action::HalfPageDown, "Half page down"),
        key_row(KeyCode::KeyU, Modifiers::ctrl(), InputContext::Navigation, Action::HalfPageUp, "Half page up"),
        key_row(KeyCode::Home, Modifiers::ctrl(), InputContext::Navigation, Action::ScrollToTop, "Scroll to top"),
        key_row(KeyCode::End, Modifiers::ctrl(), InputContext::Navigation, Action::ScrollToEnd, "Scroll to end"),
    ]
}

/// Dialog: modal dialog open.
pub open spec fn dialog_rows() -> Seq<BindingView> {
    seq![
        key_row(KeyCode::Escape, Modifiers::none(), InputContext::Dialog, Action::PopLevel, "Cancel dialog"),
        key_row(KeyCode::Enter, Modifiers::none(), InputContext::Dialog, Action::Activate, "Confirm dialog"),
        key_row(KeyCode::Tab, Modifiers::none(), InputContext::Dialog, Action::CycleFocusForward, "Cycle form field"),
        key_row(KeyCode::Tab, Modifiers::shift(), InputContext::Dialog, Action::CycleFocusBackward, "Cycle form field backward"),
        key_row(KeyCode::KeyJ, Modifiers::none(), InputContext::Dialog, Action::FocusNextBlock, "Next item"),
        key_row(KeyCode::KeyK, Modifiers::none(), InputContext::Dialog, Action::FocusPrevBlock, "Previous item"),
        key_row(KeyCode::ArrowDown, Modifiers::none(), InputContext::Dialog, Action::FocusNextBlock, "Next item"),
        key_row(KeyCode::ArrowUp, Modifiers::none(), InputContext::Dialog, Action::FocusPrevBlock, "Previous item"),
        key_row(KeyCode::Backspace, Modifiers::none(), InputContext::Dialog, Action::Backspace, "Backspace"),
    ]
}

/// RoomNav: the station carousel.
pub open spec fn room_rows() -> Seq<BindingView> {
    seq![
        key_row(KeyCode::ArrowRight, Modifiers::none(), InputContext::RoomNav, Action::StepNext, "Next station"),
        key_row(KeyCode::Tab, Modifiers::none(), InputContext::RoomNav, Action::StepNext, "Next station"),
        key_row(KeyCode::ArrowLeft, Modifiers::none(), InputContext::RoomNav, Action::StepPrev, "Previous station"),
        key_row(KeyCode::Enter, Modifiers::none(), InputContext::RoomNav, Action::Activate, "Dive into station"),
        key_row(KeyCode::ArrowDown, Modifiers::none(), InputContext::RoomNav, Action::Activate, "Dive into station"),
        key_row(KeyCode::Escape, Modifiers::none(), InputContext::RoomNav, Action::PopLevel, "Back to conversation"),
    ]
}

/// WellZoomed: the time well.
pub open spec fn well_rows() -> Seq<BindingView> {
    seq![
        key_row(KeyCode::ArrowRight, Modifiers::none(), InputContext::WellZoomed, Action::StepNext, "Spin ring forward"),
        key_row(KeyCode::Tab, Modifiers::none(), InputContext::WellZoomed, Action::StepNext, "Spin ring forward"),
        key_row(KeyCode::ArrowLeft, Modifiers::none(), InputContext::WellZoomed, Action::StepPrev, "Spin ring backward"),
        key_row(KeyCode::ArrowUp, Modifiers::none(), InputContext::WellZoomed, Action::LevelUp, "Shallower ring / hero pose"),
        key_row(KeyCode::ArrowDown, Modifiers::none(), InputContext::WellZoomed, Action::LevelDown, "Deeper ring"),
        key_row(KeyCode::Enter, Modifiers::none(), InputContext::WellZoomed, Action::Activate, "Focus / commit"),
        key_row(KeyCode::Escape, Modifiers::none(), InputContext::WellZoomed, Action::PopLevel, "Back out / leave well"),
    ]
}

/// WellZoomed: the digits.
pub open spec fn digit_rows() -> Seq<BindingView> {
    Seq::new(10, |n: int| digit_row(n))
}

/// WellZoomed: the time well: verbs and legend.
pub open spec fn well_verbs_rows() -> Seq<BindingView> {
    seq![
        key_row(KeyCode::KeyP, Modifiers::none(), InputContext::WellZoomed, Action::Promote, "Promote to active ring"),
        key_row(KeyCode::KeyD, Modifiers::none(), InputContext::WellZoomed, Action::Demote, "Demote one step outward"),
        key_row(KeyCode::KeyC, Modifiers::none(), InputContext::WellZoomed, Action::Conclude, "Conclude context"),
        key_row(KeyCode::KeyZ, Modifiers::none(), InputContext::WellZoomed, Action::PauseToggle, "Toggle paused"),
        key_row(KeyCode::KeyA, Modifiers::none(), InputContext::WellZoomed, Action::Archive, "Archive past the horizon"),
        key_row(KeyCode::Slash, Modifiers::none(), InputContext::WellZoomed, Action::ToggleLegend, "Toggle legend"),
        key_row(KeyCode::Slash, Modifiers::shift(), InputContext::WellZoomed, Action::ToggleLegend, "Toggle legend"),
    ]
}

/// PatchBayZoomed: the patch bay.
pub open spec fn patch_bay_rows() -> Seq<BindingView> {
    seq![
        key_row(KeyCode::ArrowRight, Modifiers::none(), InputContext::PatchBayZoomed, Action::StepNext, "Next wire"),
        key_row(KeyCode::Tab, Modifiers::none(), InputContext::PatchBayZoomed, Action::StepNext, "Next wire"),
        key_row(KeyCode::ArrowLeft, Modifiers::none(), InputContext::PatchBayZoomed, Action::StepPrev, "Previous wire"),
        key_row(KeyCode::KeyR, Modifiers::none(), InputContext::PatchBayZoomed, Action::Rescan, "Rescan ALSA graph"),
        key_row(KeyCode::ArrowUp, Modifiers::none(), InputContext::PatchBayZoomed, Action::PopLevel, "Back to room"),
        key_row(KeyCode::Escape, Modifiers::none(), InputContext::PatchBayZoomed, Action::PopLevel, "Back to room"),
    ]
}

/// StationZoomed and FsnFly: scenes with no keyboard of their own.
pub open spec fn station_rows() -> Seq<BindingView> {
    seq![
        key_row(KeyCode::ArrowUp, Modifiers::none(), InputContext::StationZoomed, Action::PopLevel, "Back to room"),
        key_row(KeyCode::Escape, Modifiers::none(), InputContext::StationZoomed, Action::PopLevel, "Back to room"),
        key_row(KeyCode::Escape, Modifiers::none(), InputContext::FsnFly, Action::PopLevel, "Back to room"),
    ]
}

/// Gamepad in the scenes: the d-pad steps, South dives or commits.
pub open spec fn pad_scenes_rows() -> Seq<BindingView> {
    seq![
        pad_row(GamepadButton::DPadRight, InputContext::RoomNav, Action::StepNext, "Step forward"),
        pad_row(GamepadButton::DPadLeft, InputContext::RoomNav, Action::StepPrev, "Step backward"),
        pad_row(GamepadButton::DPadRight, InputContext::WellZoomed, Action::StepNext, "Step forward"),
        pad_row(GamepadButton::DPadLeft, InputContext::WellZoomed, Action::StepPrev, "Step backward"),
        pad_row(GamepadButton::DPadRight, InputContext::PatchBayZoomed, Action::StepNext, "Step forward"),
        pad_row(GamepadButton::DPadLeft, InputContext::PatchBayZoomed, Action::StepPrev, "Step backward"),
        pad_row(GamepadButton::South, InputContext::RoomNav, Action::Activate, "Dive into station"),
        pad_row(GamepadButton::South, InputContext::WellZoomed, Action::Activate, "Focus / commit"),
        pad_row(GamepadButton::DPadUp, InputContext::WellZoomed, Action::LevelUp, "Shallower ring"),
        pad_row(GamepadButton::DPadDown, InputContext::WellZoomed, Action::LevelDown, "Deeper ring"),
        pad_row(GamepadButton::DPadDown, InputContext::RoomNav, Action::Activate, "Dive into station"),
    ]
}

/// Gamepad everywhere else.
pub open spec fn pad_common_rows() -> Seq<BindingView> {
    seq![
        pad_row(GamepadButton::South, InputContext::Navigation, Action::Activate, "Activate"),
        pad_row(GamepadButton::South, InputContext::Dialog, Action::Activate, "Confirm"),
        pad_row(GamepadButton::East, InputContext::Global, Action::PopLevel, "Back / pop level"),
        pad_row(GamepadButton::Start, InputContext::Global, Action::GoToWell, "Go to the well"),
        pad_row(GamepadButton::DPadUp, InputContext::Navigation, Action::FocusPrevBlock, "Previous block"),
        pad_row(GamepadButton::DPadDown, InputContext::Navigation, Action::FocusNextBlock, "Next block"),
        pad_row(GamepadButton::DPadUp, InputContext::Dialog, Action::FocusPrevBlock, "Previous item"),
        pad_row(GamepadButton::DPadDown, InputContext::Dialog, Action::FocusNextBlock, "Next item"),
        pad_row(GamepadButton::LeftTrigger, InputContext::Navigation, Action::HalfPageUp, "Page up"),
        pad_row(GamepadButton::RightTrigger, InputContext::Navigation, Action::HalfPageDown, "Page down"),
        pad_row(GamepadButton::North, InputContext::Navigation, Action::CycleFocusForward, "Cycle focus"),
    ]
}

/// The default binding table for keyboard and gamepad.
pub open spec fn default_table() -> Seq<BindingView> {
    global_rows()
        + navigation_rows()
        + dialog_rows()
        + room_rows()
        + well_rows()
        + digit_rows()
        + well_verbs_rows()
        + patch_bay_rows()
        + station_rows()
        + pad_scenes_rows()
        + pad_common_rows()
}

proof fn lemma_views_push(bindings: Seq<Binding>, b: Binding)
    ensures
        binding_views(bindings.push(b)) == binding_views(bindings).push(b@),
{
    assert(binding_views(bindings.push(b)) =~= binding_views(bindings).push(b@));
}

/// Append a binding to a table.
fn bind(table: &mut Vec<Binding>, b: Binding)
    ensures
        binding_views(final(table)@) == binding_views(old(table)@).push(b@),
{
    proof {
        lemma_views_push(table@, b);
    }
    table.push(b);
}

fn add_global_rows(t: &mut Vec<Binding>)
    ensures
        binding_views(final(t)@) == binding_views(old(t)@) + global_rows(),
{
    let ghost before = binding_views(t@);
    bind(t, Binding::key(KeyCode::F1, InputContext::Global, Action::DebugToggle, "Toggle debug overlay"));
    bind(t, Binding::key(KeyCode::F12, InputContext::Global, Action::Screenshot, "Save screenshot"));
    bind(t, Binding::key_mod(KeyCode::KeyH, Modifiers::alt(), InputContext::Global, Action::FocusPaneLeft, "Focus pane left"));
    bind(t, Binding::key_mod(KeyCode::KeyJ, Modifiers::alt(), InputContext::Global, Action::FocusPaneDown, "Focus pane below"));
    bind(t, Binding::key_mod(KeyCode::KeyK, Modifiers::alt(), InputContext::Global, Action::FocusPaneUp, "Focus pane above"));
    bind(t, Binding::key_mod(KeyCode::KeyL, Modifiers::alt(), InputContext::Global, Action::FocusPaneRight, "Focus pane right"));
    bind(t, Binding::key_mod(KeyCode::KeyV, Modifiers::alt(), InputContext::Global, Action::SplitVertical, "Split pane vertical"));
    bind(t, Binding::key_mod(KeyCode::KeyS, Modifiers::alt(), InputContext::Global, Action::SplitHorizontal, "Split pane horizontal"));
    bind(t, Binding::key_mod(KeyCode::KeyQ, Modifiers::alt(), InputContext::Global, Action::ClosePane, "Close pane"));
    bind(t, Binding::key_mod(KeyCode::BracketLeft, Modifiers::alt(), InputContext::Global, Action::ShrinkPane, "Shrink pane"));
    bind(t, Binding::key_mod(KeyCode::BracketRight, Modifiers::alt(), InputContext::Global, Action::GrowPane, "Grow pane"));
    bind(t, Binding::key_mod(KeyCode::Digit6, Modifiers::ctrl(), InputContext::Global, Action::TogglePreviousPaneFocus, "Toggle previous pane focus"));
    assert(binding_views(t@) =~= before + global_rows());
}

fn add_navigation_rows(t: &mut Vec<Binding>)
    ensures
        binding_views(final(t)@) == binding_views(old(t)@) + navigation_rows(),
{
    let ghost before = binding_views(t@);
    bind(t, Binding::key(KeyCode::KeyJ, InputContext::Navigation, Action::FocusNextBlock, "Next block"));
    bind(t, Binding::key(KeyCode::KeyK, InputContext::Navigation, Action::FocusPrevBlock, "Previous block"));
    bind(t, Binding::key_mod(KeyCode::KeyG, Modifiers::shift(), InputContext::Navigation, Action::FocusLastBlock, "Last block"));
    bind(t, Binding::key(KeyCode::Home, InputContext::Navigation, Action::FocusFirstBlock, "First block"));
    bind(t, Binding::key(KeyCode::End, InputContext::Navigation, Action::FocusLastBlock, "Last block"));
    bind(t, Binding::key(KeyCode::KeyX, InputContext::Navigation, Action::ToggleBlockExcluded, "Toggle block excluded"));
    bind(t, Binding::key(KeyCode::Tab, InputContext::Navigation, Action::CycleFocusForward, "Cycle focus forward"));
    bind(t, Binding::key_mod(KeyCode::Tab, Modifiers::shift(), InputContext::Navigation, Action::CycleFocusBackward, "Cycle focus backward"));
    bind(t, Binding::key(KeyCode::KeyI, InputContext::Navigation, Action::SummonChat, "Summon chat input"));
    bind(t, Binding::key(KeyCode::Space, InputContext::Navigation, Action::SummonChat, "Summon chat input"));
    bind(t, Binding::key_mod(KeyCode::KeyZ, Modifiers::ctrl(), InputContext::Navigation, Action::ToggleSurface, "Toggle shell/chat surface"));
    bind(t, Binding::key(KeyCode::Enter, InputContext::Navigation, Action::Activate, "Activate focused block"));
    bind(t, Binding::key(KeyCode::Escape, InputContext::Navigation, Action::PopLevel, "Pop view"));
    bind(t, Binding::key_mod(KeyCode::KeyC, Modifiers::ctrl(), InputContext::Navigation, Action::InterruptContext { immediate: false }, "Interrupt context"));
    bind(t, Binding::key(KeyCode::KeyC, InputContext::Navigation, Action::CollapseToggle, "Toggle collapse"));
    bind(t, Binding::key_mod(KeyCode::KeyD, Modifiers::ctrl(), InputContext::Navigation, Action::HalfPageDown, "Half page down"));
    bind(t, Binding::key_mod(KeyCode::KeyU, Modifiers::ctrl(), InputContext::Navigation, Action::HalfPageUp, "Half page up"));
    bind(t, Binding::key_mod(KeyCode::Home, Modifiers::ctrl(), InputContext::Navigation, Action::ScrollToTop, "Scroll to top"));
    bind(t, Binding::key_mod(KeyCode::End, Modifiers::ctrl(), InputContext::Navigation, Action::ScrollToEnd, "Scroll to end"));
    assert(binding_views(t@) =~= before + navigation_rows());
}

fn add_dialog_rows(t: &mut Vec<Binding>)
    ensures
        binding_views(final(t)@) == binding_views(old(t)@) + dialog_rows(),
{
    let ghost before = binding_views(t@);
    bind(t, Binding::key(KeyCode::Escape, InputContext::Dialog, Action::PopLevel, "Cancel dialog"));
    bind(t, Binding::key(KeyCode::Enter, InputContext::Dialog, Action::Activate, "Confirm dialog"));
    bind(t, Binding::key(KeyCode::Tab, InputContext::Dialog, Action::CycleFocusForward, "Cycle form field"));
    bind(t, Binding::key_mod(KeyCode::Tab, Modifiers::shift(), InputContext::Dialog, Action::CycleFocusBackward, "Cycle form field backward"));
    bind(t, Binding::key(KeyCode::KeyJ, InputContext::Dialog, Action::FocusNextBlock, "Next item"));
    bind(t, Binding::key(KeyCode::KeyK, InputContext::Dialog, Action::FocusPrevBlock, "Previous item"));
    bind(t, Binding::key(KeyCode::ArrowDown, InputContext::Dialog, Action::FocusNextBlock, "Next item"));
    bind(t, Binding::key(KeyCode::ArrowUp, InputContext::Dialog, Action::FocusPrevBlock, "Previous item"));
    bind(t, Binding::key(KeyCode::Backspace, InputContext::Dialog, Action::Backspace, "Backspace"));
    assert(binding_views(t@) =~= before + dialog_rows());
}

fn add_room_rows(t: &mut Vec<Binding>)
    ensures
        binding_views(final(t)@) == binding_views(old(t)@) + room_rows(),
{
    let ghost before = binding_views(t@);
    bind(t, Binding::key(KeyCode::ArrowRight, InputContext::RoomNav, Action::StepNext, "Next station"));
    bind(t, Binding::key(KeyCode::Tab, InputContext::RoomNav, Action::StepNext, "Next station"));
    bind(t, Binding::key(KeyCode::ArrowLeft, InputContext::RoomNav, Action::StepPrev, "Previous station"));
    bind(t, Binding::key(KeyCode::Enter, InputContext::RoomNav, Action::Activate, "Dive into station"));
    bind(t, Binding::key(KeyCode::ArrowDown, InputContext::RoomNav, Action::Activate, "Dive into station"));
    bind(t, Binding::key(KeyCode::Escape, InputContext::RoomNav, Action::PopLevel, "Back to conversation"));
    assert(binding_views(t@) =~= before + room_rows());
}

fn add_well_rows(t: &mut Vec<Binding>)
    ensures
        binding_views(final(t)@) == binding_views(old(t)@) + well_rows(),
{
    let ghost before = binding_views(t@);
    bind(t, Binding::key(KeyCode::ArrowRight, InputContext::WellZoomed, Action::StepNext, "Spin ring forward"));
    bind(t, Binding::key(KeyCode::Tab, InputContext::WellZoomed, Action::StepNext, "Spin ring forward"));
    bind(t, Binding::key(KeyCode::ArrowLeft, InputContext::WellZoomed, Action::StepPrev, "Spin ring backward"));
    bind(t, Binding::key(KeyCode::ArrowUp, InputContext::WellZoomed, Action::LevelUp, "Shallower ring / hero pose"));
    bind(t, Binding::key(KeyCode::ArrowDown, InputContext::WellZoomed, Action::LevelDown, "Deeper ring"));
    bind(t, Binding::key(KeyCode::Enter, InputContext::WellZoomed, Action::Activate, "Focus / commit"));
    bind(t, Binding::key(KeyCode::Escape, InputContext::WellZoomed, Action::PopLevel, "Back out / leave well"));
    assert(binding_views(t@) =~= before + well_rows());
}

fn digit_code(n: usize) -> (key: KeyCode)
    requires
        n < 10,
    ensures
        key == digit_key(n as int),
{
    match n {
        0 => KeyCode::Digit0,
        1 => KeyCode::Digit1,
        2 => KeyCode::Digit2,
        3 => KeyCode::Digit3,
        4 => KeyCode::Digit4,
        5 => KeyCode::Digit5,
        6 => KeyCode::Digit6,
        7 => KeyCode::Digit7,
        8 => KeyCode::Digit8,
        _ => KeyCode::Digit9,
    }
}

fn add_digit_rows(t: &mut Vec<Binding>)
    ensures
        binding_views(final(t)@) == binding_views(old(t)@) + digit_rows(),
{
    let ghost before = binding_views(t@);
    let mut n: usize = 0;
    assert(before =~= before + digit_rows().take(0));
    while n < 10
        invariant
            n <= 10,
            binding_views(t@) == before + digit_rows().take(n as int),
        decreases 10 - n,
    {
        let mut label: String = "Jump to seat ".to_owned();
        let number = strutil::decimal(n);
        label.append(number.as_str());
        bind(
            t,
            Binding::key(
                digit_code(n),
                InputContext::WellZoomed,
                Action::JumpSeat(n),
                label.as_str(),
            ),
        );
        proof {
            assert(digit_rows().take(n + 1) =~= digit_rows().take(n as int).push(
                digit_row(n as int),
            ));
            assert(binding_views(t@) =~= before + digit_rows().take(n + 1));
        }
        n = n + 1;
    }
    assert(digit_rows().take(10) =~= digit_rows());
}

fn add_well_verbs_rows(t: &mut Vec<Binding>)
    ensures
        binding_views(final(t)@) == binding_views(old(t)@) + well_verbs_rows(),
{
    let ghost before = binding_views(t@);
    bind(t, Binding::key(KeyCode::KeyP, InputContext::WellZoomed, Action::Promote, "Promote to active ring"));
    bind(t, Binding::key(KeyCode::KeyD, InputContext::WellZoomed, Action::Demote, "Demote one step outward"));
    bind(t, Binding::key(KeyCode::KeyC, InputContext::WellZoomed, Action::Conclude, "Conclude context"));
    bind(t, Binding::key(KeyCode::KeyZ, InputContext::WellZoomed, Action::PauseToggle, "Toggle paused"));
    bind(t, Binding::key(KeyCode::KeyA, InputContext::WellZoomed, Action::Archive, "Archive past the horizon"));
    bind(t, Binding::key(KeyCode::Slash, InputContext::WellZoomed, Action::ToggleLegend, "Toggle legend"));
    bind(t, Binding::key_mod(KeyCode::Slash, Modifiers::shift(), InputContext::WellZoomed, Action::ToggleLegend, "Toggle legend"));
    assert(binding_views(t@) =~= before + well_verbs_rows());
}

fn add_patch_bay_rows(t: &mut Vec<Binding>)
    ensures
        binding_views(final(t)@) == binding_views(old(t)@) + patch_bay_rows(),
{
    let ghost before = binding_views(t@);
    bind(t, Binding::key(KeyCode::ArrowRight, InputContext::PatchBayZoomed, Action::StepNext, "Next wire"));
    bind(t, Binding::key(KeyCode::Tab, InputContext::PatchBayZoomed, Action::StepNext, "Next wire"));
    bind(t, Binding::key(KeyCode::ArrowLeft, InputContext::PatchBayZoomed, Action::StepPrev, "Previous wire"));
    bind(t, Binding::key(KeyCode::KeyR, InputContext::PatchBayZoomed, Action::Rescan, "Rescan ALSA graph"));
    bind(t, Binding::key(KeyCode::ArrowUp, InputContext::PatchBayZoomed, Action::PopLevel, "Back to room"));
    bind(t, Binding::key(KeyCode::Escape, InputContext::PatchBayZoomed, Action::PopLevel, "Back to room"));
    assert(binding_views(t@) =~= before + patch_bay_rows());
}

fn add_station_rows(t: &mut Vec<Binding>)
    ensures
        binding_views(final(t)@) == binding_views(old(t)@) + station_rows(),
{
    let ghost before = binding_views(t@);
    bind(t, Binding::key(KeyCode::ArrowUp, InputContext::StationZoomed, Action::PopLevel, "Back to room"));
    bind(t, Binding::key(KeyCode::Escape, InputContext::StationZoomed, Action::PopLevel, "Back to room"));
    bind(t, Binding::key(KeyCode::Escape, InputContext::FsnFly, Action::PopLevel, "Back to room"));
    assert(binding_views(t@) =~= before + station_rows());
}

fn add_pad_scenes_rows(t: &mut Vec<Binding>)
    ensures
        binding_views(final(t)@) == binding_views(old(t)@) + pad_scenes_rows(),
{
    let ghost before = binding_views(t@);
    bind(t, Binding::gamepad(GamepadButton::DPadRight, InputContext::RoomNav, Action::StepNext, "Step forward"));
    bind(t, Binding::gamepad(GamepadButton::DPadLeft, InputContext::RoomNav, Action::StepPrev, "Step backward"));
    bind(t, Binding::gamepad(GamepadButton::DPadRight, InputContext::WellZoomed, Action::StepNext, "Step forward"));
    bind(t, Binding::gamepad(GamepadButton::DPadLeft, InputContext::WellZoomed, Action::StepPrev, "Step backward"));
    bind(t, Binding::gamepad(GamepadButton::DPadRight, InputContext::PatchBayZoomed, Action::StepNext, "Step forward"));
    bind(t, Binding::gamepad(GamepadButton::DPadLeft, InputContext::PatchBayZoomed, Action::StepPrev, "Step backward"));
    bind(t, Binding::gamepad(GamepadButton::South, InputContext::RoomNav, Action::Activate, "Dive into station"));
    bind(t, Binding::gamepad(GamepadButton::South, InputContext::WellZoomed, Action::Activate, "Focus / commit"));
    bind(t, Binding::gamepad(GamepadButton::DPadUp, InputContext::WellZoomed, Action::LevelUp, "Shallower ring"));
    bind(t, Binding::gamepad(GamepadButton::DPadDown, InputContext::WellZoomed, Action::LevelDown, "Deeper ring"));
    bind(t, Binding::gamepad(GamepadButton::DPadDown, InputContext::RoomNav, Action::Activate, "Dive into station"));
    assert(binding_views(t@) =~= before + pad_scenes_rows());
}

fn add_pad_common_rows(t: &mut Vec<Binding>)
    ensures
        binding_views(final(t)@) == binding_views(old(t)@) + pad_common_rows(),
{
    let ghost before = binding_views(t@);
    bind(t, Binding::gamepad(GamepadButton::South, InputContext::Navigation, Action::Activate, "Activate"));
    bind(t, Binding::gamepad(GamepadButton::South, InputContext::Dialog, Action::Activate, "Confirm"));
    bind(t, Binding::gamepad(GamepadButton::East, InputContext::Global, Action::PopLevel, "Back / pop level"));
    bind(t, Binding::gamepad(GamepadButton::Start, InputContext::Global, Action::GoToWell, "Go to the well"));
    bind(t, Binding::gamepad(GamepadButton::DPadUp, InputContext::Navigation, Action::FocusPrevBlock, "Previous block"));
    bind(t, Binding::gamepad(GamepadButton::DPadDown, InputContext::Navigation, Action::FocusNextBlock, "Next block"));
    bind(t, Binding::gamepad(GamepadButton::DPadUp, InputContext::Dialog, Action::FocusPrevBlock, "Previous item"));
    bind(t, Binding::gamepad(GamepadButton::DPadDown, InputContext::Dialog, Action::FocusNextBlock, "Next item"));
    bind(t, Binding::gamepad(GamepadButton::LeftTrigger, InputContext::Navigation, Action::HalfPageUp, "Page up"));
    bind(t, Binding::gamepad(GamepadButton::RightTrigger, InputContext::Navigation, Action::HalfPageDown, "Page down"));
    bind(t, Binding::gamepad(GamepadButton::North, InputContext::Navigation, Action::CycleFocusForward, "Cycle focus"));
    assert(binding_views(t@) =~= before + pad_common_rows());
}

/// Build the default binding table for keyboard and gamepad input.
pub fn default_bindings() -> (bindings: Vec<Binding>)
    ensures
        binding_views(bindings@) == default_table(),
{
    let mut t: Vec<Binding> = Vec::new();
    assert(binding_views(t@) =~= Seq::empty());
    add_global_rows(&mut t);
    add_navigation_rows(&mut t);
    add_dialog_rows(&mut t);
    add_room_rows(&mut t);
    add_well_rows(&mut t);
    add_digit_rows(&mut t);
    add_well_verbs_rows(&mut t);
    add_patch_bay_rows(&mut t);
    add_station_rows(&mut t);
    add_pad_scenes_rows(&mut t);
    add_pad_common_rows(&mut t);
    assert(binding_views(t@) =~= default_table());
    t
}

/// The default table has a row for this.
pub open spec fn is_bound(
    source: InputSource,
    modifiers: Modifiers,
    context: InputContext,
    action: Action,
) -> bool {
    exists|i: int|
        0 <= i < default_table().len() && {
            let row = #[trigger] default_table()[i];
            row.source == source && row.modifiers == modifiers && row.context == context
                && row.action == action && row.sequence_prefix is None
        }
}

/// A key without modifiers is bound to an action.
pub open spec fn plain(key: KeyCode, context: InputContext, action: Action) -> bool {
    let modifiers = Modifiers { ctrl: false, shift: false, alt: false, super_key: false };
    is_bound(InputSource::Key(key), modifiers, context, action)
}

/// A key with Control is bound to an action.
pub open spec fn with_ctrl(key: KeyCode, context: InputContext, action: Action) -> bool {
    let modifiers = Modifiers { ctrl: true, shift: false, alt: false, super_key: false };
    is_bound(InputSource::Key(key), modifiers, context, action)
}

/// A key with Shift is bound to an action.
pub open spec fn with_shift(key: KeyCode, context: InputContext, action: Action) -> bool {
    let modifiers = Modifiers { ctrl: false, shift: true, alt: false, super_key: false };
    is_bound(InputSource::Key(key), modifiers, context, action)
}

/// A key with Alt is bound to an action.
pub open spec fn with_alt(key: KeyCode, context: InputContext, action: Action) -> bool {
    let modifiers = Modifiers { ctrl: false, shift: false, alt: true, super_key: false };
    is_bound(InputSource::Key(key), modifiers, context, action)
}

/// A gamepad button is bound to an action.
pub open spec fn on_pad(button: GamepadButton, context: InputContext, action: Action) -> bool {
    let modifiers = Modifiers { ctrl: false, shift: false, alt: false, super_key: false };
    is_bound(InputSource::GamepadButton(button), modifiers, context, action)
}

/// The parts of the default table.
enum Part {
    Global,
    Navigation,
    Dialog,
    Room,
    Well,
    Digit,
    WellVerbs,
    PatchBay,
    Station,
    PadScenes,
    PadCommon,
}

/// The rows of a part.
spec fn rows_of(part: Part) -> Seq<BindingView> {
    match part {
        Part::Global => global_rows(),
        Part::Navigation => navigation_rows(),
        Part::Dialog => dialog_rows(),
        Part::Room => room_rows(),
        Part::Well => well_rows(),
        Part::Digit => digit_rows(),
        Part::WellVerbs => well_verbs_rows(),
        Part::PatchBay => patch_bay_rows(),
        Part::Station => station_rows(),
        Part::PadScenes => pad_scenes_rows(),
        Part::PadCommon => pad_common_rows(),
    }
}

/// Every row of a part is a row of the table.
proof fn lemma_row(part: Part, i: int)
    requires
        0 <= i < rows_of(part).len(),
    ensures
        ({
            let row = rows_of(part)[i];
            row.sequence_prefix is None ==> is_bound(
                row.source,
                row.modifiers,
                row.context,
                row.action,
            )
        }),
{
    let p0: int = 0;
    let p1: int = p0 + global_rows().len();
    let p2: int = p1 + navigation_rows().len();
    let p3: int = p2 + dialog_rows().len();
    let p4: int = p3 + room_rows().len();
    let p5: int = p4 + well_rows().len();
    let p6: int = p5 + digit_rows().len();
    let p7: int = p6 + well_verbs_rows().len();
    let p8: int = p7 + patch_bay_rows().len();
    let p9: int = p8 + station_rows().len();
    let p10: int = p9 + pad_scenes_rows().len();
    let at = match part {
        Part::Global => p0 + i,
        Part::Navigation => p1 + i,
        Part::Dialog => p2 + i,
        Part::Room => p3 + i,
        Part::Well => p4 + i,
        Part::Digit => p5 + i,
        Part::WellVerbs => p6 + i,
        Part::PatchBay => p7 + i,
        Part::Station => p8 + i,
        Part::PadScenes => p9 + i,
        Part::PadCommon => p10 + i,
    };
    assert(default_table()[at] == rows_of(part)[i]);
}

/// Escape goes back a level wherever there is one to go back to, and so do Up in the scenes without a
/// use for it and East on the gamepad.
pub proof fn law_escape_goes_back()
    ensures
        plain(KeyCode::Escape, InputContext::Navigation, Action::PopLevel),
        plain(KeyCode::Escape, InputContext::Dialog, Action::PopLevel),
        plain(KeyCode::Escape, InputContext::RoomNav, Action::PopLevel),
        plain(KeyCode::Escape, InputContext::WellZoomed, Action::PopLevel),
        plain(KeyCode::Escape, InputContext::PatchBayZoomed, Action::PopLevel),
        plain(KeyCode::Escape, InputContext::StationZoomed, Action::PopLevel),
        plain(KeyCode::Escape, InputContext::FsnFly, Action::PopLevel),
        plain(KeyCode::ArrowUp, InputContext::PatchBayZoomed, Action::PopLevel),
        plain(KeyCode::ArrowUp, InputContext::StationZoomed, Action::PopLevel),
        on_pad(GamepadButton::East, InputContext::Global, Action::PopLevel),
{
    lemma_row(Part::Navigation, 12);
    lemma_row(Part::Dialog, 0);
    lemma_row(Part::Room, 5);
    lemma_row(Part::Well, 6);
    lemma_row(Part::PatchBay, 5);
    lemma_row(Part::Station, 1);
    lemma_row(Part::Station, 2);
    lemma_row(Part::PatchBay, 4);
    lemma_row(Part::Station, 0);
    lemma_row(Part::PadCommon, 2);
}

/// In the scenes Right and Tab step forward and Left steps back, on the keyboard as on the d-pad; in
/// the well Up goes to the shallower ring and Down to the deeper one.
pub proof fn law_steps_in_the_scenes()
    ensures
        plain(KeyCode::ArrowRight, InputContext::RoomNav, Action::StepNext),
        plain(KeyCode::Tab, InputContext::RoomNav, Action::StepNext),
        plain(KeyCode::ArrowLeft, InputContext::RoomNav, Action::StepPrev),
        on_pad(GamepadButton::DPadRight, InputContext::RoomNav, Action::StepNext),
        on_pad(GamepadButton::DPadLeft, InputContext::RoomNav, Action::StepPrev),
        plain(KeyCode::ArrowRight, InputContext::WellZoomed, Action::StepNext),
        plain(KeyCode::Tab, InputContext::WellZoomed, Action::StepNext),
        plain(KeyCode::ArrowLeft, InputContext::WellZoomed, Action::StepPrev),
        on_pad(GamepadButton::DPadRight, InputContext::WellZoomed, Action::StepNext),
        on_pad(GamepadButton::DPadLeft, InputContext::WellZoomed, Action::StepPrev),
        plain(KeyCode::ArrowRight, InputContext::PatchBayZoomed, Action::StepNext),
        plain(KeyCode::Tab, InputContext::PatchBayZoomed, Action::StepNext),
        plain(KeyCode::ArrowLeft, InputContext::PatchBayZoomed, Action::StepPrev),
        on_pad(GamepadButton::DPadRight, InputContext::PatchBayZoomed, Action::StepNext),
        on_pad(GamepadButton::DPadLeft, InputContext::PatchBayZoomed, Action::StepPrev),
        plain(KeyCode::ArrowUp, InputContext::WellZoomed, Action::LevelUp),
        plain(KeyCode::ArrowDown, InputContext::WellZoomed, Action::LevelDown),
        on_pad(GamepadButton::DPadUp, InputContext::WellZoomed, Action::LevelUp),
        on_pad(GamepadButton::DPadDown, InputContext::WellZoomed, Action::LevelDown),
{
    lemma_row(Part::Room, 0);
    lemma_row(Part::Room, 1);
    lemma_row(Part::Room, 2);
    lemma_row(Part::PadScenes, 0);
    lemma_row(Part::PadScenes, 1);
    lemma_row(Part::Well, 0);
    lemma_row(Part::Well, 1);
    lemma_row(Part::Well, 2);
    lemma_row(Part::PadScenes, 2);
    lemma_row(Part::PadScenes, 3);
    lemma_row(Part::PatchBay, 0);
    lemma_row(Part::PatchBay, 1);
    lemma_row(Part::PatchBay, 2);
    lemma_row(Part::PadScenes, 4);
    lemma_row(Part::PadScenes, 5);
    lemma_row(Part::Well, 3);
    lemma_row(Part::Well, 4);
    lemma_row(Part::PadScenes, 8);
    lemma_row(Part::PadScenes, 9);
}

/// Among the blocks j goes to the next and k to the previous one, Home to the first, End and Shift+G
/// to the last; a dialog takes the arrows too, and the d-pad works in both. Half pages and whole
/// ends are scrolled with Control.
pub proof fn law_keys_of_the_block_list()
    ensures
        plain(KeyCode::KeyJ, InputContext::Navigation, Action::FocusNextBlock),
        plain(KeyCode::KeyK, InputContext::Navigation, Action::FocusPrevBlock),
        plain(KeyCode::Home, InputContext::Navigation, Action::FocusFirstBlock),
        plain(KeyCode::End, InputContext::Navigation, Action::FocusLastBlock),
        with_shift(KeyCode::KeyG, InputContext::Navigation, Action::FocusLastBlock),
        plain(KeyCode::KeyJ, InputContext::Dialog, Action::FocusNextBlock),
        plain(KeyCode::KeyK, InputContext::Dialog, Action::FocusPrevBlock),
        plain(KeyCode::ArrowDown, InputContext::Dialog, Action::FocusNextBlock),
        plain(KeyCode::ArrowUp, InputContext::Dialog, Action::FocusPrevBlock),
        on_pad(GamepadButton::DPadDown, InputContext::Navigation, Action::FocusNextBlock),
        on_pad(GamepadButton::DPadUp, InputContext::Navigation, Action::FocusPrevBlock),
        on_pad(GamepadButton::DPadDown, InputContext::Dialog, Action::FocusNextBlock),
        on_pad(GamepadButton::DPadUp, InputContext::Dialog, Action::FocusPrevBlock),
        with_ctrl(KeyCode::KeyD, InputContext::Navigation, Action::HalfPageDown),
        with_ctrl(KeyCode::KeyU, InputContext::Navigation, Action::HalfPageUp),
        with_ctrl(KeyCode::Home, InputContext::Navigation, Action::ScrollToTop),
        with_ctrl(KeyCode::End, InputContext::Navigation, Action::ScrollToEnd),
        on_pad(GamepadButton::LeftTrigger, InputContext::Navigation, Action::HalfPageUp),
        on_pad(GamepadButton::RightTrigger, InputContext::Navigation, Action::HalfPageDown),
{
    lemma_row(Part::Navigation, 0);
    lemma_row(Part::Navigation, 1);
    lemma_row(Part::Navigation, 3);
    lemma_row(Part::Navigation, 4);
    lemma_row(Part::Navigation, 2);
    lemma_row(Part::Dialog, 4);
    lemma_row(Part::Dialog, 5);
    lemma_row(Part::Dialog, 6);
    lemma_row(Part::Dialog, 7);
    lemma_row(Part::PadCommon, 5);
    lemma_row(Part::PadCommon, 4);
    lemma_row(Part::PadCommon, 7);
    lemma_row(Part::PadCommon, 6);
    lemma_row(Part::Navigation, 15);
    lemma_row(Part::Navigation, 16);
    lemma_row(Part::Navigation, 17);
    lemma_row(Part::Navigation, 18);
    lemma_row(Part::PadCommon, 8);
    lemma_row(Part::PadCommon, 9);
}

/// In the conversation i and Space summon the chat, Tab cycles the focus, Enter activates, x takes a
/// block out, c collapses, Ctrl+C interrupts and Ctrl+Z switches the surface.
pub proof fn law_keys_of_the_conversation()
    ensures
        plain(KeyCode::KeyI, InputContext::Navigation, Action::SummonChat),
        plain(KeyCode::Space, InputContext::Navigation, Action::SummonChat),
        plain(KeyCode::Tab, InputContext::Navigation, Action::CycleFocusForward),
        with_shift(KeyCode::Tab, InputContext::Navigation, Action::CycleFocusBackward),
        plain(KeyCode::Enter, InputContext::Navigation, Action::Activate),
        plain(KeyCode::KeyX, InputContext::Navigation, Action::ToggleBlockExcluded),
        plain(KeyCode::KeyC, InputContext::Navigation, Action::CollapseToggle),
        with_ctrl(
            KeyCode::KeyC,
            InputContext::Navigation,
            Action::InterruptContext { immediate: false },
        ),
        with_ctrl(KeyCode::KeyZ, InputContext::Navigation, Action::ToggleSurface),
        plain(KeyCode::Enter, InputContext::Dialog, Action::Activate),
        plain(KeyCode::Tab, InputContext::Dialog, Action::CycleFocusForward),
        with_shift(KeyCode::Tab, InputContext::Dialog, Action::CycleFocusBackward),
        plain(KeyCode::Backspace, InputContext::Dialog, Action::Backspace),
        on_pad(GamepadButton::South, InputContext::Navigation, Action::Activate),
        on_pad(GamepadButton::South, InputContext::Dialog, Action::Activate),
        on_pad(GamepadButton::North, InputContext::Navigation, Action::CycleFocusForward),
{
    lemma_row(Part::Navigation, 8);
    lemma_row(Part::Navigation, 9);
    lemma_row(Part::Navigation, 6);
    lemma_row(Part::Navigation, 7);
    lemma_row(Part::Navigation, 11);
    lemma_row(Part::Navigation, 5);
    lemma_row(Part::Navigation, 14);
    lemma_row(Part::Navigation, 13);
    lemma_row(Part::Navigation, 10);
    lemma_row(Part::Dialog, 1);
    lemma_row(Part::Dialog, 2);
    lemma_row(Part::Dialog, 3);
    lemma_row(Part::Dialog, 8);
    lemma_row(Part::PadCommon, 0);
    lemma_row(Part::PadCommon, 1);
    lemma_row(Part::PadCommon, 10);
}

/// Everywhere, Alt with h, j, k and l goes to the pane in that direction, with v and s splits, with q
/// closes and with the brackets resizes; Ctrl+6 goes back to the previous pane, and F1 and F12 show
/// the debug overlay and save a screenshot. Start on the gamepad goes to the well.
pub proof fn law_keys_of_the_panes()
    ensures
        with_alt(KeyCode::KeyH, InputContext::Global, Action::FocusPaneLeft),
        with_alt(KeyCode::KeyJ, InputContext::Global, Action::FocusPaneDown),
        with_alt(KeyCode::KeyK, InputContext::Global, Action::FocusPaneUp),
        with_alt(KeyCode::KeyL, InputContext::Global, Action::FocusPaneRight),
        with_alt(KeyCode::KeyV, InputContext::Global, Action::SplitVertical),
        with_alt(KeyCode::KeyS, InputContext::Global, Action::SplitHorizontal),
        with_alt(KeyCode::KeyQ, InputContext::Global, Action::ClosePane),
        with_alt(KeyCode::BracketLeft, InputContext::Global, Action::ShrinkPane),
        with_alt(KeyCode::BracketRight, InputContext::Global, Action::GrowPane),
        with_ctrl(KeyCode::Digit6, InputContext::Global, Action::TogglePreviousPaneFocus),
        plain(KeyCode::F1, InputContext::Global, Action::DebugToggle),
        plain(KeyCode::F12, InputContext::Global, Action::Screenshot),
        on_pad(GamepadButton::Start, InputContext::Global, Action::GoToWell),
{
    lemma_row(Part::Global, 2);
    lemma_row(Part::Global, 3);
    lemma_row(Part::Global, 4);
    lemma_row(Part::Global, 5);
    lemma_row(Part::Global, 6);
    lemma_row(Part::Global, 7);
    lemma_row(Part::Global, 8);
    lemma_row(Part::Global, 9);
    lemma_row(Part::Global, 10);
    lemma_row(Part::Global, 11);
    lemma_row(Part::Global, 0);
    lemma_row(Part::Global, 1);
    lemma_row(Part::PadCommon, 3);
}

/// In the well p promotes, d demotes, c concludes, z pauses, a archives and the slash shows the
/// legend; in the patch bay r rescans. Enter dives in or commits, and so does South.
pub proof fn law_verbs_of_the_scenes()
    ensures
        plain(KeyCode::KeyP, InputContext::WellZoomed, Action::Promote),
        plain(KeyCode::KeyD, InputContext::WellZoomed, Action::Demote),
        plain(KeyCode::KeyC, InputContext::WellZoomed, Action::Conclude),
        plain(KeyCode::KeyZ, InputContext::WellZoomed, Action::PauseToggle),
        plain(KeyCode::KeyA, InputContext::WellZoomed, Action::Archive),
        plain(KeyCode::Slash, InputContext::WellZoomed, Action::ToggleLegend),
        with_shift(KeyCode::Slash, InputContext::WellZoomed, Action::ToggleLegend),
        plain(KeyCode::KeyR, InputContext::PatchBayZoomed, Action::Rescan),
        plain(KeyCode::Enter, InputContext::RoomNav, Action::Activate),
        plain(KeyCode::ArrowDown, InputContext::RoomNav, Action::Activate),
        plain(KeyCode::Enter, InputContext::WellZoomed, Action::Activate),
        on_pad(GamepadButton::South, InputContext::RoomNav, Action::Activate),
        on_pad(GamepadButton::South, InputContext::WellZoomed, Action::Activate),
        on_pad(GamepadButton::DPadDown, InputContext::RoomNav, Action::Activate),
{
    lemma_row(Part::WellVerbs, 0);
    lemma_row(Part::WellVerbs, 1);
    lemma_row(Part::WellVerbs, 2);
    lemma_row(Part::WellVerbs, 3);
    lemma_row(Part::WellVerbs, 4);
    lemma_row(Part::WellVerbs, 5);
    lemma_row(Part::WellVerbs, 6);
    lemma_row(Part::PatchBay, 3);
    lemma_row(Part::Room, 3);
    lemma_row(Part::Room, 4);
    lemma_row(Part::Well, 5);
    lemma_row(Part::PadScenes, 6);
    lemma_row(Part::PadScenes, 7);
    lemma_row(Part::PadScenes, 10);
}

/// In the well each digit jumps to the seat of its number.
pub proof fn law_digits_jump_to_their_seats()
    ensures
        plain(KeyCode::Digit0, InputContext::WellZoomed, Action::JumpSeat(0)),
        plain(KeyCode::Digit1, InputContext::WellZoomed, Action::JumpSeat(1)),
        plain(KeyCode::Digit2, InputContext::WellZoomed, Action::JumpSeat(2)),
        plain(KeyCode::Digit3, InputContext::WellZoomed, Action::JumpSeat(3)),
        plain(KeyCode::Digit4, InputContext::WellZoomed, Action::JumpSeat(4)),
        plain(KeyCode::Digit5, InputContext::WellZoomed, Action::JumpSeat(5)),
        plain(KeyCode::Digit6, InputContext::WellZoomed, Action::JumpSeat(6)),
        plain(KeyCode::Digit7, InputContext::WellZoomed, Action::JumpSeat(7)),
        plain(KeyCode::Digit8, InputContext::WellZoomed, Action::JumpSeat(8)),
        plain(KeyCode::Digit9, InputContext::WellZoomed, Action::JumpSeat(9)),
{
    lemma_row(Part::Digit, 0);
    lemma_row(Part::Digit, 1);
    lemma_row(Part::Digit, 2);
    lemma_row(Part::Digit, 3);
    lemma_row(Part::Digit, 4);
    lemma_row(Part::Digit, 5);
    lemma_row(Part::Digit, 6);
    lemma_row(Part::Digit, 7);
    lemma_row(Part::Digit, 8);
    lemma_row(Part::Digit, 9);
}

/// Two rows claim the same press.
pub open spec fn clash(a: BindingView, b: BindingView) -> bool {
    a.source == b.source && a.modifiers == b.modifiers && a.context == b.context
}

/// No two of these rows claim the same press.
spec fn distinct(rows: Seq<BindingView>) -> bool {
    forall|i: int, j: int| 0 <= i < j < rows.len() ==> !clash(#[trigger] rows[i], #[trigger] rows[j])
}

/// No row of the one claims a press that a row of the other claims.
spec fn apart(a: Seq<BindingView>, b: Seq<BindingView>) -> bool {
    forall|i: int, j: int|
        0 <= i < a.len() && 0 <= j < b.len() ==> !clash(#[trigger] a[i], #[trigger] b[j])
}

proof fn lemma_distinct_join(a: Seq<BindingView>, b: Seq<BindingView>)
    requires
        distinct(a),
        distinct(b),
        apart(a, b),
    ensures
        distinct(a + b),
{
}

proof fn lemma_apart_join(a: Seq<BindingView>, b: Seq<BindingView>, c: Seq<BindingView>)
    requires
        apart(a, c),
        apart(b, c),
    ensures
        apart(a + b, c),
{
}

proof fn lemma_global_rows_distinct()
    ensures
        distinct(global_rows()),
{
}

proof fn lemma_navigation_rows_distinct()
    ensures
        distinct(navigation_rows()),
{
}

proof fn lemma_dialog_rows_distinct()
    ensures
        distinct(dialog_rows()),
{
}

proof fn lemma_room_rows_distinct()
    ensures
        distinct(room_rows()),
{
}

proof fn lemma_well_rows_distinct()
    ensures
        distinct(well_rows()),
{
}

proof fn lemma_digit_rows_distinct()
    ensures
        distinct(digit_rows()),
{
}

proof fn lemma_well_verbs_rows_distinct()
    ensures
        distinct(well_verbs_rows()),
{
}

proof fn lemma_patch_bay_rows_distinct()
    ensures
        distinct(patch_bay_rows()),
{
}

proof fn lemma_station_rows_distinct()
    ensures
        distinct(station_rows()),
{
}

proof fn lemma_pad_scenes_rows_distinct()
    ensures
        distinct(pad_scenes_rows()),
{
}

proof fn lemma_pad_common_rows_distinct()
    ensures
        distinct(pad_common_rows()),
{
}

/// Where the rows of each part belong.
proof fn lemma_places()
    ensures
        forall|i: int|
            0 <= i < global_rows().len() ==> {
                let r = #[trigger] global_rows()[i];
                r.source is Key && (r.context == InputContext::Global)
            },
        forall|i: int|
            0 <= i < navigation_rows().len() ==> {
                let r = #[trigger] navigation_rows()[i];
                r.source is Key && (r.context == InputContext::Navigation)
            },
        forall|i: int|
            0 <= i < dialog_rows().len() ==> {
                let r = #[trigger] dialog_rows()[i];
                r.source is Key && (r.context == InputContext::Dialog)
            },
        forall|i: int|
            0 <= i < room_rows().len() ==> {
                let r = #[trigger] room_rows()[i];
                r.source is Key && (r.context == InputContext::RoomNav)
            },
        forall|i: int|
            0 <= i < well_rows().len() ==> {
                let r = #[trigger] well_rows()[i];
                r.source is Key && (r.context == InputContext::WellZoomed)
            },
        forall|i: int|
            0 <= i < digit_rows().len() ==> {
                let r = #[trigger] digit_rows()[i];
                r.source is Key && (r.context == InputContext::WellZoomed)
            },
        forall|i: int|
            0 <= i < well_verbs_rows().len() ==> {
                let r = #[trigger] well_verbs_rows()[i];
                r.source is Key && (r.context == InputContext::WellZoomed)
            },
        forall|i: int|
            0 <= i < patch_bay_rows().len() ==> {
                let r = #[trigger] patch_bay_rows()[i];
                r.source is Key && (r.context == InputContext::PatchBayZoomed)
            },
        forall|i: int|
            0 <= i < station_rows().len() ==> {
                let r = #[trigger] station_rows()[i];
                r.source is Key && (r.context == InputContext::StationZoomed || r.context == InputContext::FsnFly)
            },
        forall|i: int|
            0 <= i < pad_scenes_rows().len() ==> {
                let r = #[trigger] pad_scenes_rows()[i];
                r.source is GamepadButton && (r.context == InputContext::RoomNav || r.context == InputContext::WellZoomed || r.context == InputContext::PatchBayZoomed)
            },
        forall|i: int|
            0 <= i < pad_common_rows().len() ==> {
                let r = #[trigger] pad_common_rows()[i];
                r.source is GamepadButton && (r.context == InputContext::Navigation || r.context == InputContext::Dialog || r.context == InputContext::Global)
            },
{
}

proof fn lemma_well_parts_apart()
    ensures
        apart(well_rows(), digit_rows()),
        apart(well_rows(), well_verbs_rows()),
        apart(digit_rows(), well_verbs_rows()),
{
}

/// No two rows claim the same press: in one context a key or button with its modifiers is bound at
/// most once, so that what is bound to it is what it does.
pub proof fn law_no_press_is_bound_twice(i: int, j: int)
    requires
        0 <= i < j < default_table().len(),
    ensures
        !clash(default_table()[i], default_table()[j]),
{
    lemma_places();
    lemma_well_parts_apart();
    lemma_global_rows_distinct();
    lemma_navigation_rows_distinct();
    lemma_dialog_rows_distinct();
    lemma_room_rows_distinct();
    lemma_well_rows_distinct();
    lemma_digit_rows_distinct();
    lemma_well_verbs_rows_distinct();
    lemma_patch_bay_rows_distinct();
    lemma_station_rows_distinct();
    lemma_pad_scenes_rows_distinct();
    lemma_pad_common_rows_distinct();
    let t0 = global_rows();
    let t1 = t0 + navigation_rows();
    let t2 = t1 + dialog_rows();
    let t3 = t2 + room_rows();
    let t4 = t3 + well_rows();
    let t5 = t4 + digit_rows();
    let t6 = t5 + well_verbs_rows();
    let t7 = t6 + patch_bay_rows();
    let t8 = t7 + station_rows();
    let t9 = t8 + pad_scenes_rows();
    let t10 = t9 + pad_common_rows();
    assert(apart(t0, navigation_rows()));
    lemma_distinct_join(t0, navigation_rows());
    assert(apart(t0, dialog_rows()));
    assert(apart(navigation_rows(), dialog_rows()));
    lemma_apart_join(t0, navigation_rows(), dialog_rows());
    lemma_distinct_join(t1, dialog_rows());
    assert(apart(t0, room_rows()));
    assert(apart(navigation_rows(), room_rows()));
    lemma_apart_join(t0, navigation_rows(), room_rows());
    assert(apart(dialog_rows(), room_rows()));
    lemma_apart_join(t1, dialog_rows(), room_rows());
    lemma_distinct_join(t2, room_rows());
    assert(apart(t0, well_rows()));
    assert(apart(navigation_rows(), well_rows()));
    lemma_apart_join(t0, navigation_rows(), well_rows());
    assert(apart(dialog_rows(), well_rows()));
    lemma_apart_join(t1, dialog_rows(), well_rows());
    assert(apart(room_rows(), well_rows()));
    lemma_apart_join(t2, room_rows(), well_rows());
    lemma_distinct_join(t3, well_rows());
    assert(apart(t0, digit_rows()));
    assert(apart(navigation_rows(), digit_rows()));
    lemma_apart_join(t0, navigation_rows(), digit_rows());
    assert(apart(dialog_rows(), digit_rows()));
    lemma_apart_join(t1, dialog_rows(), digit_rows());
    assert(apart(room_rows(), digit_rows()));
    lemma_apart_join(t2, room_rows(), digit_rows());
    assert(apart(well_rows(), digit_rows()));
    lemma_apart_join(t3, well_rows(), digit_rows());
    lemma_distinct_join(t4, digit_rows());
    assert(apart(t0, well_verbs_rows()));
    assert(apart(navigation_rows(), well_verbs_rows()));
    lemma_apart_join(t0, navigation_rows(), well_verbs_rows());
    assert(apart(dialog_rows(), well_verbs_rows()));
    lemma_apart_join(t1, dialog_rows(), well_verbs_rows());
    assert(apart(room_rows(), well_verbs_rows()));
    lemma_apart_join(t2, room_rows(), well_verbs_rows());
    assert(apart(well_rows(), well_verbs_rows()));
    lemma_apart_join(t3, well_rows(), well_verbs_rows());
    assert(apart(digit_rows(), well_verbs_rows()));
    lemma_apart_join(t4, digit_rows(), well_verbs_rows());
    lemma_distinct_join(t5, well_verbs_rows());
    assert(apart(t0, patch_bay_rows()));
    assert(apart(navigation_rows(), patch_bay_rows()));
    lemma_apart_join(t0, navigation_rows(), patch_bay_rows());
    assert(apart(dialog_rows(), patch_bay_rows()));
    lemma_apart_join(t1, dialog_rows(), patch_bay_rows());
    assert(apart(room_rows(), patch_bay_rows()));
    lemma_apart_join(t2, room_rows(), patch_bay_rows());
    assert(apart(well_rows(), patch_bay_rows()));
    lemma_apart_join(t3, well_rows(), patch_bay_rows());
    assert(apart(digit_rows(), patch_bay_rows()));
    lemma_apart_join(t4, digit_rows(), patch_bay_rows());
    assert(apart(well_verbs_rows(), patch_bay_rows()));
    lemma_apart_join(t5, well_verbs_rows(), patch_bay_rows());
    lemma_distinct_join(t6, patch_bay_rows());
    assert(apart(t0, station_rows()));
    assert(apart(navigation_rows(), station_rows()));
    lemma_apart_join(t0, navigation_rows(), station_rows());
    assert(apart(dialog_rows(), station_rows()));
    lemma_apart_join(t1, dialog_rows(), station_rows());
    assert(apart(room_rows(), station_rows()));
    lemma_apart_join(t2, room_rows(), station_rows());
    assert(apart(well_rows(), station_rows()));
    lemma_apart_join(t3, well_rows(), station_rows());
    assert(apart(digit_rows(), station_rows()));
    lemma_apart_join(t4, digit_rows(), station_rows());
    assert(apart(well_verbs_rows(), station_rows()));
    lemma_apart_join(t5, well_verbs_rows(), station_rows());
    assert(apart(patch_bay_rows(), station_rows()));
    lemma_apart_join(t6, patch_bay_rows(), station_rows());
    lemma_distinct_join(t7, station_rows());
    assert(apart(t0, pad_scenes_rows()));
    assert(apart(navigation_rows(), pad_scenes_rows()));
    lemma_apart_join(t0, navigation_rows(), pad_scenes_rows());
    assert(apart(dialog_rows(), pad_scenes_rows()));
    lemma_apart_join(t1, dialog_rows(), pad_scenes_rows());
    assert(apart(room_rows(), pad_scenes_rows()));
    lemma_apart_join(t2, room_rows(), pad_scenes_rows());
    assert(apart(well_rows(), pad_scenes_rows()));
    lemma_apart_join(t3, well_rows(), pad_scenes_rows());
    assert(apart(digit_rows(), pad_scenes_rows()));
    lemma_apart_join(t4, digit_rows(), pad_scenes_rows());
    assert(apart(well_verbs_rows(), pad_scenes_rows()));
    lemma_apart_join(t5, well_verbs_rows(), pad_scenes_rows());
    assert(apart(patch_bay_rows(), pad_scenes_rows()));
    lemma_apart_join(t6, patch_bay_rows(), pad_scenes_rows());
    assert(apart(station_rows(), pad_scenes_rows()));
    lemma_apart_join(t7, station_rows(), pad_scenes_rows());
    lemma_distinct_join(t8, pad_scenes_rows());
    assert(apart(t0, pad_common_rows()));
    assert(apart(navigation_rows(), pad_common_rows()));
    lemma_apart_join(t0, navigation_rows(), pad_common_rows());
    assert(apart(dialog_rows(), pad_common_rows()));
    lemma_apart_join(t1, dialog_rows(), pad_common_rows());
    assert(apart(room_rows(), pad_common_rows()));
    lemma_apart_join(t2, room_rows(), pad_common_rows());
    assert(apart(well_rows(), pad_common_rows()));
    lemma_apart_join(t3, well_rows(), pad_common_rows());
    assert(apart(digit_rows(), pad_common_rows()));
    lemma_apart_join(t4, digit_rows(), pad_common_rows());
    assert(apart(well_verbs_rows(), pad_common_rows()));
    lemma_apart_join(t5, well_verbs_rows(), pad_common_rows());
    assert(apart(patch_bay_rows(), pad_common_rows()));
    lemma_apart_join(t6, patch_bay_rows(), pad_common_rows());
    assert(apart(station_rows(), pad_common_rows()));
    lemma_apart_join(t7, station_rows(), pad_common_rows());
    assert(apart(pad_scenes_rows(), pad_common_rows()));
    lemma_apart_join(t8, pad_scenes_rows(), pad_common_rows());
    lemma_distinct_join(t9, pad_common_rows());
    assert(t10 == default_table());
}

} // verus!
