//! Input contexts: derived from screen, zoom and focus to determine which bindings are active.

use vstd::prelude::*;
use crate::input::focus::FocusArea;

verus! {

/// Binding context: determines when a binding is active.
///
/// Several contexts can be active at once. The dispatcher matches bindings whose context is
/// among them.
#[derive(Clone, Copy, Debug, PartialEq, Eq, Structural)]
pub enum InputContext {
    /// Always active regardless of focus.
    Global,
    /// Active when text is being edited.
    TextInput,
    /// Active when the conversation block list has focus.
    Navigation,
    /// Active when a modal dialog is open.
    Dialog,
    /// The constellation view.
    Constellation,
    /// The room, not zoomed: the station carousel.
    RoomNav,
    /// The room, zoomed into the time well.
    WellZoomed,
    /// The room, zoomed into the patch bay.
    PatchBayZoomed,
    /// The room, zoomed into a station with no keyboard of its own.
    StationZoomed,
    /// The flight over the file landscape.
    FsnFly,
    /// The quick-context overlay is held. Active on top of whatever surface is underneath and
    /// outranked only by `Dialog`.
    QuickContext,
    /// The ask sheet is up: while it is, the only surface context there is.
    AskSheet,
    /// The ledger ribbon is up. Owns the keyboard as the ask sheet does, and outranks it.
    LedgerRibbon,
}

/// Exclusive keyboard capture: who receives the keys that no Global binding claims.
#[derive(Clone, Copy, Debug, PartialEq, Eq, Structural)]
pub enum KeyboardGrab {
    /// No grab: bindings match across all active contexts.
    NoGrab,
    /// The compose overlay's vim machine.
    ComposeVim,
    /// The in-app vi editor.
    EditorSession,
    /// The full diff viewer.
    DiffView,
}

impl Default for KeyboardGrab {
    fn default() -> (grab: Self)
        ensures
            grab == KeyboardGrab::NoGrab,
    {
        KeyboardGrab::NoGrab
    }
}

/// The screens of the application.
#[derive(Clone, Copy, Debug, PartialEq, Eq, Structural)]
pub enum Screen {
    Conversation,
    Room,
    Editor,
    Diff,
}

/// The stations of the room that can be zoomed into.
#[derive(Clone, Copy, Debug, PartialEq, Eq, Structural)]
pub enum Station {
    TimeWell,
    PatchBay,
    Tracker,
    Radiators,
}

/// The input contexts that are currently active.
#[derive(Debug)]
pub struct ActiveInputContexts {
    pub contexts: Vec<InputContext>,
}

impl ActiveInputContexts {
    /// Check if a context is currently active.
    pub fn contains(&self, ctx: InputContext) -> (active: bool)
        ensures
            active == self.contexts@.contains(ctx),
    {
        let mut i: usize = 0;
        while i < self.contexts.len()
            invariant
                i <= self.contexts.len(),
                forall|j: int| 0 <= j < i ==> self.contexts@[j] != ctx,
            decreases self.contexts.len() - i,
        {
            if self.contexts[i] == ctx {
                return true;
            }
            i = i + 1;
        }
        false
    }
}

/// Which approval-review surface is on screen. Both can be up at once.
#[derive(Clone, Copy, Debug, PartialEq, Eq, Structural)]
pub struct ApprovalSurfaces {
    /// The ask sheet is showing an ask.
    pub sheet: bool,
    /// The ledger ribbon is open.
    pub ribbon: bool,
}

/// The context that claims the keyboard for an approval surface: the ribbon before the sheet.
pub open spec fn approval_claimant(approval: ApprovalSurfaces) -> Option<InputContext> {
    if approval.ribbon {
        Some(InputContext::LedgerRibbon)
    } else if approval.sheet {
        Some(InputContext::AskSheet)
    } else {
        None
    }
}

impl ApprovalSurfaces {
    /// The context that claims the keyboard, or `None` when neither surface is up.
    pub fn claimant(self) -> (claimant: Option<InputContext>)
        ensures
            claimant == approval_claimant(self),
    {
        if self.ribbon {
            Some(InputContext::LedgerRibbon)
        } else if self.sheet {
            Some(InputContext::AskSheet)
        } else {
            None
        }
    }
}

/// The approval surface that has the keyboard on a screen: a vi screen keeps its keys.
pub open spec fn claimed(screen: Screen, approval: ApprovalSurfaces) -> Option<InputContext> {
    if screen == Screen::Conversation || screen == Screen::Room {
        approval_claimant(approval)
    } else {
        None
    }
}

/// The contexts of the focused surface, under Global and any held overlay.
pub open spec fn surface_contexts(
    screen: Screen,
    zoomed: Option<Station>,
    focus: FocusArea,
) -> Seq<InputContext> {
    match screen {
        Screen::Editor => seq![],
        Screen::Diff => seq![],
        Screen::Room => seq![
            match zoomed {
                None => InputContext::RoomNav,
                Some(Station::TimeWell) => InputContext::WellZoomed,
                Some(_) => InputContext::StationZoomed,
            },
        ],
        Screen::Conversation => match focus {
            FocusArea::Compose => seq![InputContext::TextInput],
            FocusArea::Conversation => seq![InputContext::Navigation],
            FocusArea::Dialog => seq![InputContext::Dialog, InputContext::TextInput],
        },
    }
}

/// The active contexts.
///
/// An approval surface that has the keyboard leaves nothing beneath it but a modal dialog.
/// Otherwise a held overlay floats over the focused surface.
pub open spec fn active_contexts(
    screen: Screen,
    zoomed: Option<Station>,
    focus: FocusArea,
    quick_context_held: bool,
    approval: ApprovalSurfaces,
) -> Seq<InputContext> {
    match claimed(screen, approval) {
        Some(claimant) => seq![InputContext::Global, claimant] + if focus == FocusArea::Dialog {
            seq![InputContext::Dialog, InputContext::TextInput]
        } else {
            seq![]
        },
        None => (if quick_context_held {
            seq![InputContext::Global, InputContext::QuickContext]
        } else {
            seq![InputContext::Global]
        }) + surface_contexts(screen, zoomed, focus),
    }
}

/// Who has the keyboard: the vi screens always, the compose machine while composing, unless an
/// approval surface claims it.
pub open spec fn active_grab(
    screen: Screen,
    focus: FocusArea,
    approval: ApprovalSurfaces,
) -> KeyboardGrab {
    match screen {
        Screen::Editor => KeyboardGrab::EditorSession,
        Screen::Diff => KeyboardGrab::DiffView,
        Screen::Room => KeyboardGrab::NoGrab,
        Screen::Conversation => if focus == FocusArea::Compose && claimed(screen, approval) is None {
            KeyboardGrab::ComposeVim
        } else {
            KeyboardGrab::NoGrab
        },
    }
}

/// Pure derivation: (screen, zoomed station, focus, held overlay, approval surfaces) to
/// (contexts, grab).
pub fn derive_contexts(
    screen: Screen,
    zoomed: Option<Station>,
    focus: &FocusArea,
    quick_context_held: bool,
    approval: ApprovalSurfaces,
) -> (derived: (Vec<InputContext>, KeyboardGrab))
    ensures
        derived.0@ == active_contexts(screen, zoomed, *focus, quick_context_held, approval),
        derived.1 == active_grab(screen, *focus, approval),
{
    let mut contexts: Vec<InputContext> = Vec::new();
    contexts.push(InputContext::Global);
    let ghost expected = active_contexts(screen, zoomed, *focus, quick_context_held, approval);
    if screen == Screen::Conversation || screen == Screen::Room {
        if let Some(claimant) = approval.claimant() {
            contexts.push(claimant);
            // A modal still outranks everything.
            if *focus == FocusArea::Dialog {
                contexts.push(InputContext::Dialog);
                contexts.push(InputContext::TextInput);
            }
            assert(contexts@ =~= expected);
            return (contexts, KeyboardGrab::NoGrab);
        }
    }
    if quick_context_held {
        contexts.push(InputContext::QuickContext);
    }
    match screen {
        Screen::Editor => {
            assert(contexts@ =~= expected);
            (contexts, KeyboardGrab::EditorSession)
        },
        Screen::Diff => {
            assert(contexts@ =~= expected);
            (contexts, KeyboardGrab::DiffView)
        },
        Screen::Room => {
            let ctx = match zoomed {
                None => InputContext::RoomNav,
                Some(Station::TimeWell) => InputContext::WellZoomed,
                Some(_) => InputContext::StationZoomed,
            };
            contexts.push(ctx);
            assert(contexts@ =~= expected);
            (contexts, KeyboardGrab::NoGrab)
        },
        Screen::Conversation => match *focus {
            FocusArea::Compose => {
                contexts.push(InputContext::TextInput);
                assert(contexts@ =~= expected);
                (contexts, KeyboardGrab::ComposeVim)
            },
            FocusArea::Conversation => {
                contexts.push(InputContext::Navigation);
                assert(contexts@ =~= expected);
                (contexts, KeyboardGrab::NoGrab)
            },
            FocusArea::Dialog => {
                contexts.push(InputContext::Dialog);
                contexts.push(InputContext::TextInput);
                assert(contexts@ =~= expected);
                (contexts, KeyboardGrab::NoGrab)
            },
        },
    }
}

/// Global bindings stay live everywhere.
pub proof fn law_global_is_always_active(
    screen: Screen,
    zoomed: Option<Station>,
    focus: FocusArea,
    held: bool,
    approval: ApprovalSurfaces,
)
    ensures
        active_contexts(screen, zoomed, focus, held, approval).len() > 0,
        active_contexts(screen, zoomed, focus, held, approval)[0] == InputContext::Global,
{
}

/// A vi screen owns the keyboard whatever else is flagged, and keeps every surface context out.
pub proof fn law_vi_screens_keep_their_keys(
    screen: Screen,
    zoomed: Option<Station>,
    focus: FocusArea,
    approval: ApprovalSurfaces,
)
    requires
        screen == Screen::Editor || screen == Screen::Diff,
    ensures
        active_grab(screen, focus, approval) != KeyboardGrab::NoGrab,
        active_contexts(screen, zoomed, focus, false, approval) == seq![InputContext::Global],
{
    assert(active_contexts(screen, zoomed, focus, false, approval) =~= seq![InputContext::Global]);
}

/// While an approval surface has the keyboard nothing is grabbed, so that typed text is held,
/// and no context of the surface underneath is live.
pub proof fn law_approval_suspends_the_surface(
    screen: Screen,
    zoomed: Option<Station>,
    focus: FocusArea,
    held: bool,
    approval: ApprovalSurfaces,
    ctx: InputContext,
)
    requires
        claimed(screen, approval) is Some,
        active_contexts(screen, zoomed, focus, held, approval).contains(ctx),
    ensures
        active_grab(screen, focus, approval) == KeyboardGrab::NoGrab,
        ctx == InputContext::Global || Some(ctx) == claimed(screen, approval) || focus
            == FocusArea::Dialog && (ctx == InputContext::Dialog || ctx == InputContext::TextInput),
{
    let all = active_contexts(screen, zoomed, focus, held, approval);
    let i = choose|i: int| 0 <= i < all.len() && all[i] == ctx;
    assert(all[i] == ctx);
}

/// A held overlay layers over the surface underneath: it adds its context and takes none away,
/// and it never takes the keyboard from a grab.
pub proof fn law_held_overlay_only_adds(
    screen: Screen,
    zoomed: Option<Station>,
    focus: FocusArea,
    approval: ApprovalSurfaces,
    ctx: InputContext,
)
    requires
        claimed(screen, approval) is None,
        ctx != InputContext::QuickContext,
    ensures
        active_contexts(screen, zoomed, focus, true, approval).contains(InputContext::QuickContext),
        active_contexts(screen, zoomed, focus, true, approval).contains(ctx) == active_contexts(
            screen,
            zoomed,
            focus,
            false,
            approval,
        ).contains(ctx),
{
    let with = active_contexts(screen, zoomed, focus, true, approval);
    let without = active_contexts(screen, zoomed, focus, false, approval);
    assert(with[1] == InputContext::QuickContext);
    let surface = surface_contexts(screen, zoomed, focus);
    assert(with =~= seq![InputContext::Global, InputContext::QuickContext] + surface);
    assert(without =~= seq![InputContext::Global] + surface);
    if with.contains(ctx) {
        let i = choose|i: int| 0 <= i < with.len() && with[i] == ctx;
        if i == 0 {
            assert(without[0] == ctx);
        } else {
            assert(without[i - 1] == ctx);
        }
    }
    if without.contains(ctx) {
        let i = choose|i: int| 0 <= i < without.len() && without[i] == ctx;
        if i == 0 {
            assert(with[0] == ctx);
        } else {
            assert(with[i + 1] == ctx);
        }
    }
}

/// The contexts that each surface has by itself, and who has its keys: in compose the text and
/// its vim machine, in the conversation navigation, in a dialog the dialog and its text, in the
/// room the station that is zoomed into or the carousel, on the vi screens nothing but their
/// session.
pub proof fn law_contexts_of_each_surface(
    zoomed: Option<Station>,
    focus: FocusArea,
    held: bool,
)
    ensures
        ({
            let free = ApprovalSurfaces { sheet: false, ribbon: false };
            let over = if held {
                seq![InputContext::Global, InputContext::QuickContext]
            } else {
                seq![InputContext::Global]
            };
            let conversation = active_contexts(Screen::Conversation, zoomed, focus, held, free);
            let room = active_contexts(Screen::Room, zoomed, focus, held, free);
            &&& focus == FocusArea::Compose ==> conversation == over.push(InputContext::TextInput)
            &&& focus == FocusArea::Conversation ==> conversation == over.push(
                InputContext::Navigation,
            )
            &&& focus == FocusArea::Dialog ==> conversation == over.push(
                InputContext::Dialog,
            ).push(InputContext::TextInput)
            &&& zoomed is None ==> room == over.push(InputContext::RoomNav)
            &&& zoomed == Some(Station::TimeWell) ==> room == over.push(InputContext::WellZoomed)
            &&& zoomed == Some(Station::PatchBay) || zoomed == Some(Station::Tracker) || zoomed
                == Some(Station::Radiators) ==> room == over.push(InputContext::StationZoomed)
            &&& active_contexts(Screen::Editor, zoomed, focus, held, free) == over
            &&& active_contexts(Screen::Diff, zoomed, focus, held, free) == over
            &&& active_grab(Screen::Conversation, FocusArea::Compose, free)
                == KeyboardGrab::ComposeVim
            &&& focus != FocusArea::Compose ==> active_grab(Screen::Conversation, focus, free)
                == KeyboardGrab::NoGrab
            &&& active_grab(Screen::Room, focus, free) == KeyboardGrab::NoGrab
            &&& active_grab(Screen::Editor, focus, free) == KeyboardGrab::EditorSession
            &&& active_grab(Screen::Diff, focus, free) == KeyboardGrab::DiffView
        }),
{
    let free = ApprovalSurfaces { sheet: false, ribbon: false };
    let over = if held {
        seq![InputContext::Global, InputContext::QuickContext]
    } else {
        seq![InputContext::Global]
    };
    let conversation = active_contexts(Screen::Conversation, zoomed, focus, held, free);
    let room = active_contexts(Screen::Room, zoomed, focus, held, free);
    assert(conversation =~= over + surface_contexts(Screen::Conversation, zoomed, focus));
    assert(room =~= over + surface_contexts(Screen::Room, zoomed, focus));
    assert(active_contexts(Screen::Editor, zoomed, focus, held, free) =~= over);
    assert(active_contexts(Screen::Diff, zoomed, focus, held, free) =~= over);
}

/// An approval surface takes the keyboard in the conversation and in the room: the ribbon where
/// both are up. It leaves no context beside its own and Global, but for a dialog, and no grab. On
/// the vi screens it changes nothing.
pub proof fn law_approval_takes_the_keyboard(
    screen: Screen,
    zoomed: Option<Station>,
    focus: FocusArea,
    held: bool,
    approval: ApprovalSurfaces,
)
    requires
        approval.sheet || approval.ribbon,
    ensures
        ({
            let claimant = if approval.ribbon {
                InputContext::LedgerRibbon
            } else {
                InputContext::AskSheet
            };
            let all = active_contexts(screen, zoomed, focus, held, approval);
            let free = ApprovalSurfaces { sheet: false, ribbon: false };
            if screen == Screen::Conversation || screen == Screen::Room {
                &&& active_grab(screen, focus, approval) == KeyboardGrab::NoGrab
                &&& focus != FocusArea::Dialog ==> all == seq![InputContext::Global, claimant]
                &&& focus == FocusArea::Dialog ==> all == seq![
                    InputContext::Global,
                    claimant,
                    InputContext::Dialog,
                    InputContext::TextInput,
                ]
            } else {
                &&& active_grab(screen, focus, approval) == active_grab(screen, focus, free)
                &&& all == active_contexts(screen, zoomed, focus, held, free)
            }
        }),
{
    let claimant = if approval.ribbon {
        InputContext::LedgerRibbon
    } else {
        InputContext::AskSheet
    };
    let all = active_contexts(screen, zoomed, focus, held, approval);
    if screen == Screen::Conversation || screen == Screen::Room {
        if focus == FocusArea::Dialog {
            assert(all =~= seq![
                InputContext::Global,
                claimant,
                InputContext::Dialog,
                InputContext::TextInput,
            ]);
        } else {
            assert(all =~= seq![InputContext::Global, claimant]);
        }
    }
}

} // verus!
