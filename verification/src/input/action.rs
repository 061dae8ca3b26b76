//! Action enum: the universal vocabulary for user intent.
//!
//! Every input (key, gamepad button) maps to an [`Action`]. Domain logic matches on actions
//! and never reads raw input.

use vstd::prelude::*;

verus! {

/// A single-precision number, held as its IEEE 754 bit pattern.
#[derive(Clone, Copy, Debug, PartialEq, Eq, Structural)]
pub struct Scalar {
    pub bits: u32,
}

/// A discrete user action.
#[derive(Clone, Copy, Debug, PartialEq, Eq, Structural)]
pub enum Action {
    // Focus management
    /// Tab: cycle focus forward through Compose, Conversation, ...
    CycleFocusForward,
    /// Shift+Tab: cycle focus backward.
    CycleFocusBackward,
    /// Focus the compose area.
    FocusCompose,
    /// Summon the input overlay in chat mode.
    SummonChat,
    /// Toggle the active surface between chat and shell.
    ToggleSurface,
    /// Leave the compose area.
    Unfocus,
    /// Escape / gamepad East: walk up a level.
    PopLevel,
    /// Context-dependent "do the thing" (Enter).
    Activate,
    // Block navigation
    /// j: focus the next block.
    FocusNextBlock,
    /// k: focus the previous block.
    FocusPrevBlock,
    /// Home: focus the first block.
    FocusFirstBlock,
    /// End / Shift+G: focus the last block.
    FocusLastBlock,
    /// Expand the focused block.
    ExpandBlock,
    /// Toggle the stack view.
    ToggleStackView,
    /// Toggle collapse of thinking blocks.
    CollapseToggle,
    // Scrolling
    /// Scroll by a pixel delta.
    ScrollDelta(Scalar),
    /// Ctrl+U: half page up.
    HalfPageUp,
    /// Ctrl+D: half page down.
    HalfPageDown,
    /// Scroll to the end and follow.
    ScrollToEnd,
    /// Scroll to the top.
    ScrollToTop,
    // Tiling
    /// Alt+H: focus the pane to the left.
    FocusPaneLeft,
    /// Alt+J: focus the pane below.
    FocusPaneDown,
    /// Alt+K: focus the pane above.
    FocusPaneUp,
    /// Alt+L: focus the pane to the right.
    FocusPaneRight,
    /// Alt+V: split the pane vertically.
    SplitVertical,
    /// Alt+S: split the pane horizontally.
    SplitHorizontal,
    /// Alt+Q: close the focused pane.
    ClosePane,
    /// Alt+]: grow the focused pane.
    GrowPane,
    /// Alt+[: shrink the focused pane.
    ShrinkPane,
    /// Ctrl+^: toggle between the current and the previous pane.
    TogglePreviousPaneFocus,
    // Constellation
    /// Toggle the constellation view.
    ToggleConstellation,
    /// Move the selection in a direction.
    SpatialNav(Scalar, Scalar),
    /// Pan the view.
    Pan(Scalar, Scalar),
    /// Zoom in.
    ZoomIn,
    /// Zoom out.
    ZoomOut,
    /// Reset the zoom.
    ZoomReset,
    /// Create a context.
    ConstellationCreate,
    /// Open the model picker.
    ConstellationModelPicker,
    /// Archive the selected context.
    ConstellationArchive,
    /// Toggle to the alternate context.
    ToggleAlternate,
    // Text editing
    /// Enter in compose: submit the text.
    Submit,
    /// Backspace.
    Backspace,
    /// Delete.
    Delete,
    /// Arrow left.
    CursorLeft,
    /// Arrow right.
    CursorRight,
    /// Arrow up.
    CursorUp,
    /// Arrow down.
    CursorDown,
    /// Home: start of line.
    CursorHome,
    /// End: end of line.
    CursorEnd,
    /// Ctrl+Left: word left.
    CursorWordLeft,
    /// Ctrl+Right: word right.
    CursorWordRight,
    /// Select everything.
    SelectAll,
    /// Copy the selection.
    Copy,
    /// Cut the selection.
    Cut,
    /// Ctrl+V: paste the clipboard.
    Paste,
    /// Middle-click: paste the primary selection.
    PastePrimary,
    /// Undo.
    Undo,
    /// Redo.
    Redo,
    /// Shift+Enter: insert a newline without submitting.
    InsertNewline,
    // App
    /// x: toggle a block's exclusion from the conversation.
    ToggleBlockExcluded,
    /// Quit.
    Quit,
    /// F12: save a screenshot.
    Screenshot,
    /// F1: toggle the debug overlay.
    DebugToggle,
    // Scene navigation
    /// Step forward within the current level.
    StepNext,
    /// Step backward within the current level.
    StepPrev,
    /// One detail level shallower.
    LevelUp,
    /// One detail level deeper.
    LevelDown,
    /// Jump to seat `n` of the focused ring.
    JumpSeat(usize),
    /// Take a seat in the active ring.
    Promote,
    /// One step outward on the demote ladder.
    Demote,
    /// Conclude the selected context.
    Conclude,
    /// Toggle paused.
    PauseToggle,
    /// Straight past the event horizon.
    Archive,
    /// Rescan the wiring graph.
    Rescan,
    /// Toggle the in-scene keyboard legend.
    ToggleLegend,
    /// Camera-plane fly axis.
    FlyAxis { x: Scalar, y: Scalar },
    /// Altitude axis.
    FlyAltitude(Scalar),
    // Prefix verbs
    /// Switch to a seat of the active ring, from anywhere.
    SwitchToActiveSeat(usize),
    /// Toggle to the most recently used other context.
    SwitchToPreviousContext,
    /// Step to the next or previous seat of the active ring.
    ActiveSeatStep(i32),
    /// Demote the current context one step and land on the previous one.
    CloseAndDemoteContext,
    /// Go to the well, from anywhere.
    GoToWell,
    /// Back to the conversation view from any scene or the editor.
    DetachToConversation,
    /// Deliver a literal prefix key to the focused vi surface.
    SendLiteralPrefix,
    /// Summon the shell with a rename command typed.
    PromptContextRename,
    /// Summon the shell with a switch command typed.
    PromptContextSwitch,
    /// Multi-press interrupt: `immediate` is the starting mode of the binding.
    InterruptContext { immediate: bool },
}

} // verus!
