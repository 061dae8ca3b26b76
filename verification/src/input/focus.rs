//! Focus: what has keyboard focus determines the available actions.

use vstd::prelude::*;

verus! {

/// What area of the UI currently has keyboard focus.
#[derive(Clone, Copy, Debug, PartialEq, Eq, Structural)]
pub enum FocusArea {
    /// Compose text input area. Typing inserts text. Enter submits.
    Compose,
    /// Conversation block list. j/k navigates, Enter/i activates.
    Conversation,
    /// Modal dialog. Captures all input. Enter confirms, Escape cancels.
    Dialog,
}

impl Default for FocusArea {
    fn default() -> (focus: Self)
        ensures
            focus == FocusArea::Compose,
    {
        FocusArea::Compose
    }
}

/// Whether the conversation has focus.
pub fn in_conversation(focus: FocusArea) -> (yes: bool)
    ensures
        yes == (focus == FocusArea::Conversation),
{
    focus == FocusArea::Conversation
}

/// Whether compose has focus.
pub fn in_compose(focus: FocusArea) -> (yes: bool)
    ensures
        yes == (focus == FocusArea::Compose),
{
    focus == FocusArea::Compose
}

/// Whether the focus allows scrolling the conversation.
pub fn scroll_context_active(focus: FocusArea) -> (yes: bool)
    ensures
        yes == (focus != FocusArea::Dialog),
{
    match focus {
        FocusArea::Conversation | FocusArea::Compose => true,
        FocusArea::Dialog => false,
    }
}

impl FocusArea {
    /// Whether focus is on navigation (conversation blocks).
    pub fn is_navigation(&self) -> (yes: bool)
        ensures
            yes == (*self == FocusArea::Conversation),
    {
        *self == FocusArea::Conversation
    }

    /// Human-readable name for the focus area.
    pub fn name(&self) -> (name: &'static str)
        ensures
            name@ == (match *self {
                FocusArea::Compose => "COMPOSE"@,
                FocusArea::Conversation => "NAVIGATE"@,
                FocusArea::Dialog => "DIALOG"@,
            }),
    {
        match self {
            FocusArea::Compose => "COMPOSE",
            FocusArea::Conversation => "NAVIGATE",
            FocusArea::Dialog => "DIALOG",
        }
    }
}

/// Which input surface is active while composing.
#[derive(Clone, Copy, Debug, PartialEq, Eq, Structural)]
pub enum ActiveSurface {
    /// Floating compose overlay: input goes to the conversation.
    Chat,
    /// Bottom-dock shell input: input goes to the context shell.
    Shell,
}

impl Default for ActiveSurface {
    fn default() -> (surface: Self)
        ensures
            surface == ActiveSurface::Chat,
    {
        ActiveSurface::Chat
    }
}

/// The other surface.
pub open spec fn other_surface(surface: ActiveSurface) -> ActiveSurface {
    match surface {
        ActiveSurface::Chat => ActiveSurface::Shell,
        ActiveSurface::Shell => ActiveSurface::Chat,
    }
}

impl ActiveSurface {
    /// Symmetric toggle between chat and shell.
    pub fn toggle(&mut self)
        ensures
            *final(self) == other_surface(*old(self)),
    {
        *self = match *self {
            ActiveSurface::Chat => ActiveSurface::Shell,
            ActiveSurface::Shell => ActiveSurface::Chat,
        };
    }

    pub fn is_shell(&self) -> (yes: bool)
        ensures
            yes == (*self == ActiveSurface::Shell),
    {
        *self == ActiveSurface::Shell
    }
}

/// Whether the shell surface is active.
pub fn on_shell_surface(surface: ActiveSurface) -> (yes: bool)
    ensures
        yes == (surface == ActiveSurface::Shell),
{
    surface.is_shell()
}

/// Whether the chat surface is active.
pub fn on_chat_surface(surface: ActiveSurface) -> (yes: bool)
    ensures
        yes == (surface == ActiveSurface::Chat),
{
    !surface.is_shell()
}

/// Toggling changes the surface, and toggling twice changes nothing.
pub proof fn law_toggle_is_its_own_inverse(surface: ActiveSurface)
    ensures
        other_surface(other_surface(surface)) == surface,
        other_surface(surface) != surface,
{
}

} // verus!
