//! Convert keyboard events to the vim machine's terminal keys.

use vstd::prelude::*;
use vstd::string::*;
use modalkit::crossterm::event::{KeyCode as Ct, KeyEvent, KeyModifiers};
use modalkit::key::TerminalKey;
use crate::input::keys::{HeldKeys, Key, KeyCode, KeyboardInput};
use crate::input::keys;

verus! {

/// A key as a terminal names it.
#[derive(Clone, Copy, Debug, PartialEq, Eq, Structural)]
pub enum TermKey {
    Enter,
    Tab,
    Backspace,
    Esc,
    Delete,
    Home,
    End,
    PageUp,
    PageDown,
    Left,
    Right,
    Up,
    Down,
    Insert,
    F(u8),
    Char(char),
}

/// Modifier flags of a terminal key: Shift 1, Control 2, Alt 4.
#[derive(Clone, Copy, Debug, PartialEq, Eq, Structural)]
pub struct TermModifiers {
    pub bits: u8,
}

/// The terminal key type of `modalkit`.
#[verifier::external_type_specification]
#[verifier::external_body]
pub struct ExTerminalKey(TerminalKey);

/// The terminal key that `TerminalKey::from` makes of a key event with this code and these
/// modifier flags. It normalises letter case and Shift among each other.
pub uninterp spec fn terminal_key_of(code: TermKey, modifiers: TermModifiers) -> TerminalKey;

/// `TerminalKey::from` of `modalkit` on a `crossterm` key event with the given code and
/// modifier flags; the flags are numbered as in `KeyModifiers`. The result is only named.
#[verifier::external_body]
pub(crate) fn terminal_key(code: TermKey, modifiers: TermModifiers) -> (key: TerminalKey)
    ensures
        key == terminal_key_of(code, modifiers),
{
    let code = match code {
        TermKey::Enter => Ct::Enter, TermKey::Tab => Ct::Tab,
        TermKey::Backspace => Ct::Backspace, TermKey::Esc => Ct::Esc,
        TermKey::Delete => Ct::Delete, TermKey::Home => Ct::Home, TermKey::End => Ct::End,
        TermKey::PageUp => Ct::PageUp, TermKey::PageDown => Ct::PageDown,
        TermKey::Left => Ct::Left, TermKey::Right => Ct::Right,
        TermKey::Up => Ct::Up, TermKey::Down => Ct::Down, TermKey::Insert => Ct::Insert,
        TermKey::F(n) => Ct::F(n), TermKey::Char(c) => Ct::Char(c),
    };
    TerminalKey::from(KeyEvent::new(code, KeyModifiers::from_bits_truncate(modifiers.bits)))
}

/// A Control combination that stands for no character: Control alone, held with a character that
/// is neither a letter nor a blank nor one of `@`, `4`, `5`, `6` and `7`.
pub open spec fn no_control_char(code: TermKey, modifiers: TermModifiers) -> bool {
    &&& modifiers.bits % 64 == 2
    &&& code matches TermKey::Char(c) && !('a' <= c && c <= 'z' || 'A' <= c && c <= 'Z' || c == ' '
        || c == '@' || '4' <= c && c <= '7')
}

/// The form in which the vim machine takes a key. A Control combination that stands for no
/// character is the key that a terminal knows it as, or else has Shift added, which keeps it from
/// being read as a character.
pub open spec fn terminal_form(code: TermKey, modifiers: TermModifiers) -> (TermKey, TermModifiers) {
    if !no_control_char(code, modifiers) {
        (code, modifiers)
    } else {
        match code {
            TermKey::Char('[') => (TermKey::Esc, TermModifiers { bits: 0 }),
            TermKey::Char('\\') => (TermKey::Char('4'), TermModifiers { bits: 2 }),
            TermKey::Char(']') => (TermKey::Char('5'), TermModifiers { bits: 2 }),
            TermKey::Char('^') => (TermKey::Char('6'), TermModifiers { bits: 2 }),
            TermKey::Char('_') => (TermKey::Char('7'), TermModifiers { bits: 2 }),
            TermKey::Char('?') => (TermKey::Backspace, TermModifiers { bits: 0 }),
            _ => (code, TermModifiers { bits: 3 }),
        }
    }
}

/// The form in which the vim machine takes a key.
pub fn machine_form(code: TermKey, modifiers: TermModifiers) -> (form: (TermKey, TermModifiers))
    ensures
        form == terminal_form(code, modifiers),
        !no_control_char(form.0, form.1),
{
    let none = TermModifiers { bits: 0 };
    let ctrl = TermModifiers { bits: 2 };
    match code {
        TermKey::Char(c) => {
            if modifiers.bits % 64 != 2 || 'a' <= c && c <= 'z' || 'A' <= c && c <= 'Z' || c == ' '
                || c == '@' || '4' <= c && c <= '7' {
                return (code, modifiers);
            }
            match c {
                '[' => (TermKey::Esc, none),
                '\\' => (TermKey::Char('4'), ctrl),
                ']' => (TermKey::Char('5'), ctrl),
                '^' => (TermKey::Char('6'), ctrl),
                '_' => (TermKey::Char('7'), ctrl),
                '?' => (TermKey::Backspace, none),
                _ => (code, TermModifiers { bits: 3 }),
            }
        },
        _ => (code, modifiers),
    }
}

/// The terminal key that a physical key stands for on every layout: the named keys and the
/// function keys. Letters and digits depend on the layout.
pub open spec fn physical_code(code: KeyCode) -> Option<TermKey> {
    match code {
        KeyCode::Enter => Some(TermKey::Enter),
        KeyCode::Tab => Some(TermKey::Tab),
        KeyCode::Backspace => Some(TermKey::Backspace),
        KeyCode::Escape => Some(TermKey::Esc),
        KeyCode::Delete => Some(TermKey::Delete),
        KeyCode::Home => Some(TermKey::Home),
        KeyCode::End => Some(TermKey::End),
        KeyCode::PageUp => Some(TermKey::PageUp),
        KeyCode::PageDown => Some(TermKey::PageDown),
        KeyCode::ArrowLeft => Some(TermKey::Left),
        KeyCode::ArrowRight => Some(TermKey::Right),
        KeyCode::ArrowUp => Some(TermKey::Up),
        KeyCode::ArrowDown => Some(TermKey::Down),
        KeyCode::Insert => Some(TermKey::Insert),
        KeyCode::Space => Some(TermKey::Char(' ')),
        KeyCode::F1 => Some(TermKey::F(1)),
        KeyCode::F2 => Some(TermKey::F(2)),
        KeyCode::F3 => Some(TermKey::F(3)),
        KeyCode::F4 => Some(TermKey::F(4)),
        KeyCode::F5 => Some(TermKey::F(5)),
        KeyCode::F6 => Some(TermKey::F(6)),
        KeyCode::F7 => Some(TermKey::F(7)),
        KeyCode::F8 => Some(TermKey::F(8)),
        KeyCode::F9 => Some(TermKey::F(9)),
        KeyCode::F10 => Some(TermKey::F(10)),
        KeyCode::F11 => Some(TermKey::F(11)),
        KeyCode::F12 => Some(TermKey::F(12)),
        _ => None,
    }
}

/// The terminal key that a key stands for as the layout reads it: the named keys, the
/// function keys, and any key that types exactly one character.
pub open spec fn logical_code(key: Key) -> Option<TermKey> {
    match key {
        Key::Enter => Some(TermKey::Enter),
        Key::Tab => Some(TermKey::Tab),
        Key::Backspace => Some(TermKey::Backspace),
        Key::Escape => Some(TermKey::Esc),
        Key::Delete => Some(TermKey::Delete),
        Key::Home => Some(TermKey::Home),
        Key::End => Some(TermKey::End),
        Key::PageUp => Some(TermKey::PageUp),
        Key::PageDown => Some(TermKey::PageDown),
        Key::ArrowLeft => Some(TermKey::Left),
        Key::ArrowRight => Some(TermKey::Right),
        Key::ArrowUp => Some(TermKey::Up),
        Key::ArrowDown => Some(TermKey::Down),
        Key::Insert => Some(TermKey::Insert),
        Key::Space => Some(TermKey::Char(' ')),
        Key::F1 => Some(TermKey::F(1)),
        Key::F2 => Some(TermKey::F(2)),
        Key::F3 => Some(TermKey::F(3)),
        Key::F4 => Some(TermKey::F(4)),
        Key::F5 => Some(TermKey::F(5)),
        Key::F6 => Some(TermKey::F(6)),
        Key::F7 => Some(TermKey::F(7)),
        Key::F8 => Some(TermKey::F(8)),
        Key::F9 => Some(TermKey::F(9)),
        Key::F10 => Some(TermKey::F(10)),
        Key::F11 => Some(TermKey::F(11)),
        Key::F12 => Some(TermKey::F(12)),
        Key::Character(s) => if s@.len() == 1 {
            Some(TermKey::Char(s@[0]))
        } else {
            None
        },
        _ => None,
    }
}

/// The modifier flags of the keys that are held; Super is left to the window manager.
pub open spec fn modifier_bits(held: Set<KeyCode>) -> int {
    (if keys::ctrl_held(held) {
        2int
    } else {
        0
    }) + (if keys::shift_held(held) {
        1int
    } else {
        0
    }) + (if keys::alt_held(held) {
        4int
    } else {
        0
    })
}

/// The terminal key code of an event: what the layout reads, or else what the physical key
/// stands for.
pub open spec fn event_code(event: KeyboardInput) -> Option<TermKey> {
    match logical_code(event.logical_key) {
        Some(code) => Some(code),
        None => physical_code(event.key_code),
    }
}

/// Convert a keyboard event to a terminal key.
///
/// Prefers the layout-aware `logical_key` (so AZERTY users get the right characters for
/// `KeyA`) and falls back to `key_code` for synthetic events whose `logical_key` is
/// unidentified. Returns `None` for keys that have no terminal key.
pub fn bevy_to_terminal_key(event: &KeyboardInput, keys: &HeldKeys) -> (key: Option<TerminalKey>)
    ensures
        match event_code(*event) {
            Some(code) => key == Some(
                terminal_key_of(code, (TermModifiers { bits: modifier_bits(keys@) as u8 })),
            ),
            None => key is None,
        },
{
    match terminal_code(event) {
        Some(code) => Some(terminal_key(code, bevy_modifiers(keys))),
        None => None,
    }
}

/// The terminal key code of an event, if it has one.
pub fn terminal_code(event: &KeyboardInput) -> (code: Option<TermKey>)
    ensures
        code == event_code(*event),
{
    match logical_key_to_crossterm(&event.logical_key) {
        Some(code) => Some(code),
        None => key_code_to_crossterm(event.key_code),
    }
}

/// Fallback: map a physical key directly to a terminal key.
pub fn key_code_to_crossterm(code: KeyCode) -> (term: Option<TermKey>)
    ensures
        term == physical_code(code),
{
    match code {
        KeyCode::Enter => Some(TermKey::Enter),
        KeyCode::Tab => Some(TermKey::Tab),
        KeyCode::Backspace => Some(TermKey::Backspace),
        KeyCode::Escape => Some(TermKey::Esc),
        KeyCode::Delete => Some(TermKey::Delete),
        KeyCode::Home => Some(TermKey::Home),
        KeyCode::End => Some(TermKey::End),
        KeyCode::PageUp => Some(TermKey::PageUp),
        KeyCode::PageDown => Some(TermKey::PageDown),
        KeyCode::ArrowLeft => Some(TermKey::Left),
        KeyCode::ArrowRight => Some(TermKey::Right),
        KeyCode::ArrowUp => Some(TermKey::Up),
        KeyCode::ArrowDown => Some(TermKey::Down),
        KeyCode::Insert => Some(TermKey::Insert),
        KeyCode::Space => Some(TermKey::Char(' ')),
        KeyCode::F1 => Some(TermKey::F(1)),
        KeyCode::F2 => Some(TermKey::F(2)),
        KeyCode::F3 => Some(TermKey::F(3)),
        KeyCode::F4 => Some(TermKey::F(4)),
        KeyCode::F5 => Some(TermKey::F(5)),
        KeyCode::F6 => Some(TermKey::F(6)),
        KeyCode::F7 => Some(TermKey::F(7)),
        KeyCode::F8 => Some(TermKey::F(8)),
        KeyCode::F9 => Some(TermKey::F(9)),
        KeyCode::F10 => Some(TermKey::F(10)),
        KeyCode::F11 => Some(TermKey::F(11)),
        KeyCode::F12 => Some(TermKey::F(12)),
        _ => None,
    }
}

/// Map a key as the layout reads it to a terminal key.
pub fn logical_key_to_crossterm(key: &Key) -> (term: Option<TermKey>)
    ensures
        term == logical_code(*key),
{
    match key {
        Key::Enter => Some(TermKey::Enter),
        Key::Tab => Some(TermKey::Tab),
        Key::Backspace => Some(TermKey::Backspace),
        Key::Escape => Some(TermKey::Esc),
        Key::Delete => Some(TermKey::Delete),
        Key::Home => Some(TermKey::Home),
        Key::End => Some(TermKey::End),
        Key::PageUp => Some(TermKey::PageUp),
        Key::PageDown => Some(TermKey::PageDown),
        Key::ArrowLeft => Some(TermKey::Left),
        Key::ArrowRight => Some(TermKey::Right),
        Key::ArrowUp => Some(TermKey::Up),
        Key::ArrowDown => Some(TermKey::Down),
        Key::Insert => Some(TermKey::Insert),
        Key::Space => Some(TermKey::Char(' ')),
        Key::F1 => Some(TermKey::F(1)),
        Key::F2 => Some(TermKey::F(2)),
        Key::F3 => Some(TermKey::F(3)),
        Key::F4 => Some(TermKey::F(4)),
        Key::F5 => Some(TermKey::F(5)),
        Key::F6 => Some(TermKey::F(6)),
        Key::F7 => Some(TermKey::F(7)),
        Key::F8 => Some(TermKey::F(8)),
        Key::F9 => Some(TermKey::F(9)),
        Key::F10 => Some(TermKey::F(10)),
        Key::F11 => Some(TermKey::F(11)),
        Key::F12 => Some(TermKey::F(12)),
        Key::Character(s) => if s.as_str().unicode_len() == 1 {
            Some(TermKey::Char(s.as_str().get_char(0)))
        } else {
            None
        },
        _ => None,
    }
}

/// The modifier flags of the keys that are held.
pub fn bevy_modifiers(keys: &HeldKeys) -> (modifiers: TermModifiers)
    ensures
        modifiers.bits == modifier_bits(keys@),
{
    let ctrl: u8 = if keys.ctrl() {
        2
    } else {
        0
    };
    let shift: u8 = if keys.shift() {
        1
    } else {
        0
    };
    let alt: u8 = if keys.alt() {
        4
    } else {
        0
    };
    TermModifiers { bits: ctrl + shift + alt }
}

/// The keys that stand for one terminal key on every layout: each for its own, and no two for the
/// same. No other key has one by its place alone.
pub proof fn law_physical_keys(a: KeyCode, b: KeyCode)
    ensures
        physical_code(KeyCode::Enter) == Some(TermKey::Enter),
        physical_code(KeyCode::Tab) == Some(TermKey::Tab),
        physical_code(KeyCode::Backspace) == Some(TermKey::Backspace),
        physical_code(KeyCode::Escape) == Some(TermKey::Esc),
        physical_code(KeyCode::Delete) == Some(TermKey::Delete),
        physical_code(KeyCode::Home) == Some(TermKey::Home),
        physical_code(KeyCode::End) == Some(TermKey::End),
        physical_code(KeyCode::PageUp) == Some(TermKey::PageUp),
        physical_code(KeyCode::PageDown) == Some(TermKey::PageDown),
        physical_code(KeyCode::ArrowLeft) == Some(TermKey::Left),
        physical_code(KeyCode::ArrowRight) == Some(TermKey::Right),
        physical_code(KeyCode::ArrowUp) == Some(TermKey::Up),
        physical_code(KeyCode::ArrowDown) == Some(TermKey::Down),
        physical_code(KeyCode::Insert) == Some(TermKey::Insert),
        physical_code(KeyCode::Space) == Some(TermKey::Char(' ')),
        physical_code(KeyCode::F1) == Some(TermKey::F(1)),
        physical_code(KeyCode::F2) == Some(TermKey::F(2)),
        physical_code(KeyCode::F3) == Some(TermKey::F(3)),
        physical_code(KeyCode::F4) == Some(TermKey::F(4)),
        physical_code(KeyCode::F5) == Some(TermKey::F(5)),
        physical_code(KeyCode::F6) == Some(TermKey::F(6)),
        physical_code(KeyCode::F7) == Some(TermKey::F(7)),
        physical_code(KeyCode::F8) == Some(TermKey::F(8)),
        physical_code(KeyCode::F9) == Some(TermKey::F(9)),
        physical_code(KeyCode::F10) == Some(TermKey::F(10)),
        physical_code(KeyCode::F11) == Some(TermKey::F(11)),
        physical_code(KeyCode::F12) == Some(TermKey::F(12)),
        physical_code(a) is Some && physical_code(a) == physical_code(b) ==> a == b,
        physical_code(a) matches Some(TermKey::F(n)) ==> 1 <= n <= 12,
        physical_code(a) matches Some(TermKey::Char(c)) ==> c == ' ',
{
}

/// What the layout reads stands for the same terminal keys, and for the character that a key types
/// where it types exactly one.
pub proof fn law_logical_keys(key: Key)
    ensures
        logical_code(Key::Enter) == Some(TermKey::Enter),
        logical_code(Key::Tab) == Some(TermKey::Tab),
        logical_code(Key::Backspace) == Some(TermKey::Backspace),
        logical_code(Key::Escape) == Some(TermKey::Esc),
        logical_code(Key::Delete) == Some(TermKey::Delete),
        logical_code(Key::Home) == Some(TermKey::Home),
        logical_code(Key::End) == Some(TermKey::End),
        logical_code(Key::PageUp) == Some(TermKey::PageUp),
        logical_code(Key::PageDown) == Some(TermKey::PageDown),
        logical_code(Key::ArrowLeft) == Some(TermKey::Left),
        logical_code(Key::ArrowRight) == Some(TermKey::Right),
        logical_code(Key::ArrowUp) == Some(TermKey::Up),
        logical_code(Key::ArrowDown) == Some(TermKey::Down),
        logical_code(Key::Insert) == Some(TermKey::Insert),
        logical_code(Key::Space) == Some(TermKey::Char(' ')),
        logical_code(Key::F1) == Some(TermKey::F(1)),
        logical_code(Key::F2) == Some(TermKey::F(2)),
        logical_code(Key::F3) == Some(TermKey::F(3)),
        logical_code(Key::F4) == Some(TermKey::F(4)),
        logical_code(Key::F5) == Some(TermKey::F(5)),
        logical_code(Key::F6) == Some(TermKey::F(6)),
        logical_code(Key::F7) == Some(TermKey::F(7)),
        logical_code(Key::F8) == Some(TermKey::F(8)),
        logical_code(Key::F9) == Some(TermKey::F(9)),
        logical_code(Key::F10) == Some(TermKey::F(10)),
        logical_code(Key::F11) == Some(TermKey::F(11)),
        logical_code(Key::F12) == Some(TermKey::F(12)),
        key matches Key::Character(s) ==> logical_code(key) == (if s@.len() == 1 {
            Some(TermKey::Char(s@[0]))
        } else {
            None
        }),
        key is Dead || key is Unidentified || key is Other ==> logical_code(key) is None,
{
}

/// The layout has the say on what a key is, and the key itself only where the layout cannot read
/// it.
pub proof fn law_the_layout_comes_first(event: KeyboardInput)
    ensures
        logical_code(event.logical_key) is Some ==> event_code(event) == logical_code(
            event.logical_key,
        ),
        logical_code(event.logical_key) is None ==> event_code(event) == physical_code(
            event.key_code,
        ),
{
}

/// Shift, Control and Alt each set their own flag, on either side of the keyboard; no other key
/// sets any.
pub proof fn law_modifier_flags(held: Set<KeyCode>)
    ensures
        ({
            let bits = modifier_bits(held);
            &&& 0 <= bits <= 7
            &&& bits % 2 == 1 <==> held.contains(KeyCode::ShiftLeft) || held.contains(
                KeyCode::ShiftRight,
            )
            &&& bits / 2 % 2 == 1 <==> held.contains(KeyCode::ControlLeft) || held.contains(
                KeyCode::ControlRight,
            )
            &&& bits / 4 % 2 == 1 <==> held.contains(KeyCode::AltLeft) || held.contains(
                KeyCode::AltRight,
            )
        }),
{
}

/// A key goes to the machine as it is, but for Control held with a character that has no control
/// character: those that terminals know by another name go by that, and all others get Shift.
pub proof fn law_control_combinations(code: TermKey, modifiers: TermModifiers, c: char)
    ensures
        modifiers.bits % 64 != 2 || !(code is Char) ==> terminal_form(code, modifiers) == (
            code,
            modifiers,
        ),
        ({
            let ctrl = TermModifiers { bits: 2 };
            let none = TermModifiers { bits: 0 };
            &&& terminal_form(TermKey::Char('['), ctrl) == (TermKey::Esc, none)
            &&& terminal_form(TermKey::Char('?'), ctrl) == (TermKey::Backspace, none)
            &&& terminal_form(TermKey::Char('\\'), ctrl) == (TermKey::Char('4'), ctrl)
            &&& terminal_form(TermKey::Char(']'), ctrl) == (TermKey::Char('5'), ctrl)
            &&& terminal_form(TermKey::Char('^'), ctrl) == (TermKey::Char('6'), ctrl)
            &&& terminal_form(TermKey::Char('_'), ctrl) == (TermKey::Char('7'), ctrl)
            &&& 'a' <= c <= 'z' || 'A' <= c <= 'Z' || c == ' ' || c == '@' || '4' <= c <= '7'
                ==> terminal_form(TermKey::Char(c), ctrl) == (TermKey::Char(c), ctrl)
            &&& !('a' <= c <= 'z' || 'A' <= c <= 'Z' || c == ' ' || c == '@' || '4' <= c <= '7')
                && c != '[' && c != '?' && c != '\\' && c != ']' && c != '^' && c != '_'
                ==> terminal_form(TermKey::Char(c), ctrl) == (
                TermKey::Char(c),
                TermModifiers { bits: 3 },
            )
        }),
{
}

} // verus!
