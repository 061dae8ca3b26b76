//! Keys, buttons and what is held down.

use vstd::prelude::*;

verus! {

/// A physical key.
#[derive(Clone, Copy, Debug, PartialEq, Eq, Structural)]
pub enum KeyCode {
    KeyA,
    KeyB,
    KeyC,
    KeyD,
    KeyE,
    KeyF,
    KeyG,
    KeyH,
    KeyI,
    KeyJ,
    KeyK,
    KeyL,
    KeyM,
    KeyN,
    KeyO,
    KeyP,
    KeyQ,
    KeyR,
    KeyS,
    KeyT,
    KeyU,
    KeyV,
    KeyW,
    KeyX,
    KeyY,
    KeyZ,
    Digit0,
    Digit1,
    Digit2,
    Digit3,
    Digit4,
    Digit5,
    Digit6,
    Digit7,
    Digit8,
    Digit9,
    F1,
    F2,
    F3,
    F4,
    F5,
    F6,
    F7,
    F8,
    F9,
    F10,
    F11,
    F12,
    Enter,
    Escape,
    Space,
    Tab,
    Backspace,
    Delete,
    Home,
    End,
    ArrowLeft,
    ArrowRight,
    ArrowUp,
    ArrowDown,
    BracketLeft,
    BracketRight,
    Backslash,
    Semicolon,
    Quote,
    Comma,
    Period,
    Slash,
    Minus,
    Equal,
    Backquote,
    PageUp,
    PageDown,
    Insert,
    ControlLeft,
    ControlRight,
    ShiftLeft,
    ShiftRight,
    AltLeft,
    AltRight,
    SuperLeft,
    SuperRight,
    IntlBackslash,
    IntlRo,
    IntlYen,
    CapsLock,
    ContextMenu,
    Convert,
    KanaMode,
    Lang1,
    Lang2,
    Lang3,
    Lang4,
    Lang5,
    NonConvert,
    Help,
    NumLock,
    Numpad0,
    Numpad1,
    Numpad2,
    Numpad3,
    Numpad4,
    Numpad5,
    Numpad6,
    Numpad7,
    Numpad8,
    Numpad9,
    NumpadAdd,
    NumpadBackspace,
    NumpadClear,
    NumpadClearEntry,
    NumpadComma,
    NumpadDecimal,
    NumpadDivide,
    NumpadEnter,
    NumpadEqual,
    NumpadHash,
    NumpadMemoryAdd,
    NumpadMemoryClear,
    NumpadMemoryRecall,
    NumpadMemoryStore,
    NumpadMemorySubtract,
    NumpadMultiply,
    NumpadParenLeft,
    NumpadParenRight,
    NumpadStar,
    NumpadSubtract,
    Fn,
    FnLock,
    PrintScreen,
    ScrollLock,
    Pause,
    BrowserBack,
    BrowserFavorites,
    BrowserForward,
    BrowserHome,
    BrowserRefresh,
    BrowserSearch,
    BrowserStop,
    Eject,
    LaunchApp1,
    LaunchApp2,
    LaunchMail,
    MediaPlayPause,
    MediaSelect,
    MediaStop,
    MediaTrackNext,
    MediaTrackPrevious,
    Power,
    Sleep,
    AudioVolumeDown,
    AudioVolumeMute,
    AudioVolumeUp,
    WakeUp,
    Meta,
    Hyper,
    Turbo,
    Abort,
    Resume,
    Suspend,
    Again,
    Copy,
    Cut,
    Find,
    Open,
    Paste,
    Props,
    Select,
    Undo,
    Hiragana,
    Katakana,
    F13,
    F14,
    F15,
    F16,
    F17,
    F18,
    F19,
    F20,
    F21,
    F22,
    F23,
    F24,
    F25,
    F26,
    F27,
    F28,
    F29,
    F30,
    F31,
    F32,
    F33,
    F34,
    F35,
    /// A key that only the system knows.
    Unidentified(NativeKeyCode),
}

/// What the system calls a key that is not in the table.
#[derive(Clone, Copy, Debug, PartialEq, Eq, Structural)]
pub enum NativeKeyCode {
    Unidentified,
    Android(u32),
    MacOS(u16),
    Windows(u16),
    Xkb(u32),
}

/// A key as the keyboard layout reads it.
#[derive(Clone, Debug)]
pub enum Key {
    Enter,
    Tab,
    Backspace,
    Escape,
    Delete,
    Home,
    End,
    PageUp,
    PageDown,
    ArrowLeft,
    ArrowRight,
    ArrowUp,
    ArrowDown,
    Insert,
    Space,
    F1,
    F2,
    F3,
    F4,
    F5,
    F6,
    F7,
    F8,
    F9,
    F10,
    F11,
    F12,
    /// The text that the key types.
    Character(String),
    /// A dead key.
    Dead(Option<char>),
    /// A key the layout cannot read.
    Unidentified,
    /// Any other named key.
    Other,
}

/// A gamepad button.
#[derive(Clone, Copy, Debug, PartialEq, Eq, Structural)]
pub enum GamepadButton {
    South,
    East,
    North,
    West,
    C,
    Z,
    LeftTrigger,
    LeftTrigger2,
    RightTrigger,
    RightTrigger2,
    Select,
    Start,
    Mode,
    LeftThumb,
    RightThumb,
    DPadUp,
    DPadDown,
    DPadLeft,
    DPadRight,
    Other(u8),
}

/// A keyboard event.
#[derive(Clone, Debug)]
pub struct KeyboardInput {
    pub key_code: KeyCode,
    pub logical_key: Key,
    /// Pressed, as against released.
    pub pressed: bool,
    /// A repeat that the system sends while the key is held.
    pub repeat: bool,
}

/// The keys that are held down.
#[derive(Debug)]
pub struct HeldKeys {
    pub held: Vec<KeyCode>,
}

impl HeldKeys {
    /// The keys that are held down, as a set.
    pub open spec fn view(&self) -> Set<KeyCode> {
        self.held@.to_set()
    }

    /// Nothing held.
    pub fn new() -> (keys: Self)
        ensures
            keys@ == Set::<KeyCode>::empty(),
    {
        let keys = HeldKeys { held: Vec::new() };
        assert(keys@ =~= Set::<KeyCode>::empty());
        keys
    }

    /// Hold a key down.
    pub fn press(&mut self, key: KeyCode)
        ensures
            final(self)@ == old(self)@.insert(key),
    {
        let ghost before = self.held@;
        self.held.push(key);
        assert(self.held@.to_set() =~= before.to_set().insert(key)) by {
            assert forall|k: KeyCode| self.held@.contains(k) == (before.contains(k) || k == key) by {
                if before.contains(k) {
                    let i = before.index_of(k);
                    assert(self.held@[i] == k);
                }
                assert(self.held@[before.len() as int] == key);
            }
        }
    }

    /// Whether a key is held down.
    pub fn pressed(&self, key: KeyCode) -> (down: bool)
        ensures
            down == self@.contains(key),
    {
        let mut i: usize = 0;
        while i < self.held.len()
            invariant
                i <= self.held.len(),
                forall|j: int| 0 <= j < i ==> self.held@[j] != key,
            decreases self.held.len() - i,
        {
            if self.held[i] == key {
                assert(self.held@[i as int] == key);
                return true;
            }
            i = i + 1;
        }
        false
    }

    /// Whether Control is held on either side.
    pub fn ctrl(&self) -> (down: bool)
        ensures
            down == ctrl_held(self@),
    {
        self.pressed(KeyCode::ControlLeft) || self.pressed(KeyCode::ControlRight)
    }

    /// Whether Shift is held on either side.
    pub fn shift(&self) -> (down: bool)
        ensures
            down == shift_held(self@),
    {
        self.pressed(KeyCode::ShiftLeft) || self.pressed(KeyCode::ShiftRight)
    }

    /// Whether Alt is held on either side.
    pub fn alt(&self) -> (down: bool)
        ensures
            down == alt_held(self@),
    {
        self.pressed(KeyCode::AltLeft) || self.pressed(KeyCode::AltRight)
    }

    /// Whether Super is held on either side.
    pub fn super_key(&self) -> (down: bool)
        ensures
            down == super_held(self@),
    {
        self.pressed(KeyCode::SuperLeft) || self.pressed(KeyCode::SuperRight)
    }
}

/// Control is down.
pub open spec fn ctrl_held(keys: Set<KeyCode>) -> bool {
    keys.contains(KeyCode::ControlLeft) || keys.contains(KeyCode::ControlRight)
}

/// Shift is down.
pub open spec fn shift_held(keys: Set<KeyCode>) -> bool {
    keys.contains(KeyCode::ShiftLeft) || keys.contains(KeyCode::ShiftRight)
}

/// Alt is down.
pub open spec fn alt_held(keys: Set<KeyCode>) -> bool {
    keys.contains(KeyCode::AltLeft) || keys.contains(KeyCode::AltRight)
}

/// Super is down.
pub open spec fn super_held(keys: Set<KeyCode>) -> bool {
    keys.contains(KeyCode::SuperLeft) || keys.contains(KeyCode::SuperRight)
}

} // verus!
