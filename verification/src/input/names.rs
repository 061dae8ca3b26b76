//! The names of keys, buttons, contexts and actions in a bindings file.

use vstd::prelude::*;
use crate::input::action::{Action, Scalar};
use crate::input::context::InputContext;
use crate::input::keys::{GamepadButton, KeyCode, NativeKeyCode};
use crate::strutil;
use crate::strutil::same;

verus! {

/// A number that tells the names of a table apart: length and five characters.
pub open spec fn fingerprint(s: Seq<char>) -> int {
    let n = s.len() as int;
    ((((n * 128 + s[0] as int) * 128 + s[n / 2] as int) * 128 + s[n - 1] as int) * 128 + s[n
        / 3] as int) * 128 + s[(2 * n) / 3] as int
}

/// The name of a key.
pub open spec fn key_name(key: KeyCode) -> Seq<char> {
    match key {
        KeyCode::KeyA => "KeyA"@,
        KeyCode::KeyB => "KeyB"@,
        KeyCode::KeyC => "KeyC"@,
        KeyCode::KeyD => "KeyD"@,
        KeyCode::KeyE => "KeyE"@,
        KeyCode::KeyF => "KeyF"@,
        KeyCode::KeyG => "KeyG"@,
        KeyCode::KeyH => "KeyH"@,
        KeyCode::KeyI => "KeyI"@,
        KeyCode::KeyJ => "KeyJ"@,
        KeyCode::KeyK => "KeyK"@,
        KeyCode::KeyL => "KeyL"@,
        KeyCode::KeyM => "KeyM"@,
        KeyCode::KeyN => "KeyN"@,
        KeyCode::KeyO => "KeyO"@,
        KeyCode::KeyP => "KeyP"@,
        KeyCode::KeyQ => "KeyQ"@,
        KeyCode::KeyR => "KeyR"@,
        KeyCode::KeyS => "KeyS"@,
        KeyCode::KeyT => "KeyT"@,
        KeyCode::KeyU => "KeyU"@,
        KeyCode::KeyV => "KeyV"@,
        KeyCode::KeyW => "KeyW"@,
        KeyCode::KeyX => "KeyX"@,
        KeyCode::KeyY => "KeyY"@,
        KeyCode::KeyZ => "KeyZ"@,
        KeyCode::Digit0 => "Digit0"@,
        KeyCode::Digit1 => "Digit1"@,
        KeyCode::Digit2 => "Digit2"@,
        KeyCode::Digit3 => "Digit3"@,
        KeyCode::Digit4 => "Digit4"@,
        KeyCode::Digit5 => "Digit5"@,
        KeyCode::Digit6 => "Digit6"@,
        KeyCode::Digit7 => "Digit7"@,
        KeyCode::Digit8 => "Digit8"@,
        KeyCode::Digit9 => "Digit9"@,
        KeyCode::F1 => "F1"@,
        KeyCode::F2 => "F2"@,
        KeyCode::F3 => "F3"@,
        KeyCode::F4 => "F4"@,
        KeyCode::F5 => "F5"@,
        KeyCode::F6 => "F6"@,
        KeyCode::F7 => "F7"@,
        KeyCode::F8 => "F8"@,
        KeyCode::F9 => "F9"@,
        KeyCode::F10 => "F10"@,
        KeyCode::F11 => "F11"@,
        KeyCode::F12 => "F12"@,
        KeyCode::Enter => "Enter"@,
        KeyCode::Escape => "Escape"@,
        KeyCode::Space => "Space"@,
        KeyCode::Tab => "Tab"@,
        KeyCode::Backspace => "Backspace"@,
        KeyCode::Delete => "Delete"@,
        KeyCode::Home => "Home"@,
        KeyCode::End => "End"@,
        KeyCode::ArrowLeft => "ArrowLeft"@,
        KeyCode::ArrowRight => "ArrowRight"@,
        KeyCode::ArrowUp => "ArrowUp"@,
        KeyCode::ArrowDown => "ArrowDown"@,
        KeyCode::BracketLeft => "BracketLeft"@,
        KeyCode::BracketRight => "BracketRight"@,
        KeyCode::Backslash => "Backslash"@,
        KeyCode::Semicolon => "Semicolon"@,
        KeyCode::Quote => "Quote"@,
        KeyCode::Comma => "Comma"@,
        KeyCode::Period => "Period"@,
        KeyCode::Slash => "Slash"@,
        KeyCode::Minus => "Minus"@,
        KeyCode::Equal => "Equal"@,
        KeyCode::Backquote => "Backquote"@,
        KeyCode::PageUp => "PageUp"@,
        KeyCode::PageDown => "PageDown"@,
        KeyCode::Insert => "Insert"@,
        KeyCode::ControlLeft => "ControlLeft"@,
        KeyCode::ControlRight => "ControlRight"@,
        KeyCode::ShiftLeft => "ShiftLeft"@,
        KeyCode::ShiftRight => "ShiftRight"@,
        KeyCode::AltLeft => "AltLeft"@,
        KeyCode::AltRight => "AltRight"@,
        KeyCode::SuperLeft => "SuperLeft"@,
        KeyCode::SuperRight => "SuperRight"@,
        KeyCode::IntlBackslash => "IntlBackslash"@,
        KeyCode::IntlRo => "IntlRo"@,
        KeyCode::IntlYen => "IntlYen"@,
        KeyCode::CapsLock => "CapsLock"@,
        KeyCode::ContextMenu => "ContextMenu"@,
        KeyCode::Convert => "Convert"@,
        KeyCode::KanaMode => "KanaMode"@,
        KeyCode::Lang1 => "Lang1"@,
        KeyCode::Lang2 => "Lang2"@,
        KeyCode::Lang3 => "Lang3"@,
        KeyCode::Lang4 => "Lang4"@,
        KeyCode::Lang5 => "Lang5"@,
        KeyCode::NonConvert => "NonConvert"@,
        KeyCode::Help => "Help"@,
        KeyCode::NumLock => "NumLock"@,
        KeyCode::Numpad0 => "Numpad0"@,
        KeyCode::Numpad1 => "Numpad1"@,
        KeyCode::Numpad2 => "Numpad2"@,
        KeyCode::Numpad3 => "Numpad3"@,
        KeyCode::Numpad4 => "Numpad4"@,
        KeyCode::Numpad5 => "Numpad5"@,
        KeyCode::Numpad6 => "Numpad6"@,
        KeyCode::Numpad7 => "Numpad7"@,
        KeyCode::Numpad8 => "Numpad8"@,
        KeyCode::Numpad9 => "Numpad9"@,
        KeyCode::NumpadAdd => "NumpadAdd"@,
        KeyCode::NumpadBackspace => "NumpadBackspace"@,
        KeyCode::NumpadClear => "NumpadClear"@,
        KeyCode::NumpadClearEntry => "NumpadClearEntry"@,
        KeyCode::NumpadComma => "NumpadComma"@,
        KeyCode::NumpadDecimal => "NumpadDecimal"@,
        KeyCode::NumpadDivide => "NumpadDivide"@,
        KeyCode::NumpadEnter => "NumpadEnter"@,
        KeyCode::NumpadEqual => "NumpadEqual"@,
        KeyCode::NumpadHash => "NumpadHash"@,
        KeyCode::NumpadMemoryAdd => "NumpadMemoryAdd"@,
        KeyCode::NumpadMemoryClear => "NumpadMemoryClear"@,
        KeyCode::NumpadMemoryRecall => "NumpadMemoryRecall"@,
        KeyCode::NumpadMemoryStore => "NumpadMemoryStore"@,
        KeyCode::NumpadMemorySubtract => "NumpadMemorySubtract"@,
        KeyCode::NumpadMultiply => "NumpadMultiply"@,
        KeyCode::NumpadParenLeft => "NumpadParenLeft"@,
        KeyCode::NumpadParenRight => "NumpadParenRight"@,
        KeyCode::NumpadStar => "NumpadStar"@,
        KeyCode::NumpadSubtract => "NumpadSubtract"@,
        KeyCode::Fn => "Fn"@,
        KeyCode::FnLock => "FnLock"@,
        KeyCode::PrintScreen => "PrintScreen"@,
        KeyCode::ScrollLock => "ScrollLock"@,
        KeyCode::Pause => "Pause"@,
        KeyCode::BrowserBack => "BrowserBack"@,
        KeyCode::BrowserFavorites => "BrowserFavorites"@,
        KeyCode::BrowserForward => "BrowserForward"@,
        KeyCode::BrowserHome => "BrowserHome"@,
        KeyCode::BrowserRefresh => "BrowserRefresh"@,
        KeyCode::BrowserSearch => "BrowserSearch"@,
        KeyCode::BrowserStop => "BrowserStop"@,
        KeyCode::Eject => "Eject"@,
        KeyCode::LaunchApp1 => "LaunchApp1"@,
        KeyCode::LaunchApp2 => "LaunchApp2"@,
        KeyCode::LaunchMail => "LaunchMail"@,
        KeyCode::MediaPlayPause => "MediaPlayPause"@,
        KeyCode::MediaSelect => "MediaSelect"@,
        KeyCode::MediaStop => "MediaStop"@,
        KeyCode::MediaTrackNext => "MediaTrackNext"@,
        KeyCode::MediaTrackPrevious => "MediaTrackPrevious"@,
        KeyCode::Power => "Power"@,
        KeyCode::Sleep => "Sleep"@,
        KeyCode::AudioVolumeDown => "AudioVolumeDown"@,
        KeyCode::AudioVolumeMute => "AudioVolumeMute"@,
        KeyCode::AudioVolumeUp => "AudioVolumeUp"@,
        KeyCode::WakeUp => "WakeUp"@,
        KeyCode::Meta => "Meta"@,
        KeyCode::Hyper => "Hyper"@,
        KeyCode::Turbo => "Turbo"@,
        KeyCode::Abort => "Abort"@,
        KeyCode::Resume => "Resume"@,
        KeyCode::Suspend => "Suspend"@,
        KeyCode::Again => "Again"@,
        KeyCode::Copy => "Copy"@,
        KeyCode::Cut => "Cut"@,
        KeyCode::Find => "Find"@,
        KeyCode::Open => "Open"@,
        KeyCode::Paste => "Paste"@,
        KeyCode::Props => "Props"@,
        KeyCode::Select => "Select"@,
        KeyCode::Undo => "Undo"@,
        KeyCode::Hiragana => "Hiragana"@,
        KeyCode::Katakana => "Katakana"@,
        KeyCode::F13 => "F13"@,
        KeyCode::F14 => "F14"@,
        KeyCode::F15 => "F15"@,
        KeyCode::F16 => "F16"@,
        KeyCode::F17 => "F17"@,
        KeyCode::F18 => "F18"@,
        KeyCode::F19 => "F19"@,
        KeyCode::F20 => "F20"@,
        KeyCode::F21 => "F21"@,
        KeyCode::F22 => "F22"@,
        KeyCode::F23 => "F23"@,
        KeyCode::F24 => "F24"@,
        KeyCode::F25 => "F25"@,
        KeyCode::F26 => "F26"@,
        KeyCode::F27 => "F27"@,
        KeyCode::F28 => "F28"@,
        KeyCode::F29 => "F29"@,
        KeyCode::F30 => "F30"@,
        KeyCode::F31 => "F31"@,
        KeyCode::F32 => "F32"@,
        KeyCode::F33 => "F33"@,
        KeyCode::F34 => "F34"@,
        KeyCode::F35 => "F35"@,
        KeyCode::Unidentified(native) => "Unidentified("@ + native_name(native) + ")"@,
    }
}

/// The name of a key that only the system knows.
pub open spec fn native_name(native: NativeKeyCode) -> Seq<char> {
    match native {
        NativeKeyCode::Unidentified => "Unidentified"@,
        NativeKeyCode::Android(n) => "Android("@ + strutil::digits_of(n as nat) + ")"@,
        NativeKeyCode::MacOS(n) => "MacOS("@ + strutil::digits_of(n as nat) + ")"@,
        NativeKeyCode::Windows(n) => "Windows("@ + strutil::digits_of(n as nat) + ")"@,
        NativeKeyCode::Xkb(n) => "Xkb("@ + strutil::digits_of(n as nat) + ")"@,
    }
}

/// The keys that a bindings file can name.
pub open spec fn key_listed(key: KeyCode) -> bool {
    match key {
        KeyCode::KeyA => true,
        KeyCode::KeyB => true,
        KeyCode::KeyC => true,
        KeyCode::KeyD => true,
        KeyCode::KeyE => true,
        KeyCode::KeyF => true,
        KeyCode::KeyG => true,
        KeyCode::KeyH => true,
        KeyCode::KeyI => true,
        KeyCode::KeyJ => true,
        KeyCode::KeyK => true,
        KeyCode::KeyL => true,
        KeyCode::KeyM => true,
        KeyCode::KeyN => true,
        KeyCode::KeyO => true,
        KeyCode::KeyP => true,
        KeyCode::KeyQ => true,
        KeyCode::KeyR => true,
        KeyCode::KeyS => true,
        KeyCode::KeyT => true,
        KeyCode::KeyU => true,
        KeyCode::KeyV => true,
        KeyCode::KeyW => true,
        KeyCode::KeyX => true,
        KeyCode::KeyY => true,
        KeyCode::KeyZ => true,
        KeyCode::Digit0 => true,
        KeyCode::Digit1 => true,
        KeyCode::Digit2 => true,
        KeyCode::Digit3 => true,
        KeyCode::Digit4 => true,
        KeyCode::Digit5 => true,
        KeyCode::Digit6 => true,
        KeyCode::Digit7 => true,
        KeyCode::Digit8 => true,
        KeyCode::Digit9 => true,
        KeyCode::F1 => true,
        KeyCode::F2 => true,
        KeyCode::F3 => true,
        KeyCode::F4 => true,
        KeyCode::F5 => true,
        KeyCode::F6 => true,
        KeyCode::F7 => true,
        KeyCode::F8 => true,
        KeyCode::F9 => true,
        KeyCode::F10 => true,
        KeyCode::F11 => true,
        KeyCode::F12 => true,
        KeyCode::Enter => true,
        KeyCode::Escape => true,
        KeyCode::Space => true,
        KeyCode::Tab => true,
        KeyCode::Backspace => true,
        KeyCode::Delete => true,
        KeyCode::Home => true,
        KeyCode::End => true,
        KeyCode::ArrowLeft => true,
        KeyCode::ArrowRight => true,
        KeyCode::ArrowUp => true,
        KeyCode::ArrowDown => true,
        KeyCode::BracketLeft => true,
        KeyCode::BracketRight => true,
        KeyCode::Backslash => true,
        KeyCode::Semicolon => true,
        KeyCode::Quote => true,
        KeyCode::Comma => true,
        KeyCode::Period => true,
        KeyCode::Slash => true,
        KeyCode::Minus => true,
        KeyCode::Equal => true,
        KeyCode::Backquote => true,
        _ => false,
    }
}

spec fn key_number(key: KeyCode) -> int {
    match key {
        KeyCode::KeyA => 157826446073,
        KeyCode::KeyB => 157826462457,
        KeyCode::KeyC => 157826478841,
        KeyCode::KeyD => 157826495225,
        KeyCode::KeyE => 157826511609,
        KeyCode::KeyF => 157826527993,
        KeyCode::KeyG => 157826544377,
        KeyCode::KeyH => 157826560761,
        KeyCode::KeyI => 157826577145,
        KeyCode::KeyJ => 157826593529,
        KeyCode::KeyK => 157826609913,
        KeyCode::KeyL => 157826626297,
        KeyCode::KeyM => 157826642681,
        KeyCode::KeyN => 157826659065,
        KeyCode::KeyO => 157826675449,
        KeyCode::KeyP => 157826691833,
        KeyCode::KeyQ => 157826708217,
        KeyCode::KeyR => 157826724601,
        KeyCode::KeyS => 157826740985,
        KeyCode::KeyT => 157826757369,
        KeyCode::KeyU => 157826773753,
        KeyCode::KeyV => 157826790137,
        KeyCode::KeyW => 157826806521,
        KeyCode::KeyX => 157826822905,
        KeyCode::KeyY => 157826839289,
        KeyCode::KeyZ => 157826855673,
        KeyCode::Digit0 => 224633041908,
        KeyCode::Digit1 => 224633058292,
        KeyCode::Digit2 => 224633074676,
        KeyCode::Digit3 => 224633091060,
        KeyCode::Digit4 => 224633107444,
        KeyCode::Digit5 => 224633123828,
        KeyCode::Digit6 => 224633140212,
        KeyCode::Digit7 => 224633156596,
        KeyCode::Digit8 => 224633172980,
        KeyCode::Digit9 => 224633189364,
        KeyCode::F1 => 87613530929,
        KeyCode::F2 => 87615644466,
        KeyCode::F3 => 87617758003,
        KeyCode::F4 => 87619871540,
        KeyCode::F5 => 87621985077,
        KeyCode::F6 => 87624098614,
        KeyCode::F7 => 87626212151,
        KeyCode::F8 => 87628325688,
        KeyCode::F9 => 87630439225,
        KeyCode::F10 => 121973250224,
        KeyCode::F11 => 121973266609,
        KeyCode::F12 => 121973282994,
        KeyCode::Enter => 190565889893,
        KeyCode::Escape => 224885567984,
        KeyCode::Space => 194283927651,
        KeyCode::Tab => 125832835298,
        KeyCode::Backspace => 327197226465,
        KeyCode::Delete => 224625522292,
        KeyCode::Home => 156996564973,
        KeyCode::End => 121833600868,
        KeyCode::ArrowLeft => 326937425893,
        KeyCode::ArrowRight => 361219569641,
        KeyCode::ArrowUp => 258201106807,
        KeyCode::ArrowDown => 326937327599,
        KeyCode::BracketLeft => 395887587788,
        KeyCode::BracketRight => 430278784489,
        KeyCode::Backslash => 327197275617,
        KeyCode::Semicolon => 331727221996,
        KeyCode::Quote => 193776417524,
        KeyCode::Comma => 190014060525,
        KeyCode::Period => 227855120751,
        KeyCode::Slash => 194283976307,
        KeyCode::Minus => 192700806389,
        KeyCode::Equal => 190567889121,
        KeyCode::Backquote => 327193032175,
        KeyCode::PageUp => 227846927317,
        KeyCode::PageDown => 296497165295,
        KeyCode::Insert => 225967946226,
        KeyCode::ControlLeft => 396176996940,
        KeyCode::ControlRight => 430530443625,
        KeyCode::ShiftLeft => 331762971493,
        KeyCode::ShiftRight => 366051406697,
        KeyCode::AltLeft => 258127772261,
        KeyCode::AltRight => 292548328039,
        KeyCode::SuperLeft => 331758777061,
        KeyCode::SuperRight => 366051406569,
        KeyCode::IntlBackslash => 466481717619,
        KeyCode::IntlRo => 225982544466,
        KeyCode::IntlYen => 260342266457,
        KeyCode::CapsLock => 293024233583,
        KeyCode::ContextMenu => 396195887693,
        KeyCode::Convert => 258752722789,
        KeyCode::KanaMode => 295173715823,
        KeyCode::Lang1 => 192431288551,
        KeyCode::Lang2 => 192431304935,
        KeyCode::Lang3 => 192431321319,
        KeyCode::Lang4 => 192431337703,
        KeyCode::Lang5 => 192431354087,
        KeyCode::NonConvert => 364767945206,
        KeyCode::Help => 156994646764,
        KeyCode::NumLock => 261617284847,
        KeyCode::Numpad0 => 261691815649,
        KeyCode::Numpad1 => 261691832033,
        KeyCode::Numpad2 => 261691848417,
        KeyCode::Numpad3 => 261691864801,
        KeyCode::Numpad4 => 261691881185,
        KeyCode::Numpad5 => 261691897569,
        KeyCode::Numpad6 => 261691913953,
        KeyCode::Numpad7 => 261691930337,
        KeyCode::Numpad8 => 261691946721,
        KeyCode::Numpad9 => 261691963105,
        KeyCode::NumpadAdd => 330380687425,
        KeyCode::NumpadBackspace => 536539132531,
        KeyCode::NumpadClear => 399106685036,
        KeyCode::NumpadClearEntry => 570907587186,
        KeyCode::NumpadComma => 399106406511,
        KeyCode::NumpadDecimal => 467758952675,
        KeyCode::NumpadDivide => 433399099638,
        KeyCode::NumpadEnter => 399106685038,
        KeyCode::NumpadEqual => 399106586737,
        KeyCode::NumpadHash => 364746782792,
        KeyCode::NumpadMemoryAdd => 536547504754,
        KeyCode::NumpadMemoryClear => 605283988089,
        KeyCode::NumpadMemoryRecall => 639647819474,
        KeyCode::NumpadMemoryStore => 605283775097,
        KeyCode::NumpadMemorySubtract => 708373718773,
        KeyCode::NumpadMultiply => 502221664500,
        KeyCode::NumpadParenLeft => 536539378286,
        KeyCode::NumpadParenRight => 570934768238,
        KeyCode::NumpadStar => 364746946643,
        KeyCode::NumpadSubtract => 502221582580,
        KeyCode::Fn => 87742456686,
        KeyCode::FnLock => 225183458915,
        KeyCode::PrintScreen => 399607838578,
        KeyCode::ScrollLock => 366105786316,
        KeyCode::Pause => 193520562419,
        KeyCode::BrowserBack => 395887442882,
        KeyCode::BrowserFavorites => 567677874927,
        KeyCode::BrowserForward => 498901531122,
        KeyCode::BrowserHome => 395887344584,
        KeyCode::BrowserRefresh => 498926762470,
        KeyCode::BrowserSearch => 464634132965,
        KeyCode::BrowserStop => 395887524819,
        KeyCode::Eject => 190534464867,
        KeyCode::LaunchApp1 => 364217399105,
        KeyCode::LaunchApp2 => 364217415489,
        KeyCode::LaunchMail => 364218365773,
        KeyCode::MediaPlayPause => 501910958288,
        KeyCode::MediaSelect => 398802629868,
        KeyCode::MediaStop => 330112447732,
        KeyCode::MediaTrackNext => 501911204075,
        KeyCode::MediaTrackPrevious => 639371114853,
        KeyCode::Power => 193524971493,
        KeyCode::Sleep => 194292495973,
        KeyCode::AudioVolumeDown => 533072685925,
        KeyCode::AudioVolumeMute => 533072538469,
        KeyCode::AudioVolumeUp => 464359536629,
        KeyCode::WakeUp => 229725976021,
        KeyCode::Meta => 158353355508,
        KeyCode::Hyper => 191362809061,
        KeyCode::Turbo => 194588179170,
        KeyCode::Abort => 189481693554,
        KeyCode::Resume => 228417173997,
        KeyCode::Suspend => 263034845669,
        KeyCode::Again => 189452235753,
        KeyCode::Copy => 155661006832,
        KeyCode::Cut => 121311673076,
        KeyCode::Find => 156461774062,
        KeyCode::Open => 158858983525,
        KeyCode::Paste => 193516368116,
        KeyCode::Props => 193508211056,
        KeyCode::Select => 228652299875,
        KeyCode::Undo => 160467515236,
        KeyCode::Hiragana => 294422870369,
        KeyCode::Katakana => 295236565601,
        KeyCode::F13 => 121973299379,
        KeyCode::F14 => 121973315764,
        KeyCode::F15 => 121973332149,
        KeyCode::F16 => 121973348534,
        KeyCode::F17 => 121973364919,
        KeyCode::F18 => 121973381304,
        KeyCode::F19 => 121973397689,
        KeyCode::F20 => 121975347504,
        KeyCode::F21 => 121975363889,
        KeyCode::F22 => 121975380274,
        KeyCode::F23 => 121975396659,
        KeyCode::F24 => 121975413044,
        KeyCode::F25 => 121975429429,
        KeyCode::F26 => 121975445814,
        KeyCode::F27 => 121975462199,
        KeyCode::F28 => 121975478584,
        KeyCode::F29 => 121975494969,
        KeyCode::F30 => 121977444784,
        KeyCode::F31 => 121977461169,
        KeyCode::F32 => 121977477554,
        KeyCode::F33 => 121977493939,
        KeyCode::F34 => 121977510324,
        KeyCode::F35 => 121977526709,
        KeyCode::Unidentified(_) => 0,
    }
}

proof fn lemma_key_number(key: KeyCode)
    requires
        !(key is Unidentified),
    ensures
        fingerprint(key_name(key)) == key_number(key),
        key_name(key).len() <= 12 || key_name(key)[12] != '(',
{
    match key {
        KeyCode::KeyA => {
            reveal_strlit("KeyA");
        },
        KeyCode::KeyB => {
            reveal_strlit("KeyB");
        },
        KeyCode::KeyC => {
            reveal_strlit("KeyC");
        },
        KeyCode::KeyD => {
            reveal_strlit("KeyD");
        },
        KeyCode::KeyE => {
            reveal_strlit("KeyE");
        },
        KeyCode::KeyF => {
            reveal_strlit("KeyF");
        },
        KeyCode::KeyG => {
            reveal_strlit("KeyG");
        },
        KeyCode::KeyH => {
            reveal_strlit("KeyH");
        },
        KeyCode::KeyI => {
            reveal_strlit("KeyI");
        },
        KeyCode::KeyJ => {
            reveal_strlit("KeyJ");
        },
        KeyCode::KeyK => {
            reveal_strlit("KeyK");
        },
        KeyCode::KeyL => {
            reveal_strlit("KeyL");
        },
        KeyCode::KeyM => {
            reveal_strlit("KeyM");
        },
        KeyCode::KeyN => {
            reveal_strlit("KeyN");
        },
        KeyCode::KeyO => {
            reveal_strlit("KeyO");
        },
        KeyCode::KeyP => {
            reveal_strlit("KeyP");
        },
        KeyCode::KeyQ => {
            reveal_strlit("KeyQ");
        },
        KeyCode::KeyR => {
            reveal_strlit("KeyR");
        },
        KeyCode::KeyS => {
            reveal_strlit("KeyS");
        },
        KeyCode::KeyT => {
            reveal_strlit("KeyT");
        },
        KeyCode::KeyU => {
            reveal_strlit("KeyU");
        },
        KeyCode::KeyV => {
            reveal_strlit("KeyV");
        },
        KeyCode::KeyW => {
            reveal_strlit("KeyW");
        },
        KeyCode::KeyX => {
            reveal_strlit("KeyX");
        },
        KeyCode::KeyY => {
            reveal_strlit("KeyY");
        },
        KeyCode::KeyZ => {
            reveal_strlit("KeyZ");
        },
        KeyCode::Digit0 => {
            reveal_strlit("Digit0");
        },
        KeyCode::Digit1 => {
            reveal_strlit("Digit1");
        },
        KeyCode::Digit2 => {
            reveal_strlit("Digit2");
        },
        KeyCode::Digit3 => {
            reveal_strlit("Digit3");
        },
        KeyCode::Digit4 => {
            reveal_strlit("Digit4");
        },
        KeyCode::Digit5 => {
            reveal_strlit("Digit5");
        },
        KeyCode::Digit6 => {
            reveal_strlit("Digit6");
        },
        KeyCode::Digit7 => {
            reveal_strlit("Digit7");
        },
        KeyCode::Digit8 => {
            reveal_strlit("Digit8");
        },
        KeyCode::Digit9 => {
            reveal_strlit("Digit9");
        },
        KeyCode::F1 => {
            reveal_strlit("F1");
        },
        KeyCode::F2 => {
            reveal_strlit("F2");
        },
        KeyCode::F3 => {
            reveal_strlit("F3");
        },
        KeyCode::F4 => {
            reveal_strlit("F4");
        },
        KeyCode::F5 => {
            reveal_strlit("F5");
        },
        KeyCode::F6 => {
            reveal_strlit("F6");
        },
        KeyCode::F7 => {
            reveal_strlit("F7");
        },
        KeyCode::F8 => {
            reveal_strlit("F8");
        },
        KeyCode::F9 => {
            reveal_strlit("F9");
        },
        KeyCode::F10 => {
            reveal_strlit("F10");
        },
        KeyCode::F11 => {
            reveal_strlit("F11");
        },
        KeyCode::F12 => {
            reveal_strlit("F12");
        },
        KeyCode::Enter => {
            reveal_strlit("Enter");
        },
        KeyCode::Escape => {
            reveal_strlit("Escape");
        },
        KeyCode::Space => {
            reveal_strlit("Space");
        },
        KeyCode::Tab => {
            reveal_strlit("Tab");
        },
        KeyCode::Backspace => {
            reveal_strlit("Backspace");
        },
        KeyCode::Delete => {
            reveal_strlit("Delete");
        },
        KeyCode::Home => {
            reveal_strlit("Home");
        },
        KeyCode::End => {
            reveal_strlit("End");
        },
        KeyCode::ArrowLeft => {
            reveal_strlit("ArrowLeft");
        },
        KeyCode::ArrowRight => {
            reveal_strlit("ArrowRight");
        },
        KeyCode::ArrowUp => {
            reveal_strlit("ArrowUp");
        },
        KeyCode::ArrowDown => {
            reveal_strlit("ArrowDown");
        },
        KeyCode::BracketLeft => {
            reveal_strlit("BracketLeft");
        },
        KeyCode::BracketRight => {
            reveal_strlit("BracketRight");
        },
        KeyCode::Backslash => {
            reveal_strlit("Backslash");
        },
        KeyCode::Semicolon => {
            reveal_strlit("Semicolon");
        },
        KeyCode::Quote => {
            reveal_strlit("Quote");
        },
        KeyCode::Comma => {
            reveal_strlit("Comma");
        },
        KeyCode::Period => {
            reveal_strlit("Period");
        },
        KeyCode::Slash => {
            reveal_strlit("Slash");
        },
        KeyCode::Minus => {
            reveal_strlit("Minus");
        },
        KeyCode::Equal => {
            reveal_strlit("Equal");
        },
        KeyCode::Backquote => {
            reveal_strlit("Backquote");
        },
        KeyCode::PageUp => {
            reveal_strlit("PageUp");
        },
        KeyCode::PageDown => {
            reveal_strlit("PageDown");
        },
        KeyCode::Insert => {
            reveal_strlit("Insert");
        },
        KeyCode::ControlLeft => {
            reveal_strlit("ControlLeft");
        },
        KeyCode::ControlRight => {
            reveal_strlit("ControlRight");
        },
        KeyCode::ShiftLeft => {
            reveal_strlit("ShiftLeft");
        },
        KeyCode::ShiftRight => {
            reveal_strlit("ShiftRight");
        },
        KeyCode::AltLeft => {
            reveal_strlit("AltLeft");
        },
        KeyCode::AltRight => {
            reveal_strlit("AltRight");
        },
        KeyCode::SuperLeft => {
            reveal_strlit("SuperLeft");
        },
        KeyCode::SuperRight => {
            reveal_strlit("SuperRight");
        },
        KeyCode::IntlBackslash => {
            reveal_strlit("IntlBackslash");
        },
        KeyCode::IntlRo => {
            reveal_strlit("IntlRo");
        },
        KeyCode::IntlYen => {
            reveal_strlit("IntlYen");
        },
        KeyCode::CapsLock => {
            reveal_strlit("CapsLock");
        },
        KeyCode::ContextMenu => {
            reveal_strlit("ContextMenu");
        },
        KeyCode::Convert => {
            reveal_strlit("Convert");
        },
        KeyCode::KanaMode => {
            reveal_strlit("KanaMode");
        },
        KeyCode::Lang1 => {
            reveal_strlit("Lang1");
        },
        KeyCode::Lang2 => {
            reveal_strlit("Lang2");
        },
        KeyCode::Lang3 => {
            reveal_strlit("Lang3");
        },
        KeyCode::Lang4 => {
            reveal_strlit("Lang4");
        },
        KeyCode::Lang5 => {
            reveal_strlit("Lang5");
        },
        KeyCode::NonConvert => {
            reveal_strlit("NonConvert");
        },
        KeyCode::Help => {
            reveal_strlit("Help");
        },
        KeyCode::NumLock => {
            reveal_strlit("NumLock");
        },
        KeyCode::Numpad0 => {
            reveal_strlit("Numpad0");
        },
        KeyCode::Numpad1 => {
            reveal_strlit("Numpad1");
        },
        KeyCode::Numpad2 => {
            reveal_strlit("Numpad2");
        },
        KeyCode::Numpad3 => {
            reveal_strlit("Numpad3");
        },
        KeyCode::Numpad4 => {
            reveal_strlit("Numpad4");
        },
        KeyCode::Numpad5 => {
            reveal_strlit("Numpad5");
        },
        KeyCode::Numpad6 => {
            reveal_strlit("Numpad6");
        },
        KeyCode::Numpad7 => {
            reveal_strlit("Numpad7");
        },
        KeyCode::Numpad8 => {
            reveal_strlit("Numpad8");
        },
        KeyCode::Numpad9 => {
            reveal_strlit("Numpad9");
        },
        KeyCode::NumpadAdd => {
            reveal_strlit("NumpadAdd");
        },
        KeyCode::NumpadBackspace => {
            reveal_strlit("NumpadBackspace");
        },
        KeyCode::NumpadClear => {
            reveal_strlit("NumpadClear");
        },
        KeyCode::NumpadClearEntry => {
            reveal_strlit("NumpadClearEntry");
        },
        KeyCode::NumpadComma => {
            reveal_strlit("NumpadComma");
        },
        KeyCode::NumpadDecimal => {
            reveal_strlit("NumpadDecimal");
        },
        KeyCode::NumpadDivide => {
            reveal_strlit("NumpadDivide");
        },
        KeyCode::NumpadEnter => {
            reveal_strlit("NumpadEnter");
        },
        KeyCode::NumpadEqual => {
            reveal_strlit("NumpadEqual");
        },
        KeyCode::NumpadHash => {
            reveal_strlit("NumpadHash");
        },
        KeyCode::NumpadMemoryAdd => {
            reveal_strlit("NumpadMemoryAdd");
        },
        KeyCode::NumpadMemoryClear => {
            reveal_strlit("NumpadMemoryClear");
        },
        KeyCode::NumpadMemoryRecall => {
            reveal_strlit("NumpadMemoryRecall");
        },
        KeyCode::NumpadMemoryStore => {
            reveal_strlit("NumpadMemoryStore");
        },
        KeyCode::NumpadMemorySubtract => {
            reveal_strlit("NumpadMemorySubtract");
        },
        KeyCode::NumpadMultiply => {
            reveal_strlit("NumpadMultiply");
        },
        KeyCode::NumpadParenLeft => {
            reveal_strlit("NumpadParenLeft");
        },
        KeyCode::NumpadParenRight => {
            reveal_strlit("NumpadParenRight");
        },
        KeyCode::NumpadStar => {
            reveal_strlit("NumpadStar");
        },
        KeyCode::NumpadSubtract => {
            reveal_strlit("NumpadSubtract");
        },
        KeyCode::Fn => {
            reveal_strlit("Fn");
        },
        KeyCode::FnLock => {
            reveal_strlit("FnLock");
        },
        KeyCode::PrintScreen => {
            reveal_strlit("PrintScreen");
        },
        KeyCode::ScrollLock => {
            reveal_strlit("ScrollLock");
        },
        KeyCode::Pause => {
            reveal_strlit("Pause");
        },
        KeyCode::BrowserBack => {
            reveal_strlit("BrowserBack");
        },
        KeyCode::BrowserFavorites => {
            reveal_strlit("BrowserFavorites");
        },
        KeyCode::BrowserForward => {
            reveal_strlit("BrowserForward");
        },
        KeyCode::BrowserHome => {
            reveal_strlit("BrowserHome");
        },
        KeyCode::BrowserRefresh => {
            reveal_strlit("BrowserRefresh");
        },
        KeyCode::BrowserSearch => {
            reveal_strlit("BrowserSearch");
        },
        KeyCode::BrowserStop => {
            reveal_strlit("BrowserStop");
        },
        KeyCode::Eject => {
            reveal_strlit("Eject");
        },
        KeyCode::LaunchApp1 => {
            reveal_strlit("LaunchApp1");
        },
        KeyCode::LaunchApp2 => {
            reveal_strlit("LaunchApp2");
        },
        KeyCode::LaunchMail => {
            reveal_strlit("LaunchMail");
        },
        KeyCode::MediaPlayPause => {
            reveal_strlit("MediaPlayPause");
        },
        KeyCode::MediaSelect => {
            reveal_strlit("MediaSelect");
        },
        KeyCode::MediaStop => {
            reveal_strlit("MediaStop");
        },
        KeyCode::MediaTrackNext => {
            reveal_strlit("MediaTrackNext");
        },
        KeyCode::MediaTrackPrevious => {
            reveal_strlit("MediaTrackPrevious");
        },
        KeyCode::Power => {
            reveal_strlit("Power");
        },
        KeyCode::Sleep => {
            reveal_strlit("Sleep");
        },
        KeyCode::AudioVolumeDown => {
            reveal_strlit("AudioVolumeDown");
        },
        KeyCode::AudioVolumeMute => {
            reveal_strlit("AudioVolumeMute");
        },
        KeyCode::AudioVolumeUp => {
            reveal_strlit("AudioVolumeUp");
        },
        KeyCode::WakeUp => {
            reveal_strlit("WakeUp");
        },
        KeyCode::Meta => {
            reveal_strlit("Meta");
        },
        KeyCode::Hyper => {
            reveal_strlit("Hyper");
        },
        KeyCode::Turbo => {
            reveal_strlit("Turbo");
        },
        KeyCode::Abort => {
            reveal_strlit("Abort");
        },
        KeyCode::Resume => {
            reveal_strlit("Resume");
        },
        KeyCode::Suspend => {
            reveal_strlit("Suspend");
        },
        KeyCode::Again => {
            reveal_strlit("Again");
        },
        KeyCode::Copy => {
            reveal_strlit("Copy");
        },
        KeyCode::Cut => {
            reveal_strlit("Cut");
        },
        KeyCode::Find => {
            reveal_strlit("Find");
        },
        KeyCode::Open => {
            reveal_strlit("Open");
        },
        KeyCode::Paste => {
            reveal_strlit("Paste");
        },
        KeyCode::Props => {
            reveal_strlit("Props");
        },
        KeyCode::Select => {
            reveal_strlit("Select");
        },
        KeyCode::Undo => {
            reveal_strlit("Undo");
        },
        KeyCode::Hiragana => {
            reveal_strlit("Hiragana");
        },
        KeyCode::Katakana => {
            reveal_strlit("Katakana");
        },
        KeyCode::F13 => {
            reveal_strlit("F13");
        },
        KeyCode::F14 => {
            reveal_strlit("F14");
        },
        KeyCode::F15 => {
            reveal_strlit("F15");
        },
        KeyCode::F16 => {
            reveal_strlit("F16");
        },
        KeyCode::F17 => {
            reveal_strlit("F17");
        },
        KeyCode::F18 => {
            reveal_strlit("F18");
        },
        KeyCode::F19 => {
            reveal_strlit("F19");
        },
        KeyCode::F20 => {
            reveal_strlit("F20");
        },
        KeyCode::F21 => {
            reveal_strlit("F21");
        },
        KeyCode::F22 => {
            reveal_strlit("F22");
        },
        KeyCode::F23 => {
            reveal_strlit("F23");
        },
        KeyCode::F24 => {
            reveal_strlit("F24");
        },
        KeyCode::F25 => {
            reveal_strlit("F25");
        },
        KeyCode::F26 => {
            reveal_strlit("F26");
        },
        KeyCode::F27 => {
            reveal_strlit("F27");
        },
        KeyCode::F28 => {
            reveal_strlit("F28");
        },
        KeyCode::F29 => {
            reveal_strlit("F29");
        },
        KeyCode::F30 => {
            reveal_strlit("F30");
        },
        KeyCode::F31 => {
            reveal_strlit("F31");
        },
        KeyCode::F32 => {
            reveal_strlit("F32");
        },
        KeyCode::F33 => {
            reveal_strlit("F33");
        },
        KeyCode::F34 => {
            reveal_strlit("F34");
        },
        KeyCode::F35 => {
            reveal_strlit("F35");
        },
        KeyCode::Unidentified(_) => {},
    }
}

/// What stands between the brackets of a name that ends with a number.
proof fn lemma_bracketed(head: Seq<char>, a: nat, b: nat)
    requires
        head + strutil::digits_of(a) + ")"@ == head + strutil::digits_of(b) + ")"@,
    ensures
        a == b,
{
    reveal_strlit(")");
    let (x, y) = (strutil::digits_of(a), strutil::digits_of(b));
    let (left, right) = (head + x + ")"@, head + y + ")"@);
    assert(x =~= left.subrange(head.len() as int, left.len() - 1));
    assert(y =~= right.subrange(head.len() as int, right.len() - 1));
    strutil::law_digits_spell_their_number(a);
    strutil::law_digits_spell_their_number(b);
}

/// The first letter of the name of a key that only the system knows.
proof fn lemma_native_initial(native: NativeKeyCode)
    ensures
        native_name(native)[0] == (match native {
            NativeKeyCode::Unidentified => 'U',
            NativeKeyCode::Android(_) => 'A',
            NativeKeyCode::MacOS(_) => 'M',
            NativeKeyCode::Windows(_) => 'W',
            NativeKeyCode::Xkb(_) => 'X',
        }),
{
    reveal_strlit("Unidentified");
    reveal_strlit("Android(");
    reveal_strlit("MacOS(");
    reveal_strlit("Windows(");
    reveal_strlit("Xkb(");
}

/// No two keys that only the system knows share a name.
proof fn lemma_native_names_are_distinct(a: NativeKeyCode, b: NativeKeyCode)
    requires
        native_name(a) == native_name(b),
    ensures
        a == b,
{
    lemma_native_initial(a);
    lemma_native_initial(b);
    match (a, b) {
        (NativeKeyCode::Android(m), NativeKeyCode::Android(n)) => {
            lemma_bracketed("Android("@, m as nat, n as nat);
        },
        (NativeKeyCode::MacOS(m), NativeKeyCode::MacOS(n)) => {
            lemma_bracketed("MacOS("@, m as nat, n as nat);
        },
        (NativeKeyCode::Windows(m), NativeKeyCode::Windows(n)) => {
            lemma_bracketed("Windows("@, m as nat, n as nat);
        },
        (NativeKeyCode::Xkb(m), NativeKeyCode::Xkb(n)) => {
            lemma_bracketed("Xkb("@, m as nat, n as nat);
        },
        _ => {},
    }
}

/// The name of a key that only the system knows has its bracket where no other name has one.
proof fn lemma_unidentified_name(native: NativeKeyCode)
    ensures
        key_name(KeyCode::Unidentified(native)).len() > 12,
        key_name(KeyCode::Unidentified(native))[12] == '(',
{
    reveal_strlit("Unidentified(");
}

/// No two keys share a name.
pub proof fn law_key_names_are_distinct(a: KeyCode, b: KeyCode)
    requires
        key_name(a) == key_name(b),
    ensures
        a == b,
{
    match (a, b) {
        (KeyCode::Unidentified(m), KeyCode::Unidentified(n)) => {
            reveal_strlit(")");
            let head = "Unidentified("@;
            let (x, y) = (native_name(m), native_name(n));
            assert(x =~= key_name(a).subrange(head.len() as int, key_name(a).len() - 1));
            assert(y =~= key_name(b).subrange(head.len() as int, key_name(b).len() - 1));
            lemma_native_names_are_distinct(m, n);
        },
        (KeyCode::Unidentified(m), _) => {
            lemma_unidentified_name(m);
            lemma_key_number(b);
        },
        (_, KeyCode::Unidentified(n)) => {
            lemma_unidentified_name(n);
            lemma_key_number(a);
        },
        _ => {
            lemma_key_number(a);
            lemma_key_number(b);
        },
    }
}

/// The name of a key.
pub fn key_code_to_str(key: KeyCode) -> (name: String)
    ensures
        name@ == key_name(key),
{
    match key {
        KeyCode::KeyA => "KeyA".to_owned(),
        KeyCode::KeyB => "KeyB".to_owned(),
        KeyCode::KeyC => "KeyC".to_owned(),
        KeyCode::KeyD => "KeyD".to_owned(),
        KeyCode::KeyE => "KeyE".to_owned(),
        KeyCode::KeyF => "KeyF".to_owned(),
        KeyCode::KeyG => "KeyG".to_owned(),
        KeyCode::KeyH => "KeyH".to_owned(),
        KeyCode::KeyI => "KeyI".to_owned(),
        KeyCode::KeyJ => "KeyJ".to_owned(),
        KeyCode::KeyK => "KeyK".to_owned(),
        KeyCode::KeyL => "KeyL".to_owned(),
        KeyCode::KeyM => "KeyM".to_owned(),
        KeyCode::KeyN => "KeyN".to_owned(),
        KeyCode::KeyO => "KeyO".to_owned(),
        KeyCode::KeyP => "KeyP".to_owned(),
        KeyCode::KeyQ => "KeyQ".to_owned(),
        KeyCode::KeyR => "KeyR".to_owned(),
        KeyCode::KeyS => "KeyS".to_owned(),
        KeyCode::KeyT => "KeyT".to_owned(),
        KeyCode::KeyU => "KeyU".to_owned(),
        KeyCode::KeyV => "KeyV".to_owned(),
        KeyCode::KeyW => "KeyW".to_owned(),
        KeyCode::KeyX => "KeyX".to_owned(),
        KeyCode::KeyY => "KeyY".to_owned(),
        KeyCode::KeyZ => "KeyZ".to_owned(),
        KeyCode::Digit0 => "Digit0".to_owned(),
        KeyCode::Digit1 => "Digit1".to_owned(),
        KeyCode::Digit2 => "Digit2".to_owned(),
        KeyCode::Digit3 => "Digit3".to_owned(),
        KeyCode::Digit4 => "Digit4".to_owned(),
        KeyCode::Digit5 => "Digit5".to_owned(),
        KeyCode::Digit6 => "Digit6".to_owned(),
        KeyCode::Digit7 => "Digit7".to_owned(),
        KeyCode::Digit8 => "Digit8".to_owned(),
        KeyCode::Digit9 => "Digit9".to_owned(),
        KeyCode::F1 => "F1".to_owned(),
        KeyCode::F2 => "F2".to_owned(),
        KeyCode::F3 => "F3".to_owned(),
        KeyCode::F4 => "F4".to_owned(),
        KeyCode::F5 => "F5".to_owned(),
        KeyCode::F6 => "F6".to_owned(),
        KeyCode::F7 => "F7".to_owned(),
        KeyCode::F8 => "F8".to_owned(),
        KeyCode::F9 => "F9".to_owned(),
        KeyCode::F10 => "F10".to_owned(),
        KeyCode::F11 => "F11".to_owned(),
        KeyCode::F12 => "F12".to_owned(),
        KeyCode::Enter => "Enter".to_owned(),
        KeyCode::Escape => "Escape".to_owned(),
        KeyCode::Space => "Space".to_owned(),
        KeyCode::Tab => "Tab".to_owned(),
        KeyCode::Backspace => "Backspace".to_owned(),
        KeyCode::Delete => "Delete".to_owned(),
        KeyCode::Home => "Home".to_owned(),
        KeyCode::End => "End".to_owned(),
        KeyCode::ArrowLeft => "ArrowLeft".to_owned(),
        KeyCode::ArrowRight => "ArrowRight".to_owned(),
        KeyCode::ArrowUp => "ArrowUp".to_owned(),
        KeyCode::ArrowDown => "ArrowDown".to_owned(),
        KeyCode::BracketLeft => "BracketLeft".to_owned(),
        KeyCode::BracketRight => "BracketRight".to_owned(),
        KeyCode::Backslash => "Backslash".to_owned(),
        KeyCode::Semicolon => "Semicolon".to_owned(),
        KeyCode::Quote => "Quote".to_owned(),
        KeyCode::Comma => "Comma".to_owned(),
        KeyCode::Period => "Period".to_owned(),
        KeyCode::Slash => "Slash".to_owned(),
        KeyCode::Minus => "Minus".to_owned(),
        KeyCode::Equal => "Equal".to_owned(),
        KeyCode::Backquote => "Backquote".to_owned(),
        KeyCode::PageUp => "PageUp".to_owned(),
        KeyCode::PageDown => "PageDown".to_owned(),
        KeyCode::Insert => "Insert".to_owned(),
        KeyCode::ControlLeft => "ControlLeft".to_owned(),
        KeyCode::ControlRight => "ControlRight".to_owned(),
        KeyCode::ShiftLeft => "ShiftLeft".to_owned(),
        KeyCode::ShiftRight => "ShiftRight".to_owned(),
        KeyCode::AltLeft => "AltLeft".to_owned(),
        KeyCode::AltRight => "AltRight".to_owned(),
        KeyCode::SuperLeft => "SuperLeft".to_owned(),
        KeyCode::SuperRight => "SuperRight".to_owned(),
        KeyCode::IntlBackslash => "IntlBackslash".to_owned(),
        KeyCode::IntlRo => "IntlRo".to_owned(),
        KeyCode::IntlYen => "IntlYen".to_owned(),
        KeyCode::CapsLock => "CapsLock".to_owned(),
        KeyCode::ContextMenu => "ContextMenu".to_owned(),
        KeyCode::Convert => "Convert".to_owned(),
        KeyCode::KanaMode => "KanaMode".to_owned(),
        KeyCode::Lang1 => "Lang1".to_owned(),
        KeyCode::Lang2 => "Lang2".to_owned(),
        KeyCode::Lang3 => "Lang3".to_owned(),
        KeyCode::Lang4 => "Lang4".to_owned(),
        KeyCode::Lang5 => "Lang5".to_owned(),
        KeyCode::NonConvert => "NonConvert".to_owned(),
        KeyCode::Help => "Help".to_owned(),
        KeyCode::NumLock => "NumLock".to_owned(),
        KeyCode::Numpad0 => "Numpad0".to_owned(),
        KeyCode::Numpad1 => "Numpad1".to_owned(),
        KeyCode::Numpad2 => "Numpad2".to_owned(),
        KeyCode::Numpad3 => "Numpad3".to_owned(),
        KeyCode::Numpad4 => "Numpad4".to_owned(),
        KeyCode::Numpad5 => "Numpad5".to_owned(),
        KeyCode::Numpad6 => "Numpad6".to_owned(),
        KeyCode::Numpad7 => "Numpad7".to_owned(),
        KeyCode::Numpad8 => "Numpad8".to_owned(),
        KeyCode::Numpad9 => "Numpad9".to_owned(),
        KeyCode::NumpadAdd => "NumpadAdd".to_owned(),
        KeyCode::NumpadBackspace => "NumpadBackspace".to_owned(),
        KeyCode::NumpadClear => "NumpadClear".to_owned(),
        KeyCode::NumpadClearEntry => "NumpadClearEntry".to_owned(),
        KeyCode::NumpadComma => "NumpadComma".to_owned(),
        KeyCode::NumpadDecimal => "NumpadDecimal".to_owned(),
        KeyCode::NumpadDivide => "NumpadDivide".to_owned(),
        KeyCode::NumpadEnter => "NumpadEnter".to_owned(),
        KeyCode::NumpadEqual => "NumpadEqual".to_owned(),
        KeyCode::NumpadHash => "NumpadHash".to_owned(),
        KeyCode::NumpadMemoryAdd => "NumpadMemoryAdd".to_owned(),
        KeyCode::NumpadMemoryClear => "NumpadMemoryClear".to_owned(),
        KeyCode::NumpadMemoryRecall => "NumpadMemoryRecall".to_owned(),
        KeyCode::NumpadMemoryStore => "NumpadMemoryStore".to_owned(),
        KeyCode::NumpadMemorySubtract => "NumpadMemorySubtract".to_owned(),
        KeyCode::NumpadMultiply => "NumpadMultiply".to_owned(),
        KeyCode::NumpadParenLeft => "NumpadParenLeft".to_owned(),
        KeyCode::NumpadParenRight => "NumpadParenRight".to_owned(),
        KeyCode::NumpadStar => "NumpadStar".to_owned(),
        KeyCode::NumpadSubtract => "NumpadSubtract".to_owned(),
        KeyCode::Fn => "Fn".to_owned(),
        KeyCode::FnLock => "FnLock".to_owned(),
        KeyCode::PrintScreen => "PrintScreen".to_owned(),
        KeyCode::ScrollLock => "ScrollLock".to_owned(),
        KeyCode::Pause => "Pause".to_owned(),
        KeyCode::BrowserBack => "BrowserBack".to_owned(),
        KeyCode::BrowserFavorites => "BrowserFavorites".to_owned(),
        KeyCode::BrowserForward => "BrowserForward".to_owned(),
        KeyCode::BrowserHome => "BrowserHome".to_owned(),
        KeyCode::BrowserRefresh => "BrowserRefresh".to_owned(),
        KeyCode::BrowserSearch => "BrowserSearch".to_owned(),
        KeyCode::BrowserStop => "BrowserStop".to_owned(),
        KeyCode::Eject => "Eject".to_owned(),
        KeyCode::LaunchApp1 => "LaunchApp1".to_owned(),
        KeyCode::LaunchApp2 => "LaunchApp2".to_owned(),
        KeyCode::LaunchMail => "LaunchMail".to_owned(),
        KeyCode::MediaPlayPause => "MediaPlayPause".to_owned(),
        KeyCode::MediaSelect => "MediaSelect".to_owned(),
        KeyCode::MediaStop => "MediaStop".to_owned(),
        KeyCode::MediaTrackNext => "MediaTrackNext".to_owned(),
        KeyCode::MediaTrackPrevious => "MediaTrackPrevious".to_owned(),
        KeyCode::Power => "Power".to_owned(),
        KeyCode::Sleep => "Sleep".to_owned(),
        KeyCode::AudioVolumeDown => "AudioVolumeDown".to_owned(),
        KeyCode::AudioVolumeMute => "AudioVolumeMute".to_owned(),
        KeyCode::AudioVolumeUp => "AudioVolumeUp".to_owned(),
        KeyCode::WakeUp => "WakeUp".to_owned(),
        KeyCode::Meta => "Meta".to_owned(),
        KeyCode::Hyper => "Hyper".to_owned(),
        KeyCode::Turbo => "Turbo".to_owned(),
        KeyCode::Abort => "Abort".to_owned(),
        KeyCode::Resume => "Resume".to_owned(),
        KeyCode::Suspend => "Suspend".to_owned(),
        KeyCode::Again => "Again".to_owned(),
        KeyCode::Copy => "Copy".to_owned(),
        KeyCode::Cut => "Cut".to_owned(),
        KeyCode::Find => "Find".to_owned(),
        KeyCode::Open => "Open".to_owned(),
        KeyCode::Paste => "Paste".to_owned(),
        KeyCode::Props => "Props".to_owned(),
        KeyCode::Select => "Select".to_owned(),
        KeyCode::Undo => "Undo".to_owned(),
        KeyCode::Hiragana => "Hiragana".to_owned(),
        KeyCode::Katakana => "Katakana".to_owned(),
        KeyCode::F13 => "F13".to_owned(),
        KeyCode::F14 => "F14".to_owned(),
        KeyCode::F15 => "F15".to_owned(),
        KeyCode::F16 => "F16".to_owned(),
        KeyCode::F17 => "F17".to_owned(),
        KeyCode::F18 => "F18".to_owned(),
        KeyCode::F19 => "F19".to_owned(),
        KeyCode::F20 => "F20".to_owned(),
        KeyCode::F21 => "F21".to_owned(),
        KeyCode::F22 => "F22".to_owned(),
        KeyCode::F23 => "F23".to_owned(),
        KeyCode::F24 => "F24".to_owned(),
        KeyCode::F25 => "F25".to_owned(),
        KeyCode::F26 => "F26".to_owned(),
        KeyCode::F27 => "F27".to_owned(),
        KeyCode::F28 => "F28".to_owned(),
        KeyCode::F29 => "F29".to_owned(),
        KeyCode::F30 => "F30".to_owned(),
        KeyCode::F31 => "F31".to_owned(),
        KeyCode::F32 => "F32".to_owned(),
        KeyCode::F33 => "F33".to_owned(),
        KeyCode::F34 => "F34".to_owned(),
        KeyCode::F35 => "F35".to_owned(),
        KeyCode::Unidentified(native) => {
            let inner = native_to_str(native);
            strutil::enclosed("Unidentified(", inner.as_str(), ")")
        },
    }
}

/// The name of a key that only the system knows.
pub fn native_to_str(native: NativeKeyCode) -> (name: String)
    ensures
        name@ == native_name(native),
{
    match native {
        NativeKeyCode::Unidentified => "Unidentified".to_owned(),
        NativeKeyCode::Android(n) => {
            let number = strutil::decimal(n as usize);
            strutil::enclosed("Android(", number.as_str(), ")")
        },
        NativeKeyCode::MacOS(n) => {
            let number = strutil::decimal(n as usize);
            strutil::enclosed("MacOS(", number.as_str(), ")")
        },
        NativeKeyCode::Windows(n) => {
            let number = strutil::decimal(n as usize);
            strutil::enclosed("Windows(", number.as_str(), ")")
        },
        NativeKeyCode::Xkb(n) => {
            let number = strutil::decimal(n as usize);
            strutil::enclosed("Xkb(", number.as_str(), ")")
        },
    }
}

/// The key of a name, if a bindings file can name it.
pub fn key_code_of(s: &str) -> (key: Option<KeyCode>)
    ensures
        match key {
            Some(key) => key_listed(key) && key_name(key) == s@,
            None => forall|key: KeyCode| key_listed(key) ==> #[trigger] key_name(key) != s@,
        },
{
    if same(s, "KeyA") {
        return Some(KeyCode::KeyA);
    }
    if same(s, "KeyB") {
        return Some(KeyCode::KeyB);
    }
    if same(s, "KeyC") {
        return Some(KeyCode::KeyC);
    }
    if same(s, "KeyD") {
        return Some(KeyCode::KeyD);
    }
    if same(s, "KeyE") {
        return Some(KeyCode::KeyE);
    }
    if same(s, "KeyF") {
        return Some(KeyCode::KeyF);
    }
    if same(s, "KeyG") {
        return Some(KeyCode::KeyG);
    }
    if same(s, "KeyH") {
        return Some(KeyCode::KeyH);
    }
    if same(s, "KeyI") {
        return Some(KeyCode::KeyI);
    }
    if same(s, "KeyJ") {
        return Some(KeyCode::KeyJ);
    }
    if same(s, "KeyK") {
        return Some(KeyCode::KeyK);
    }
    if same(s, "KeyL") {
        return Some(KeyCode::KeyL);
    }
    if same(s, "KeyM") {
        return Some(KeyCode::KeyM);
    }
    if same(s, "KeyN") {
        return Some(KeyCode::KeyN);
    }
    if same(s, "KeyO") {
        return Some(KeyCode::KeyO);
    }
    if same(s, "KeyP") {
        return Some(KeyCode::KeyP);
    }
    if same(s, "KeyQ") {
        return Some(KeyCode::KeyQ);
    }
    if same(s, "KeyR") {
        return Some(KeyCode::KeyR);
    }
    if same(s, "KeyS") {
        return Some(KeyCode::KeyS);
    }
    if same(s, "KeyT") {
        return Some(KeyCode::KeyT);
    }
    if same(s, "KeyU") {
        return Some(KeyCode::KeyU);
    }
    if same(s, "KeyV") {
        return Some(KeyCode::KeyV);
    }
    if same(s, "KeyW") {
        return Some(KeyCode::KeyW);
    }
    if same(s, "KeyX") {
        return Some(KeyCode::KeyX);
    }
    if same(s, "KeyY") {
        return Some(KeyCode::KeyY);
    }
    if same(s, "KeyZ") {
        return Some(KeyCode::KeyZ);
    }
    if same(s, "Digit0") {
        return Some(KeyCode::Digit0);
    }
    if same(s, "Digit1") {
        return Some(KeyCode::Digit1);
    }
    if same(s, "Digit2") {
        return Some(KeyCode::Digit2);
    }
    if same(s, "Digit3") {
        return Some(KeyCode::Digit3);
    }
    if same(s, "Digit4") {
        return Some(KeyCode::Digit4);
    }
    if same(s, "Digit5") {
        return Some(KeyCode::Digit5);
    }
    if same(s, "Digit6") {
        return Some(KeyCode::Digit6);
    }
    if same(s, "Digit7") {
        return Some(KeyCode::Digit7);
    }
    if same(s, "Digit8") {
        return Some(KeyCode::Digit8);
    }
    if same(s, "Digit9") {
        return Some(KeyCode::Digit9);
    }
    if same(s, "F1") {
        return Some(KeyCode::F1);
    }
    if same(s, "F2") {
        return Some(KeyCode::F2);
    }
    if same(s, "F3") {
        return Some(KeyCode::F3);
    }
    if same(s, "F4") {
        return Some(KeyCode::F4);
    }
    if same(s, "F5") {
        return Some(KeyCode::F5);
    }
    if same(s, "F6") {
        return Some(KeyCode::F6);
    }
    if same(s, "F7") {
        return Some(KeyCode::F7);
    }
    if same(s, "F8") {
        return Some(KeyCode::F8);
    }
    if same(s, "F9") {
        return Some(KeyCode::F9);
    }
    if same(s, "F10") {
        return Some(KeyCode::F10);
    }
    if same(s, "F11") {
        return Some(KeyCode::F11);
    }
    if same(s, "F12") {
        return Some(KeyCode::F12);
    }
    if same(s, "Enter") {
        return Some(KeyCode::Enter);
    }
    if same(s, "Escape") {
        return Some(KeyCode::Escape);
    }
    if same(s, "Space") {
        return Some(KeyCode::Space);
    }
    if same(s, "Tab") {
        return Some(KeyCode::Tab);
    }
    if same(s, "Backspace") {
        return Some(KeyCode::Backspace);
    }
    if same(s, "Delete") {
        return Some(KeyCode::Delete);
    }
    if same(s, "Home") {
        return Some(KeyCode::Home);
    }
    if same(s, "End") {
        return Some(KeyCode::End);
    }
    if same(s, "ArrowLeft") {
        return Some(KeyCode::ArrowLeft);
    }
    if same(s, "ArrowRight") {
        return Some(KeyCode::ArrowRight);
    }
    if same(s, "ArrowUp") {
        return Some(KeyCode::ArrowUp);
    }
    if same(s, "ArrowDown") {
        return Some(KeyCode::ArrowDown);
    }
    if same(s, "BracketLeft") {
        return Some(KeyCode::BracketLeft);
    }
    if same(s, "BracketRight") {
        return Some(KeyCode::BracketRight);
    }
    if same(s, "Backslash") {
        return Some(KeyCode::Backslash);
    }
    if same(s, "Semicolon") {
        return Some(KeyCode::Semicolon);
    }
    if same(s, "Quote") {
        return Some(KeyCode::Quote);
    }
    if same(s, "Comma") {
        return Some(KeyCode::Comma);
    }
    if same(s, "Period") {
        return Some(KeyCode::Period);
    }
    if same(s, "Slash") {
        return Some(KeyCode::Slash);
    }
    if same(s, "Minus") {
        return Some(KeyCode::Minus);
    }
    if same(s, "Equal") {
        return Some(KeyCode::Equal);
    }
    if same(s, "Backquote") {
        return Some(KeyCode::Backquote);
    }
    None
}

/// The name of a gamepad button.
pub open spec fn button_name(button: GamepadButton) -> Seq<char> {
    match button {
        GamepadButton::South => "South"@,
        GamepadButton::East => "East"@,
        GamepadButton::North => "North"@,
        GamepadButton::West => "West"@,
        GamepadButton::Start => "Start"@,
        GamepadButton::Select => "Select"@,
        GamepadButton::DPadUp => "DPadUp"@,
        GamepadButton::DPadDown => "DPadDown"@,
        GamepadButton::DPadLeft => "DPadLeft"@,
        GamepadButton::DPadRight => "DPadRight"@,
        GamepadButton::LeftTrigger => "LeftTrigger"@,
        GamepadButton::RightTrigger => "RightTrigger"@,
        GamepadButton::LeftThumb => "LeftThumb"@,
        GamepadButton::RightThumb => "RightThumb"@,
        GamepadButton::C => "C"@,
        GamepadButton::Z => "Z"@,
        GamepadButton::LeftTrigger2 => "LeftTrigger2"@,
        GamepadButton::RightTrigger2 => "RightTrigger2"@,
        GamepadButton::Mode => "Mode"@,
        GamepadButton::Other(n) => "Other("@ + strutil::digits_of(n as nat) + ")"@,
    }
}

/// The gamepad buttons that a bindings file can name.
pub open spec fn button_listed(button: GamepadButton) -> bool {
    match button {
        GamepadButton::C => false,
        GamepadButton::Z => false,
        GamepadButton::LeftTrigger2 => false,
        GamepadButton::RightTrigger2 => false,
        GamepadButton::Mode => false,
        GamepadButton::Other(_) => false,
        _ => true,
    }
}

spec fn button_number(button: GamepadButton) -> int {
    match button {
        GamepadButton::South => 194325919732,
        GamepadButton::East => 156204085491,
        GamepadButton::North => 192977450996,
        GamepadButton::West => 161035924211,
        GamepadButton::Start => 194284173938,
        GamepadButton::Select => 228652299875,
        GamepadButton::DPadUp => 224623603925,
        GamepadButton::DPadDown => 293275939055,
        GamepadButton::DPadLeft => 293292814565,
        GamepadButton::DPadRight => 327665136231,
        GamepadButton::LeftTrigger => 398599174759,
        GamepadButton::RightTrigger => 434569525863,
        GamepadButton::LeftThumb => 329816521333,
        GamepadButton::RightThumb => 365786870888,
        _ => 0,
    }
}

proof fn lemma_button_number(button: GamepadButton)
    requires
        button_listed(button),
    ensures
        fingerprint(button_name(button)) == button_number(button),
{
    match button {
        GamepadButton::South => {
            reveal_strlit("South");
        },
        GamepadButton::East => {
            reveal_strlit("East");
        },
        GamepadButton::North => {
            reveal_strlit("North");
        },
        GamepadButton::West => {
            reveal_strlit("West");
        },
        GamepadButton::Start => {
            reveal_strlit("Start");
        },
        GamepadButton::Select => {
            reveal_strlit("Select");
        },
        GamepadButton::DPadUp => {
            reveal_strlit("DPadUp");
        },
        GamepadButton::DPadDown => {
            reveal_strlit("DPadDown");
        },
        GamepadButton::DPadLeft => {
            reveal_strlit("DPadLeft");
        },
        GamepadButton::DPadRight => {
            reveal_strlit("DPadRight");
        },
        GamepadButton::LeftTrigger => {
            reveal_strlit("LeftTrigger");
        },
        GamepadButton::RightTrigger => {
            reveal_strlit("RightTrigger");
        },
        GamepadButton::LeftThumb => {
            reveal_strlit("LeftThumb");
        },
        GamepadButton::RightThumb => {
            reveal_strlit("RightThumb");
        },
        _ => {},
    }
}

/// No two gamepad buttons of a bindings file share a name.
pub proof fn law_button_names_are_distinct(a: GamepadButton, b: GamepadButton)
    requires
        button_listed(a),
        button_listed(b),
        button_name(a) == button_name(b),
    ensures
        a == b,
{
    lemma_button_number(a);
    lemma_button_number(b);
}

/// The name of a gamepad button.
pub fn button_to_str(button: GamepadButton) -> (name: String)
    ensures
        name@ == button_name(button),
{
    match button {
        GamepadButton::South => "South".to_owned(),
        GamepadButton::East => "East".to_owned(),
        GamepadButton::North => "North".to_owned(),
        GamepadButton::West => "West".to_owned(),
        GamepadButton::Start => "Start".to_owned(),
        GamepadButton::Select => "Select".to_owned(),
        GamepadButton::DPadUp => "DPadUp".to_owned(),
        GamepadButton::DPadDown => "DPadDown".to_owned(),
        GamepadButton::DPadLeft => "DPadLeft".to_owned(),
        GamepadButton::DPadRight => "DPadRight".to_owned(),
        GamepadButton::LeftTrigger => "LeftTrigger".to_owned(),
        GamepadButton::RightTrigger => "RightTrigger".to_owned(),
        GamepadButton::LeftThumb => "LeftThumb".to_owned(),
        GamepadButton::RightThumb => "RightThumb".to_owned(),
        GamepadButton::C => "C".to_owned(),
        GamepadButton::Z => "Z".to_owned(),
        GamepadButton::LeftTrigger2 => "LeftTrigger2".to_owned(),
        GamepadButton::RightTrigger2 => "RightTrigger2".to_owned(),
        GamepadButton::Mode => "Mode".to_owned(),
        GamepadButton::Other(n) => {
            let number = strutil::decimal(n as usize);
            strutil::enclosed("Other(", number.as_str(), ")")
        },
    }
}

/// The gamepad button of a name, if a bindings file can name it.
pub fn button_of(s: &str) -> (button: Option<GamepadButton>)
    ensures
        match button {
            Some(button) => button_listed(button) && button_name(button) == s@,
            None => forall|button: GamepadButton|
                button_listed(button) ==> #[trigger] button_name(button) != s@,
        },
{
    if same(s, "South") {
        return Some(GamepadButton::South);
    }
    if same(s, "East") {
        return Some(GamepadButton::East);
    }
    if same(s, "North") {
        return Some(GamepadButton::North);
    }
    if same(s, "West") {
        return Some(GamepadButton::West);
    }
    if same(s, "Start") {
        return Some(GamepadButton::Start);
    }
    if same(s, "Select") {
        return Some(GamepadButton::Select);
    }
    if same(s, "DPadUp") {
        return Some(GamepadButton::DPadUp);
    }
    if same(s, "DPadDown") {
        return Some(GamepadButton::DPadDown);
    }
    if same(s, "DPadLeft") {
        return Some(GamepadButton::DPadLeft);
    }
    if same(s, "DPadRight") {
        return Some(GamepadButton::DPadRight);
    }
    if same(s, "LeftTrigger") {
        return Some(GamepadButton::LeftTrigger);
    }
    if same(s, "RightTrigger") {
        return Some(GamepadButton::RightTrigger);
    }
    if same(s, "LeftThumb") {
        return Some(GamepadButton::LeftThumb);
    }
    if same(s, "RightThumb") {
        return Some(GamepadButton::RightThumb);
    }
    None
}

/// The name of a context.
pub open spec fn context_name(ctx: InputContext) -> Seq<char> {
    match ctx {
        InputContext::Global => "Global"@,
        InputContext::TextInput => "TextInput"@,
        InputContext::Navigation => "Navigation"@,
        InputContext::Dialog => "Dialog"@,
        InputContext::Constellation => "Constellation"@,
        InputContext::RoomNav => "RoomNav"@,
        InputContext::WellZoomed => "WellZoomed"@,
        InputContext::PatchBayZoomed => "PatchBayZoomed"@,
        InputContext::StationZoomed => "StationZoomed"@,
        InputContext::FsnFly => "FsnFly"@,
        InputContext::QuickContext => "QuickContext"@,
        InputContext::AskSheet => "AskSheet"@,
        InputContext::LedgerRibbon => "LedgerRibbon"@,
    }
}

spec fn context_number(ctx: InputContext) -> int {
    match ctx {
        InputContext::Global => 225424652257,
        InputContext::TextInput => 331941231216,
        InputContext::Navigation => 364740588788,
        InputContext::Dialog => 224640233711,
        InputContext::Constellation => 464890083937,
        InputContext::RoomNav => 262760413134,
        InputContext::WellZoomed => 367185704559,
        InputContext::PatchBayZoomed => 502766580847,
        InputContext::StationZoomed => 469189080303,
        InputContext::FsnFly => 225097709420,
        InputContext::QuickContext => 434294830580,
        InputContext::AskSheet => 292546229733,
        InputContext::LedgerRibbon => 432891736802,
    }
}

proof fn lemma_context_number(ctx: InputContext)
    ensures
        fingerprint(context_name(ctx)) == context_number(ctx),
{
    match ctx {
        InputContext::Global => {
            reveal_strlit("Global");
        },
        InputContext::TextInput => {
            reveal_strlit("TextInput");
        },
        InputContext::Navigation => {
            reveal_strlit("Navigation");
        },
        InputContext::Dialog => {
            reveal_strlit("Dialog");
        },
        InputContext::Constellation => {
            reveal_strlit("Constellation");
        },
        InputContext::RoomNav => {
            reveal_strlit("RoomNav");
        },
        InputContext::WellZoomed => {
            reveal_strlit("WellZoomed");
        },
        InputContext::PatchBayZoomed => {
            reveal_strlit("PatchBayZoomed");
        },
        InputContext::StationZoomed => {
            reveal_strlit("StationZoomed");
        },
        InputContext::FsnFly => {
            reveal_strlit("FsnFly");
        },
        InputContext::QuickContext => {
            reveal_strlit("QuickContext");
        },
        InputContext::AskSheet => {
            reveal_strlit("AskSheet");
        },
        InputContext::LedgerRibbon => {
            reveal_strlit("LedgerRibbon");
        },
    }
}

/// No two contexts share a name.
pub proof fn law_context_names_are_distinct(a: InputContext, b: InputContext)
    requires
        context_name(a) == context_name(b),
    ensures
        a == b,
{
    lemma_context_number(a);
    lemma_context_number(b);
}

/// The name of a context.
pub fn context_to_str(ctx: InputContext) -> (name: &'static str)
    ensures
        name@ == context_name(ctx),
{
    match ctx {
        InputContext::Global => "Global",
        InputContext::TextInput => "TextInput",
        InputContext::Navigation => "Navigation",
        InputContext::Dialog => "Dialog",
        InputContext::Constellation => "Constellation",
        InputContext::RoomNav => "RoomNav",
        InputContext::WellZoomed => "WellZoomed",
        InputContext::PatchBayZoomed => "PatchBayZoomed",
        InputContext::StationZoomed => "StationZoomed",
        InputContext::FsnFly => "FsnFly",
        InputContext::QuickContext => "QuickContext",
        InputContext::AskSheet => "AskSheet",
        InputContext::LedgerRibbon => "LedgerRibbon",
    }
}

/// The context of a name.
pub fn context_of(s: &str) -> (ctx: Option<InputContext>)
    ensures
        match ctx {
            Some(ctx) => context_name(ctx) == s@,
            None => forall|ctx: InputContext| #[trigger] context_name(ctx) != s@,
        },
{
    if same(s, "Global") {
        return Some(InputContext::Global);
    }
    if same(s, "TextInput") {
        return Some(InputContext::TextInput);
    }
    if same(s, "Navigation") {
        return Some(InputContext::Navigation);
    }
    if same(s, "Dialog") {
        return Some(InputContext::Dialog);
    }
    if same(s, "Constellation") {
        return Some(InputContext::Constellation);
    }
    if same(s, "RoomNav") {
        return Some(InputContext::RoomNav);
    }
    if same(s, "WellZoomed") {
        return Some(InputContext::WellZoomed);
    }
    if same(s, "PatchBayZoomed") {
        return Some(InputContext::PatchBayZoomed);
    }
    if same(s, "StationZoomed") {
        return Some(InputContext::StationZoomed);
    }
    if same(s, "FsnFly") {
        return Some(InputContext::FsnFly);
    }
    if same(s, "QuickContext") {
        return Some(InputContext::QuickContext);
    }
    if same(s, "AskSheet") {
        return Some(InputContext::AskSheet);
    }
    if same(s, "LedgerRibbon") {
        return Some(InputContext::LedgerRibbon);
    }
    None
}

/// The name of an action, without its payload.
pub open spec fn action_name(action: Action) -> Seq<char> {
    match action {
        Action::CycleFocusForward => "CycleFocusForward"@,
        Action::CycleFocusBackward => "CycleFocusBackward"@,
        Action::FocusCompose => "FocusCompose"@,
        Action::SummonChat => "SummonChat"@,
        Action::ToggleSurface => "ToggleSurface"@,
        Action::Unfocus => "Unfocus"@,
        Action::PopLevel => "PopLevel"@,
        Action::Activate => "Activate"@,
        Action::FocusNextBlock => "FocusNextBlock"@,
        Action::FocusPrevBlock => "FocusPrevBlock"@,
        Action::FocusFirstBlock => "FocusFirstBlock"@,
        Action::FocusLastBlock => "FocusLastBlock"@,
        Action::ExpandBlock => "ExpandBlock"@,
        Action::ToggleStackView => "ToggleStackView"@,
        Action::CollapseToggle => "CollapseToggle"@,
        Action::ScrollDelta(_) => "ScrollDelta"@,
        Action::HalfPageUp => "HalfPageUp"@,
        Action::HalfPageDown => "HalfPageDown"@,
        Action::ScrollToEnd => "ScrollToEnd"@,
        Action::ScrollToTop => "ScrollToTop"@,
        Action::FocusPaneLeft => "FocusPaneLeft"@,
        Action::FocusPaneDown => "FocusPaneDown"@,
        Action::FocusPaneUp => "FocusPaneUp"@,
        Action::FocusPaneRight => "FocusPaneRight"@,
        Action::SplitVertical => "SplitVertical"@,
        Action::SplitHorizontal => "SplitHorizontal"@,
        Action::ClosePane => "ClosePane"@,
        Action::GrowPane => "GrowPane"@,
        Action::ShrinkPane => "ShrinkPane"@,
        Action::TogglePreviousPaneFocus => "TogglePreviousPaneFocus"@,
        Action::ToggleConstellation => "ToggleConstellation"@,
        Action::SpatialNav(_, _) => "SpatialNav"@,
        Action::Pan(_, _) => "Pan"@,
        Action::ZoomIn => "ZoomIn"@,
        Action::ZoomOut => "ZoomOut"@,
        Action::ZoomReset => "ZoomReset"@,
        Action::ConstellationCreate => "ConstellationCreate"@,
        Action::ConstellationModelPicker => "ConstellationModelPicker"@,
        Action::ConstellationArchive => "ConstellationArchive"@,
        Action::ToggleAlternate => "ToggleAlternate"@,
        Action::Submit => "Submit"@,
        Action::Backspace => "Backspace"@,
        Action::Delete => "Delete"@,
        Action::CursorLeft => "CursorLeft"@,
        Action::CursorRight => "CursorRight"@,
        Action::CursorUp => "CursorUp"@,
        Action::CursorDown => "CursorDown"@,
        Action::CursorHome => "CursorHome"@,
        Action::CursorEnd => "CursorEnd"@,
        Action::CursorWordLeft => "CursorWordLeft"@,
        Action::CursorWordRight => "CursorWordRight"@,
        Action::SelectAll => "SelectAll"@,
        Action::Copy => "Copy"@,
        Action::Cut => "Cut"@,
        Action::Paste => "Paste"@,
        Action::PastePrimary => "PastePrimary"@,
        Action::Undo => "Undo"@,
        Action::Redo => "Redo"@,
        Action::InsertNewline => "InsertNewline"@,
        Action::ToggleBlockExcluded => "ToggleBlockExcluded"@,
        Action::Quit => "Quit"@,
        Action::Screenshot => "Screenshot"@,
        Action::DebugToggle => "DebugToggle"@,
        Action::StepNext => "StepNext"@,
        Action::StepPrev => "StepPrev"@,
        Action::LevelUp => "LevelUp"@,
        Action::LevelDown => "LevelDown"@,
        Action::JumpSeat(_) => "JumpSeat"@,
        Action::Promote => "Promote"@,
        Action::Demote => "Demote"@,
        Action::Conclude => "Conclude"@,
        Action::PauseToggle => "PauseToggle"@,
        Action::Archive => "Archive"@,
        Action::Rescan => "Rescan"@,
        Action::ToggleLegend => "ToggleLegend"@,
        Action::FlyAxis { .. } => "FlyAxis"@,
        Action::FlyAltitude(_) => "FlyAltitude"@,
        Action::SwitchToActiveSeat(_) => "SwitchToActiveSeat"@,
        Action::SwitchToPreviousContext => "SwitchToPreviousContext"@,
        Action::ActiveSeatStep(_) => "ActiveSeatStep"@,
        Action::CloseAndDemoteContext => "CloseAndDemoteContext"@,
        Action::GoToWell => "GoToWell"@,
        Action::DetachToConversation => "DetachToConversation"@,
        Action::SendLiteralPrefix => "SendLiteralPrefix"@,
        Action::PromptContextRename => "PromptContextRename"@,
        Action::PromptContextSwitch => "PromptContextSwitch"@,
        Action::InterruptContext { .. } => "InterruptContext"@,
    }
}

/// An action without a payload, or with nothing in it: what the bare name stands for.
pub open spec fn is_bare(action: Action) -> bool {
    match action {
        Action::ScrollDelta(_) => action == Action::ScrollDelta(Scalar { bits: 0 }),
        Action::SpatialNav(_, _) => action == Action::SpatialNav(Scalar { bits: 0 }, Scalar { bits: 0 }),
        Action::Pan(_, _) => action == Action::Pan(Scalar { bits: 0 }, Scalar { bits: 0 }),
        Action::JumpSeat(_) => action == Action::JumpSeat(0),
        Action::FlyAxis { .. } => action == Action::FlyAxis { x: Scalar { bits: 0 }, y: Scalar { bits: 0 } },
        Action::FlyAltitude(_) => action == Action::FlyAltitude(Scalar { bits: 0 }),
        Action::SwitchToActiveSeat(_) => action == Action::SwitchToActiveSeat(0),
        Action::ActiveSeatStep(_) => action == Action::ActiveSeatStep(0),
        Action::InterruptContext { .. } => action == Action::InterruptContext { immediate: false },
        _ => true,
    }
}

spec fn action_number(action: Action) -> int {
    match action {
        Action::CycleFocusForward => 602347742063,
        Action::CycleFocusBackward => 636703291363,
        Action::FocusCompose => 431341795824,
        Action::SummonChat => 366110127811,
        Action::ToggleSurface => 469400909426,
        Action::Unfocus => 263569863523,
        Action::PopLevel => 296566339702,
        Action::Activate => 292575345249,
        Action::FocusNextBlock => 500080245186,
        Action::FocusPrevBlock => 500040399298,
        Action::FocusFirstBlock => 534427394882,
        Action::FocusLastBlock => 500069759426,
        Action::ExpandBlock => 396690649324,
        Action::ToggleStackView => 538189886187,
        Action::CollapseToggle => 499234992367,
        Action::ScrollDelta(_) => 400465360869,
        Action::HalfPageUp => 363130008423,
        Action::HalfPageDown => 431862032452,
        Action::ScrollToEnd => 400465410031,
        Action::ScrollToTop => 400465606639,
        Action::FocusPaneLeft => 465672419813,
        Action::FocusPaneDown => 465672321509,
        Action::FocusPaneUp => 396917226222,
        Action::FocusPaneRight => 500059421138,
        Action::SplitVertical => 469170338420,
        Action::SplitHorizontal => 537917072495,
        Action::ClosePane => 327436302817,
        Action::GrowPane => 294106265569,
        Action::ShrinkPane => 366103590096,
        Action::TogglePreviousPaneFocus => 813057243489,
        Action::ToggleConstellation => 675626590700,
        Action::SpatialNav(_, _) => 366082898540,
        Action::Pan(_, _) => 124759290094,
        Action::ZoomIn => 230548027337,
        Action::ZoomOut => 264907864015,
        Action::ZoomReset => 333570717427,
        Action::ConstellationCreate => 671065142894,
        Action::ConstellationModelPicker => 842851463397,
        Action::ConstellationArchive => 705401812545,
        Action::ToggleAlternate => 538172814066,
        Action::Submit => 228669075817,
        Action::Backspace => 327197226465,
        Action::Delete => 224625522292,
        Action::CursorLeft => 361823549900,
        Action::CursorRight => 396183288297,
        Action::CursorUp => 293097716082,
        Action::CursorDown => 361823451588,
        Action::CursorHome => 361823304136,
        Action::CursorEnd => 327457257925,
        Action::CursorWordLeft => 499256211428,
        Action::CursorWordRight => 533615950162,
        Action::SelectAll => 331727188673,
        Action::Copy => 155661006832,
        Action::Cut => 121311673076,
        Action::Paste => 193516368116,
        Action::PastePrimary => 434032767725,
        Action::Undo => 160467515236,
        Action::Redo => 159662207716,
        Action::InsertNewline => 466437634423,
        Action::ToggleBlockExcluded => 675592872312,
        Action::Quit => 159404341993,
        Action::Screenshot => 366110126835,
        Action::DebugToggle => 396388563687,
        Action::StepNext => 297323541221,
        Action::StepPrev => 297327768306,
        Action::LevelUp => 261132925804,
        Action::LevelDown => 329867047663,
        Action::JumpSeat(_) => 294918108901,
        Action::Promote => 262223263727,
        Action::Demote => 224646493940,
        Action::Conclude => 293091243893,
        Action::PauseToggle => 399609788903,
        Action::Archive => 258186244585,
        Action::Rescan => 228379572705,
        Action::ToggleLegend => 435026474599,
        Action::FlyAxis { .. } => 259446865144,
        Action::FlyAltitude(_) => 396992536820,
        Action::SwitchToActiveSeat(_) => 640964962934,
        Action::SwitchToPreviousContext => 812803504115,
        Action::ActiveSeatStep(_) => 498698304372,
        Action::CloseAndDemoteContext => 739770184259,
        Action::GoToWell => 294121056869,
        Action::DetachToConversation => 705680878194,
        Action::SendLiteralPrefix => 606636750032,
        Action::PromptContextRename => 674554798580,
        Action::PromptContextSwitch => 674554847732,
        Action::InterruptContext { .. } => 569596787055,
    }
}

proof fn lemma_action_number(action: Action)
    ensures
        fingerprint(action_name(action)) == action_number(action),
{
    match action {
        Action::CycleFocusForward => {
            reveal_strlit("CycleFocusForward");
        },
        Action::CycleFocusBackward => {
            reveal_strlit("CycleFocusBackward");
        },
        Action::FocusCompose => {
            reveal_strlit("FocusCompose");
        },
        Action::SummonChat => {
            reveal_strlit("SummonChat");
        },
        Action::ToggleSurface => {
            reveal_strlit("ToggleSurface");
        },
        Action::Unfocus => {
            reveal_strlit("Unfocus");
        },
        Action::PopLevel => {
            reveal_strlit("PopLevel");
        },
        Action::Activate => {
            reveal_strlit("Activate");
        },
        Action::FocusNextBlock => {
            reveal_strlit("FocusNextBlock");
        },
        Action::FocusPrevBlock => {
            reveal_strlit("FocusPrevBlock");
        },
        Action::FocusFirstBlock => {
            reveal_strlit("FocusFirstBlock");
        },
        Action::FocusLastBlock => {
            reveal_strlit("FocusLastBlock");
        },
        Action::ExpandBlock => {
            reveal_strlit("ExpandBlock");
        },
        Action::ToggleStackView => {
            reveal_strlit("ToggleStackView");
        },
        Action::CollapseToggle => {
            reveal_strlit("CollapseToggle");
        },
        Action::ScrollDelta(_) => {
            reveal_strlit("ScrollDelta");
        },
        Action::HalfPageUp => {
            reveal_strlit("HalfPageUp");
        },
        Action::HalfPageDown => {
            reveal_strlit("HalfPageDown");
        },
        Action::ScrollToEnd => {
            reveal_strlit("ScrollToEnd");
        },
        Action::ScrollToTop => {
            reveal_strlit("ScrollToTop");
        },
        Action::FocusPaneLeft => {
            reveal_strlit("FocusPaneLeft");
        },
        Action::FocusPaneDown => {
            reveal_strlit("FocusPaneDown");
        },
        Action::FocusPaneUp => {
            reveal_strlit("FocusPaneUp");
        },
        Action::FocusPaneRight => {
            reveal_strlit("FocusPaneRight");
        },
        Action::SplitVertical => {
            reveal_strlit("SplitVertical");
        },
        Action::SplitHorizontal => {
            reveal_strlit("SplitHorizontal");
        },
        Action::ClosePane => {
            reveal_strlit("ClosePane");
        },
        Action::GrowPane => {
            reveal_strlit("GrowPane");
        },
        Action::ShrinkPane => {
            reveal_strlit("ShrinkPane");
        },
        Action::TogglePreviousPaneFocus => {
            reveal_strlit("TogglePreviousPaneFocus");
        },
        Action::ToggleConstellation => {
            reveal_strlit("ToggleConstellation");
        },
        Action::SpatialNav(_, _) => {
            reveal_strlit("SpatialNav");
        },
        Action::Pan(_, _) => {
            reveal_strlit("Pan");
        },
        Action::ZoomIn => {
            reveal_strlit("ZoomIn");
        },
        Action::ZoomOut => {
            reveal_strlit("ZoomOut");
        },
        Action::ZoomReset => {
            reveal_strlit("ZoomReset");
        },
        Action::ConstellationCreate => {
            reveal_strlit("ConstellationCreate");
        },
        Action::ConstellationModelPicker => {
            reveal_strlit("ConstellationModelPicker");
        },
        Action::ConstellationArchive => {
            reveal_strlit("ConstellationArchive");
        },
        Action::ToggleAlternate => {
            reveal_strlit("ToggleAlternate");
        },
        Action::Submit => {
            reveal_strlit("Submit");
        },
        Action::Backspace => {
            reveal_strlit("Backspace");
        },
        Action::Delete => {
            reveal_strlit("Delete");
        },
        Action::CursorLeft => {
            reveal_strlit("CursorLeft");
        },
        Action::CursorRight => {
            reveal_strlit("CursorRight");
        },
        Action::CursorUp => {
            reveal_strlit("CursorUp");
        },
        Action::CursorDown => {
            reveal_strlit("CursorDown");
        },
        Action::CursorHome => {
            reveal_strlit("CursorHome");
        },
        Action::CursorEnd => {
            reveal_strlit("CursorEnd");
        },
        Action::CursorWordLeft => {
            reveal_strlit("CursorWordLeft");
        },
        Action::CursorWordRight => {
            reveal_strlit("CursorWordRight");
        },
        Action::SelectAll => {
            reveal_strlit("SelectAll");
        },
        Action::Copy => {
            reveal_strlit("Copy");
        },
        Action::Cut => {
            reveal_strlit("Cut");
        },
        Action::Paste => {
            reveal_strlit("Paste");
        },
        Action::PastePrimary => {
            reveal_strlit("PastePrimary");
        },
        Action::Undo => {
            reveal_strlit("Undo");
        },
        Action::Redo => {
            reveal_strlit("Redo");
        },
        Action::InsertNewline => {
            reveal_strlit("InsertNewline");
        },
        Action::ToggleBlockExcluded => {
            reveal_strlit("ToggleBlockExcluded");
        },
        Action::Quit => {
            reveal_strlit("Quit");
        },
        Action::Screenshot => {
            reveal_strlit("Screenshot");
        },
        Action::DebugToggle => {
            reveal_strlit("DebugToggle");
        },
        Action::StepNext => {
            reveal_strlit("StepNext");
        },
        Action::StepPrev => {
            reveal_strlit("StepPrev");
        },
        Action::LevelUp => {
            reveal_strlit("LevelUp");
        },
        Action::LevelDown => {
            reveal_strlit("LevelDown");
        },
        Action::JumpSeat(_) => {
            reveal_strlit("JumpSeat");
        },
        Action::Promote => {
            reveal_strlit("Promote");
        },
        Action::Demote => {
            reveal_strlit("Demote");
        },
        Action::Conclude => {
            reveal_strlit("Conclude");
        },
        Action::PauseToggle => {
            reveal_strlit("PauseToggle");
        },
        Action::Archive => {
            reveal_strlit("Archive");
        },
        Action::Rescan => {
            reveal_strlit("Rescan");
        },
        Action::ToggleLegend => {
            reveal_strlit("ToggleLegend");
        },
        Action::FlyAxis { .. } => {
            reveal_strlit("FlyAxis");
        },
        Action::FlyAltitude(_) => {
            reveal_strlit("FlyAltitude");
        },
        Action::SwitchToActiveSeat(_) => {
            reveal_strlit("SwitchToActiveSeat");
        },
        Action::SwitchToPreviousContext => {
            reveal_strlit("SwitchToPreviousContext");
        },
        Action::ActiveSeatStep(_) => {
            reveal_strlit("ActiveSeatStep");
        },
        Action::CloseAndDemoteContext => {
            reveal_strlit("CloseAndDemoteContext");
        },
        Action::GoToWell => {
            reveal_strlit("GoToWell");
        },
        Action::DetachToConversation => {
            reveal_strlit("DetachToConversation");
        },
        Action::SendLiteralPrefix => {
            reveal_strlit("SendLiteralPrefix");
        },
        Action::PromptContextRename => {
            reveal_strlit("PromptContextRename");
        },
        Action::PromptContextSwitch => {
            reveal_strlit("PromptContextSwitch");
        },
        Action::InterruptContext { .. } => {
            reveal_strlit("InterruptContext");
        },
    }
}

/// No two bare actions share a name.
pub proof fn law_action_names_are_distinct(a: Action, b: Action)
    requires
        is_bare(a),
        is_bare(b),
        action_name(a) == action_name(b),
    ensures
        a == b,
{
    lemma_action_number(a);
    lemma_action_number(b);
}

/// No name holds a colon.
pub proof fn lemma_action_name_has_no_colon(action: Action)
    ensures
        strutil::find_from(action_name(action), ':', 0) == action_name(action).len(),
{
    reveal_with_fuel(strutil::find_from, 26);
    match action {
        Action::CycleFocusForward => {
            reveal_strlit("CycleFocusForward");
        },
        Action::CycleFocusBackward => {
            reveal_strlit("CycleFocusBackward");
        },
        Action::FocusCompose => {
            reveal_strlit("FocusCompose");
        },
        Action::SummonChat => {
            reveal_strlit("SummonChat");
        },
        Action::ToggleSurface => {
            reveal_strlit("ToggleSurface");
        },
        Action::Unfocus => {
            reveal_strlit("Unfocus");
        },
        Action::PopLevel => {
            reveal_strlit("PopLevel");
        },
        Action::Activate => {
            reveal_strlit("Activate");
        },
        Action::FocusNextBlock => {
            reveal_strlit("FocusNextBlock");
        },
        Action::FocusPrevBlock => {
            reveal_strlit("FocusPrevBlock");
        },
        Action::FocusFirstBlock => {
            reveal_strlit("FocusFirstBlock");
        },
        Action::FocusLastBlock => {
            reveal_strlit("FocusLastBlock");
        },
        Action::ExpandBlock => {
            reveal_strlit("ExpandBlock");
        },
        Action::ToggleStackView => {
            reveal_strlit("ToggleStackView");
        },
        Action::CollapseToggle => {
            reveal_strlit("CollapseToggle");
        },
        Action::ScrollDelta(_) => {
            reveal_strlit("ScrollDelta");
        },
        Action::HalfPageUp => {
            reveal_strlit("HalfPageUp");
        },
        Action::HalfPageDown => {
            reveal_strlit("HalfPageDown");
        },
        Action::ScrollToEnd => {
            reveal_strlit("ScrollToEnd");
        },
        Action::ScrollToTop => {
            reveal_strlit("ScrollToTop");
        },
        Action::FocusPaneLeft => {
            reveal_strlit("FocusPaneLeft");
        },
        Action::FocusPaneDown => {
            reveal_strlit("FocusPaneDown");
        },
        Action::FocusPaneUp => {
            reveal_strlit("FocusPaneUp");
        },
        Action::FocusPaneRight => {
            reveal_strlit("FocusPaneRight");
        },
        Action::SplitVertical => {
            reveal_strlit("SplitVertical");
        },
        Action::SplitHorizontal => {
            reveal_strlit("SplitHorizontal");
        },
        Action::ClosePane => {
            reveal_strlit("ClosePane");
        },
        Action::GrowPane => {
            reveal_strlit("GrowPane");
        },
        Action::ShrinkPane => {
            reveal_strlit("ShrinkPane");
        },
        Action::TogglePreviousPaneFocus => {
            reveal_strlit("TogglePreviousPaneFocus");
        },
        Action::ToggleConstellation => {
            reveal_strlit("ToggleConstellation");
        },
        Action::SpatialNav(_, _) => {
            reveal_strlit("SpatialNav");
        },
        Action::Pan(_, _) => {
            reveal_strlit("Pan");
        },
        Action::ZoomIn => {
            reveal_strlit("ZoomIn");
        },
        Action::ZoomOut => {
            reveal_strlit("ZoomOut");
        },
        Action::ZoomReset => {
            reveal_strlit("ZoomReset");
        },
        Action::ConstellationCreate => {
            reveal_strlit("ConstellationCreate");
        },
        Action::ConstellationModelPicker => {
            reveal_strlit("ConstellationModelPicker");
        },
        Action::ConstellationArchive => {
            reveal_strlit("ConstellationArchive");
        },
        Action::ToggleAlternate => {
            reveal_strlit("ToggleAlternate");
        },
        Action::Submit => {
            reveal_strlit("Submit");
        },
        Action::Backspace => {
            reveal_strlit("Backspace");
        },
        Action::Delete => {
            reveal_strlit("Delete");
        },
        Action::CursorLeft => {
            reveal_strlit("CursorLeft");
        },
        Action::CursorRight => {
            reveal_strlit("CursorRight");
        },
        Action::CursorUp => {
            reveal_strlit("CursorUp");
        },
        Action::CursorDown => {
            reveal_strlit("CursorDown");
        },
        Action::CursorHome => {
            reveal_strlit("CursorHome");
        },
        Action::CursorEnd => {
            reveal_strlit("CursorEnd");
        },
        Action::CursorWordLeft => {
            reveal_strlit("CursorWordLeft");
        },
        Action::CursorWordRight => {
            reveal_strlit("CursorWordRight");
        },
        Action::SelectAll => {
            reveal_strlit("SelectAll");
        },
        Action::Copy => {
            reveal_strlit("Copy");
        },
        Action::Cut => {
            reveal_strlit("Cut");
        },
        Action::Paste => {
            reveal_strlit("Paste");
        },
        Action::PastePrimary => {
            reveal_strlit("PastePrimary");
        },
        Action::Undo => {
            reveal_strlit("Undo");
        },
        Action::Redo => {
            reveal_strlit("Redo");
        },
        Action::InsertNewline => {
            reveal_strlit("InsertNewline");
        },
        Action::ToggleBlockExcluded => {
            reveal_strlit("ToggleBlockExcluded");
        },
        Action::Quit => {
            reveal_strlit("Quit");
        },
        Action::Screenshot => {
            reveal_strlit("Screenshot");
        },
        Action::DebugToggle => {
            reveal_strlit("DebugToggle");
        },
        Action::StepNext => {
            reveal_strlit("StepNext");
        },
        Action::StepPrev => {
            reveal_strlit("StepPrev");
        },
        Action::LevelUp => {
            reveal_strlit("LevelUp");
        },
        Action::LevelDown => {
            reveal_strlit("LevelDown");
        },
        Action::JumpSeat(_) => {
            reveal_strlit("JumpSeat");
        },
        Action::Promote => {
            reveal_strlit("Promote");
        },
        Action::Demote => {
            reveal_strlit("Demote");
        },
        Action::Conclude => {
            reveal_strlit("Conclude");
        },
        Action::PauseToggle => {
            reveal_strlit("PauseToggle");
        },
        Action::Archive => {
            reveal_strlit("Archive");
        },
        Action::Rescan => {
            reveal_strlit("Rescan");
        },
        Action::ToggleLegend => {
            reveal_strlit("ToggleLegend");
        },
        Action::FlyAxis { .. } => {
            reveal_strlit("FlyAxis");
        },
        Action::FlyAltitude(_) => {
            reveal_strlit("FlyAltitude");
        },
        Action::SwitchToActiveSeat(_) => {
            reveal_strlit("SwitchToActiveSeat");
        },
        Action::SwitchToPreviousContext => {
            reveal_strlit("SwitchToPreviousContext");
        },
        Action::ActiveSeatStep(_) => {
            reveal_strlit("ActiveSeatStep");
        },
        Action::CloseAndDemoteContext => {
            reveal_strlit("CloseAndDemoteContext");
        },
        Action::GoToWell => {
            reveal_strlit("GoToWell");
        },
        Action::DetachToConversation => {
            reveal_strlit("DetachToConversation");
        },
        Action::SendLiteralPrefix => {
            reveal_strlit("SendLiteralPrefix");
        },
        Action::PromptContextRename => {
            reveal_strlit("PromptContextRename");
        },
        Action::PromptContextSwitch => {
            reveal_strlit("PromptContextSwitch");
        },
        Action::InterruptContext { .. } => {
            reveal_strlit("InterruptContext");
        },
    }
}

/// The name of an action, without its payload.
pub fn action_to_name(action: &Action) -> (name: &'static str)
    ensures
        name@ == action_name(*action),
{
    match *action {
        Action::CycleFocusForward => "CycleFocusForward",
        Action::CycleFocusBackward => "CycleFocusBackward",
        Action::FocusCompose => "FocusCompose",
        Action::SummonChat => "SummonChat",
        Action::ToggleSurface => "ToggleSurface",
        Action::Unfocus => "Unfocus",
        Action::PopLevel => "PopLevel",
        Action::Activate => "Activate",
        Action::FocusNextBlock => "FocusNextBlock",
        Action::FocusPrevBlock => "FocusPrevBlock",
        Action::FocusFirstBlock => "FocusFirstBlock",
        Action::FocusLastBlock => "FocusLastBlock",
        Action::ExpandBlock => "ExpandBlock",
        Action::ToggleStackView => "ToggleStackView",
        Action::CollapseToggle => "CollapseToggle",
        Action::ScrollDelta(_) => "ScrollDelta",
        Action::HalfPageUp => "HalfPageUp",
        Action::HalfPageDown => "HalfPageDown",
        Action::ScrollToEnd => "ScrollToEnd",
        Action::ScrollToTop => "ScrollToTop",
        Action::FocusPaneLeft => "FocusPaneLeft",
        Action::FocusPaneDown => "FocusPaneDown",
        Action::FocusPaneUp => "FocusPaneUp",
        Action::FocusPaneRight => "FocusPaneRight",
        Action::SplitVertical => "SplitVertical",
        Action::SplitHorizontal => "SplitHorizontal",
        Action::ClosePane => "ClosePane",
        Action::GrowPane => "GrowPane",
        Action::ShrinkPane => "ShrinkPane",
        Action::TogglePreviousPaneFocus => "TogglePreviousPaneFocus",
        Action::ToggleConstellation => "ToggleConstellation",
        Action::SpatialNav(_, _) => "SpatialNav",
        Action::Pan(_, _) => "Pan",
        Action::ZoomIn => "ZoomIn",
        Action::ZoomOut => "ZoomOut",
        Action::ZoomReset => "ZoomReset",
        Action::ConstellationCreate => "ConstellationCreate",
        Action::ConstellationModelPicker => "ConstellationModelPicker",
        Action::ConstellationArchive => "ConstellationArchive",
        Action::ToggleAlternate => "ToggleAlternate",
        Action::Submit => "Submit",
        Action::Backspace => "Backspace",
        Action::Delete => "Delete",
        Action::CursorLeft => "CursorLeft",
        Action::CursorRight => "CursorRight",
        Action::CursorUp => "CursorUp",
        Action::CursorDown => "CursorDown",
        Action::CursorHome => "CursorHome",
        Action::CursorEnd => "CursorEnd",
        Action::CursorWordLeft => "CursorWordLeft",
        Action::CursorWordRight => "CursorWordRight",
        Action::SelectAll => "SelectAll",
        Action::Copy => "Copy",
        Action::Cut => "Cut",
        Action::Paste => "Paste",
        Action::PastePrimary => "PastePrimary",
        Action::Undo => "Undo",
        Action::Redo => "Redo",
        Action::InsertNewline => "InsertNewline",
        Action::ToggleBlockExcluded => "ToggleBlockExcluded",
        Action::Quit => "Quit",
        Action::Screenshot => "Screenshot",
        Action::DebugToggle => "DebugToggle",
        Action::StepNext => "StepNext",
        Action::StepPrev => "StepPrev",
        Action::LevelUp => "LevelUp",
        Action::LevelDown => "LevelDown",
        Action::JumpSeat(_) => "JumpSeat",
        Action::Promote => "Promote",
        Action::Demote => "Demote",
        Action::Conclude => "Conclude",
        Action::PauseToggle => "PauseToggle",
        Action::Archive => "Archive",
        Action::Rescan => "Rescan",
        Action::ToggleLegend => "ToggleLegend",
        Action::FlyAxis { .. } => "FlyAxis",
        Action::FlyAltitude(_) => "FlyAltitude",
        Action::SwitchToActiveSeat(_) => "SwitchToActiveSeat",
        Action::SwitchToPreviousContext => "SwitchToPreviousContext",
        Action::ActiveSeatStep(_) => "ActiveSeatStep",
        Action::CloseAndDemoteContext => "CloseAndDemoteContext",
        Action::GoToWell => "GoToWell",
        Action::DetachToConversation => "DetachToConversation",
        Action::SendLiteralPrefix => "SendLiteralPrefix",
        Action::PromptContextRename => "PromptContextRename",
        Action::PromptContextSwitch => "PromptContextSwitch",
        Action::InterruptContext { .. } => "InterruptContext",
    }
}

/// The action that a bare name stands for.
pub fn action_of(s: &str) -> (action: Option<Action>)
    ensures
        match action {
            Some(action) => is_bare(action) && action_name(action) == s@,
            None => forall|action: Action| is_bare(action) ==> #[trigger] action_name(action) != s@,
        },
{
    if same(s, "CycleFocusForward") {
        return Some(Action::CycleFocusForward);
    }
    if same(s, "CycleFocusBackward") {
        return Some(Action::CycleFocusBackward);
    }
    if same(s, "FocusCompose") {
        return Some(Action::FocusCompose);
    }
    if same(s, "SummonChat") {
        return Some(Action::SummonChat);
    }
    if same(s, "ToggleSurface") {
        return Some(Action::ToggleSurface);
    }
    if same(s, "Unfocus") {
        return Some(Action::Unfocus);
    }
    if same(s, "PopLevel") {
        return Some(Action::PopLevel);
    }
    if same(s, "Activate") {
        return Some(Action::Activate);
    }
    if same(s, "FocusNextBlock") {
        return Some(Action::FocusNextBlock);
    }
    if same(s, "FocusPrevBlock") {
        return Some(Action::FocusPrevBlock);
    }
    if same(s, "FocusFirstBlock") {
        return Some(Action::FocusFirstBlock);
    }
    if same(s, "FocusLastBlock") {
        return Some(Action::FocusLastBlock);
    }
    if same(s, "ExpandBlock") {
        return Some(Action::ExpandBlock);
    }
    if same(s, "ToggleStackView") {
        return Some(Action::ToggleStackView);
    }
    if same(s, "CollapseToggle") {
        return Some(Action::CollapseToggle);
    }
    if same(s, "ScrollDelta") {
        return Some(Action::ScrollDelta(Scalar { bits: 0 }));
    }
    if same(s, "HalfPageUp") {
        return Some(Action::HalfPageUp);
    }
    if same(s, "HalfPageDown") {
        return Some(Action::HalfPageDown);
    }
    if same(s, "ScrollToEnd") {
        return Some(Action::ScrollToEnd);
    }
    if same(s, "ScrollToTop") {
        return Some(Action::ScrollToTop);
    }
    if same(s, "FocusPaneLeft") {
        return Some(Action::FocusPaneLeft);
    }
    if same(s, "FocusPaneDown") {
        return Some(Action::FocusPaneDown);
    }
    if same(s, "FocusPaneUp") {
        return Some(Action::FocusPaneUp);
    }
    if same(s, "FocusPaneRight") {
        return Some(Action::FocusPaneRight);
    }
    if same(s, "SplitVertical") {
        return Some(Action::SplitVertical);
    }
    if same(s, "SplitHorizontal") {
        return Some(Action::SplitHorizontal);
    }
    if same(s, "ClosePane") {
        return Some(Action::ClosePane);
    }
    if same(s, "GrowPane") {
        return Some(Action::GrowPane);
    }
    if same(s, "ShrinkPane") {
        return Some(Action::ShrinkPane);
    }
    if same(s, "TogglePreviousPaneFocus") {
        return Some(Action::TogglePreviousPaneFocus);
    }
    if same(s, "ToggleConstellation") {
        return Some(Action::ToggleConstellation);
    }
    if same(s, "SpatialNav") {
        return Some(Action::SpatialNav(Scalar { bits: 0 }, Scalar { bits: 0 }));
    }
    if same(s, "Pan") {
        return Some(Action::Pan(Scalar { bits: 0 }, Scalar { bits: 0 }));
    }
    if same(s, "ZoomIn") {
        return Some(Action::ZoomIn);
    }
    if same(s, "ZoomOut") {
        return Some(Action::ZoomOut);
    }
    if same(s, "ZoomReset") {
        return Some(Action::ZoomReset);
    }
    if same(s, "ConstellationCreate") {
        return Some(Action::ConstellationCreate);
    }
    if same(s, "ConstellationModelPicker") {
        return Some(Action::ConstellationModelPicker);
    }
    if same(s, "ConstellationArchive") {
        return Some(Action::ConstellationArchive);
    }
    if same(s, "ToggleAlternate") {
        return Some(Action::ToggleAlternate);
    }
    if same(s, "Submit") {
        return Some(Action::Submit);
    }
    if same(s, "Backspace") {
        return Some(Action::Backspace);
    }
    if same(s, "Delete") {
        return Some(Action::Delete);
    }
    if same(s, "CursorLeft") {
        return Some(Action::CursorLeft);
    }
    if same(s, "CursorRight") {
        return Some(Action::CursorRight);
    }
    if same(s, "CursorUp") {
        return Some(Action::CursorUp);
    }
    if same(s, "CursorDown") {
        return Some(Action::CursorDown);
    }
    if same(s, "CursorHome") {
        return Some(Action::CursorHome);
    }
    if same(s, "CursorEnd") {
        return Some(Action::CursorEnd);
    }
    if same(s, "CursorWordLeft") {
        return Some(Action::CursorWordLeft);
    }
    if same(s, "CursorWordRight") {
        return Some(Action::CursorWordRight);
    }
    if same(s, "SelectAll") {
        return Some(Action::SelectAll);
    }
    if same(s, "Copy") {
        return Some(Action::Copy);
    }
    if same(s, "Cut") {
        return Some(Action::Cut);
    }
    if same(s, "Paste") {
        return Some(Action::Paste);
    }
    if same(s, "PastePrimary") {
        return Some(Action::PastePrimary);
    }
    if same(s, "Undo") {
        return Some(Action::Undo);
    }
    if same(s, "Redo") {
        return Some(Action::Redo);
    }
    if same(s, "InsertNewline") {
        return Some(Action::InsertNewline);
    }
    if same(s, "ToggleBlockExcluded") {
        return Some(Action::ToggleBlockExcluded);
    }
    if same(s, "Quit") {
        return Some(Action::Quit);
    }
    if same(s, "Screenshot") {
        return Some(Action::Screenshot);
    }
    if same(s, "DebugToggle") {
        return Some(Action::DebugToggle);
    }
    if same(s, "StepNext") {
        return Some(Action::StepNext);
    }
    if same(s, "StepPrev") {
        return Some(Action::StepPrev);
    }
    if same(s, "LevelUp") {
        return Some(Action::LevelUp);
    }
    if same(s, "LevelDown") {
        return Some(Action::LevelDown);
    }
    if same(s, "JumpSeat") {
        return Some(Action::JumpSeat(0));
    }
    if same(s, "Promote") {
        return Some(Action::Promote);
    }
    if same(s, "Demote") {
        return Some(Action::Demote);
    }
    if same(s, "Conclude") {
        return Some(Action::Conclude);
    }
    if same(s, "PauseToggle") {
        return Some(Action::PauseToggle);
    }
    if same(s, "Archive") {
        return Some(Action::Archive);
    }
    if same(s, "Rescan") {
        return Some(Action::Rescan);
    }
    if same(s, "ToggleLegend") {
        return Some(Action::ToggleLegend);
    }
    if same(s, "FlyAxis") {
        return Some(Action::FlyAxis { x: Scalar { bits: 0 }, y: Scalar { bits: 0 } });
    }
    if same(s, "FlyAltitude") {
        return Some(Action::FlyAltitude(Scalar { bits: 0 }));
    }
    if same(s, "SwitchToActiveSeat") {
        return Some(Action::SwitchToActiveSeat(0));
    }
    if same(s, "SwitchToPreviousContext") {
        return Some(Action::SwitchToPreviousContext);
    }
    if same(s, "ActiveSeatStep") {
        return Some(Action::ActiveSeatStep(0));
    }
    if same(s, "CloseAndDemoteContext") {
        return Some(Action::CloseAndDemoteContext);
    }
    if same(s, "GoToWell") {
        return Some(Action::GoToWell);
    }
    if same(s, "DetachToConversation") {
        return Some(Action::DetachToConversation);
    }
    if same(s, "SendLiteralPrefix") {
        return Some(Action::SendLiteralPrefix);
    }
    if same(s, "PromptContextRename") {
        return Some(Action::PromptContextRename);
    }
    if same(s, "PromptContextSwitch") {
        return Some(Action::PromptContextSwitch);
    }
    if same(s, "InterruptContext") {
        return Some(Action::InterruptContext { immediate: false });
    }
    None
}

/// Every action goes by its own name, whatever it carries.
pub proof fn law_actions_go_by_their_names(x: Scalar, y: Scalar, n: usize, step: i32, immediate: bool)
    ensures
        action_name(Action::CycleFocusForward) == "CycleFocusForward"@,
        action_name(Action::CycleFocusBackward) == "CycleFocusBackward"@,
        action_name(Action::FocusCompose) == "FocusCompose"@,
        action_name(Action::SummonChat) == "SummonChat"@,
        action_name(Action::ToggleSurface) == "ToggleSurface"@,
        action_name(Action::Unfocus) == "Unfocus"@,
        action_name(Action::PopLevel) == "PopLevel"@,
        action_name(Action::Activate) == "Activate"@,
        action_name(Action::FocusNextBlock) == "FocusNextBlock"@,
        action_name(Action::FocusPrevBlock) == "FocusPrevBlock"@,
        action_name(Action::FocusFirstBlock) == "FocusFirstBlock"@,
        action_name(Action::FocusLastBlock) == "FocusLastBlock"@,
        action_name(Action::ExpandBlock) == "ExpandBlock"@,
        action_name(Action::ToggleStackView) == "ToggleStackView"@,
        action_name(Action::CollapseToggle) == "CollapseToggle"@,
        action_name(Action::HalfPageUp) == "HalfPageUp"@,
        action_name(Action::HalfPageDown) == "HalfPageDown"@,
        action_name(Action::ScrollToEnd) == "ScrollToEnd"@,
        action_name(Action::ScrollToTop) == "ScrollToTop"@,
        action_name(Action::FocusPaneLeft) == "FocusPaneLeft"@,
        action_name(Action::FocusPaneDown) == "FocusPaneDown"@,
        action_name(Action::FocusPaneUp) == "FocusPaneUp"@,
        action_name(Action::FocusPaneRight) == "FocusPaneRight"@,
        action_name(Action::SplitVertical) == "SplitVertical"@,
        action_name(Action::SplitHorizontal) == "SplitHorizontal"@,
        action_name(Action::ClosePane) == "ClosePane"@,
        action_name(Action::GrowPane) == "GrowPane"@,
        action_name(Action::ShrinkPane) == "ShrinkPane"@,
        action_name(Action::TogglePreviousPaneFocus) == "TogglePreviousPaneFocus"@,
        action_name(Action::ToggleConstellation) == "ToggleConstellation"@,
        action_name(Action::ZoomIn) == "ZoomIn"@,
        action_name(Action::ZoomOut) == "ZoomOut"@,
        action_name(Action::ZoomReset) == "ZoomReset"@,
        action_name(Action::ConstellationCreate) == "ConstellationCreate"@,
        action_name(Action::ConstellationModelPicker) == "ConstellationModelPicker"@,
        action_name(Action::ConstellationArchive) == "ConstellationArchive"@,
        action_name(Action::ToggleAlternate) == "ToggleAlternate"@,
        action_name(Action::Submit) == "Submit"@,
        action_name(Action::Backspace) == "Backspace"@,
        action_name(Action::Delete) == "Delete"@,
        action_name(Action::CursorLeft) == "CursorLeft"@,
        action_name(Action::CursorRight) == "CursorRight"@,
        action_name(Action::CursorUp) == "CursorUp"@,
        action_name(Action::CursorDown) == "CursorDown"@,
        action_name(Action::CursorHome) == "CursorHome"@,
        action_name(Action::CursorEnd) == "CursorEnd"@,
        action_name(Action::CursorWordLeft) == "CursorWordLeft"@,
        action_name(Action::CursorWordRight) == "CursorWordRight"@,
        action_name(Action::SelectAll) == "SelectAll"@,
        action_name(Action::Copy) == "Copy"@,
        action_name(Action::Cut) == "Cut"@,
        action_name(Action::Paste) == "Paste"@,
        action_name(Action::PastePrimary) == "PastePrimary"@,
        action_name(Action::Undo) == "Undo"@,
        action_name(Action::Redo) == "Redo"@,
        action_name(Action::InsertNewline) == "InsertNewline"@,
        action_name(Action::ToggleBlockExcluded) == "ToggleBlockExcluded"@,
        action_name(Action::Quit) == "Quit"@,
        action_name(Action::Screenshot) == "Screenshot"@,
        action_name(Action::DebugToggle) == "DebugToggle"@,
        action_name(Action::StepNext) == "StepNext"@,
        action_name(Action::StepPrev) == "StepPrev"@,
        action_name(Action::LevelUp) == "LevelUp"@,
        action_name(Action::LevelDown) == "LevelDown"@,
        action_name(Action::Promote) == "Promote"@,
        action_name(Action::Demote) == "Demote"@,
        action_name(Action::Conclude) == "Conclude"@,
        action_name(Action::PauseToggle) == "PauseToggle"@,
        action_name(Action::Archive) == "Archive"@,
        action_name(Action::Rescan) == "Rescan"@,
        action_name(Action::ToggleLegend) == "ToggleLegend"@,
        action_name(Action::SwitchToPreviousContext) == "SwitchToPreviousContext"@,
        action_name(Action::CloseAndDemoteContext) == "CloseAndDemoteContext"@,
        action_name(Action::GoToWell) == "GoToWell"@,
        action_name(Action::DetachToConversation) == "DetachToConversation"@,
        action_name(Action::SendLiteralPrefix) == "SendLiteralPrefix"@,
        action_name(Action::PromptContextRename) == "PromptContextRename"@,
        action_name(Action::PromptContextSwitch) == "PromptContextSwitch"@,
        action_name(Action::ScrollDelta(x)) == "ScrollDelta"@,
        action_name(Action::SpatialNav(x, y)) == "SpatialNav"@,
        action_name(Action::Pan(x, y)) == "Pan"@,
        action_name(Action::JumpSeat(n)) == "JumpSeat"@,
        action_name(Action::FlyAxis { x, y }) == "FlyAxis"@,
        action_name(Action::FlyAltitude(x)) == "FlyAltitude"@,
        action_name(Action::SwitchToActiveSeat(n)) == "SwitchToActiveSeat"@,
        action_name(Action::ActiveSeatStep(step)) == "ActiveSeatStep"@,
        action_name(Action::InterruptContext { immediate }) == "InterruptContext"@,
{
}

} // verus!
