use kaijutsu_app::input::action::{Action, Scalar};
use kaijutsu_app::input::binding::{Binding, InputSource, Modifiers};
use kaijutsu_app::input::bindings_config::{
    action_to_str, binding_from_entry, bindings_from_entries, bindings_to_entries, float_fields,
    float_payload, load_bindings_file, modifiers_to_str, parse_action, parse_context,
    parse_gamepad_button, parse_key_code, parse_modifiers, BindingEntry, BindingsConfigError,
    BindingsFile, FloatReading,
};
use kaijutsu_app::input::context::InputContext;
use kaijutsu_app::input::defaults::default_bindings;
use kaijutsu_app::input::keys::{GamepadButton, KeyCode};
use kaijutsu_app::input::map::InputMap;
use kaijutsu_app::input::rhai_config;

fn scalar(x: f32) -> Scalar {
    Scalar { bits: x.to_bits() }
}

/// The numbers that an action's text names.
fn readings(s: &str) -> Vec<FloatReading> {
    float_fields(s)
        .iter()
        .map(|field| field.parse::<f32>().map(scalar).map_err(|e| e.to_string()))
        .collect()
}

/// The numbers of an action as text.
fn shown(a: &Action) -> Vec<String> {
    float_payload(a).iter().map(|x| f32::from_bits(x.bits).to_string()).collect()
}

fn action(s: &str) -> Result<Action, String> {
    parse_action(s, &readings(s))
}

fn spelled(a: Action) -> String {
    action_to_str(&a, &shown(&a))
}

fn entry(key: &str, modifiers: &str, context: &str, action: &str) -> BindingEntry {
    BindingEntry {
        key: key.to_string(),
        modifiers: modifiers.to_string(),
        context: context.to_string(),
        action: action.to_string(),
        gamepad: false,
        label: String::new(),
    }
}

fn from_entry(e: &BindingEntry) -> Result<Binding, String> {
    binding_from_entry(e, &readings(&e.action))
}

fn text_of(table: &toml::Table, name: &str) -> String {
    table.get(name).and_then(|v| v.as_str()).unwrap_or("").to_string()
}

/// A file with this text.
fn read_file(text: &str) -> BindingsFile {
    let table = match text.parse::<toml::Table>() {
        Ok(table) => table,
        Err(e) => return BindingsFile::Malformed { message: e.to_string() },
    };
    let mut entries = Vec::new();
    let listed = table.get("bindings").and_then(|v| v.as_array()).cloned().unwrap_or_default();
    for item in listed {
        let item = item.as_table().cloned().unwrap_or_default();
        entries.push(BindingEntry {
            key: text_of(&item, "key"),
            modifiers: text_of(&item, "modifiers"),
            context: text_of(&item, "context"),
            action: text_of(&item, "action"),
            gamepad: item.get("gamepad").and_then(|v| v.as_bool()).unwrap_or(false),
            label: text_of(&item, "label"),
        });
    }
    let floats = entries.iter().map(|e| readings(&e.action)).collect();
    BindingsFile::Entries { entries, floats }
}

fn parse_bindings_toml(text: &str) -> Result<(Vec<Binding>, Vec<String>), String> {
    match read_file(text) {
        BindingsFile::Entries { entries, floats } => {
            let loaded = bindings_from_entries(&entries, &floats);
            Ok((loaded.bindings, loaded.entry_errors))
        }
        other => Err(format!("{other:?}")),
    }
}

fn bindings_to_toml(bindings: &Vec<Binding>) -> String {
    let shown = bindings.iter().map(|b| shown(&b.action)).collect();
    let mut listed = Vec::new();
    for e in bindings_to_entries(bindings, &shown) {
        let mut item = toml::Table::new();
        item.insert("key".to_string(), toml::Value::String(e.key));
        item.insert("modifiers".to_string(), toml::Value::String(e.modifiers));
        item.insert("context".to_string(), toml::Value::String(e.context));
        item.insert("action".to_string(), toml::Value::String(e.action));
        item.insert("gamepad".to_string(), toml::Value::Boolean(e.gamepad));
        item.insert("label".to_string(), toml::Value::String(e.label));
        listed.push(toml::Value::Table(item));
    }
    let mut file = toml::Table::new();
    file.insert("bindings".to_string(), toml::Value::Array(listed));
    toml::to_string(&file).expect("a table serialises")
}

const ALL_ACTIONS: &[&str] = &[
    "CycleFocusForward",
    "CycleFocusBackward",
    "FocusCompose",
    "SummonChat",
    "ToggleSurface",
    "ToggleBlockExcluded",
    "Unfocus",
    "Activate",
    "FocusNextBlock",
    "FocusPrevBlock",
    "FocusFirstBlock",
    "FocusLastBlock",
    "ExpandBlock",
    "ToggleStackView",
    "CollapseToggle",
    "HalfPageUp",
    "HalfPageDown",
    "ScrollToEnd",
    "ScrollToTop",
    "FocusPaneLeft",
    "FocusPaneDown",
    "FocusPaneUp",
    "FocusPaneRight",
    "SplitVertical",
    "SplitHorizontal",
    "ClosePane",
    "GrowPane",
    "ShrinkPane",
    "TogglePreviousPaneFocus",
    "ToggleConstellation",
    "ZoomIn",
    "ZoomOut",
    "ZoomReset",
    "ConstellationCreate",
    "ConstellationModelPicker",
    "ConstellationArchive",
    "ToggleAlternate",
    "Submit",
    "Backspace",
    "Delete",
    "CursorLeft",
    "CursorRight",
    "CursorUp",
    "CursorDown",
    "CursorHome",
    "CursorEnd",
    "CursorWordLeft",
    "CursorWordRight",
    "SelectAll",
    "Copy",
    "Cut",
    "Paste",
    "Undo",
    "Redo",
    "InsertNewline",
    "Quit",
    "Screenshot",
    "DebugToggle",
    "InterruptContext",
];

const ALL_KEYS: &[&str] = &[
    "KeyA",
    "KeyB",
    "KeyC",
    "KeyD",
    "KeyE",
    "KeyF",
    "KeyG",
    "KeyH",
    "KeyI",
    "KeyJ",
    "KeyK",
    "KeyL",
    "KeyM",
    "KeyN",
    "KeyO",
    "KeyP",
    "KeyQ",
    "KeyR",
    "KeyS",
    "KeyT",
    "KeyU",
    "KeyV",
    "KeyW",
    "KeyX",
    "KeyY",
    "KeyZ",
    "Digit0",
    "Digit1",
    "Digit2",
    "Digit3",
    "Digit4",
    "Digit5",
    "Digit6",
    "Digit7",
    "Digit8",
    "Digit9",
    "F1",
    "F2",
    "F3",
    "F4",
    "F5",
    "F6",
    "F7",
    "F8",
    "F9",
    "F10",
    "F11",
    "F12",
    "Enter",
    "Escape",
    "Space",
    "Tab",
    "Backspace",
    "Delete",
    "Home",
    "End",
    "ArrowLeft",
    "ArrowRight",
    "ArrowUp",
    "ArrowDown",
    "BracketLeft",
    "BracketRight",
    "Backslash",
    "Semicolon",
    "Quote",
    "Comma",
    "Period",
    "Slash",
    "Minus",
    "Equal",
    "Backquote",
];

const ALL_GAMEPAD_BUTTONS: &[&str] = &[
    "South",
    "East",
    "North",
    "West",
    "Start",
    "Select",
    "DPadUp",
    "DPadDown",
    "DPadLeft",
    "DPadRight",
    "LeftTrigger",
    "RightTrigger",
    "LeftThumb",
    "RightThumb",
];

const ALL_CONTEXTS: &[&str] = &[
    "Global",
    "Navigation",
    "TextInput",
    "Constellation",
    "Dialog",
];

#[test]
fn test_parse_action_all_variants() {
    for s in ALL_ACTIONS {
        action(s).unwrap_or_else(|e| panic!("parse_action({s:?}) failed: {e}"));
    }
}

#[test]
fn test_parse_action_rejects_unknown() {
    assert!(action("Bogus").is_err());
    assert!(action("").is_err());
    assert!(action("focus_next_block").is_err(), "case-sensitive");
}

#[test]
fn test_parse_key_code_all_variants() {
    for s in ALL_KEYS {
        parse_key_code(s).unwrap_or_else(|e| panic!("parse_key_code({s:?}) failed: {e}"));
    }
}

#[test]
fn test_parse_key_code_rejects_unknown() {
    assert!(parse_key_code("Bogus").is_err());
    assert!(parse_key_code("keya").is_err(), "case-sensitive");
    assert!(parse_key_code("").is_err());
}

#[test]
fn test_parse_gamepad_button_all_variants() {
    for s in ALL_GAMEPAD_BUTTONS {
        parse_gamepad_button(s)
            .unwrap_or_else(|e| panic!("parse_gamepad_button({s:?}) failed: {e}"));
    }
}

#[test]
fn test_parse_gamepad_button_rejects_unknown() {
    assert!(parse_gamepad_button("A").is_err());
}

#[test]
fn test_parse_modifiers_ok() {
    assert_eq!(parse_modifiers("").unwrap(), Modifiers::none());
    assert!(parse_modifiers("CTRL").unwrap().ctrl);
    let all = parse_modifiers("CTRL+SHIFT+ALT+SUPER").unwrap();
    assert!(all.ctrl && all.shift && all.alt && all.super_key);
}

#[test]
fn test_parse_modifiers_rejects_unknown() {
    let err = parse_modifiers("CTRL+BOGUS").unwrap_err();
    assert!(err.contains("BOGUS"), "error should name bad token: {err}");
    assert!(
        parse_modifiers("SHIT").is_err(),
        "typo must not silently drop"
    );
}

#[test]
fn test_parse_context_all_variants() {
    for s in ALL_CONTEXTS {
        parse_context(s).unwrap_or_else(|e| panic!("parse_context({s:?}) failed: {e}"));
    }
}

#[test]
fn test_parse_context_rejects_unknown() {
    assert!(parse_context("global").is_err(), "case-sensitive");
    assert!(parse_context("Bogus").is_err());
}

#[test]
fn test_defaults_round_trip() {
    let defaults = default_bindings();
    let toml_str = bindings_to_toml(&defaults);
    let (parsed, errors) = parse_bindings_toml(&toml_str).expect("default TOML must parse");
    assert!(
        errors.is_empty(),
        "default bindings must round-trip with zero entry errors: {errors:?}"
    );
    assert_eq!(
        parsed.len(),
        defaults.len(),
        "round-trip binding count must match"
    );
}

#[test]
fn test_load_bindings_missing_file_returns_defaults() {
    let loaded = load_bindings_file("/nowhere/bindings.toml", &BindingsFile::Missing).unwrap();
    assert_eq!(loaded.bindings.len(), default_bindings().len());
    assert!(loaded.entry_errors.is_empty());
}

#[test]
fn test_load_bindings_malformed_toml_returns_parse_err() {
    let path = "/somewhere/bindings.toml";
    let file = read_file("[invalid toml :::");
    match load_bindings_file(path, &file) {
        Ok(_) => panic!("malformed bindings.toml must not return Ok"),
        Err(BindingsConfigError::Parse { path: p, .. }) => assert_eq!(p, path),
        Err(other) => panic!("expected Parse error, got {}", other.message()),
    }
}

#[test]
fn test_load_bindings_per_entry_errors_surface() {
    let toml = r#"
[[bindings]]
key = "KeyJ"
context = "Navigation"
action = "FocusNextBlock"

[[bindings]]
key = "KeyZ"
context = "Navigation"
action = "BogusAction"

[[bindings]]
key = "KeyK"
modifiers = "CTRL+BOGUS"
context = "Navigation"
action = "FocusPrevBlock"
"#;
    let (bindings, errors) = parse_bindings_toml(toml).unwrap();
    assert_eq!(bindings.len(), 1, "only the first binding should succeed");
    assert_eq!(errors.len(), 2, "two per-entry errors expected");
    assert!(errors.iter().any(|e| e.contains("BogusAction")));
    assert!(errors.iter().any(|e| e.contains("BOGUS")));
}

// ── Text and back ──

#[test]
fn actions_with_numbers_read_and_show_them() {
    assert_eq!(action("ScrollDelta:-12.5").unwrap(), Action::ScrollDelta(scalar(-12.5)));
    assert_eq!(action("Pan:1,-0.5").unwrap(), Action::Pan(scalar(1.0), scalar(-0.5)));
    assert_eq!(spelled(Action::Pan(scalar(1.0), scalar(-0.5))), "Pan:1,-0.5");
    assert_eq!(spelled(Action::ScrollDelta(scalar(120.0))), "ScrollDelta:120");
    assert_eq!(
        action("SpatialNav:0,1").unwrap(),
        Action::SpatialNav(scalar(0.0), scalar(1.0))
    );
    assert!(action("Pan:1").is_err());
    assert!(action("ScrollDelta:fast").is_err());
}

/// Every written action reads back.
#[test]
fn a_written_action_reads_back() {
    for a in [
        Action::Quit,
        Action::JumpSeat(7),
        Action::ActiveSeatStep(-1),
        Action::InterruptContext { immediate: true },
        Action::InterruptContext { immediate: false },
        Action::FlyAltitude(scalar(0.25)),
    ] {
        assert_eq!(action(&spelled(a)), Ok(a), "{a:?}");
    }
}

#[test]
fn modifiers_have_one_order() {
    let all = Modifiers { ctrl: true, shift: true, alt: true, super_key: true };
    assert_eq!(modifiers_to_str(&all), "CTRL+SHIFT+ALT+SUPER");
    assert_eq!(modifiers_to_str(&Modifiers::none()), "");
    assert_eq!(parse_modifiers(&modifiers_to_str(&all)), Ok(all));
    assert_eq!(parse_modifiers(" CTRL + ALT ").map(|m| (m.ctrl, m.alt)), Ok((true, true)));
}

#[test]
fn an_entry_is_a_binding() {
    let b = from_entry(&entry("KeyJ", "SHIFT", "Navigation", "FocusNextBlock")).unwrap();
    assert_eq!(b.source, InputSource::Key(KeyCode::KeyJ));
    assert_eq!(b.modifiers, Modifiers::shift());
    assert_eq!(b.context, InputContext::Navigation);
    assert_eq!(b.action, Action::FocusNextBlock);

    let pad = BindingEntry { gamepad: true, ..entry("South", "", "Global", "Activate") };
    let b = from_entry(&pad).unwrap();
    assert_eq!(b.source, InputSource::GamepadButton(GamepadButton::South));
}

#[test]
fn a_bad_entry_quotes_its_key() {
    let entries = vec![entry("Key\"J\n", "", "Navigation", "Quit")];
    let errors = bindings_from_entries(&entries, &vec![Vec::new()]).entry_errors;
    assert_eq!(
        errors,
        vec!["binding #0 (\"Key\\\"J\\n\"): unknown key code 'Key\"J\n'".to_string()],
        "the key stands as a literal"
    );
    let err = from_entry(&entry("KeyJ", "", "Bogus", "Quit")).unwrap_err();
    assert!(err.contains("Bogus"), "{err}");
}

/// Every entry counts once: as a binding or as an error.
#[test]
fn every_entry_counts() {
    let entries = vec![
        entry("KeyJ", "", "Navigation", "FocusNextBlock"),
        entry("KeyJ", "", "Nowhere", "FocusNextBlock"),
        entry("KeyK", "", "Navigation", "FocusPrevBlock"),
    ];
    let floats = entries.iter().map(|e| readings(&e.action)).collect();
    let loaded = bindings_from_entries(&entries, &floats);
    assert_eq!(loaded.bindings.len() + loaded.entry_errors.len(), entries.len());
    assert_eq!(loaded.entry_errors.len(), 1);
}

#[test]
fn load_errors_have_messages() {
    let unreadable = BindingsFile::Unreadable { source: "permission denied".to_string() };
    let err = load_bindings_file("/etc/bindings.toml", &unreadable).unwrap_err();
    match &err {
        BindingsConfigError::Io { path, source } => {
            assert_eq!((path.as_str(), source.as_str()), ("/etc/bindings.toml", "permission denied"));
        }
        other => panic!("expected Io, got {other:?}"),
    }
    let message = err.message();
    assert!(message.contains("/etc/bindings.toml") && message.contains("permission denied"));
}

#[test]
fn a_failed_load_falls_back_to_the_defaults() {
    let map = InputMap::from_load(load_bindings_file("b.toml", &read_file("[[[")));
    assert_eq!(map.bindings.len(), default_bindings().len());
    let text = "[[bindings]]\nkey = \"KeyJ\"\ncontext = \"Navigation\"\naction = \"Quit\"\n";
    let map = InputMap::from_load(load_bindings_file("b.toml", &read_file(text)));
    assert_eq!(map.bindings.len(), 1);
    assert_eq!(map.bindings[0].action, Action::Quit);
}

// ── The lenient reader ──

#[test]
fn the_lenient_reader_passes_over_unknown_modifiers() {
    let m = rhai_config::parse_modifiers("CTRL+BOGUS");
    assert_eq!(m, Modifiers::ctrl());
    assert_eq!(rhai_config::parse_modifiers("CTRL+SHIFT"), parse_modifiers("CTRL+SHIFT").unwrap());
}

#[test]
fn the_lenient_reader_passes_over_bad_entries() {
    let entries = vec![
        entry("KeyJ", "", "Navigation", "FocusNextBlock"),
        entry("KeyJ", "", "Navigation", "Bogus"),
    ];
    assert!(rhai_config::binding_from_entry(&entries[1]).is_err());
    assert!(rhai_config::parse_action("Bogus").is_err());
    assert_eq!(rhai_config::parse_action("Quit"), Ok(Action::Quit));
    for newer in ["PopLevel", "PastePrimary", "StepNext", "GoToWell", "SendLiteralPrefix"] {
        assert_eq!(rhai_config::parse_action(newer), Err(format!("unknown action '{newer}'")));
    }
    assert_eq!(rhai_config::parse_context("Constellation"), Ok(InputContext::Constellation));
    let unknown = rhai_config::parse_context("RoomNav");
    assert_eq!(unknown, Err("unknown context 'RoomNav'".to_string()));
    let bindings = rhai_config::bindings_from_entries(Some(&entries));
    assert_eq!(bindings.len(), 1);
    let missing = rhai_config::bindings_from_entries(None);
    assert_eq!(missing.len(), default_bindings().len());
}
