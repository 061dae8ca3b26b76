use kaijutsu_app::input::action::Action;
use kaijutsu_app::input::keys::{HeldKeys, Key, KeyCode, KeyboardInput};
use kaijutsu_app::input::overlay::{DocEdit, InputMode, InputOverlay};
use kaijutsu_app::input::vim::dispatch::{
    apply_keystroke, clamp_normal_cursor, resolve_target_range, route_compose_key,
    translate_action, vim_dispatch_compose, ComposeKey, PasteStyle, VimAction, VimEffect,
    VimMotionState,
};
use kaijutsu_app::input::vim::edit::{
    Count, EditAction, EditContext, EditTarget, MkWordStyle, MoveDir1D, MoveType, OperationSpec,
    RangeType,
};
use kaijutsu_app::input::vim::keyconv::{machine_form, TermKey, TermModifiers};
use kaijutsu_app::input::vim::machine::{KaijutsuContentId, KaijutsuInfo, VimMachineResource};
use kaijutsu_app::input::vim::motion::is_inclusive;
use kaijutsu_app::input::vim::KaijutsuAction;
use modalkit::editing::application::{ApplicationAction, ApplicationInfo};
use modalkit::keybindings::SequenceStatus;
use modalkit::prelude::CommandType;

fn overlay(text: &str, cursor: usize) -> InputOverlay {
    InputOverlay {
        text: text.to_string(),
        cursor,
        selection_anchor: None,
        vim_mode: None,
        mode: InputMode::Chat,
    }
}

fn line_target() -> EditTarget {
    EditTarget::Range(RangeType::Line, true, Count::Contextual)
}

fn word_target() -> EditTarget {
    EditTarget::Motion(
        MoveType::WordBegin(MkWordStyle::Little, MoveDir1D::Next),
        Count::Contextual,
    )
}

fn op(action: EditAction, target: EditTarget) -> VimAction {
    VimAction::Edit(OperationSpec::Exact(action), target)
}

fn run(
    action: VimAction,
    ov: &mut InputOverlay,
    state: &mut VimMotionState,
) -> Option<VimEffect> {
    translate_action(&action, &EditContext::default(), ov, state, true, false)
}

fn synced(effect: Option<VimEffect>) -> (u64, String, u64) {
    match effect {
        Some(VimEffect::Sync(DocEdit { pos, insert, delete })) => (pos, insert, delete),
        other => panic!("expected an edit, got {other:?}"),
    }
}

// ── Actions ──

#[test]
fn a_delete_fills_the_register_and_is_shared() {
    let mut ov = overlay("hello world", 0);
    let mut state = VimMotionState::default();
    let effect = run(op(EditAction::Delete, word_target()), &mut ov, &mut state);
    assert_eq!((ov.text.as_str(), ov.cursor), ("world", 0));
    assert_eq!((state.register.as_str(), state.register_linewise), ("hello ", false));
    assert_eq!(synced(effect), (0, String::new(), 6));
}

#[test]
fn a_yank_leaves_the_text_alone() {
    let mut ov = overlay("one\ntwo\n", 1);
    let mut state = VimMotionState::default();
    assert!(run(op(EditAction::Yank, line_target()), &mut ov, &mut state).is_none());
    assert_eq!((ov.text.as_str(), ov.cursor), ("one\ntwo\n", 1));
    assert_eq!((state.register.as_str(), state.register_linewise), ("one\n", true));
}

/// Putting back before the cursor undoes a delete.
#[test]
fn put_back_undoes_delete() {
    for style in [PasteStyle::Cursor, PasteStyle::Side(MoveDir1D::Previous), PasteStyle::Replace] {
        let mut ov = overlay("hello world", 6);
        let mut state = VimMotionState::default();
        run(op(EditAction::Delete, EditTarget::CurrentPosition), &mut ov, &mut state);
        assert_eq!(ov.text, "hello orld");
        run(VimAction::Paste(style), &mut ov, &mut state);
        assert_eq!((ov.text.as_str(), ov.cursor), ("hello world", 7));
        assert_eq!((state.register.as_str(), state.register_linewise), ("w", false));
    }
}

#[test]
fn whole_lines_are_put_below_or_above() {
    let mut state = VimMotionState {
        desired_col: None,
        register: "new\n".to_string(),
        register_linewise: true,
    };
    let mut below = overlay("one\ntwo", 1);
    let effect = run(VimAction::Paste(PasteStyle::Side(MoveDir1D::Next)), &mut below, &mut state);
    assert_eq!(below.text, "one\nnew\ntwo");
    assert_eq!(synced(effect), (4, "new\n".to_string(), 0));
    let mut above = overlay("one\ntwo", 5);
    run(VimAction::Paste(PasteStyle::Side(MoveDir1D::Previous)), &mut above, &mut state);
    assert_eq!(above.text, "one\nnew\ntwo");
    let mut last = overlay("ab", 1);
    let effect = run(VimAction::Paste(PasteStyle::Side(MoveDir1D::Next)), &mut last, &mut state);
    assert_eq!(last.text, "ab\nnew", "the last line is set off from what follows it");
    assert_eq!(synced(effect), (2, "\nnew".to_string(), 0));
}

/// Lines put back where they were taken from, with any line of three.
#[test]
fn lines_put_back_undo_the_delete() {
    for (cursor, side, left, taken) in [
        (0, MoveDir1D::Previous, "two\nthree", "one\n"),
        (5, MoveDir1D::Previous, "one\nthree", "two\n"),
        (9, MoveDir1D::Next, "one\ntwo", "three\n"),
    ] {
        let mut ov = overlay("one\ntwo\nthree", cursor);
        let mut state = VimMotionState::default();
        run(op(EditAction::Delete, line_target()), &mut ov, &mut state);
        assert_eq!(ov.text, left);
        assert_eq!((state.register.as_str(), state.register_linewise), (taken, true));
        run(VimAction::Paste(PasteStyle::Side(side)), &mut ov, &mut state);
        assert_eq!(ov.text, "one\ntwo\nthree");
    }
    let mut ov = overlay("hello\nworld", 8);
    let mut state = VimMotionState::default();
    run(op(EditAction::Delete, line_target()), &mut ov, &mut state);
    run(VimAction::Paste(PasteStyle::Side(MoveDir1D::Previous)), &mut ov, &mut state);
    assert_eq!(ov.text, "world\nhello", "no blank line comes along");
}

#[test]
fn an_empty_text_has_no_lines_to_take() {
    let mut ov = overlay("", 0);
    let mut state = VimMotionState::default();
    run(op(EditAction::Yank, line_target()), &mut ov, &mut state);
    assert_eq!((state.register.as_str(), state.register_linewise), ("", true));
}

#[test]
fn an_empty_register_puts_nothing() {
    let mut ov = overlay("abc", 1);
    let mut state = VimMotionState::default();
    assert!(run(VimAction::Paste(PasteStyle::Cursor), &mut ov, &mut state).is_none());
    assert_eq!(ov.text, "abc");
}

#[test]
fn an_edit_that_is_not_shared_stays_local() {
    let action = op(EditAction::Delete, word_target());
    for (online, skip) in [(false, false), (true, true)] {
        let mut ov = overlay("hello world", 0);
        let mut state = VimMotionState::default();
        let ctx = EditContext::default();
        assert!(translate_action(&action, &ctx, &mut ov, &mut state, online, skip).is_none());
        assert_eq!(ov.text, "world");
    }
}

#[test]
fn typed_characters_and_prompts_are_passed_on() {
    let mut ov = overlay("abc", 1);
    let mut state = VimMotionState::default();
    match run(VimAction::Type('é'), &mut ov, &mut state) {
        Some(VimEffect::Type(text)) => assert_eq!(text, "é"),
        other => panic!("expected typed text, got {other:?}"),
    }
    for (action, fired) in [
        (VimAction::PromptSubmit, Action::Submit),
        (VimAction::PromptAbort, Action::Unfocus),
        (VimAction::Application(KaijutsuAction::Submit), Action::Submit),
    ] {
        match run(action, &mut ov, &mut state) {
            Some(VimEffect::Fire(a)) => assert_eq!(a, fired),
            other => panic!("expected an action, got {other:?}"),
        }
    }
    assert!(run(VimAction::Unhandled, &mut ov, &mut state).is_none());
    assert_eq!(ov.text, "abc");
}

/// The count the user typed repeats a motion; a count of its own wins over it.
#[test]
fn counts_resolve_in_their_context() {
    let typed = EditContext { count: Some(3), ..EditContext::default() };
    assert_eq!(typed.resolve(&Count::Contextual), 3);
    assert_eq!(typed.resolve(&Count::MinusOne), 2);
    assert_eq!(typed.resolve(&Count::Exact(7)), 7);
    let bare = EditContext::default();
    assert_eq!(bare.resolve(&Count::Contextual), 1);
    assert_eq!(bare.resolve(&Count::MinusOne), 0);

    let mut ov = overlay("hello", 0);
    let mut state = VimMotionState::default();
    let right = EditTarget::Motion(MoveType::Column(MoveDir1D::Next, false), Count::Contextual);
    translate_action(&op(EditAction::Motion, right), &typed, &mut ov, &mut state, true, false);
    assert_eq!(ov.cursor, 3);
}

#[test]
fn a_pending_operation_is_the_contextual_one() {
    let ctx = EditContext { operation: EditAction::Delete, count: None };
    let mut ov = overlay("one\ntwo", 0);
    let mut state = VimMotionState::default();
    let action = VimAction::Edit(OperationSpec::Contextual, line_target());
    translate_action(&action, &ctx, &mut ov, &mut state, true, false);
    assert_eq!(ov.text, "two");
}

#[test]
fn inclusive_motions_take_their_last_character() {
    assert!(is_inclusive(&MoveType::WordEnd(MkWordStyle::Little, MoveDir1D::Next)));
    assert!(!is_inclusive(&MoveType::WordBegin(MkWordStyle::Little, MoveDir1D::Next)));
}

// ── Keystrokes ──

#[test]
fn in_normal_mode_the_cursor_rests_on_a_character() {
    let mut ov = overlay("hello", 5);
    clamp_normal_cursor(&mut ov);
    assert_eq!(ov.cursor, 4);
    let mut line_break = overlay("ab\nc", 2);
    clamp_normal_cursor(&mut line_break);
    assert_eq!(line_break.cursor, 1);
    let rest = |text: &str, cursor: usize| {
        let mut ov = overlay(text, cursor);
        clamp_normal_cursor(&mut ov);
        assert_eq!(ov.text, text);
        ov.cursor
    };
    assert_eq!(rest("a\n\nb", 2), 0, "back over the whole run of newlines");
    assert_eq!(rest("\n\nb", 1), 2, "forward where nothing stands before");
    assert_eq!(rest("é\n\n", 4), 0, "from the end of the text");
    assert_eq!(rest("\n\n", 2), 0, "newlines alone");
    assert_eq!(rest("", 0), 0);

    let mut state = VimMotionState::default();
    let end = EditTarget::Motion(MoveType::Column(MoveDir1D::Next, false), Count::Exact(9));
    let actions = vec![(op(EditAction::Motion, end), EditContext::default())];
    let mut normal = overlay("hello", 0);
    apply_keystroke(&mut normal, &mut state, None, &actions, true, false);
    assert_eq!(normal.cursor, 4);
    let mut insert = overlay("hello", 0);
    let mode = Some("-- INSERT --".to_string());
    apply_keystroke(&mut insert, &mut state, mode.clone(), &actions, true, false);
    assert_eq!((insert.cursor, insert.vim_mode), (5, mode));
}

#[test]
fn a_keystroke_runs_its_actions_in_order() {
    let mut ov = overlay("one two", 0);
    let mut state = VimMotionState::default();
    let actions = vec![
        (op(EditAction::Delete, word_target()), EditContext::default()),
        (VimAction::Paste(PasteStyle::Cursor), EditContext::default()),
        (VimAction::PromptSubmit, EditContext::default()),
    ];
    let effects = apply_keystroke(&mut ov, &mut state, None, &actions, true, false);
    assert_eq!(ov.text, "one two");
    assert_eq!(effects.len(), 3);
    assert!(matches!(effects[2], VimEffect::Fire(Action::Submit)));
}

fn press(key_code: KeyCode, text: &str) -> KeyboardInput {
    KeyboardInput {
        key_code,
        logical_key: Key::Character(text.to_string()),
        pressed: true,
        repeat: false,
    }
}

#[test]
fn compose_keys_go_to_the_machine_but_for_two() {
    let mut ctrl = HeldKeys::new();
    ctrl.press(KeyCode::ControlRight);
    match route_compose_key(&press(KeyCode::KeyC, "c"), &ctrl) {
        ComposeKey::Fire(a) => assert_eq!(a, Action::InterruptContext { immediate: false }),
        other => panic!("expected an interrupt, got {other:?}"),
    }
    match route_compose_key(&press(KeyCode::KeyZ, "z"), &ctrl) {
        ComposeKey::Fire(a) => assert_eq!(a, Action::ToggleSurface),
        other => panic!("expected a toggle, got {other:?}"),
    }
    assert_eq!(
        route_compose_key(&press(KeyCode::KeyC, "c"), &HeldKeys::new()),
        ComposeKey::Feed(TermKey::Char('c'), TermModifiers { bits: 0 })
    );
    let released = KeyboardInput { pressed: false, ..press(KeyCode::KeyC, "c") };
    assert!(matches!(route_compose_key(&released, &ctrl), ComposeKey::Ignore));
}

// ── The vim machine ──

const PLAIN: TermModifiers = TermModifiers { bits: 0 };
const CTRL: TermModifiers = TermModifiers { bits: 2 };

fn insert_machine() -> VimMachineResource {
    let mut machine = VimMachineResource::new();
    assert_eq!(machine.mode_display(), None);
    machine.feed(TermKey::Char('i'), PLAIN);
    let _ = machine.drain();
    machine
}

#[test]
fn backspace_insert_mode_emits_delete() {
    let mut machine = insert_machine();
    assert_eq!(
        machine.mode_display().as_deref(),
        Some("-- INSERT --"),
        "expected INSERT mode after pressing 'i'"
    );

    machine.feed(TermKey::Backspace, PLAIN);
    let actions = machine.drain();
    let saw_editor = actions.iter().any(|(a, _)| matches!(a, VimAction::Edit(_, _)));
    assert!(saw_editor, "Backspace in Insert mode produced no editor action: {actions:#?}");
}

/// Backspace in Insert mode is a delete backwards over one column, which takes
/// exactly the character before the cursor.
#[test]
fn backspace_insert_mode_action_shape() {
    let mut machine = insert_machine();
    machine.feed(TermKey::Backspace, PLAIN);
    let actions = machine.drain();

    let (spec, target) = actions
        .iter()
        .find_map(|(a, _)| match a {
            VimAction::Edit(spec, target) => Some((*spec, *target)),
            _ => None,
        })
        .unwrap_or_else(|| panic!("no editor action; got {actions:#?}"));
    assert!(
        matches!(target, EditTarget::Motion(MoveType::Column(MoveDir1D::Previous, _), _)),
        "expected Edit(_, Motion(Column(Previous, _), _)); got {target:?}"
    );
    let resolved = EditContext::default().resolve_operation(&spec);
    assert!(
        matches!(resolved, EditAction::Delete),
        "expected op to resolve to EditAction::Delete; got {resolved:?}"
    );

    let range = resolve_target_range(
        "hello",
        3,
        &target,
        &EditContext::default(),
        &VimMotionState::default(),
    );
    assert_eq!(range, Some((2, 3, false)));
}

/// A compose area that keys are typed into.
struct Typist {
    vim: VimMachineResource,
    ov: InputOverlay,
    state: VimMotionState,
}

impl Typist {
    fn new(text: &str, cursor: usize) -> Self {
        Typist {
            vim: VimMachineResource::new(),
            ov: overlay(text, cursor),
            state: VimMotionState::default(),
        }
    }

    fn events(&mut self, events: Vec<KeyboardInput>, keys: &HeldKeys) -> Vec<VimEffect> {
        vim_dispatch_compose(
            &events,
            keys,
            &mut self.vim,
            &mut self.ov,
            &mut self.state,
            true,
            false,
        )
    }

    fn keys(&mut self, text: &str) -> Vec<VimEffect> {
        let events = text.chars().map(|c| press(KeyCode::KeyA, &c.to_string())).collect();
        self.events(events, &HeldKeys::new())
    }

    fn with_ctrl(&mut self, key_code: KeyCode, text: &str) -> Vec<VimEffect> {
        let mut held = HeldKeys::new();
        held.press(KeyCode::ControlLeft);
        self.events(vec![press(key_code, text)], &held)
    }

    fn named(&mut self, logical_key: Key) -> Vec<VimEffect> {
        let event =
            KeyboardInput { key_code: KeyCode::KeyA, logical_key, pressed: true, repeat: false };
        self.events(vec![event], &HeldKeys::new())
    }

    fn seen(&self) -> (&str, usize) {
        (self.ov.text.as_str(), self.ov.cursor)
    }
}

#[test]
fn keys_move_the_cursor() {
    let text = "one two\n  three\nfour  ";
    for (from, keys, to) in [
        (0, "l", 1),
        (3, "h", 2),
        (0, "j", 8),
        (17, "k", 9),
        (0, "w", 4),
        (0, "W", 4),
        (4, "b", 0),
        (0, "e", 2),
        (0, "$", 6),
        (6, "0", 0),
        (8, "^", 10),
        (8, "_", 10),
        (20, "gg", 0),
        (0, "G", 16),
        (0, "2G", 10),
        (0, "3l", 3),
        (17, "g_", 19),
        (0, "3w", 16),
    ] {
        let mut typist = Typist::new(text, from);
        assert!(typist.keys(keys).is_empty());
        assert_eq!(typist.seen(), (text, to), "{keys} from {from}");
    }
}

#[test]
fn the_two_word_styles_differ() {
    for (keys, to) in [("w", 1), ("W", 4), ("e", 1), ("E", 2)] {
        let mut typist = Typist::new("a.b c", 0);
        typist.keys(keys);
        assert_eq!(typist.seen(), ("a.b c", to), "{keys}");
    }
}

#[test]
fn keys_delete_yank_and_put() {
    for (text, from, keys, left, cursor) in [
        ("hello world", 0, "dw", "world", 0),
        ("hello world", 0, "de", " world", 0),
        ("hello", 1, "x", "hllo", 1),
        ("hello", 1, "3x", "ho", 1),
        ("one\ntwo\nthree", 4, "dd", "one\nthree", 4),
        ("one\ntwo\nthree", 0, "2dd", "three", 0),
        ("one\ntwo", 5, "dd", "one", 2),
        ("ab", 0, "yyp", "ab\nab", 4),
        ("one\ntwo", 5, "ddp", "one\ntwo", 6),
        ("one\ntwo", 0, "yyP", "one\none\ntwo", 4),
        ("abc", 0, "xp", "bac", 2),
    ] {
        let mut typist = Typist::new(text, from);
        typist.keys(keys);
        assert_eq!(typist.seen(), (left, cursor), "{keys} in {text:?}");
    }
}

#[test]
fn insert_mode_types_and_enter_submits() {
    let mut typist = Typist::new("", 0);
    let effects = typist.keys("ié");
    assert_eq!(typist.ov.vim_mode.as_deref(), Some("-- INSERT --"));
    assert!(matches!(&effects[..], [VimEffect::Type(text)] if text == "é"), "{effects:?}");
    let effects = typist.named(Key::Enter);
    assert!(matches!(effects[..], [VimEffect::Fire(Action::Submit)]), "{effects:?}");
    typist.named(Key::Escape);
    assert_eq!(typist.ov.vim_mode, None);

    let mut typist = Typist::new("hello", 3);
    typist.keys("i");
    assert_eq!(typist.seen(), ("hello", 3));
    typist.named(Key::Escape);
    assert_eq!(typist.seen(), ("hello", 2), "leaving Insert mode steps back once");
}

/// Leaving the command line aborts the prompt.
#[test]
fn escape_in_the_command_line_unfocuses() {
    let mut typist = Typist::new("hello", 0);
    typist.keys(":");
    let effects = typist.named(Key::Escape);
    assert!(
        effects.iter().any(|e| matches!(e, VimEffect::Fire(Action::Unfocus))),
        "{effects:?}"
    );
}

#[test]
fn the_machine_is_told_of_the_application() {
    let ctx = editor_types::context::EditContextBuilder::default().build();
    let submit = KaijutsuAction::Submit;
    assert!(matches!(submit.is_edit_sequence(&ctx), SequenceStatus::Break));
    assert!(matches!(submit.is_last_action(&ctx), SequenceStatus::Atom));
    assert!(matches!(submit.is_last_selection(&ctx), SequenceStatus::Ignore));
    assert!(!submit.is_switchable(&ctx));
    let content = KaijutsuInfo::content_of_command(CommandType::Command);
    assert_eq!(content.clone(), KaijutsuContentId::Command(CommandType::Command));
}

/// Ctrl+C and Ctrl+Z fire in the middle of a command, which then goes on.
#[test]
fn the_interrupt_passes_the_machine_by() {
    let mut typist = Typist::new("hello world", 0);
    assert!(typist.keys("d").is_empty());
    let effects = typist.with_ctrl(KeyCode::KeyC, "c");
    assert!(
        matches!(effects[..], [VimEffect::Fire(Action::InterruptContext { immediate: false })]),
        "{effects:?}"
    );
    let effects = typist.with_ctrl(KeyCode::KeyZ, "z");
    assert!(matches!(effects[..], [VimEffect::Fire(Action::ToggleSurface)]), "{effects:?}");
    assert_eq!(typist.seen(), ("hello world", 0));
    typist.keys("w");
    assert_eq!(typist.seen(), ("world", 0));
}

#[test]
fn released_keys_and_keys_without_a_terminal_key_do_nothing() {
    let mut typist = Typist::new("hello", 0);
    let released = KeyboardInput { pressed: false, ..press(KeyCode::KeyA, "x") };
    let unknown = KeyboardInput {
        key_code: KeyCode::CapsLock,
        logical_key: Key::Other,
        pressed: true,
        repeat: false,
    };
    assert!(typist.events(vec![released, unknown], &HeldKeys::new()).is_empty());
    assert_eq!(typist.seen(), ("hello", 0));
}

/// Handing events over one by one or all at once comes to the same.
#[test]
fn events_can_be_split() {
    let mut at_once = Typist::new("one two three", 0);
    at_once.keys("dwxp");
    let mut one_by_one = Typist::new("one two three", 0);
    for key in ["d", "w", "x", "p"] {
        one_by_one.keys(key);
    }
    assert_eq!(at_once.seen(), one_by_one.seen());
}

/// Where the machine takes the next key literally, a Control combination that stands for no
/// character does no harm.
#[test]
fn a_control_key_without_a_character_does_no_harm() {
    let symbols = ["1", "9", ";", "é", "[", "\\", "]", "^", "_", "?"];
    for symbol in symbols {
        let mut typist = Typist::new("hello", 2);
        for waiting in ["f", "t", "r"] {
            typist.keys(waiting);
            typist.with_ctrl(KeyCode::Digit1, symbol);
            assert_eq!(typist.seen(), ("hello", 2), "Ctrl+{symbol} after {waiting}");
        }
        let mut typist = Typist::new("", 0);
        typist.keys("i");
        typist.with_ctrl(KeyCode::KeyV, "v");
        typist.with_ctrl(KeyCode::Digit1, symbol);
        assert_eq!(typist.seen(), ("", 0), "Ctrl+{symbol} after Ctrl+V");
    }
}

/// Some Control combinations are other keys to a terminal.
#[test]
fn control_keys_have_their_terminal_form() {
    assert_eq!(machine_form(TermKey::Char('['), CTRL), (TermKey::Esc, PLAIN));
    assert_eq!(machine_form(TermKey::Char('\\'), CTRL), (TermKey::Char('4'), CTRL));
    assert_eq!(machine_form(TermKey::Char(']'), CTRL), (TermKey::Char('5'), CTRL));
    assert_eq!(machine_form(TermKey::Char('^'), CTRL), (TermKey::Char('6'), CTRL));
    assert_eq!(machine_form(TermKey::Char('_'), CTRL), (TermKey::Char('7'), CTRL));
    assert_eq!(machine_form(TermKey::Char('?'), CTRL), (TermKey::Backspace, PLAIN));
    let shifted = TermModifiers { bits: 3 };
    assert_eq!(machine_form(TermKey::Char('1'), CTRL), (TermKey::Char('1'), shifted));
    for code in [TermKey::Char('a'), TermKey::Char(' '), TermKey::Char('@'), TermKey::Enter] {
        assert_eq!(machine_form(code, CTRL), (code, CTRL));
    }
    assert_eq!(machine_form(TermKey::Char('['), PLAIN), (TermKey::Char('['), PLAIN));

    let mut typist = Typist::new("", 0);
    typist.keys("i");
    assert_eq!(typist.ov.vim_mode.as_deref(), Some("-- INSERT --"));
    typist.with_ctrl(KeyCode::BracketLeft, "[");
    assert_eq!(typist.ov.vim_mode, None, "Ctrl+[ leaves Insert mode");
}

#[test]
fn a_reset_machine_has_nothing_pending() {
    let mut machine = insert_machine();
    machine.reset();
    assert_eq!(machine.mode_display(), None);
    assert!(machine.pop().is_none());
    machine.enter_insert();
    assert_eq!(machine.mode_display().as_deref(), Some("-- INSERT --"));
    assert!(machine.pop().is_none());
}
