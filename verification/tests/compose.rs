use kaijutsu_app::input::action::Action;
use kaijutsu_app::input::compose::{
    handle_compose_action, handle_compose_input, handle_compose_text, handle_input_cleared,
    ComposeEffect, ComposeTarget,
};
use kaijutsu_app::input::events::TextInputReceived;
use kaijutsu_app::input::focus::FocusArea;
use kaijutsu_app::input::overlay::{DocEdit, InputMode, InputOverlay};

const CHAT: ComposeTarget = ComposeTarget { is_shell: false, online: true };
const SHELL: ComposeTarget = ComposeTarget { is_shell: true, online: true };
const OFFLINE: ComposeTarget = ComposeTarget { is_shell: false, online: false };

fn overlay(text: &str, cursor: usize, anchor: Option<usize>) -> InputOverlay {
    InputOverlay {
        text: text.to_string(),
        cursor,
        selection_anchor: anchor,
        vim_mode: None,
        mode: InputMode::Chat,
    }
}

fn edit(effect: Option<ComposeEffect>) -> (u64, String, u64) {
    match effect {
        Some(ComposeEffect::Edit(DocEdit { pos, insert, delete })) => (pos, insert, delete),
        other => panic!("expected an edit, got {other:?}"),
    }
}

/// A shared document after an edit.
fn apply(doc: &str, (pos, insert, delete): (u64, String, u64)) -> String {
    let (pos, delete) = (pos as usize, delete as usize);
    format!("{}{}{}", &doc[..pos], insert, &doc[pos + delete..])
}

fn act(ov: &mut InputOverlay, action: Action, target: ComposeTarget) -> Option<ComposeEffect> {
    let mut area = FocusArea::Compose;
    handle_compose_action(ov, &action, None, target, &mut area)
}

#[test]
fn typed_text_is_inserted_and_shared() {
    let mut ov = overlay("held", 2, None);
    let effect = handle_compose_text(&mut ov, "é", CHAT, FocusArea::Compose);
    assert_eq!((ov.text.as_str(), ov.cursor), ("heéld", 4));
    assert_eq!(apply("held", edit(effect)), ov.text);
}

#[test]
fn backspace_deletes_a_whole_character() {
    let mut ov = overlay("café!", 5, None);
    let effect = act(&mut ov, Action::Backspace, CHAT);
    assert_eq!((ov.text.as_str(), ov.cursor), ("caf!", 3));
    assert_eq!(edit(effect), (3, String::new(), 2));
}

#[test]
fn delete_removes_the_selection() {
    let mut ov = overlay("hello world", 11, Some(5));
    let effect = act(&mut ov, Action::Delete, CHAT);
    assert_eq!((ov.text.as_str(), ov.cursor, ov.selection_anchor), ("hello", 5, None));
    assert_eq!(edit(effect), (5, String::new(), 6));
}

#[test]
fn nothing_to_delete_is_nothing_to_share() {
    assert!(act(&mut overlay("ab", 0, None), Action::Backspace, CHAT).is_none());
    assert!(act(&mut overlay("ab", 2, None), Action::Delete, CHAT).is_none());
}

#[test]
fn the_cursor_moves_by_characters() {
    let mut ov = overlay("aé", 3, None);
    assert!(act(&mut ov, Action::CursorLeft, CHAT).is_none());
    assert_eq!(ov.cursor, 1);
    act(&mut ov, Action::CursorRight, CHAT);
    assert_eq!(ov.cursor, 3);
}

#[test]
fn a_paste_replaces_the_selection_and_shares_it() {
    let mut ov = overlay("hello world", 5, Some(0));
    let mut area = FocusArea::Compose;
    let effect = handle_compose_action(&mut ov, &Action::Paste, Some("bye"), CHAT, &mut area);
    assert_eq!((ov.text.as_str(), ov.cursor), ("bye world", 3));
    assert_eq!(apply("hello world", edit(effect)), ov.text);
    let empty = handle_compose_action(&mut ov, &Action::Paste, None, CHAT, &mut area);
    assert!(empty.is_none());
    assert_eq!(ov.text, "bye world");
}

#[test]
fn submitting_a_command_clears_it_and_leaves() {
    let mut ov = overlay("ls -l", 5, None);
    let mut area = FocusArea::Compose;
    match handle_compose_action(&mut ov, &Action::Submit, None, SHELL, &mut area) {
        Some(ComposeEffect::ExecuteShell(line)) => assert_eq!(line, "ls -l"),
        other => panic!("expected a command, got {other:?}"),
    }
    assert_eq!((ov.text.as_str(), ov.cursor), ("", 0));
    assert_eq!(area, FocusArea::Conversation);
}

#[test]
fn submitted_chat_text_stays_until_the_document_is_cleared() {
    let mut ov = overlay("hi there", 2, Some(5));
    let mut area = FocusArea::Compose;
    let actions = vec![Action::Submit];
    let effects =
        handle_compose_input(&mut ov, &Vec::new(), &actions, None, None, CHAT, &mut area);
    assert_eq!(effects.len(), 1);
    assert!(matches!(effects[0], ComposeEffect::SubmitChat));
    assert_eq!((ov.text.as_str(), ov.cursor, ov.selection_anchor), ("hi there", 2, Some(5)));
    assert_eq!(area, FocusArea::Conversation);

    handle_input_cleared(&mut ov, area);
    assert_eq!((ov.text.as_str(), ov.cursor, ov.selection_anchor), ("", 0, None));
    assert_eq!(area, FocusArea::Conversation);
}

#[test]
fn typing_over_a_selection_replaces_it_in_the_document_too() {
    for (cursor, anchor) in [(0, 5), (5, 0)] {
        let mut ov = overlay("hello world", cursor, Some(anchor));
        let effect = handle_compose_text(&mut ov, "bye", CHAT, FocusArea::Compose);
        assert_eq!((ov.text.as_str(), ov.cursor), ("bye world", 3));
        assert_eq!(apply("hello world", edit(effect)), ov.text);

        let mut ov = overlay("hello world", cursor, Some(anchor));
        let effect = act(&mut ov, Action::InsertNewline, CHAT);
        assert_eq!((ov.text.as_str(), ov.cursor), ("\n world", 1));
        assert_eq!(apply("hello world", edit(effect)), ov.text);
    }
}

#[test]
fn an_empty_text_is_not_submitted() {
    let mut ov = overlay("", 0, None);
    let mut area = FocusArea::Compose;
    let effect = handle_compose_action(&mut ov, &Action::Submit, None, CHAT, &mut area);
    assert!(effect.is_none());
    assert_eq!(area, FocusArea::Compose);
}

#[test]
fn a_text_written_offline_is_kept() {
    let mut ov = overlay("draft", 5, None);
    let mut area = FocusArea::Compose;
    let effect = handle_compose_action(&mut ov, &Action::Submit, None, OFFLINE, &mut area);
    assert!(effect.is_none());
    assert_eq!((ov.text.as_str(), area), ("draft", FocusArea::Compose));
    assert!(handle_compose_text(&mut ov, "!", OFFLINE, area).is_none());
    assert_eq!(ov.text, "draft!");
}

#[test]
fn shell_text_stays_local() {
    let mut ov = overlay("", 0, None);
    assert!(handle_compose_text(&mut ov, "ls", SHELL, FocusArea::Compose).is_none());
    assert!(act(&mut ov, Action::Backspace, SHELL).is_none());
    assert_eq!(ov.text, "l");
}

/// A frame's texts come before its actions, and every edit is shared in order.
#[test]
fn a_frame_of_input_is_shared_edit_by_edit() {
    let mut ov = overlay("", 0, None);
    let mut area = FocusArea::Compose;
    let texts = vec![
        TextInputReceived { text: "ab".to_string() },
        TextInputReceived { text: "c".to_string() },
    ];
    let actions = vec![Action::InsertNewline, Action::Paste, Action::PastePrimary];
    let effects = handle_compose_input(
        &mut ov,
        &texts,
        &actions,
        Some("clip"),
        Some("mouse"),
        CHAT,
        &mut area,
    );
    assert_eq!(ov.text, "abc\nclipmouse");
    let mut doc = String::new();
    for effect in effects {
        doc = apply(&doc, edit(Some(effect)));
    }
    assert_eq!(doc, ov.text);
}
