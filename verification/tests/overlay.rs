use kaijutsu_app::input::overlay::{InputMode, InputOverlay};

fn overlay(text: &str, cursor: usize, anchor: Option<usize>) -> InputOverlay {
    InputOverlay {
        text: text.to_string(),
        cursor,
        selection_anchor: anchor,
        vim_mode: None,
        mode: InputMode::Chat,
    }
}

#[test]
fn a_selection_runs_from_the_lower_end() {
    assert_eq!(overlay("hello", 1, Some(4)).selection_range(), Some((1, 4)));
    assert_eq!(overlay("hello", 4, Some(1)).selection_range(), Some((1, 4)));
    assert_eq!(overlay("hello", 2, Some(2)).selection_range(), None);
    assert_eq!(overlay("hello", 2, None).selection_range(), None);
}

#[test]
fn replacing_leaves_the_cursor_behind_the_new_text() {
    let mut ov = overlay("hello world", 0, None);
    ov.replace(6, 11, "café");
    assert_eq!(ov.text, "hello café");
    assert_eq!(ov.cursor, 11);
    assert_eq!(ov.selection_anchor, None);
}

#[test]
fn backspace_takes_a_whole_character() {
    let mut ov = overlay("café", 5, None);
    ov.backspace();
    assert_eq!((ov.text.as_str(), ov.cursor), ("caf", 3));
    let mut at_start = overlay("café", 0, None);
    at_start.backspace();
    assert_eq!((at_start.text.as_str(), at_start.cursor), ("café", 0));
}

#[test]
fn backspace_takes_the_selection() {
    let mut ov = overlay("hello world", 5, Some(0));
    ov.backspace();
    assert_eq!((ov.text.as_str(), ov.cursor), (" world", 0));
}

#[test]
fn cursor_steps_are_whole_characters() {
    let mut ov = overlay("aé", 3, Some(0));
    ov.move_left();
    assert_eq!((ov.cursor, ov.selection_anchor), (1, None));
    ov.move_left();
    ov.move_left();
    assert_eq!(ov.cursor, 0);
    ov.move_right();
    ov.move_right();
    assert_eq!(ov.cursor, 3);
    ov.move_right();
    assert_eq!(ov.cursor, 3);
}
