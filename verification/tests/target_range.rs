use kaijutsu_app::input::vim::dispatch::{resolve_target_range, VimMotionState};
use kaijutsu_app::input::vim::edit::{
    Count, EditContext, EditTarget, MkWordStyle, MoveDir1D, MovePosition, MoveType, RangeType,
};

fn ctx() -> EditContext {
    EditContext::default()
}

fn state() -> VimMotionState {
    VimMotionState::default()
}

// ── Motion targets ──
//
// w/b/h/l/0/^ are exclusive (the destination character stays); e/$/g_ are
// inclusive.

#[test]
fn motion_forward_word_dw() {
    let text = "hello world";
    let (start, end, linewise) =
        resolve_target_range(text, 0, &EditTarget::Motion(
            MoveType::WordBegin(MkWordStyle::Little, MoveDir1D::Next),
            Count::Contextual,
        ), &ctx(), &state()).unwrap();
    // dw on "hello world" from cursor 0: w lands at 6 ('w'), exclusive
    // → end=6, deletes "hello ".
    assert_eq!(start, 0);
    assert_eq!(end, 6);
    assert!(!linewise);
}

#[test]
fn motion_backward_char_dh() {
    let text = "hello";
    let (start, end, linewise) =
        resolve_target_range(text, 3, &EditTarget::Motion(
            MoveType::Column(MoveDir1D::Previous, false),
            Count::Contextual,
        ), &ctx(), &state()).unwrap();
    // dh on "hello" from cursor 3 ('l'): h lands at 2, exclusive → end=3,
    // deletes the second 'l' only.
    assert_eq!(start, 2);
    assert_eq!(end, 3);
    assert!(!linewise);
}

#[test]
fn motion_forward_char_dl() {
    let text = "hello";
    let (start, end, linewise) =
        resolve_target_range(text, 1, &EditTarget::Motion(
            MoveType::Column(MoveDir1D::Next, false),
            Count::Contextual,
        ), &ctx(), &state()).unwrap();
    // dl on "hello" from cursor 1 ('e'): l lands at 2 ('l'), exclusive →
    // end=2, deletes 'e' only.
    assert_eq!(start, 1);
    assert_eq!(end, 2);
    assert!(!linewise);
}

#[test]
fn motion_word_end_de_inclusive() {
    let text = "hello world";
    let (start, end, linewise) =
        resolve_target_range(text, 0, &EditTarget::Motion(
            MoveType::WordEnd(MkWordStyle::Little, MoveDir1D::Next),
            Count::Contextual,
        ), &ctx(), &state()).unwrap();
    // de on "hello world" from cursor 0: e lands at 4 ('o'), inclusive →
    // end=5, deletes "hello".
    assert_eq!(start, 0);
    assert_eq!(end, 5);
    assert!(!linewise);
}

#[test]
fn motion_dollar_d_dollar_inclusive() {
    let text = "hello\nworld";
    let (start, end, linewise) =
        resolve_target_range(text, 1, &EditTarget::Motion(
            MoveType::LinePos(MovePosition::End),
            Count::Contextual,
        ), &ctx(), &state()).unwrap();
    // d$ on "hello\nworld" from cursor 1 ('e'): $ lands at 4 ('o'),
    // inclusive → end=5, deletes "ello".
    assert_eq!(start, 1);
    assert_eq!(end, 5);
    assert!(!linewise);
}

#[test]
fn motion_zero_d_zero_exclusive() {
    let text = "  hello";
    let (start, end, linewise) =
        resolve_target_range(text, 4, &EditTarget::Motion(
            MoveType::LinePos(MovePosition::Beginning),
            Count::Contextual,
        ), &ctx(), &state()).unwrap();
    // d0 on "  hello" from cursor 4 ('l'): 0 lands at 0, exclusive →
    // end=4, deletes "  he".
    assert_eq!(start, 0);
    assert_eq!(end, 4);
    assert!(!linewise);
}

// ── Line range (dd) ──

#[test]
fn dd_first_line() {
    let text = "hello\nworld\nfoo";
    let (start, end, linewise) =
        resolve_target_range(text, 2, &EditTarget::Range(
            RangeType::Line, true, Count::Contextual,
        ), &ctx(), &state()).unwrap();
    assert_eq!(start, 0);
    assert_eq!(end, 6); // includes the \n
    assert!(linewise);
}

#[test]
fn dd_middle_line() {
    let text = "hello\nworld\nfoo";
    let (start, end, linewise) =
        resolve_target_range(text, 8, &EditTarget::Range(
            RangeType::Line, true, Count::Contextual,
        ), &ctx(), &state()).unwrap();
    assert_eq!(start, 6);
    assert_eq!(end, 12); // includes the \n after "world"
    assert!(linewise);
}

#[test]
fn dd_last_line_no_trailing_newline() {
    let text = "hello\nworld";
    let (start, end, linewise) =
        resolve_target_range(text, 8, &EditTarget::Range(
            RangeType::Line, true, Count::Contextual,
        ), &ctx(), &state()).unwrap();
    // Last line with no trailing \n — eats preceding \n
    assert_eq!(start, 5); // the \n before "world"
    assert_eq!(end, 11); // end of text
    assert!(linewise);
}

#[test]
fn dd_single_line_no_newline() {
    let text = "hello";
    let (start, end, linewise) =
        resolve_target_range(text, 2, &EditTarget::Range(
            RangeType::Line, true, Count::Contextual,
        ), &ctx(), &state()).unwrap();
    // Only line, no newlines at all
    assert_eq!(start, 0);
    assert_eq!(end, 5);
    assert!(linewise);
}

// ── CurrentPosition (x) ──

#[test]
fn x_mid_text() {
    let text = "hello";
    let (start, end, linewise) =
        resolve_target_range(text, 2, &EditTarget::CurrentPosition, &ctx(), &state()).unwrap();
    assert_eq!(start, 2);
    assert_eq!(end, 3); // one char
    assert!(!linewise);
}

#[test]
fn x_at_end() {
    let text = "hello";
    // cursor past end — x does nothing
    let result = resolve_target_range(text, 5, &EditTarget::CurrentPosition, &ctx(), &state());
    assert!(result.is_none());
}

#[test]
fn x_utf8() {
    let text = "café"; // é is 2 bytes (bytes 3-4)
    let (start, end, linewise) =
        resolve_target_range(text, 3, &EditTarget::CurrentPosition, &ctx(), &state()).unwrap();
    assert_eq!(start, 3);
    assert_eq!(end, 5); // é is 2 bytes
    assert!(!linewise);
}

#[test]
fn x_empty_text() {
    let result = resolve_target_range("", 0, &EditTarget::CurrentPosition, &ctx(), &state());
    assert!(result.is_none());
}

#[test]
fn backspace_range_is_one_char() {
    // Backspace in Insert mode deletes backwards over one column, which is
    // exactly the character before the cursor.
    let text = "hello";
    let target = EditTarget::Motion(
        MoveType::Column(MoveDir1D::Previous, false),
        Count::Contextual,
    );
    let (start, end, linewise) =
        resolve_target_range(text, 3, &target, &ctx(), &state()).unwrap();
    assert_eq!(start, 2);
    assert_eq!(end, 3);
    assert!(!linewise);
}

/// Deleting lines leaves exactly the other lines, wherever they stand.
#[test]
fn deleting_lines_leaves_the_other_lines() {
    for text in ["", "a", "a\n", "\n", "a\nbb\n\ndé", "a\nbb\n\ndé\n"] {
        let lines: Vec<&str> = text.split('\n').collect();
        for cursor in (0..=text.len()).filter(|i| text.is_char_boundary(*i)) {
            for n in 1..4 {
                let target = EditTarget::Range(RangeType::Line, true, Count::Exact(n));
                let (start, end, linewise) =
                    resolve_target_range(text, cursor, &target, &ctx(), &state()).unwrap();
                assert!(linewise);
                let first = text[..cursor].matches('\n').count();
                let last = (first + n - 1).min(lines.len() - 1);
                let mut left = lines[..first].to_vec();
                left.extend(&lines[last + 1..]);
                assert_eq!(format!("{}{}", &text[..start], &text[end..]), left.join("\n"));
            }
        }
    }
}
