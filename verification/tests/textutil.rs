use kaijutsu_app::input::vim::textutil::{
    col_of, first_non_blank, line_col_to_offset, line_count, line_end, line_of, line_start,
    next_char_boundary, prev_char_boundary, word_begin_backward, word_begin_forward,
    word_end_forward, WordStyle,
};

#[test]
fn test_line_of() {
    let text = "hello\nworld\nfoo";
    assert_eq!(line_of(text, 0), 0); // 'h'
    assert_eq!(line_of(text, 5), 0); // '\n'
    assert_eq!(line_of(text, 6), 1); // 'w'
    assert_eq!(line_of(text, 12), 2); // 'f'
}

#[test]
fn test_line_start_end() {
    let text = "hello\nworld\nfoo";
    assert_eq!(line_start(text, 0), 0);
    assert_eq!(line_start(text, 1), 6);
    assert_eq!(line_start(text, 2), 12);
    assert_eq!(line_end(text, 0), 5);
    assert_eq!(line_end(text, 1), 11);
    assert_eq!(line_end(text, 2), 15); // no trailing \n
}

#[test]
fn test_line_count() {
    assert_eq!(line_count(""), 0);
    assert_eq!(line_count("hello"), 1);
    assert_eq!(line_count("hello\nworld"), 2);
    assert_eq!(line_count("a\nb\nc\n"), 4); // trailing newline = extra line
}

#[test]
fn test_first_non_blank() {
    let text = "  hello\n\tworld";
    assert_eq!(first_non_blank(text, 0), 2); // "  hello" → 'h' at 2
    assert_eq!(first_non_blank(text, 1), 9); // "\tworld" → 'w' at 9
}

#[test]
fn test_col_of() {
    let text = "hello\nworld";
    assert_eq!(col_of(text, 0), 0); // 'h'
    assert_eq!(col_of(text, 3), 3); // 'l'
    assert_eq!(col_of(text, 6), 0); // 'w' (line 1, col 0)
    assert_eq!(col_of(text, 8), 2); // 'r' (line 1, col 2)
}

#[test]
fn test_line_col_to_offset() {
    let text = "hello\nworld";
    assert_eq!(line_col_to_offset(text, 0, 0), 0);
    assert_eq!(line_col_to_offset(text, 0, 3), 3);
    assert_eq!(line_col_to_offset(text, 1, 0), 6);
    assert_eq!(line_col_to_offset(text, 1, 2), 8);
}

#[test]
fn test_word_begin_forward() {
    let text = "hello world  foo";
    assert_eq!(word_begin_forward(text, 0, WordStyle::Little, 1), 6); // → 'w'
    assert_eq!(word_begin_forward(text, 6, WordStyle::Little, 1), 13); // → 'f'
    assert_eq!(word_begin_forward(text, 0, WordStyle::Little, 2), 13); // → 'f'
}

#[test]
fn test_word_begin_forward_punctuation() {
    let text = "foo.bar baz";
    // Little: foo → . → bar → baz
    assert_eq!(word_begin_forward(text, 0, WordStyle::Little, 1), 3); // → '.'
    assert_eq!(word_begin_forward(text, 3, WordStyle::Little, 1), 4); // → 'b'
    // Big: foo.bar → baz
    assert_eq!(word_begin_forward(text, 0, WordStyle::Big, 1), 8); // → 'b'
}

#[test]
fn test_word_begin_backward() {
    let text = "hello world foo";
    assert_eq!(word_begin_backward(text, 15, WordStyle::Little, 1), 12); // → 'f'
    assert_eq!(word_begin_backward(text, 12, WordStyle::Little, 1), 6); // → 'w'
    assert_eq!(word_begin_backward(text, 6, WordStyle::Little, 1), 0); // → 'h'
}

#[test]
fn test_word_end_forward() {
    let text = "hello world foo";
    assert_eq!(word_end_forward(text, 0, WordStyle::Little, 1), 4); // → 'o' in hello
    assert_eq!(word_end_forward(text, 4, WordStyle::Little, 1), 10); // → 'd' in world
}

#[test]
fn test_utf8_chars() {
    let text = "café";
    assert_eq!(next_char_boundary(text, 0), 1); // c → a
    assert_eq!(next_char_boundary(text, 3), 5); // é is 2 bytes
    assert_eq!(prev_char_boundary(text, 5), 3); // back over é
}

#[test]
fn test_empty_text() {
    assert_eq!(line_of("", 0), 0);
    assert_eq!(line_start("", 0), 0);
    assert_eq!(line_end("", 0), 0);
    assert_eq!(first_non_blank("", 0), 0);
    assert_eq!(word_begin_forward("", 0, WordStyle::Little, 1), 0);
    assert_eq!(word_begin_backward("", 0, WordStyle::Little, 1), 0);
}
