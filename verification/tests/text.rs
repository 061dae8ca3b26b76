use kaijutsu_app::input::vim::textutil::{
    char_at, classify, col_of, is_blank, line_col_to_offset, line_end, line_of, line_start,
    next_char_boundary, prev_char_boundary, word_begin_backward, word_begin_forward,
    word_end_forward, CharClass, WordStyle,
};
use kaijutsu_app::strutil::{
    chars_of, contains, decimal, enclosed, is_white, parse_i32, parse_usize, same, split,
    split_once, starts_with, string_of, trim,
};
use kaijutsu_app::textbuf::{slice, splice};

#[test]
fn numbers_read_and_show() {
    assert_eq!(parse_usize("0042"), Some(42));
    assert_eq!(parse_usize("+7"), Some(7));
    assert_eq!(parse_usize(""), None);
    assert_eq!(parse_usize("-1"), None);
    assert_eq!(parse_usize("99999999999999999999999"), None);
    assert_eq!(parse_i32("-2147483648"), Some(i32::MIN));
    assert_eq!(parse_i32("2147483648"), None);
    assert_eq!(parse_i32("-"), None);
    assert_eq!(parse_i32("1_0"), None);
    for n in [0, 7, 10, 65535, usize::MAX] {
        assert_eq!(decimal(n), n.to_string());
        assert_eq!(parse_usize(&decimal(n)), Some(n));
    }
}

#[test]
fn strings_split_and_join() {
    assert_eq!(split("a+b++c", '+'), vec!["a", "b", "", "c"]);
    assert_eq!(split("", '+'), vec![""]);
    assert_eq!(split_once("24:0:1", ':'), Some(("24".to_string(), "0:1".to_string())));
    assert_eq!(split_once("24", ':'), None);
    assert_eq!(trim(" \t x y\u{3000}\n"), "x y");
    assert!(is_white('\u{a0}') && !is_white('\u{200b}'));
    assert_eq!(enclosed("(", "x", ")"), "(x)");
    assert!(same("é", "é") && !same("e", "é"));
    assert!(starts_with("audio/wav", "audio/") && !starts_with("audio", "audio/"));
    assert!(contains("fluidsynth", "synth") && !contains("synth", "synths"));
    assert_eq!(string_of(&chars_of("añb"), 1, 3), "ñb");
}

#[test]
fn texts_are_cut_and_joined_at_bytes() {
    assert_eq!(splice("café!", 3, 5, "e"), "cafe!");
    assert_eq!(slice("café!", 3, 5), "é");
}

/// Letters of any script are word characters.
#[test]
fn characters_have_classes() {
    let little = |c| classify(c, WordStyle::Little);
    assert_eq!(little('é'), little('a'));
    assert_eq!(little('語'), little('a'));
    assert_eq!(little('_'), little('a'));
    assert_ne!(little('.'), little('a'));
    assert_eq!(little(' '), CharClass::Whitespace);
    assert_eq!(classify('.', WordStyle::Big), classify('a', WordStyle::Big));
    assert_eq!(char_at("aé", 1), 'é');
    assert!(is_blank(b'\t') && !is_blank(b'x'));
}

#[test]
fn words_of_other_scripts_are_words() {
    assert_eq!(word_begin_forward("été ça", 0, WordStyle::Little, 1), 6);
    assert_eq!(word_begin_backward("été ça", 6, WordStyle::Little, 1), 0);
    assert_eq!(word_end_forward("été ça", 0, WordStyle::Little, 1), 3);
}

/// Boundaries, lines and columns undo each other.
#[test]
fn places_in_a_text_go_there_and_back() {
    let text = "añb\n語\nend";
    let mut at = 0;
    while at < text.len() {
        let next = next_char_boundary(text, at);
        assert!(text.is_char_boundary(next) && next > at);
        assert_eq!(prev_char_boundary(text, next), at);
        let line = line_of(text, at);
        assert!(line_start(text, line) <= at && at <= line_end(text, line));
        if at < line_end(text, line) {
            assert_eq!(line_col_to_offset(text, line, col_of(text, at)), at);
        }
        at = next;
    }
}
