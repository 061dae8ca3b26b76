//! Pure text utility functions for vim motion resolution.
//!
//! All functions operate on `&str` with byte offsets. Their contracts speak of the bytes of
//! the text through the model in [`crate::layout`].

use vstd::prelude::*;
use vstd::utf8::*;
use crate::layout;

verus! {

/// Returns the 0-indexed line number containing the given byte offset.
pub fn line_of(text: &str, byte_offset: usize) -> (line: usize)
    requires
        byte_offset < encode_utf8(text@).len() ==> is_char_boundary(
            encode_utf8(text@),
            byte_offset as int,
        ),
    ensures
        line == layout::line_of(encode_utf8(text@), byte_offset as int),
{
    let bytes = text.as_bytes();
    let ghost b = encode_utf8(text@);
    let end: usize = if byte_offset < bytes.len() {
        byte_offset
    } else {
        bytes.len()
    };
    let mut count: usize = 0;
    let mut i: usize = 0;
    assert(b.take(0).len() == 0);
    while i < end
        invariant
            bytes@ == b,
            i <= end <= bytes.len(),
            count <= i,
            count == layout::newlines(b.take(i as int)),
        decreases end - i,
    {
        proof {
            layout::lemma_newlines_step(b, i as int);
        }
        if bytes[i] == 10 {
            count = count + 1;
        }
        i = i + 1;
    }
    count
}

/// Returns the byte offset of the start of the given 0-indexed line.
/// Returns the length of the text if `line` is past the last line.
pub fn line_start(text: &str, line: usize) -> (start: usize)
    ensures
        start == layout::line_start(encode_utf8(text@), line as nat),
{
    let bytes = text.as_bytes();
    let ghost b = encode_utf8(text@);
    let mut count: usize = 0;
    let mut start: usize = 0;
    let mut i: usize = 0;
    while i < bytes.len() && count < line
        invariant
            bytes@ == b,
            count <= line,
            start <= i <= bytes.len(),
            start == layout::line_start(b, count as nat),
            count == line ==> start == i || line == 0,
            forall|q: int| start <= q < i ==> !layout::is_newline(#[trigger] b[q]),
        decreases bytes.len() - i,
    {
        if bytes[i] == 10 {
            proof {
                layout::lemma_break_from_skip(b, start as int, i as int);
            }
            count = count + 1;
            start = i + 1;
        }
        i = i + 1;
    }
    if count == line {
        start
    } else {
        proof {
            layout::lemma_break_from_skip(b, start as int, i as int);
            layout::lemma_lines_past_end(b, count as nat, line as nat);
        }
        bytes.len()
    }
}

/// Returns the byte offset of the end of the given 0-indexed line (before the newline).
/// For the last line (no newline after it), returns the length of the text.
pub fn line_end(text: &str, line: usize) -> (end: usize)
    ensures
        end == layout::line_end(encode_utf8(text@), line as nat),
{
    let bytes = text.as_bytes();
    let ghost b = encode_utf8(text@);
    let start: usize = line_start(text, line);
    proof {
        layout::lemma_line_bounds(b, line as nat);
    }
    let mut i: usize = start;
    while i < bytes.len() && bytes[i] != 10
        invariant
            bytes@ == b,
            start <= i <= bytes.len(),
            forall|q: int| start <= q < i ==> !layout::is_newline(#[trigger] b[q]),
        decreases bytes.len() - i,
    {
        i = i + 1;
    }
    proof {
        layout::lemma_break_from_skip(b, start as int, i as int);
    }
    i
}

/// Number of lines in the text (at least 1 for non-empty text, 0 for empty).
pub fn line_count(text: &str) -> (count: usize)
    requires
        encode_utf8(text@).len() < usize::MAX,
    ensures
        count == layout::line_count(encode_utf8(text@)),
{
    let bytes = text.as_bytes();
    if bytes.len() == 0 {
        return 0;
    }
    proof {
        layout::lemma_newlines_bound(encode_utf8(text@));
        assert(encode_utf8(text@).take(bytes.len() as int) =~= encode_utf8(text@));
    }
    line_of(text, bytes.len()) + 1
}

/// Byte offset of the first non-whitespace character on the given line.
/// If the line is all whitespace, returns the line end.
pub fn first_non_blank(text: &str, line: usize) -> (offset: usize)
    ensures
        offset == layout::first_non_blank(encode_utf8(text@), line as nat),
{
    let bytes = text.as_bytes();
    let ghost b = encode_utf8(text@);
    let start: usize = line_start(text, line);
    let end: usize = line_end(text, line);
    proof {
        layout::lemma_line_bounds(b, line as nat);
    }
    let mut i: usize = start;
    while i < end && is_blank(bytes[i])
        invariant
            bytes@ == b,
            start <= i <= end <= bytes.len(),
            layout::non_blank_from(b, start as int, end as int) == layout::non_blank_from(
                b,
                i as int,
                end as int,
            ),
        decreases end - i,
    {
        i = i + 1;
    }
    i
}

/// Whether a byte is ASCII whitespace.
pub fn is_blank(byte: u8) -> (blank: bool)
    ensures
        blank == layout::is_blank(byte),
{
    byte == 32 || byte == 9 || byte == 10 || byte == 12 || byte == 13
}

/// Column (0-indexed, in characters) of a byte offset within its line.
pub fn col_of(text: &str, byte_offset: usize) -> (col: usize)
    requires
        byte_offset < encode_utf8(text@).len() ==> is_char_boundary(
            encode_utf8(text@),
            byte_offset as int,
        ),
    ensures
        col == layout::col_of(encode_utf8(text@), byte_offset as int),
{
    let bytes = text.as_bytes();
    let ghost b = encode_utf8(text@);
    let end: usize = if byte_offset < bytes.len() {
        byte_offset
    } else {
        bytes.len()
    };
    let start: usize = line_start(text, line_of(text, byte_offset));
    proof {
        assert(layout::line_of(b, byte_offset as int) == layout::line_of(b, end as int));
        layout::law_offset_within_its_line(b, end as int);
    }
    let mut count: usize = 0;
    let mut i: usize = start;
    while i < end
        invariant
            bytes@ == b,
            b == encode_utf8(text@),
            start <= i <= end <= bytes.len(),
            count <= i - start,
            count == layout::char_count(b, start as int, i as int),
        decreases end - i,
    {
        if text.is_char_boundary(i) {
            count = count + 1;
        }
        i = i + 1;
    }
    count
}

/// Previous UTF-8 character boundary before `byte_offset`.
/// Returns 0 if already at start.
pub fn prev_char_boundary(text: &str, byte_offset: usize) -> (prev: usize)
    ensures
        prev == layout::prev_boundary(encode_utf8(text@), byte_offset as int),
{
    if byte_offset == 0 {
        return 0;
    }
    let mut i: usize = byte_offset - 1;
    while i > 0 && !text.is_char_boundary(i)
        invariant
            layout::boundary_to(encode_utf8(text@), byte_offset - 1) == layout::boundary_to(
                encode_utf8(text@),
                i as int,
            ),
        decreases i,
    {
        i = i - 1;
    }
    i
}

/// Next UTF-8 character boundary after `byte_offset`.
/// Returns the length of the text if already at end.
pub fn next_char_boundary(text: &str, byte_offset: usize) -> (next: usize)
    ensures
        next == layout::next_boundary(encode_utf8(text@), byte_offset as int),
{
    let len: usize = text.as_bytes().len();
    if byte_offset >= len {
        return len;
    }
    let mut i: usize = byte_offset + 1;
    while i < len && !text.is_char_boundary(i)
        invariant
            len == encode_utf8(text@).len(),
            i <= len,
            layout::boundary_from(encode_utf8(text@), byte_offset + 1) == layout::boundary_from(
                encode_utf8(text@),
                i as int,
            ),
        decreases len - i,
    {
        i = i + 1;
    }
    i
}

/// Byte offset for a given (line, col) pair. Col is in characters.
/// Clamps to the last character of the line if col exceeds line length.
pub fn line_col_to_offset(text: &str, line: usize, col: usize) -> (offset: usize)
    ensures
        offset == layout::offset_at(encode_utf8(text@), line as nat, col as nat),
{
    let ghost b = encode_utf8(text@);
    let start: usize = line_start(text, line);
    let end: usize = line_end(text, line);
    proof {
        encode_utf8_valid_utf8(text@);
        layout::lemma_line_bounds(b, line as nat);
        layout::lemma_line_boundaries(b, line as nat);
    }
    if start >= end {
        return start;
    }
    let last: usize = prev_char_boundary(text, end);
    proof {
        layout::lemma_prev_boundary(b, end as int);
    }
    let mut pos: usize = start;
    let mut stepped: usize = 0;
    while stepped < col && pos < last
        invariant
            b == encode_utf8(text@),
            valid_utf8(b),
            stepped <= col,
            pos <= last < end <= b.len(),
            is_char_boundary(b, last as int),
            is_char_boundary(b, pos as int),
            pos == layout::advance(b, start as int, stepped as nat),
        decreases col - stepped,
    {
        proof {
            layout::lemma_next_boundary(b, pos as int);
            layout::lemma_advance_add(b, start as int, stepped as nat, 1);
            reveal_with_fuel(layout::advance, 2);
        }
        pos = next_char_boundary(text, pos);
        stepped = stepped + 1;
    }
    proof {
        layout::lemma_advance(b, pos as int, (col - stepped) as nat);
        layout::lemma_advance_add(b, start as int, stepped as nat, (col - stepped) as nat);
        assert(stepped as nat + (col - stepped) as nat == col as nat);
    }
    pos
}

// ---------------------------------------------------------------------------
// Word motion helpers
// ---------------------------------------------------------------------------

/// Word style for motion resolution.
#[derive(Clone, Copy, Debug, PartialEq, Eq, Structural)]
pub enum WordStyle {
    /// Vim `w`/`b`/`e`: keyword characters against other non-blank ones.
    Little,
    /// Vim `W`/`B`/`E`: non-blank sequences.
    Big,
}

/// Character class for word boundary detection.
#[derive(Clone, Copy, Debug, PartialEq, Eq, Structural)]
pub enum CharClass {
    Whitespace,
    Keyword,
    Punctuation,
}

/// The word class of a character.
pub fn classify(ch: char, style: WordStyle) -> (class: CharClass)
    ensures
        class == layout::class_of(ch, style),
{
    if ch == ' ' || ch == '\t' || ch == '\n' || ch == '\x0c' || ch == '\r' {
        CharClass::Whitespace
    } else if style == WordStyle::Big {
        CharClass::Keyword
    } else if ch.is_alphanumeric() || ch == '_' {
        CharClass::Keyword
    } else {
        CharClass::Punctuation
    }
}

/// The character that starts at a boundary inside the text.
pub fn char_at(text: &str, pos: usize) -> (ch: char)
    requires
        pos < encode_utf8(text@).len(),
        is_char_boundary(encode_utf8(text@), pos as int),
    ensures
        ch == layout::char_at(encode_utf8(text@), pos as int),
{
    let ghost b = encode_utf8(text@);
    let (_, rest) = text.split_at(pos);
    let mut chars = rest.chars();
    proof {
        let tail = b.subrange(pos as int, b.len() as int);
        assert(encode_utf8(rest@) == tail);
        assert(rest@.len() > 0);
        encode_utf8_first_scalar(rest@);
        char_u32_cast(rest@[0], decode_first_scalar(tail));
    }
    match chars.next() {
        Some(ch) => ch,
        None => ' ',
    }
}

/// The word class of the character that starts at a boundary inside the text.
fn class_at(text: &str, pos: usize, style: WordStyle) -> (class: CharClass)
    requires
        pos < encode_utf8(text@).len(),
        is_char_boundary(encode_utf8(text@), pos as int),
    ensures
        class == layout::class_at(encode_utf8(text@), pos as int, style),
{
    classify(char_at(text, pos), style)
}

/// Move forward to the start of the next word (`w` / `W`).
pub fn word_begin_forward(text: &str, offset: usize, style: WordStyle, count: usize) -> (pos: usize)
    requires
        offset < encode_utf8(text@).len() ==> is_char_boundary(encode_utf8(text@), offset as int),
    ensures
        pos == layout::min_int(
            layout::word_forward(encode_utf8(text@), offset as int, style, count as nat),
            encode_utf8(text@).len() as int,
        ),
{
    let len: usize = text.as_bytes().len();
    let ghost b = encode_utf8(text@);
    proof {
        encode_utf8_valid_utf8(text@);
    }
    let mut pos: usize = offset;
    let mut left: usize = count;
    while left > 0 && pos < len
        invariant
            b == encode_utf8(text@),
            valid_utf8(b),
            len == b.len(),
            pos < len ==> is_char_boundary(b, pos as int),
            layout::word_forward(b, pos as int, style, left as nat) == layout::word_forward(
                b,
                offset as int,
                style,
                count as nat,
            ),
        decreases left,
    {
        let at: usize = pos;
        let start_class = class_at(text, at, style);
        // Skip the current word (same class).
        proof {
            layout::lemma_next_boundary(b, at as int);
            assert(layout::all_of_class(b, at as int, at as int, style, start_class));
            layout::lemma_run_extend(b, at as int, at as int, style, start_class);
        }
        pos = next_char_boundary(text, pos);
        while pos < len && class_at(text, pos, style) == start_class
            invariant
                b == encode_utf8(text@),
                valid_utf8(b),
                len == b.len(),
                at < pos <= len,
                is_char_boundary(b, pos as int),
                layout::all_of_class(b, at as int, pos as int, style, start_class),
            decreases len - pos,
        {
            proof {
                layout::lemma_next_boundary(b, pos as int);
                layout::lemma_run_extend(b, at as int, pos as int, style, start_class);
            }
            pos = next_char_boundary(text, pos);
        }
        // Skip whitespace to reach the next word.
        let run_end: usize = pos;
        while pos < len && class_at(text, pos, style) == CharClass::Whitespace
            invariant
                b == encode_utf8(text@),
                valid_utf8(b),
                len == b.len(),
                run_end <= pos <= len,
                is_char_boundary(b, pos as int),
                layout::all_of_class(
                    b,
                    run_end as int,
                    pos as int,
                    style,
                    CharClass::Whitespace,
                ),
            decreases len - pos,
        {
            proof {
                layout::lemma_next_boundary(b, pos as int);
                layout::lemma_run_extend(
                    b,
                    run_end as int,
                    pos as int,
                    style,
                    CharClass::Whitespace,
                );
            }
            pos = next_char_boundary(text, pos);
        }
        proof {
            layout::lemma_word_forward_once(b, at as int, run_end as int, pos as int, style);
        }
        left = left - 1;
    }
    proof {
        if left > 0 {
            layout::lemma_word_forward_rests(b, pos as int, style, left as nat);
        }
    }
    if pos < len {
        pos
    } else {
        len
    }
}

/// Move backward to the start of the previous word (`b` / `B`).
pub fn word_begin_backward(text: &str, offset: usize, style: WordStyle, count: usize) -> (pos:
    usize)
    ensures
        pos == layout::word_backward(encode_utf8(text@), offset as int, style, count as nat),
{
    let len: usize = text.as_bytes().len();
    let ghost b = encode_utf8(text@);
    proof {
        encode_utf8_valid_utf8(text@);
        is_char_boundary_start_end_of_seq(b);
    }
    let mut pos: usize = offset;
    let mut left: usize = count;
    while left > 0 && pos > 0
        invariant
            b == encode_utf8(text@),
            valid_utf8(b),
            len == b.len(),
            layout::word_backward(b, pos as int, style, left as nat) == layout::word_backward(
                b,
                offset as int,
                style,
                count as nat,
            ),
        decreases left,
    {
        let at: usize = pos;
        proof {
            layout::lemma_prev_boundary(b, at as int);
        }
        // Move back one character to get off the current position.
        pos = prev_char_boundary(text, pos);
        if len == 0 {
            proof {
                layout::lemma_word_start_before_is(b, at as int, 0, style);
                layout::lemma_word_backward_rests(b, style, (left - 1) as nat);
            }
            return 0;
        }
        if pos >= len {
            // The end of the text counts as blank.
            proof {
                layout::lemma_prev_boundary(b, pos as int);
            }
            pos = prev_char_boundary(text, pos);
        }
        // Skip whitespace backwards.
        while pos > 0 && class_at(text, pos, style) == CharClass::Whitespace
            invariant
                b == encode_utf8(text@),
                valid_utf8(b),
                len == b.len(),
                pos < at,
                pos < len,
                is_char_boundary(b, pos as int),
                forall|q: int|
                    pos < q < at && q < b.len() && #[trigger] is_char_boundary(b, q)
                        ==> layout::class_at(b, q, style) == CharClass::Whitespace,
            decreases pos,
        {
            proof {
                layout::lemma_prev_boundary(b, pos as int);
            }
            pos = prev_char_boundary(text, pos);
        }
        // Find the start of the word found there.
        let on: usize = pos;
        let word_class = class_at(text, on, style);
        let mut at_start: bool = false;
        proof {
            layout::lemma_next_boundary(b, on as int);
        }
        while pos > 0 && !at_start
            invariant
                b == encode_utf8(text@),
                valid_utf8(b),
                len == b.len(),
                pos <= on < len,
                is_char_boundary(b, pos as int),
                layout::all_of_class(b, pos as int, on + 1, style, word_class),
                at_start ==> pos > 0 && layout::class_at(
                    b,
                    layout::prev_boundary(b, pos as int),
                    style,
                ) != word_class,
            decreases pos + if at_start {
                    0int
                } else {
                    1int
                },
        {
            proof {
                layout::lemma_prev_boundary(b, pos as int);
            }
            let prev: usize = prev_char_boundary(text, pos);
            if class_at(text, prev, style) == word_class {
                proof {
                    layout::lemma_run_extend_back(b, pos as int, on + 1, style, word_class);
                }
                pos = prev;
            } else {
                at_start = true;
            }
        }
        proof {
            layout::lemma_word_start_before(b, at as int, on as int, pos as int, style);
        }
        left = left - 1;
    }
    proof {
        if left > 0 {
            layout::lemma_word_backward_rests(b, style, left as nat);
        }
    }
    pos
}

/// Move forward to the end of the current/next word (`e` / `E`).
pub fn word_end_forward(text: &str, offset: usize, style: WordStyle, count: usize) -> (pos: usize)
    ensures
        pos == layout::word_end_clamped(encode_utf8(text@), offset as int, style, count as nat),
{
    let len: usize = text.as_bytes().len();
    let ghost b = encode_utf8(text@);
    proof {
        encode_utf8_valid_utf8(text@);
        is_char_boundary_start_end_of_seq(b);
    }
    let mut pos: usize = offset;
    let mut left: usize = count;
    while left > 0 && pos < len
        invariant
            b == encode_utf8(text@),
            valid_utf8(b),
            len == b.len(),
            layout::word_end(b, pos as int, style, left as nat) == layout::word_end(
                b,
                offset as int,
                style,
                count as nat,
            ),
        decreases left,
    {
        let at: usize = pos;
        proof {
            layout::lemma_next_boundary(b, at as int);
        }
        // Move forward one character to get off the current position.
        pos = next_char_boundary(text, pos);
        // Skip whitespace.
        while pos < len && class_at(text, pos, style) == CharClass::Whitespace
            invariant
                b == encode_utf8(text@),
                valid_utf8(b),
                len == b.len(),
                at < pos <= len,
                is_char_boundary(b, pos as int),
                layout::all_of_class(b, at + 1, pos as int, style, CharClass::Whitespace),
            decreases len - pos,
        {
            proof {
                layout::lemma_next_boundary(b, pos as int);
                layout::lemma_run_extend(b, at + 1, pos as int, style, CharClass::Whitespace);
            }
            pos = next_char_boundary(text, pos);
        }
        if pos >= len {
            proof {
                layout::lemma_no_word_end(b, at as int, style);
            }
        } else {
            // Move to the end of the word found there.
            let on: usize = pos;
            let word_class = class_at(text, on, style);
            let mut next: usize = next_char_boundary(text, pos);
            proof {
                layout::lemma_next_boundary(b, on as int);
            }
            while next < len && class_at(text, next, style) == word_class
                invariant
                    b == encode_utf8(text@),
                    valid_utf8(b),
                    len == b.len(),
                    on <= pos < len,
                    next == layout::next_boundary(b, pos as int),
                    pos < next <= len,
                    is_char_boundary(b, pos as int),
                    is_char_boundary(b, next as int),
                    layout::all_of_class(b, on as int, pos + 1, style, word_class),
                decreases len - pos,
            {
                proof {
                    layout::lemma_next_boundary(b, pos as int);
                    layout::lemma_next_boundary(b, next as int);
                }
                pos = next;
                next = next_char_boundary(text, pos);
            }
            proof {
                layout::lemma_word_end_once(b, at as int, on as int, pos as int, style);
            }
        }
        left = left - 1;
    }
    proof {
        if left > 0 {
            layout::lemma_word_forward_rests(b, pos as int, style, left as nat);
        }
    }
    // Never past the last character, unless the search began past it.
    if len == 0 {
        return 0;
    }
    let last: usize = prev_char_boundary(text, len);
    let limit: usize = if last >= offset {
        last
    } else {
        offset
    };
    if pos <= limit {
        pos
    } else {
        limit
    }
}

} // verus!
