//! Resolve vim motions to byte offsets in a text.

use vstd::prelude::*;
use vstd::utf8::*;
use crate::input::vim::edit::{Count, EditContext, MkWordStyle, MoveDir1D, MovePosition, MoveType};
use crate::input::vim::edit;
use crate::input::vim::textutil;
use crate::input::vim::textutil::WordStyle;
use crate::layout;

verus! {

/// Context for motion resolution: state like the desired column for j/k.
#[derive(Clone, Copy, Debug, PartialEq, Eq, Structural)]
pub struct MotionContext {
    /// The column the cursor wants to be at (for j/k vertical movement).
    /// Set on horizontal movement, preserved on vertical movement.
    pub desired_col: Option<usize>,
}

/// Result of resolving a motion.
#[derive(Clone, Copy, Debug, PartialEq, Eq, Structural)]
pub struct MotionResult {
    /// New cursor byte offset.
    pub cursor: usize,
    /// Updated desired column (`Some` for vertical moves, `None` to reset).
    pub desired_col: Option<usize>,
}

/// The boundary reached from `i` by stepping back over `n` characters.
pub open spec fn retreat(b: Seq<u8>, i: int, n: nat) -> int
    decreases n,
{
    if n == 0 {
        i
    } else {
        retreat(b, layout::prev_boundary(b, i), (n - 1) as nat)
    }
}

/// How often a motion is repeated: its count, but at least once.
pub open spec fn repeats(count: Count, given: Option<usize>) -> nat {
    layout::max_int(edit::count_value(count, given), 1) as nat
}

/// The last line of a text; line 0 of an empty one.
pub open spec fn last_line(b: Seq<u8>) -> nat {
    if layout::line_count(b) == 0 {
        0
    } else {
        (layout::line_count(b) - 1) as nat
    }
}

/// `n` lines below `line`, but no further than the last.
pub open spec fn lines_down(b: Seq<u8>, line: nat, n: nat) -> nat {
    layout::min_int((line + n) as int, last_line(b) as int) as nat
}

/// `n` lines above `line`, but no further than the first.
pub open spec fn lines_up(line: nat, n: nat) -> nat {
    layout::max_int(line - n, 0) as nat
}

/// The word style a motion goes by.
pub open spec fn word_style(style: MkWordStyle) -> WordStyle {
    if style == MkWordStyle::Big {
        WordStyle::Big
    } else {
        WordStyle::Little
    }
}

/// The column vertical moves aim for.
pub open spec fn aimed_col(b: Seq<u8>, cursor: int, desired: Option<nat>) -> nat {
    match desired {
        Some(col) => col,
        None => layout::col_of(b, cursor),
    }
}

/// The last character of a line, or its start if it is empty.
pub open spec fn line_last_char(b: Seq<u8>, line: nat) -> int {
    if layout::line_end(b, line) > layout::line_start(b, line) {
        layout::prev_boundary(b, layout::line_end(b, line))
    } else {
        layout::line_start(b, line)
    }
}

/// Where a motion takes the cursor: `n` repeats, `given` the count the user typed.
pub open spec fn motion_target(
    b: Seq<u8>,
    cursor: int,
    motion: MoveType,
    n: nat,
    given: Option<usize>,
    desired: Option<nat>,
) -> int {
    let line = layout::line_of(b, cursor);
    match motion {
        MoveType::Column(MoveDir1D::Previous, _) => layout::max_int(
            retreat(b, cursor, n),
            layout::line_start(b, line),
        ),
        MoveType::Column(MoveDir1D::Next, _) => layout::min_int(
            layout::advance(b, cursor, n),
            layout::line_end(b, line),
        ),
        MoveType::Line(MoveDir1D::Next) => layout::offset_at(
            b,
            lines_down(b, line, n),
            aimed_col(b, cursor, desired),
        ),
        MoveType::Line(MoveDir1D::Previous) => layout::offset_at(
            b,
            lines_up(line, n),
            aimed_col(b, cursor, desired),
        ),
        MoveType::LinePos(MovePosition::Beginning) => layout::line_start(b, line),
        MoveType::LinePos(MovePosition::End) => line_last_char(b, line),
        MoveType::FirstWord(_) => layout::first_non_blank(b, line),
        MoveType::WordBegin(style, MoveDir1D::Next) => layout::min_int(
            layout::word_forward(b, cursor, word_style(style), n),
            b.len() as int,
        ),
        MoveType::WordBegin(style, MoveDir1D::Previous) => layout::word_backward(
            b,
            cursor,
            word_style(style),
            n,
        ),
        MoveType::WordEnd(style, MoveDir1D::Next) => layout::word_end_clamped(
            b,
            cursor,
            word_style(style),
            n,
        ),
        MoveType::BufferPos(MovePosition::Beginning) => layout::first_non_blank(
            b,
            if given is Some {
                (n - 1) as nat
            } else {
                0
            },
        ),
        MoveType::BufferPos(MovePosition::End) => layout::first_non_blank(
            b,
            if given is Some {
                lines_down(b, 0, (n - 1) as nat)
            } else {
                last_line(b)
            },
        ),
        MoveType::BufferLineOffset => layout::first_non_blank(b, (n - 1) as nat),
        MoveType::FinalNonBlank(dir) => {
            let target = match dir {
                MoveDir1D::Next => lines_down(b, line, (n - 1) as nat),
                MoveDir1D::Previous => lines_up(line, (n - 1) as nat),
            };
            layout::last_non_blank(b, layout::line_start(b, target), layout::line_end(b, target))
        },
        _ => cursor,
    }
}

/// Whether a motion is resolved at all; every other leaves the cursor where it is.
pub open spec fn is_handled(motion: MoveType) -> bool {
    match motion {
        MoveType::Column(_, _) => true,
        MoveType::Line(_) => true,
        MoveType::LinePos(MovePosition::Beginning) => true,
        MoveType::LinePos(MovePosition::End) => true,
        MoveType::FirstWord(_) => true,
        MoveType::WordBegin(_, _) => true,
        MoveType::WordEnd(_, MoveDir1D::Next) => true,
        MoveType::BufferPos(MovePosition::Beginning) => true,
        MoveType::BufferPos(MovePosition::End) => true,
        MoveType::BufferLineOffset => true,
        MoveType::FinalNonBlank(_) => true,
        _ => false,
    }
}

/// The column memory after a motion: kept by j/k and by motions that are not handled,
/// forgotten by the rest.
pub open spec fn motion_memory(
    b: Seq<u8>,
    cursor: int,
    motion: MoveType,
    desired: Option<nat>,
) -> Option<nat> {
    if motion is Line {
        Some(aimed_col(b, cursor, desired))
    } else if is_handled(motion) {
        None
    } else {
        desired
    }
}

/// A column memory as a mathematical value.
pub open spec fn memory_view(col: Option<usize>) -> Option<nat> {
    match col {
        Some(col) => Some(col as nat),
        None => None,
    }
}

proof fn lemma_retreat_le(b: Seq<u8>, i: int, n: nat)
    requires
        valid_utf8(b),
        0 <= i,
    ensures
        0 <= retreat(b, i, n) <= i,
    decreases n,
{
    if n > 0 {
        if i > 0 {
            layout::lemma_prev_boundary(b, i);
        }
        lemma_retreat_le(b, layout::prev_boundary(b, i), (n - 1) as nat);
    }
}

/// h: `n` characters left, but not past the start of the line.
fn column_left(text: &str, cursor: usize, n: usize) -> (pos: usize)
    requires
        cursor < encode_utf8(text@).len() ==> is_char_boundary(encode_utf8(text@), cursor as int),
    ensures
        pos == layout::max_int(
            retreat(encode_utf8(text@), cursor as int, n as nat),
            layout::line_start(
                encode_utf8(text@),
                layout::line_of(encode_utf8(text@), cursor as int),
            ),
        ),
{
    let ghost b = encode_utf8(text@);
    let line: usize = textutil::line_of(text, cursor);
    let start: usize = textutil::line_start(text, line);
    proof {
        encode_utf8_valid_utf8(text@);
        layout::lemma_line_boundaries(b, line as nat);
        layout::law_offset_within_its_line(b, layout::min_int(cursor as int, b.len() as int));
    }
    let mut pos: usize = cursor;
    let mut left: usize = n;
    while left > 0 && pos > start
        invariant
            b == encode_utf8(text@),
            valid_utf8(b),
            is_char_boundary(b, start as int),
            start <= pos,
            retreat(b, pos as int, left as nat) == retreat(b, cursor as int, n as nat),
        decreases left,
    {
        proof {
            layout::lemma_prev_boundary(b, pos as int);
        }
        pos = textutil::prev_char_boundary(text, pos);
        left = left - 1;
    }
    proof {
        lemma_retreat_le(b, pos as int, left as nat);
    }
    pos
}

/// l: `n` characters right, but not past the end of the line.
///
/// At the last character this is the line's end: Normal mode pulls the cursor back from
/// there, but an append needs it.
fn column_right(text: &str, cursor: usize, n: usize) -> (pos: usize)
    requires
        cursor < encode_utf8(text@).len() ==> is_char_boundary(encode_utf8(text@), cursor as int),
        n > 0,
    ensures
        pos == layout::min_int(
            layout::advance(encode_utf8(text@), cursor as int, n as nat),
            layout::line_end(
                encode_utf8(text@),
                layout::line_of(encode_utf8(text@), cursor as int),
            ),
        ),
{
    let ghost b = encode_utf8(text@);
    let len: usize = text.as_bytes().len();
    let line: usize = textutil::line_of(text, cursor);
    let end: usize = textutil::line_end(text, line);
    proof {
        encode_utf8_valid_utf8(text@);
        is_char_boundary_start_end_of_seq(b);
        layout::lemma_line_boundaries(b, line as nat);
        layout::lemma_line_bounds(b, line as nat);
        layout::law_offset_within_its_line(b, layout::min_int(cursor as int, b.len() as int));
    }
    if cursor >= len {
        proof {
            layout::lemma_advance(b, len as int, (n - 1) as nat);
        }
        return len;
    }
    let mut pos: usize = cursor;
    let mut left: usize = n;
    while left > 0 && pos < end
        invariant
            b == encode_utf8(text@),
            valid_utf8(b),
            end <= b.len(),
            pos <= end,
            is_char_boundary(b, pos as int),
            is_char_boundary(b, end as int),
            layout::advance(b, pos as int, left as nat) == layout::advance(
                b,
                cursor as int,
                n as nat,
            ),
        decreases left,
    {
        proof {
            layout::lemma_next_boundary(b, pos as int);
        }
        pos = textutil::next_char_boundary(text, pos);
        left = left - 1;
    }
    proof {
        layout::lemma_advance(b, pos as int, left as nat);
    }
    pos
}

/// g_: the last non-blank character of a line, or its start if it is all blank.
fn final_non_blank(text: &str, line: usize) -> (pos: usize)
    ensures
        pos == layout::last_non_blank(
            encode_utf8(text@),
            layout::line_start(encode_utf8(text@), line as nat),
            layout::line_end(encode_utf8(text@), line as nat),
        ),
{
    let ghost b = encode_utf8(text@);
    let bytes = text.as_bytes();
    let start: usize = textutil::line_start(text, line);
    let end: usize = textutil::line_end(text, line);
    proof {
        encode_utf8_valid_utf8(text@);
        layout::lemma_line_boundaries(b, line as nat);
        layout::lemma_line_bounds(b, line as nat);
    }
    let mut pos: usize = end;
    while pos > start
        invariant
            b == encode_utf8(text@),
            bytes@ == b,
            valid_utf8(b),
            start == layout::line_start(b, line as nat),
            end == layout::line_end(b, line as nat),
            start <= pos <= b.len(),
            is_char_boundary(b, start as int),
            layout::last_non_blank(b, start as int, pos as int) == layout::last_non_blank(
                b,
                start as int,
                end as int,
            ),
        decreases pos,
    {
        proof {
            layout::lemma_prev_boundary(b, pos as int);
        }
        let prev: usize = textutil::prev_char_boundary(text, pos);
        if !textutil::is_blank(bytes[prev]) {
            return prev;
        }
        pos = prev;
    }
    pos
}

/// The last line of the text; line 0 of an empty one.
fn last_line_of(text: &str) -> (line: usize)
    ensures
        line == last_line(encode_utf8(text@)),
{
    let len: usize = text.as_bytes().len();
    proof {
        assert(encode_utf8(text@).take(len as int) =~= encode_utf8(text@));
    }
    textutil::line_of(text, len)
}

/// `n` lines below `line`, but no further than the last.
pub fn line_below(text: &str, line: usize, n: usize) -> (below: usize)
    ensures
        below == lines_down(encode_utf8(text@), line as nat, n as nat),
{
    let last: usize = last_line_of(text);
    let sum: usize = line.saturating_add(n);
    if sum < last {
        sum
    } else {
        last
    }
}

/// Resolve a motion to a new cursor position.
pub fn resolve_motion(
    text: &str,
    cursor: usize,
    move_type: &MoveType,
    count: &Count,
    edit_ctx: &EditContext,
    motion_ctx: &MotionContext,
) -> (result: MotionResult)
    requires
        cursor < encode_utf8(text@).len() ==> is_char_boundary(encode_utf8(text@), cursor as int),
    ensures
        result.cursor == motion_target(
            encode_utf8(text@),
            cursor as int,
            *move_type,
            repeats(*count, edit_ctx.count),
            edit_ctx.count,
            memory_view(motion_ctx.desired_col),
        ),
        memory_view(result.desired_col) == motion_memory(
            encode_utf8(text@),
            cursor as int,
            *move_type,
            memory_view(motion_ctx.desired_col),
        ),
{
    let resolved: usize = edit_ctx.resolve(count);
    let n: usize = if resolved < 1 {
        1
    } else {
        resolved
    };
    match *move_type {
        // h
        MoveType::Column(MoveDir1D::Previous, _) => {
            MotionResult { cursor: column_left(text, cursor, n), desired_col: None }
        },
        // l
        MoveType::Column(MoveDir1D::Next, _) => {
            MotionResult { cursor: column_right(text, cursor, n), desired_col: None }
        },
        // j
        MoveType::Line(MoveDir1D::Next) => {
            let col: usize = match motion_ctx.desired_col {
                Some(col) => col,
                None => textutil::col_of(text, cursor),
            };
            let target: usize = line_below(text, textutil::line_of(text, cursor), n);
            MotionResult {
                cursor: textutil::line_col_to_offset(text, target, col),
                desired_col: Some(col),
            }
        },
        // k
        MoveType::Line(MoveDir1D::Previous) => {
            let col: usize = match motion_ctx.desired_col {
                Some(col) => col,
                None => textutil::col_of(text, cursor),
            };
            let target: usize = textutil::line_of(text, cursor).saturating_sub(n);
            MotionResult {
                cursor: textutil::line_col_to_offset(text, target, col),
                desired_col: Some(col),
            }
        },
        // 0
        MoveType::LinePos(MovePosition::Beginning) => {
            let line: usize = textutil::line_of(text, cursor);
            MotionResult { cursor: textutil::line_start(text, line), desired_col: None }
        },
        // $: on the last character, not past it
        MoveType::LinePos(MovePosition::End) => {
            let line: usize = textutil::line_of(text, cursor);
            let start: usize = textutil::line_start(text, line);
            let end: usize = textutil::line_end(text, line);
            let pos: usize = if end > start {
                textutil::prev_char_boundary(text, end)
            } else {
                start
            };
            MotionResult { cursor: pos, desired_col: None }
        },
        // ^
        MoveType::FirstWord(_) => {
            let line: usize = textutil::line_of(text, cursor);
            MotionResult { cursor: textutil::first_non_blank(text, line), desired_col: None }
        },
        // w / W
        MoveType::WordBegin(style, MoveDir1D::Next) => {
            let ws = convert_word_style(&style);
            MotionResult {
                cursor: textutil::word_begin_forward(text, cursor, ws, n),
                desired_col: None,
            }
        },
        // b / B
        MoveType::WordBegin(style, MoveDir1D::Previous) => {
            let ws = convert_word_style(&style);
            MotionResult {
                cursor: textutil::word_begin_backward(text, cursor, ws, n),
                desired_col: None,
            }
        },
        // e / E
        MoveType::WordEnd(style, MoveDir1D::Next) => {
            let ws = convert_word_style(&style);
            MotionResult {
                cursor: textutil::word_end_forward(text, cursor, ws, n),
                desired_col: None,
            }
        },
        // gg: the first line, or the line the count names (from 1)
        MoveType::BufferPos(MovePosition::Beginning) => {
            let target: usize = if edit_ctx.get_count().is_some() {
                n - 1
            } else {
                0
            };
            MotionResult { cursor: textutil::first_non_blank(text, target), desired_col: None }
        },
        // G: the last line, or the line the count names (from 1)
        MoveType::BufferPos(MovePosition::End) => {
            let target: usize = if edit_ctx.get_count().is_some() {
                line_below(text, 0, n - 1)
            } else {
                last_line_of(text)
            };
            MotionResult { cursor: textutil::first_non_blank(text, target), desired_col: None }
        },
        // The line the count names (from 1)
        MoveType::BufferLineOffset => {
            MotionResult { cursor: textutil::first_non_blank(text, n - 1), desired_col: None }
        },
        // g_
        MoveType::FinalNonBlank(dir) => {
            let line: usize = textutil::line_of(text, cursor);
            let target: usize = match dir {
                MoveDir1D::Next => line_below(text, line, n - 1),
                MoveDir1D::Previous => line.saturating_sub(n - 1),
            };
            MotionResult { cursor: final_non_blank(text, target), desired_col: None }
        },
        // Anything else leaves the cursor alone.
        _ => MotionResult { cursor, desired_col: motion_ctx.desired_col },
    }
}

/// The word style a motion goes by: all but the big one use keyword-style boundaries.
fn convert_word_style(style: &MkWordStyle) -> (ws: WordStyle)
    ensures
        ws == word_style(*style),
{
    match *style {
        MkWordStyle::Big => WordStyle::Big,
        _ => WordStyle::Little,
    }
}

/// Whether an operation over this motion consumes the character at its destination:
/// e, $ and g_ do; w, b, h, l, 0 and ^ stop short of it.
pub fn is_inclusive(move_type: &MoveType) -> (inclusive: bool)
    ensures
        inclusive == inclusive_motion(*move_type),
        *move_type is WordEnd ==> inclusive,
        *move_type is FinalNonBlank ==> inclusive,
        *move_type == MoveType::LinePos(MovePosition::End) ==> inclusive,
        *move_type == MoveType::LinePos(MovePosition::Beginning) ==> !inclusive,
        *move_type is WordBegin || *move_type is Column || *move_type is FirstWord ==> !inclusive,
        *move_type is Line || *move_type is BufferPos ==> !inclusive,
        *move_type is BufferLineOffset || *move_type is Other ==> !inclusive,
{
    match *move_type {
        MoveType::WordEnd(_, _) => true,
        MoveType::LinePos(MovePosition::End) => true,
        MoveType::FinalNonBlank(_) => true,
        _ => false,
    }
}

/// The inclusive motions.
pub open spec fn inclusive_motion(motion: MoveType) -> bool {
    motion is WordEnd || motion is FinalNonBlank || motion == MoveType::LinePos(MovePosition::End)
}

/// No motion leaves the text or splits a character: from a boundary within the text every
/// motion leads to a boundary within the text.
pub proof fn law_motion_keeps_boundaries(
    b: Seq<u8>,
    cursor: int,
    motion: MoveType,
    n: nat,
    given: Option<usize>,
    desired: Option<nat>,
)
    requires
        valid_utf8(b),
        0 <= cursor <= b.len(),
        is_char_boundary(b, cursor),
        n > 0,
    ensures
        0 <= motion_target(b, cursor, motion, n, given, desired) <= b.len(),
        is_char_boundary(b, motion_target(b, cursor, motion, n, given, desired)),
{
    let line = layout::line_of(b, cursor);
    layout::lemma_line_bounds(b, line);
    layout::lemma_line_boundaries(b, line);
    layout::law_offset_within_its_line(b, cursor);
    match motion {
        MoveType::Column(MoveDir1D::Previous, _) => {
            lemma_retreat_boundary(b, cursor, n);
        },
        MoveType::Column(MoveDir1D::Next, _) => {
            layout::lemma_advance(b, cursor, n);
        },
        MoveType::Line(dir) => {
            let target = if dir == MoveDir1D::Next {
                lines_down(b, line, n)
            } else {
                lines_up(line, n)
            };
            layout::lemma_line_bounds(b, target);
            layout::law_offset_at_within_line(b, target, aimed_col(b, cursor, desired));
        },
        MoveType::LinePos(_) => {
            if layout::line_end(b, line) > layout::line_start(b, line) {
                layout::lemma_prev_boundary(b, layout::line_end(b, line));
            }
        },
        MoveType::FirstWord(_) => {
            layout::lemma_first_non_blank(b, line);
        },
        MoveType::WordBegin(style, MoveDir1D::Next) => {
            layout::law_word_forward_advances(b, cursor, word_style(style), n);
        },
        MoveType::WordBegin(style, MoveDir1D::Previous) => {
            layout::law_word_backward_retreats(b, cursor, word_style(style), n);
        },
        MoveType::WordEnd(style, _) => {
            layout::law_word_end_advances(b, cursor, word_style(style), n);
        },
        MoveType::BufferPos(pos) => {
            let target = if given is Some {
                if pos == MovePosition::Beginning {
                    (n - 1) as nat
                } else {
                    lines_down(b, 0, (n - 1) as nat)
                }
            } else if pos == MovePosition::Beginning {
                0
            } else {
                last_line(b)
            };
            layout::lemma_line_bounds(b, target);
            layout::lemma_first_non_blank(b, target);
        },
        MoveType::BufferLineOffset => {
            layout::lemma_line_bounds(b, (n - 1) as nat);
            layout::lemma_first_non_blank(b, (n - 1) as nat);
        },
        MoveType::FinalNonBlank(dir) => {
            let target = match dir {
                MoveDir1D::Next => lines_down(b, line, (n - 1) as nat),
                MoveDir1D::Previous => lines_up(line, (n - 1) as nat),
            };
            layout::lemma_line_bounds(b, target);
            layout::lemma_line_boundaries(b, target);
            layout::lemma_last_non_blank(
                b,
                layout::line_start(b, target),
                layout::line_end(b, target),
            );
        },
        _ => {},
    }
}

proof fn lemma_retreat_boundary(b: Seq<u8>, i: int, n: nat)
    requires
        valid_utf8(b),
        0 <= i <= b.len(),
        is_char_boundary(b, i),
    ensures
        0 <= retreat(b, i, n) <= i,
        is_char_boundary(b, retreat(b, i, n)),
    decreases n,
{
    is_char_boundary_start_end_of_seq(b);
    if n > 0 {
        if i > 0 {
            layout::lemma_prev_boundary(b, i);
        }
        lemma_retreat_boundary(b, layout::prev_boundary(b, i), (n - 1) as nat);
    }
}

/// h and l stay on their line.
pub proof fn law_columns_stay_on_the_line(
    b: Seq<u8>,
    cursor: int,
    dir: MoveDir1D,
    wrap: bool,
    n: nat,
    given: Option<usize>,
    desired: Option<nat>,
)
    requires
        valid_utf8(b),
        0 <= cursor <= b.len(),
        is_char_boundary(b, cursor),
        n > 0,
    ensures
        layout::line_start(b, layout::line_of(b, cursor)) <= motion_target(
            b,
            cursor,
            MoveType::Column(dir, wrap),
            n,
            given,
            desired,
        ) <= layout::line_end(b, layout::line_of(b, cursor)),
{
    let line = layout::line_of(b, cursor);
    layout::law_offset_within_its_line(b, cursor);
    layout::lemma_line_bounds(b, line);
    lemma_retreat_boundary(b, cursor, n);
    layout::lemma_advance(b, cursor, n);
}

/// j after a shorter line comes back to the column it started from: the column memory that a
/// vertical move hands on makes the next one aim where the first one aimed.
pub proof fn law_vertical_moves_keep_their_column(
    b: Seq<u8>,
    cursor: int,
    between: int,
    dir: MoveDir1D,
    desired: Option<nat>,
    memory: Option<nat>,
)
    requires
        memory == motion_memory(b, cursor, MoveType::Line(dir), desired),
    ensures
        aimed_col(b, between, memory) == aimed_col(b, cursor, desired),
{
}

/// j and k go as many lines down or up as their count says, but no further than the last or the
/// first, to the column they aim for, or to the last character of a line that is too short.
pub proof fn law_vertical_moves_go_by_lines(
    b: Seq<u8>,
    cursor: int,
    n: nat,
    given: Option<usize>,
    desired: Option<nat>,
)
    requires
        valid_utf8(b),
        0 <= cursor <= b.len(),
        is_char_boundary(b, cursor),
    ensures
        ({
            let line = layout::line_of(b, cursor) as int;
            let last = layout::newlines(b) as int;
            let col = match desired {
                Some(col) => col,
                None => layout::col_of(b, cursor),
            };
            let down = motion_target(b, cursor, MoveType::Line(MoveDir1D::Next), n, given, desired);
            let up = motion_target(
                b,
                cursor,
                MoveType::Line(MoveDir1D::Previous),
                n,
                given,
                desired,
            );
            &&& layout::line_of(b, down) == (if line + n <= last {
                line + n
            } else {
                last
            })
            &&& layout::line_of(b, up) == (if line >= n {
                line - n
            } else {
                0
            })
            &&& at_col_or_last(b, down, col)
            &&& at_col_or_last(b, up, col)
        }),
{
    let line = layout::line_of(b, cursor);
    let col = aimed_col(b, cursor, desired);
    assert(b.take(b.len() as int) =~= b);
    layout::lemma_newlines_monotone(b, cursor, b.len() as int);
    layout::law_offset_at_finds_line_and_col(b, lines_down(b, line, n), col);
    layout::law_offset_at_finds_line_and_col(b, lines_up(line, n), col);
}

/// An offset is at a column of its line, or on the last character of a line without that column,
/// or at the start of an empty line.
pub open spec fn at_col_or_last(b: Seq<u8>, i: int, col: nat) -> bool {
    let line = layout::line_of(b, i);
    let length = layout::char_count(b, layout::line_start(b, line), layout::line_end(b, line));
    &&& col < length ==> layout::col_of(b, i) == col
    &&& 0 < length <= col ==> layout::col_of(b, i) + 1 == length
    &&& length == 0 ==> layout::col_of(b, i) == 0
}

/// A count adds up: j or k with a count is as many single moves, one after the other, as long as
/// each hands its column on to the next.
pub proof fn law_vertical_counts_add_up(
    b: Seq<u8>,
    cursor: int,
    dir: MoveDir1D,
    n: nat,
    m: nat,
    given: Option<usize>,
    desired: Option<nat>,
)
    requires
        valid_utf8(b),
        0 <= cursor <= b.len(),
        is_char_boundary(b, cursor),
    ensures
        motion_target(
            b,
            motion_target(b, cursor, MoveType::Line(dir), n, given, desired),
            MoveType::Line(dir),
            m,
            given,
            motion_memory(b, cursor, MoveType::Line(dir), desired),
        ) == motion_target(b, cursor, MoveType::Line(dir), n + m, given, desired),
{
    law_vertical_moves_go_by_lines(b, cursor, n, given, desired);
    law_vertical_moves_keep_their_column(
        b,
        cursor,
        motion_target(b, cursor, MoveType::Line(dir), n, given, desired),
        dir,
        desired,
        motion_memory(b, cursor, MoveType::Line(dir), desired),
    );
    assert(b.take(b.len() as int) =~= b);
    layout::lemma_newlines_monotone(b, cursor, b.len() as int);
}

/// h and l go as many characters left or right as their count says, on their line: h no further
/// than its first character, l no further than its end.
pub proof fn law_columns_go_by_characters(
    b: Seq<u8>,
    cursor: int,
    wrap: bool,
    n: nat,
    given: Option<usize>,
    desired: Option<nat>,
)
    requires
        valid_utf8(b),
        0 <= cursor <= b.len(),
        is_char_boundary(b, cursor),
    ensures
        ({
            let line = layout::line_of(b, cursor);
            let col = layout::col_of(b, cursor) as int;
            let length = layout::char_count(
                b,
                layout::line_start(b, line),
                layout::line_end(b, line),
            ) as int;
            let left = motion_target(
                b,
                cursor,
                MoveType::Column(MoveDir1D::Previous, wrap),
                n,
                given,
                desired,
            );
            let right = motion_target(
                b,
                cursor,
                MoveType::Column(MoveDir1D::Next, wrap),
                n,
                given,
                desired,
            );
            &&& layout::line_of(b, left) == line
            &&& layout::line_of(b, right) == line
            &&& layout::col_of(b, left) == (if col >= n {
                col - n
            } else {
                0
            })
            &&& layout::col_of(b, right) == (if col + n <= length {
                col + n
            } else {
                length
            })
        }),
{
    let line = layout::line_of(b, cursor);
    let start = layout::line_start(b, line);
    let end = layout::line_end(b, line);
    let col = layout::col_of(b, cursor);
    let length = layout::char_count(b, start, end);
    assert(b.take(b.len() as int) =~= b);
    layout::lemma_newlines_monotone(b, cursor, b.len() as int);
    layout::law_offset_within_its_line(b, cursor);
    layout::lemma_line_bounds(b, line);
    layout::lemma_line_boundaries(b, line);
    layout::lemma_advance_char_count(b, start, end);
    layout::lemma_advance_char_count(b, start, cursor);
    lemma_char_count_within(b, start, cursor, end);
    layout::lemma_advance_add(b, start, col, n);
    let right = layout::min_int(layout::advance(b, cursor, n), end);
    if col + n <= length {
        layout::lemma_char_count_advance(b, start, end, col + n);
        assert(right == layout::advance(b, start, col + n));
    } else {
        layout::lemma_advance_add(b, start, length, (col + n - length) as nat);
        layout::lemma_advance(b, end, (col + n - length) as nat);
        assert(right == end);
    }
    layout::lemma_line_of_within(b, line, right);
    let left = layout::max_int(retreat(b, cursor, n), start);
    lemma_retreat_boundary(b, cursor, n);
    layout::lemma_line_of_within(b, line, left);
    lemma_retreat_counts(b, start, cursor, n);
}

proof fn lemma_char_count_within(b: Seq<u8>, from: int, mid: int, to: int)
    requires
        from <= mid <= to,
    ensures
        layout::char_count(b, from, mid) <= layout::char_count(b, from, to),
    decreases to - mid,
{
    if mid < to {
        lemma_char_count_within(b, from, mid, to - 1);
    }
}

proof fn lemma_retreat_counts(b: Seq<u8>, start: int, i: int, n: nat)
    requires
        valid_utf8(b),
        0 <= start <= i <= b.len(),
        is_char_boundary(b, start),
        is_char_boundary(b, i),
    ensures
        ({
            let count = layout::char_count(b, start, i);
            let left = layout::max_int(retreat(b, i, n), start);
            layout::char_count(b, start, left) == (if count >= n {
                count - n
            } else {
                0
            })
        }),
    decreases n,
{
    if n > 0 {
        if i > start {
            layout::lemma_prev_boundary(b, i);
            let p = layout::prev_boundary(b, i);
            layout::lemma_char_count_gap(b, start, p + 1, i);
            lemma_retreat_counts(b, start, p, (n - 1) as nat);
        } else {
            lemma_retreat_le(b, i, n);
        }
    }
}

/// 0 goes to the first column of its line and $ to its last character, ^ past the blanks at its
/// start, and g_ before the blanks at its end, as many lines further down as its count says.
pub proof fn law_line_positions(
    b: Seq<u8>,
    cursor: int,
    dir: MoveDir1D,
    n: nat,
    given: Option<usize>,
    desired: Option<nat>,
)
    requires
        valid_utf8(b),
        0 <= cursor <= b.len(),
        is_char_boundary(b, cursor),
        n > 0,
    ensures
        ({
            let line = layout::line_of(b, cursor);
            let last = layout::newlines(b) as int;
            let start = layout::line_start(b, line);
            let end = layout::line_end(b, line);
            let length = layout::char_count(b, start, end) as int;
            let home = motion_target(
                b,
                cursor,
                MoveType::LinePos(MovePosition::Beginning),
                n,
                given,
                desired,
            );
            let tail = motion_target(
                b,
                cursor,
                MoveType::LinePos(MovePosition::End),
                n,
                given,
                desired,
            );
            let first = motion_target(b, cursor, MoveType::FirstWord(dir), n, given, desired);
            let final_down = motion_target(
                b,
                cursor,
                MoveType::FinalNonBlank(MoveDir1D::Next),
                n,
                given,
                desired,
            );
            let final_up = motion_target(
                b,
                cursor,
                MoveType::FinalNonBlank(MoveDir1D::Previous),
                n,
                given,
                desired,
            );
            &&& layout::line_of(b, home) == line && layout::col_of(b, home) == 0
            &&& layout::line_of(b, tail) == line
            &&& layout::col_of(b, tail) == (if length > 0 {
                length - 1
            } else {
                0
            })
            &&& layout::line_of(b, first) == line && first_non_blank_of(b, start, end, first)
            &&& layout::line_of(b, final_down) == (if line + n - 1 <= last {
                line + n - 1
            } else {
                last
            })
            &&& layout::line_of(b, final_up) == (if line >= n - 1 {
                line - (n - 1)
            } else {
                0
            })
            &&& last_non_blank_of_its_line(b, final_down)
            &&& last_non_blank_of_its_line(b, final_up)
        }),
{
    let line = layout::line_of(b, cursor);
    let start = layout::line_start(b, line);
    let end = layout::line_end(b, line);
    assert(b.take(b.len() as int) =~= b);
    layout::lemma_newlines_monotone(b, cursor, b.len() as int);
    layout::lemma_line_bounds(b, line);
    layout::lemma_line_boundaries(b, line);
    layout::lemma_line_of_within(b, line, start);
    let length = layout::char_count(b, start, end);
    layout::law_offset_at_finds_line_and_col(b, line, length);
    if start < end {
        layout::lemma_prev_boundary(b, end);
        layout::lemma_advance_char_count(b, start, end);
        layout::lemma_char_count_left(b, start, end);
        assert(layout::offset_at(b, line, length) == layout::prev_boundary(b, end));
    } else {
        assert(layout::offset_at(b, line, length) == start);
    }
    layout::lemma_first_non_blank(b, line);
    layout::lemma_non_blank_from(b, start, end);
    layout::lemma_line_of_within(b, line, layout::first_non_blank(b, line));
    lemma_final_non_blank(b, lines_down(b, line, (n - 1) as nat));
    lemma_final_non_blank(b, lines_up(line, (n - 1) as nat));
}

/// A byte of white space: a space, a tab, a line feed, a form feed or a carriage return.
pub open spec fn white(byte: u8) -> bool {
    byte == 0x20 || byte == 0x09 || byte == 0x0a || byte == 0x0c || byte == 0x0d
}

/// The first byte of a stretch that is no white space, or its end.
pub open spec fn first_non_blank_of(b: Seq<u8>, start: int, end: int, at: int) -> bool {
    &&& start <= at <= end
    &&& at < end ==> !white(b[at])
    &&& forall|q: int| start <= q < at ==> white(#[trigger] b[q])
}

/// The last character of its line that is no white space, or the start of a line that is white
/// altogether.
pub open spec fn last_non_blank_of_its_line(b: Seq<u8>, at: int) -> bool {
    let line = layout::line_of(b, at);
    &&& layout::line_start(b, line) < at ==> at < layout::line_end(b, line) && !white(b[at])
    &&& forall|q: int|
        at < q < layout::line_end(b, line) && #[trigger] is_char_boundary(b, q) ==> white(b[q])
}

proof fn lemma_final_non_blank(b: Seq<u8>, line: nat)
    requires
        valid_utf8(b),
        line <= layout::newlines(b),
    ensures
        ({
            let at = layout::last_non_blank(
                b,
                layout::line_start(b, line),
                layout::line_end(b, line),
            );
            layout::line_of(b, at) == line && last_non_blank_of_its_line(b, at)
        }),
{
    let start = layout::line_start(b, line);
    let end = layout::line_end(b, line);
    layout::lemma_line_bounds(b, line);
    layout::lemma_line_boundaries(b, line);
    layout::lemma_last_non_blank(b, start, end);
    lemma_last_non_blank_skips(b, start, end);
    layout::lemma_line_of_within(b, line, layout::last_non_blank(b, start, end));
}

proof fn lemma_last_non_blank_skips(b: Seq<u8>, from: int, to: int)
    requires
        valid_utf8(b),
        0 <= from <= to <= b.len(),
        is_char_boundary(b, from),
        is_char_boundary(b, to),
    ensures
        ({
            let at = layout::last_non_blank(b, from, to);
            &&& from < at ==> at < to && !white(b[at])
            &&& forall|q: int| at < q < to && #[trigger] is_char_boundary(b, q) ==> white(b[q])
        }),
    decreases to,
{
    if from < to {
        layout::lemma_prev_boundary(b, to);
        let p = layout::prev_boundary(b, to);
        if layout::is_blank(b[p]) {
            lemma_last_non_blank_skips(b, from, p);
        }
    }
}

/// gg goes to the first line and G to the last; with a count, either goes to the line of that
/// number, from 1, or to the last where there are not so many. Each goes past the blanks at its
/// start.
pub proof fn law_buffer_positions(
    b: Seq<u8>,
    cursor: int,
    n: nat,
    given: Option<usize>,
    desired: Option<nat>,
)
    requires
        valid_utf8(b),
        n > 0,
    ensures
        ({
            let last = layout::newlines(b) as int;
            let named = if n - 1 <= last {
                n - 1
            } else {
                last
            };
            let top = motion_target(
                b,
                cursor,
                MoveType::BufferPos(MovePosition::Beginning),
                n,
                given,
                desired,
            );
            let bottom = motion_target(
                b,
                cursor,
                MoveType::BufferPos(MovePosition::End),
                n,
                given,
                desired,
            );
            let line = motion_target(b, cursor, MoveType::BufferLineOffset, n, given, desired);
            &&& layout::line_of(b, top) == (if given is Some {
                named
            } else {
                0
            })
            &&& layout::line_of(b, bottom) == (if given is Some {
                named
            } else {
                last
            })
            &&& layout::line_of(b, line) == named
            &&& past_the_blanks_of_its_line(b, top) || given is Some && n - 1 > last && top
                == b.len()
            &&& past_the_blanks_of_its_line(b, bottom)
            &&& past_the_blanks_of_its_line(b, line) || n - 1 > last && line == b.len()
        }),
{
    assert(b.take(b.len() as int) =~= b);
    lemma_named_line(b, (n - 1) as nat);
    lemma_named_line(b, 0);
    lemma_named_line(b, last_line(b));
    lemma_named_line(b, lines_down(b, 0, (n - 1) as nat));
}

/// An offset is the first one of its line that is no white space, or the end of a line that is
/// white altogether.
pub open spec fn past_the_blanks_of_its_line(b: Seq<u8>, at: int) -> bool {
    let line = layout::line_of(b, at);
    first_non_blank_of(b, layout::line_start(b, line), layout::line_end(b, line), at)
}

proof fn lemma_named_line(b: Seq<u8>, line: nat)
    requires
        valid_utf8(b),
    ensures
        ({
            let at = layout::first_non_blank(b, line);
            if line <= layout::newlines(b) {
                layout::line_of(b, at) == line && past_the_blanks_of_its_line(b, at)
            } else {
                layout::line_of(b, at) == layout::newlines(b) && at == b.len()
            }
        }),
{
    layout::lemma_line_bounds(b, line);
    layout::lemma_first_non_blank(b, line);
    layout::lemma_non_blank_from(b, layout::line_start(b, line), layout::line_end(b, line));
    if line <= layout::newlines(b) {
        layout::lemma_line_of_within(b, line, layout::first_non_blank(b, line));
    } else {
        layout::lemma_line_past_the_last(b, line);
    }
}

/// w, b and e are the word motions of the text, in the big style exactly where the motion asks for
/// it.
pub proof fn law_word_motions(
    b: Seq<u8>,
    cursor: int,
    n: nat,
    given: Option<usize>,
    desired: Option<nat>,
)
    requires
        valid_utf8(b),
        0 <= cursor < b.len(),
        is_char_boundary(b, cursor),
    ensures
        ({
            let w = |style: MkWordStyle, n: nat|
                motion_target(
                    b,
                    cursor,
                    MoveType::WordBegin(style, MoveDir1D::Next),
                    n,
                    given,
                    desired,
                );
            let back = |style: MkWordStyle, n: nat|
                motion_target(
                    b,
                    cursor,
                    MoveType::WordBegin(style, MoveDir1D::Previous),
                    n,
                    given,
                    desired,
                );
            let e = |style: MkWordStyle, n: nat|
                motion_target(
                    b,
                    cursor,
                    MoveType::WordEnd(style, MoveDir1D::Next),
                    n,
                    given,
                    desired,
                );
            &&& w(MkWordStyle::Big, n) == layout::word_forward(b, cursor, WordStyle::Big, n)
            &&& w(MkWordStyle::Little, n) == layout::word_forward(b, cursor, WordStyle::Little, n)
            &&& w(MkWordStyle::Other, n) == w(MkWordStyle::Little, n)
            &&& back(MkWordStyle::Big, n) == layout::word_backward(b, cursor, WordStyle::Big, n)
            &&& back(MkWordStyle::Little, n) == layout::word_backward(
                b,
                cursor,
                WordStyle::Little,
                n,
            )
            &&& back(MkWordStyle::Other, n) == back(MkWordStyle::Little, n)
            &&& e(MkWordStyle::Big, n) == layout::word_end_clamped(b, cursor, WordStyle::Big, n)
            &&& e(MkWordStyle::Little, n) == layout::word_end_clamped(
                b,
                cursor,
                WordStyle::Little,
                n,
            )
            &&& e(MkWordStyle::Other, n) == e(MkWordStyle::Little, n)
        }),
{
    layout::law_word_forward_advances(b, cursor, WordStyle::Big, n);
    layout::law_word_forward_advances(b, cursor, WordStyle::Little, n);
}

/// A motion is repeated as often as the count that the user typed, once without one, and never
/// less than once.
pub proof fn law_a_count_is_the_number_of_repeats(typed: usize, exact: usize)
    ensures
        repeats(Count::Contextual, None) == 1,
        typed > 0 ==> repeats(Count::Contextual, Some(typed)) == typed,
        repeats(Count::Contextual, Some(0)) == 1,
        exact > 0 ==> repeats(Count::Exact(exact), Some(typed)) == exact,
        exact > 0 ==> repeats(Count::Exact(exact), None) == exact,
        typed > 1 ==> repeats(Count::MinusOne, Some(typed)) == typed - 1,
        typed <= 1 ==> repeats(Count::MinusOne, Some(typed)) == 1,
        repeats(Count::MinusOne, None) == 1,
{
}

/// Only j and k remember a column; every other motion that leads somewhere forgets it.
pub proof fn law_only_vertical_moves_remember(
    b: Seq<u8>,
    cursor: int,
    motion: MoveType,
    desired: Option<nat>,
)
    ensures
        motion is Line ==> motion_memory(b, cursor, motion, desired) == Some(
            match desired {
                Some(col) => col,
                None => layout::col_of(b, cursor),
            },
        ),
        motion is Column || motion is FirstWord || motion is WordBegin ==> motion_memory(
            b,
            cursor,
            motion,
            desired,
        ) is None,
        motion is BufferLineOffset || motion is FinalNonBlank ==> motion_memory(
            b,
            cursor,
            motion,
            desired,
        ) is None,
        motion is Other ==> motion_memory(b, cursor, motion, desired) == desired,
        motion_memory(b, cursor, MoveType::LinePos(MovePosition::Beginning), desired) is None,
        motion_memory(b, cursor, MoveType::LinePos(MovePosition::End), desired) is None,
        motion_memory(b, cursor, MoveType::BufferPos(MovePosition::Beginning), desired) is None,
        motion_memory(b, cursor, MoveType::BufferPos(MovePosition::End), desired) is None,
{
}

} // verus!
