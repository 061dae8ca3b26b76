//! A mathematical model of UTF-8 text addressed by byte offsets: character
//! boundaries, lines, columns and words.
//!
//! Everything here speaks of the bytes of a text. A text is always valid UTF-8, so the
//! lemmas ask for `valid_utf8`.

use vstd::prelude::*;
use vstd::utf8::*;
use crate::input::vim::textutil::{CharClass, WordStyle};
use crate::textbuf;

verus! {

/// The smaller of two integers.
pub open spec fn min_int(a: int, b: int) -> int {
    if a <= b {
        a
    } else {
        b
    }
}

/// The larger of two integers.
pub open spec fn max_int(a: int, b: int) -> int {
    if a >= b {
        a
    } else {
        b
    }
}

// ---------------------------------------------------------------------------
// Character boundaries
// ---------------------------------------------------------------------------

/// The first character boundary at or after `i`, or the end of the text.
pub open spec fn boundary_from(b: Seq<u8>, i: int) -> int
    decreases b.len() - i,
{
    if i >= b.len() {
        b.len() as int
    } else if is_char_boundary(b, i) {
        i
    } else {
        boundary_from(b, i + 1)
    }
}

/// The last character boundary at or before `i`, or the start of the text.
pub open spec fn boundary_to(b: Seq<u8>, i: int) -> int
    decreases i,
{
    if i <= 0 {
        0
    } else if is_char_boundary(b, i) {
        i
    } else {
        boundary_to(b, i - 1)
    }
}

/// The boundary of the character after the one at `i`; the end of the text stays put.
pub open spec fn next_boundary(b: Seq<u8>, i: int) -> int {
    if i >= b.len() {
        b.len() as int
    } else {
        boundary_from(b, i + 1)
    }
}

/// The boundary of the character before `i`; the start of the text stays put.
pub open spec fn prev_boundary(b: Seq<u8>, i: int) -> int {
    if i <= 0 {
        0
    } else {
        boundary_to(b, i - 1)
    }
}

/// The boundary reached from `i` by stepping over `n` characters.
pub open spec fn advance(b: Seq<u8>, i: int, n: nat) -> int
    decreases n,
{
    if n == 0 {
        i
    } else {
        advance(b, next_boundary(b, i), (n - 1) as nat)
    }
}

/// How many characters start in `from..to`.
pub open spec fn char_count(b: Seq<u8>, from: int, to: int) -> nat
    decreases to - from,
{
    if from >= to {
        0
    } else {
        char_count(b, from, to - 1) + if is_char_boundary(b, to - 1) {
            1nat
        } else {
            0nat
        }
    }
}

/// The character whose encoding starts at boundary `i`.
pub open spec fn char_at(b: Seq<u8>, i: int) -> char {
    decode_first_scalar(b.subrange(i, b.len() as int)) as char
}

pub proof fn lemma_boundary_from(b: Seq<u8>, i: int)
    requires
        valid_utf8(b),
        0 <= i <= b.len(),
    ensures
        i <= boundary_from(b, i) <= b.len(),
        is_char_boundary(b, boundary_from(b, i)),
        forall|q: int| i <= q < boundary_from(b, i) ==> !is_char_boundary(b, q),
    decreases b.len() - i,
{
    is_char_boundary_start_end_of_seq(b);
    if i < b.len() && !is_char_boundary(b, i) {
        lemma_boundary_from(b, i + 1);
    }
}

pub proof fn lemma_boundary_to(b: Seq<u8>, i: int)
    requires
        valid_utf8(b),
        0 <= i,
    ensures
        0 <= boundary_to(b, i) <= i,
        boundary_to(b, i) <= b.len(),
        is_char_boundary(b, boundary_to(b, i)),
        forall|q: int| boundary_to(b, i) < q <= i ==> !is_char_boundary(b, q),
    decreases i,
{
    is_char_boundary_start_end_of_seq(b);
    if i > 0 && !is_char_boundary(b, i) {
        lemma_boundary_to(b, i - 1);
    }
}

/// Stepping forward lands on the nearest boundary to the right.
pub proof fn lemma_next_boundary(b: Seq<u8>, i: int)
    requires
        valid_utf8(b),
        0 <= i < b.len(),
    ensures
        i < next_boundary(b, i) <= b.len(),
        is_char_boundary(b, next_boundary(b, i)),
        forall|q: int| i < q < next_boundary(b, i) ==> !is_char_boundary(b, q),
{
    lemma_boundary_from(b, i + 1);
}

/// Stepping back lands on the nearest boundary to the left.
pub proof fn lemma_prev_boundary(b: Seq<u8>, i: int)
    requires
        valid_utf8(b),
        0 < i,
    ensures
        0 <= prev_boundary(b, i) < i,
        prev_boundary(b, i) <= b.len(),
        is_char_boundary(b, prev_boundary(b, i)),
        forall|q: int| prev_boundary(b, i) < q < i ==> !is_char_boundary(b, q),
{
    lemma_boundary_to(b, i - 1);
}

/// Stepping from within a text stays within it, whatever its bytes are.
pub proof fn lemma_boundaries_in_bounds(b: Seq<u8>, i: int)
    requires
        0 <= i <= b.len(),
    ensures
        0 <= prev_boundary(b, i) <= i,
        i <= next_boundary(b, i) <= b.len(),
{
    if i > 0 {
        lemma_boundary_to_in_bounds(b, i - 1);
    }
    if i < b.len() {
        lemma_boundary_from_in_bounds(b, i + 1);
    }
}

proof fn lemma_boundary_to_in_bounds(b: Seq<u8>, i: int)
    requires
        0 <= i,
    ensures
        0 <= boundary_to(b, i) <= i,
    decreases i,
{
    if i > 0 {
        lemma_boundary_to_in_bounds(b, i - 1);
    }
}

proof fn lemma_boundary_from_in_bounds(b: Seq<u8>, i: int)
    requires
        i <= b.len(),
    ensures
        i <= boundary_from(b, i) <= b.len(),
    decreases b.len() - i,
{
    if i < b.len() {
        lemma_boundary_from_in_bounds(b, i + 1);
    }
}

/// Stepping forward and then back returns to where the step began.
pub proof fn law_prev_undoes_next(b: Seq<u8>, i: int)
    requires
        valid_utf8(b),
        is_char_boundary(b, i),
        0 <= i < b.len(),
    ensures
        prev_boundary(b, next_boundary(b, i)) == i,
{
    lemma_next_boundary(b, i);
    lemma_prev_boundary(b, next_boundary(b, i));
}

/// Stepping back and then forward returns to where the step began.
pub proof fn law_next_undoes_prev(b: Seq<u8>, i: int)
    requires
        valid_utf8(b),
        is_char_boundary(b, i),
        0 < i <= b.len(),
    ensures
        next_boundary(b, prev_boundary(b, i)) == i,
{
    lemma_prev_boundary(b, i);
    lemma_next_boundary(b, prev_boundary(b, i));
}

/// `advance` stays on boundaries, never moves back and never leaves the text.
pub proof fn lemma_advance(b: Seq<u8>, i: int, n: nat)
    requires
        valid_utf8(b),
        is_char_boundary(b, i),
        0 <= i <= b.len(),
    ensures
        i <= advance(b, i, n) <= b.len(),
        is_char_boundary(b, advance(b, i, n)),
    decreases n,
{
    is_char_boundary_start_end_of_seq(b);
    if n > 0 {
        if i < b.len() {
            lemma_next_boundary(b, i);
        }
        lemma_advance(b, next_boundary(b, i), (n - 1) as nat);
    }
}

/// Stepping over `m` and then `n` characters is stepping over `m + n`.
pub proof fn lemma_advance_add(b: Seq<u8>, i: int, m: nat, n: nat)
    ensures
        advance(b, advance(b, i, m), n) == advance(b, i, m + n),
    decreases m,
{
    if m > 0 {
        lemma_advance_add(b, next_boundary(b, i), (m - 1) as nat, n);
        assert((m - 1) as nat + n == (m + n - 1) as nat);
    }
}

/// Stepping over as many characters as start in `from..to` reaches `to`.
pub proof fn lemma_advance_char_count(b: Seq<u8>, from: int, to: int)
    requires
        valid_utf8(b),
        0 <= from <= to <= b.len(),
        is_char_boundary(b, from),
        is_char_boundary(b, to),
    ensures
        advance(b, from, char_count(b, from, to)) == to,
    decreases to - from,
{
    if from < to {
        lemma_prev_boundary(b, to);
        let p = prev_boundary(b, to);
        assert(from <= p);
        lemma_advance_char_count(b, from, p);
        lemma_char_count_gap(b, from, p + 1, to);
        assert(char_count(b, from, to) == char_count(b, from, p) + 1);
        lemma_advance_add(b, from, char_count(b, from, p), 1);
        law_next_undoes_prev(b, to);
        assert(advance(b, p, 1) == next_boundary(b, p)) by {
            reveal_with_fuel(advance, 2);
        }
    }
}

/// A stretch without boundaries adds no characters.
pub proof fn lemma_char_count_gap(b: Seq<u8>, from: int, mid: int, to: int)
    requires
        from <= mid <= to,
        forall|q: int| mid <= q < to ==> !is_char_boundary(b, q),
    ensures
        char_count(b, from, to) == char_count(b, from, mid),
    decreases to - mid,
{
    if mid < to {
        lemma_char_count_gap(b, from, mid, to - 1);
    }
}

/// Characters can be counted from the left.
pub proof fn lemma_char_count_left(b: Seq<u8>, from: int, to: int)
    requires
        from < to,
    ensures
        char_count(b, from, to) == char_count(b, from + 1, to) + if is_char_boundary(b, from) {
            1nat
        } else {
            0nat
        },
    decreases to - from,
{
    if from + 1 < to {
        lemma_char_count_left(b, from, to - 1);
    } else {
        reveal_with_fuel(char_count, 2);
    }
}

// ---------------------------------------------------------------------------
// Boundaries and characters
// ---------------------------------------------------------------------------

/// The byte offset at which character `k` of a text starts; behind its last character that is
/// the end of the text.
pub open spec fn char_offset(cs: Seq<char>, k: int) -> int {
    encode_utf8(cs.take(k)).len() as int
}

/// A text falls into its first `k` characters and the rest, and so do its bytes.
pub proof fn lemma_char_offset(cs: Seq<char>, k: int)
    requires
        0 <= k <= cs.len(),
    ensures
        valid_utf8(encode_utf8(cs)),
        0 <= char_offset(cs, k) <= encode_utf8(cs).len(),
        is_char_boundary(encode_utf8(cs), char_offset(cs, k)),
        encode_utf8(cs).take(char_offset(cs, k)) == encode_utf8(cs.take(k)),
        encode_utf8(cs).skip(char_offset(cs, k)) == encode_utf8(cs.skip(k)),
        k == 0 ==> char_offset(cs, k) == 0,
        k == cs.len() ==> char_offset(cs, k) == encode_utf8(cs).len(),
{
    encode_utf8_valid_utf8(cs);
    textbuf::lemma_encode_concat(cs.take(k), cs.skip(k));
    textbuf::lemma_join_boundary(cs.take(k), cs.skip(k));
    assert(cs.take(k) + cs.skip(k) =~= cs);
    let off = char_offset(cs, k);
    assert(encode_utf8(cs).take(off) =~= encode_utf8(cs.take(k)));
    assert(encode_utf8(cs).skip(off) =~= encode_utf8(cs.skip(k)));
    if k == cs.len() {
        assert(cs.take(k) =~= cs);
    }
}

/// The boundaries of a text are the offsets at which its characters start, one after another:
/// a step forward goes from a character to the next, a step back to the one before, and the
/// ends of the text stay put.
pub proof fn law_steps_go_by_characters(cs: Seq<char>, k: int)
    requires
        0 <= k <= cs.len(),
    ensures
        k < cs.len() ==> char_offset(cs, k) < char_offset(cs, k + 1),
        next_boundary(encode_utf8(cs), char_offset(cs, k)) == (if k < cs.len() {
            char_offset(cs, k + 1)
        } else {
            char_offset(cs, k)
        }),
        prev_boundary(encode_utf8(cs), char_offset(cs, k)) == (if k > 0 {
            char_offset(cs, k - 1)
        } else {
            0
        }),
{
    lemma_char_offset(cs, k);
    if k < cs.len() {
        lemma_step_to_next_character(cs, k);
    }
    if k > 0 {
        lemma_char_offset(cs, k - 1);
        lemma_step_to_next_character(cs, k - 1);
        law_prev_undoes_next(encode_utf8(cs), char_offset(cs, k - 1));
    }
}

proof fn lemma_step_to_next_character(cs: Seq<char>, k: int)
    requires
        0 <= k < cs.len(),
    ensures
        char_offset(cs, k) < char_offset(cs, k + 1),
        next_boundary(encode_utf8(cs), char_offset(cs, k)) == char_offset(cs, k + 1),
{
    let b = encode_utf8(cs);
    let from = char_offset(cs, k);
    let to = char_offset(cs, k + 1);
    lemma_char_offset(cs, k);
    lemma_char_offset(cs, k + 1);
    let rest = cs.skip(k);
    let tail = encode_utf8(rest);
    encode_utf8_valid_utf8(rest);
    encode_utf8_first_scalar(rest);
    let width = length_of_first_scalar(tail);
    assert(cs.take(k + 1) =~= cs.take(k) + seq![cs[k]]);
    textbuf::lemma_encode_concat(cs.take(k), seq![cs[k]]);
    assert(rest.drop_first() =~= cs.skip(k + 1));
    assert(rest[0] == cs[k]);
    assert(seq![cs[k]].drop_first() =~= Seq::empty());
    assert(encode_utf8(seq![cs[k]]) =~= encode_scalar(cs[k] as u32)) by {
        reveal_with_fuel(encode_utf8, 2);
    }
    assert(to - from == width);
    assert forall|q: int| from < q < to implies !is_char_boundary(b, q) by {
        assert(!is_char_boundary(tail, q - from)) by {
            assert(pop_first_scalar(tail).len() >= 0);
            reveal_with_fuel(is_char_boundary, 2);
        }
        is_char_boundary_iff_not_is_continuation_byte(tail, q - from);
        is_char_boundary_iff_not_is_continuation_byte(b, q);
        assert(tail[q - from] == b.skip(from)[q - from]);
    }
    lemma_next_boundary(b, from);
}

/// Every boundary is where some character starts, or the end of the text.
pub proof fn lemma_boundary_is_a_character(cs: Seq<char>, i: int) -> (k: int)
    requires
        0 <= i <= encode_utf8(cs).len(),
        is_char_boundary(encode_utf8(cs), i),
    ensures
        0 <= k <= cs.len(),
        char_offset(cs, k) == i,
{
    lemma_character_from(cs, i, 0)
}

proof fn lemma_character_from(cs: Seq<char>, i: int, from: int) -> (k: int)
    requires
        0 <= from <= cs.len(),
        char_offset(cs, from) <= i <= encode_utf8(cs).len(),
        is_char_boundary(encode_utf8(cs), i),
    ensures
        from <= k <= cs.len(),
        char_offset(cs, k) == i,
    decreases cs.len() - from,
{
    lemma_char_offset(cs, from);
    if char_offset(cs, from) == i {
        from
    } else {
        law_steps_go_by_characters(cs, from);
        lemma_next_boundary(encode_utf8(cs), char_offset(cs, from));
        lemma_character_from(cs, i, from + 1)
    }
}

/// Characters further on start further on.
pub proof fn lemma_char_offset_order(cs: Seq<char>, i: int, j: int)
    requires
        0 <= i <= j <= cs.len(),
    ensures
        char_offset(cs, i) <= char_offset(cs, j),
        i < j ==> char_offset(cs, i) < char_offset(cs, j),
    decreases j - i,
{
    if i < j {
        lemma_char_offset_order(cs, i, j - 1);
        law_steps_go_by_characters(cs, j - 1);
    }
}

/// Between two characters lie as many as their places say.
pub proof fn law_characters_are_counted_one_by_one(cs: Seq<char>, i: int, j: int)
    requires
        0 <= i <= j <= cs.len(),
    ensures
        char_count(encode_utf8(cs), char_offset(cs, i), char_offset(cs, j)) == j - i,
    decreases j - i,
{
    if i < j {
        let b = encode_utf8(cs);
        law_characters_are_counted_one_by_one(cs, i, j - 1);
        lemma_char_offset_order(cs, i, j - 1);
        lemma_char_offset(cs, j - 1);
        law_steps_go_by_characters(cs, j - 1);
        let last = char_offset(cs, j - 1);
        lemma_next_boundary(b, last);
        lemma_char_count_gap(b, char_offset(cs, i), last + 1, char_offset(cs, j));
    }
}

/// `n` steps forward go `n` characters on, or to the end of the text.
pub proof fn law_advance_goes_by_characters(cs: Seq<char>, k: int, n: nat)
    requires
        0 <= k <= cs.len(),
    ensures
        advance(encode_utf8(cs), char_offset(cs, k), n) == char_offset(
            cs,
            min_int(k + n, cs.len() as int),
        ),
    decreases n,
{
    if n > 0 {
        law_steps_go_by_characters(cs, k);
        law_advance_goes_by_characters(cs, min_int(k + 1, cs.len() as int), (n - 1) as nat);
    }
}

/// Replacing the bytes from one character up to another replaces those characters.
pub proof fn law_splices_go_by_characters(cs: Seq<char>, i: int, j: int, insert: Seq<char>)
    requires
        0 <= i <= j <= cs.len(),
    ensures
        textbuf::spliced(
            encode_utf8(cs),
            char_offset(cs, i),
            char_offset(cs, j),
            encode_utf8(insert),
        ) == encode_utf8(cs.take(i) + insert + cs.skip(j)),
        char_offset(cs.take(i) + insert + cs.skip(j), i + insert.len()) == char_offset(cs, i)
            + encode_utf8(insert).len(),
{
    lemma_char_offset(cs, i);
    lemma_char_offset(cs, j);
    textbuf::lemma_encode_concat(cs.take(i), insert);
    textbuf::lemma_encode_concat(cs.take(i) + insert, cs.skip(j));
    assert((cs.take(i) + insert + cs.skip(j)).take(i + insert.len()) =~= cs.take(i) + insert);
}

/// Texts with the same bytes are the same text.
pub proof fn lemma_same_bytes_same_text(a: Seq<char>, b: Seq<char>)
    requires
        encode_utf8(a) == encode_utf8(b),
    ensures
        a == b,
{
    encode_utf8_decode_utf8(a);
    encode_utf8_decode_utf8(b);
}

// ---------------------------------------------------------------------------
// Lines
// ---------------------------------------------------------------------------

/// The newline byte.
pub open spec fn is_newline(byte: u8) -> bool {
    byte == 10
}

/// How many newlines a stretch of text holds.
pub open spec fn newlines(b: Seq<u8>) -> nat
    decreases b.len(),
{
    if b.len() == 0 {
        0
    } else {
        newlines(b.drop_last()) + if is_newline(b.last()) {
            1nat
        } else {
            0nat
        }
    }
}

/// The first newline at or after `i`, or the end of the text.
pub open spec fn break_from(b: Seq<u8>, i: int) -> int
    decreases b.len() - i,
{
    if i >= b.len() {
        b.len() as int
    } else if is_newline(b[i]) {
        i
    } else {
        break_from(b, i + 1)
    }
}

/// Where a line starts: line 0 at the start of the text, any other just past the newline
/// that ends the line before it. A line past the last one starts at the end of the text.
pub open spec fn line_start(b: Seq<u8>, line: nat) -> int
    decreases line,
{
    if line == 0 {
        0
    } else {
        min_int(break_from(b, line_start(b, (line - 1) as nat)) + 1, b.len() as int)
    }
}

/// Where a line ends: at its newline, or at the end of the text.
pub open spec fn line_end(b: Seq<u8>, line: nat) -> int {
    break_from(b, line_start(b, line))
}

/// The line that holds byte offset `i`: as many newlines stand before it.
pub open spec fn line_of(b: Seq<u8>, i: int) -> nat {
    newlines(b.take(min_int(i, b.len() as int)))
}

/// The number of lines: none in an empty text, otherwise one more than the newlines.
pub open spec fn line_count(b: Seq<u8>) -> nat {
    if b.len() == 0 {
        0
    } else {
        newlines(b) + 1
    }
}

/// The column of byte offset `i`: the characters between the start of its line and it.
pub open spec fn col_of(b: Seq<u8>, i: int) -> nat {
    char_count(b, line_start(b, line_of(b, i)), min_int(i, b.len() as int))
}

/// The offset of column `col` on a line: that many characters in, but never past the
/// last character of the line.
pub open spec fn offset_at(b: Seq<u8>, line: nat, col: nat) -> int {
    let start = line_start(b, line);
    let end = line_end(b, line);
    if start >= end {
        start
    } else {
        min_int(advance(b, start, col), prev_boundary(b, end))
    }
}

pub proof fn lemma_break_from(b: Seq<u8>, i: int)
    requires
        0 <= i <= b.len(),
    ensures
        i <= break_from(b, i) <= b.len(),
        break_from(b, i) < b.len() ==> is_newline(b[break_from(b, i)]),
        forall|q: int| i <= q < break_from(b, i) ==> !is_newline(#[trigger] b[q]),
    decreases b.len() - i,
{
    if i < b.len() && !is_newline(b[i]) {
        lemma_break_from(b, i + 1);
    }
}

/// Skipping a stretch without newlines leaves the next break where it was.
pub proof fn lemma_break_from_skip(b: Seq<u8>, i: int, j: int)
    requires
        0 <= i <= j <= b.len(),
        forall|q: int| i <= q < j ==> !is_newline(#[trigger] b[q]),
    ensures
        break_from(b, i) == break_from(b, j),
    decreases j - i,
{
    if i < j {
        lemma_break_from_skip(b, i + 1, j);
    }
}

pub proof fn lemma_line_bounds(b: Seq<u8>, line: nat)
    ensures
        0 <= line_start(b, line) <= line_end(b, line) <= b.len(),
    decreases line,
{
    if line > 0 {
        lemma_line_bounds(b, (line - 1) as nat);
    }
    lemma_break_from(b, line_start(b, line));
}

/// Later lines start and end no earlier.
pub proof fn lemma_line_order(b: Seq<u8>, line: nat, later: nat)
    requires
        line <= later,
    ensures
        line_start(b, line) <= line_start(b, later),
        line_start(b, line) <= line_end(b, later),
    decreases later,
{
    lemma_line_bounds(b, later);
    if line < later {
        lemma_line_order(b, line, (later - 1) as nat);
        lemma_line_bounds(b, (later - 1) as nat);
    }
}

/// Once a line ends at the end of the text, every later line is empty there.
pub proof fn lemma_lines_past_end(b: Seq<u8>, line: nat, later: nat)
    requires
        line < later,
        line_end(b, line) == b.len(),
    ensures
        line_start(b, later) == b.len(),
        line_end(b, later) == b.len(),
    decreases later,
{
    if line < later - 1 {
        lemma_lines_past_end(b, line, (later - 1) as nat);
    }
}

/// The ends of a line are character boundaries.
pub proof fn lemma_line_boundaries(b: Seq<u8>, line: nat)
    requires
        valid_utf8(b),
    ensures
        is_char_boundary(b, line_start(b, line)),
        is_char_boundary(b, line_end(b, line)),
    decreases line,
{
    is_char_boundary_start_end_of_seq(b);
    lemma_line_bounds(b, line);
    if line > 0 {
        let prior = (line - 1) as nat;
        lemma_line_boundaries(b, prior);
        lemma_line_bounds(b, prior);
        let e = line_end(b, prior);
        lemma_break_from(b, line_start(b, prior));
        if e < b.len() {
            lemma_after_newline(b, e);
        }
    }
    let start = line_start(b, line);
    let e = line_end(b, line);
    lemma_break_from(b, start);
    if e < b.len() {
        is_char_boundary_iff_not_is_continuation_byte(b, e);
    }
}

/// Just past an ASCII byte lies a character boundary.
pub proof fn lemma_after_ascii(b: Seq<u8>, i: int)
    requires
        valid_utf8(b),
        0 <= i < b.len(),
        b[i] < 128,
    ensures
        is_char_boundary(b, i),
        is_char_boundary(b, i + 1),
        next_boundary(b, i) == i + 1,
{
    is_char_boundary_start_end_of_seq(b);
    is_char_boundary_iff_not_is_continuation_byte(b, i);
    let tail = b.subrange(i, b.len() as int);
    valid_utf8_split(b, i);
    assert(tail[0] == b[i]);
    assert(valid_first_scalar(tail));
    assert(length_of_first_scalar(tail) == 1);
    let rest = pop_first_scalar(tail);
    if i + 1 < b.len() {
        assert(valid_utf8(rest));
        assert(rest[0] == b[i + 1]);
        assert(valid_first_scalar(rest));
        is_char_boundary_iff_not_is_continuation_byte(b, i + 1);
    }
}

/// Just past a newline lies a character boundary.
pub proof fn lemma_after_newline(b: Seq<u8>, i: int)
    requires
        valid_utf8(b),
        0 <= i < b.len(),
        is_newline(b[i]),
    ensures
        is_char_boundary(b, i),
        is_char_boundary(b, i + 1),
{
    lemma_after_ascii(b, i);
}

/// A stretch without newlines adds none to the count of its prefix.
pub proof fn lemma_newlines_gap(b: Seq<u8>, i: int, j: int)
    requires
        0 <= i <= j <= b.len(),
        forall|q: int| i <= q < j ==> !is_newline(#[trigger] b[q]),
    ensures
        newlines(b.take(i)) == newlines(b.take(j)),
    decreases j - i,
{
    if i < j {
        lemma_newlines_gap(b, i, j - 1);
        assert(b.take(j).drop_last() =~= b.take(j - 1));
        assert(b.take(j).last() == b[j - 1]);
    }
}

/// One byte further, the count grows by one if that byte is a newline.
pub proof fn lemma_newlines_step(b: Seq<u8>, i: int)
    requires
        0 <= i < b.len(),
    ensures
        newlines(b.take(i + 1)) == newlines(b.take(i)) + if is_newline(b[i]) {
            1nat
        } else {
            0nat
        },
{
    assert(b.take(i + 1).drop_last() =~= b.take(i));
    assert(b.take(i + 1).last() == b[i]);
}

/// The count never falls along the text.
pub proof fn lemma_newlines_monotone(b: Seq<u8>, i: int, j: int)
    requires
        0 <= i <= j <= b.len(),
    ensures
        newlines(b.take(i)) <= newlines(b.take(j)),
    decreases j - i,
{
    if i < j {
        lemma_newlines_monotone(b, i, j - 1);
        lemma_newlines_step(b, j - 1);
    }
}

/// A text holds no more newlines than bytes.
pub proof fn lemma_newlines_bound(b: Seq<u8>)
    ensures
        newlines(b) <= b.len(),
    decreases b.len(),
{
    if b.len() > 0 {
        lemma_newlines_bound(b.drop_last());
    }
}

/// Every offset lies within the line that `line_of` names.
pub proof fn law_offset_within_its_line(b: Seq<u8>, i: int)
    requires
        0 <= i <= b.len(),
    ensures
        line_start(b, line_of(b, i)) <= i <= line_end(b, line_of(b, i)),
    decreases i,
{
    let line = line_of(b, i);
    if i == 0 {
        assert(b.take(0).len() == 0);
        lemma_line_bounds(b, line);
    } else {
        law_offset_within_its_line(b, i - 1);
        lemma_newlines_step(b, i - 1);
        let prior = line_of(b, i - 1);
        let start = line_start(b, prior);
        lemma_line_bounds(b, prior);
        lemma_break_from(b, start);
        if is_newline(b[i - 1]) {
            assert(break_from(b, start) == i - 1);
            assert(line == prior + 1);
            assert(line_start(b, line) == i);
            lemma_break_from(b, i);
        } else {
            assert(break_from(b, start) >= i);
        }
    }
}

/// The start of a line belongs to that line, as long as the text has so many lines.
pub proof fn law_line_of_line_start(b: Seq<u8>, line: nat)
    requires
        line <= newlines(b),
    ensures
        line_of(b, line_start(b, line)) == line,
    decreases line,
{
    assert(b.take(b.len() as int) =~= b);
    if line == 0 {
        assert(b.take(0).len() == 0);
    } else {
        let prior = (line - 1) as nat;
        law_line_of_line_start(b, prior);
        lemma_line_bounds(b, prior);
        let start = line_start(b, prior);
        let end = line_end(b, prior);
        lemma_break_from(b, start);
        lemma_newlines_gap(b, start, end);
        assert(newlines(b.take(end)) == prior);
        assert(end < b.len());
        lemma_newlines_step(b, end);
    }
}

/// A line's end belongs to the line too.
pub proof fn law_line_of_line_end(b: Seq<u8>, line: nat)
    requires
        line <= newlines(b),
    ensures
        line_of(b, line_end(b, line)) == line,
{
    law_line_of_line_start(b, line);
    lemma_line_bounds(b, line);
    lemma_break_from(b, line_start(b, line));
    lemma_newlines_gap(b, line_start(b, line), line_end(b, line));
}

/// Line and column address the character they were taken from, or the start of an empty line.
pub proof fn law_offset_at_inverts_line_and_col(b: Seq<u8>, i: int)
    requires
        valid_utf8(b),
        is_char_boundary(b, i),
        0 <= i <= b.len(),
        i < line_end(b, line_of(b, i)) || line_start(b, line_of(b, i)) == line_end(
            b,
            line_of(b, i),
        ),
    ensures
        offset_at(b, line_of(b, i), col_of(b, i)) == i,
{
    let line = line_of(b, i);
    lemma_line_bounds(b, line);
    law_offset_within_its_line(b, i);
    lemma_line_boundaries(b, line);
    if i < line_end(b, line) {
        lemma_advance_char_count(b, line_start(b, line), i);
        lemma_prev_boundary(b, line_end(b, line));
    }
}

/// The lines of a text, without their newlines. There is one more than there are newlines: an
/// empty text has one line, which is empty.
pub open spec fn lines(b: Seq<u8>) -> Seq<Seq<u8>> {
    Seq::new(
        newlines(b) + 1,
        |k: int| b.subrange(line_start(b, k as nat), line_end(b, k as nat)),
    )
}

/// Lines with a newline between each two.
pub open spec fn joined(parts: Seq<Seq<u8>>) -> Seq<u8>
    decreases parts.len(),
{
    if parts.len() == 0 {
        Seq::empty()
    } else if parts.len() == 1 {
        parts[0]
    } else {
        joined(parts.drop_last()) + seq![10u8] + parts.last()
    }
}

/// Behind every line but the last stands a newline, and behind that the next line.
pub proof fn lemma_line_break(b: Seq<u8>, line: nat)
    requires
        line < newlines(b),
    ensures
        line_end(b, line) < b.len(),
        is_newline(b[line_end(b, line)]),
        line_start(b, line + 1) == line_end(b, line) + 1,
{
    law_line_of_line_end(b, line);
    lemma_line_bounds(b, line);
    lemma_break_from(b, line_start(b, line));
    assert(b.take(b.len() as int) =~= b);
}

/// The last line ends with the text.
pub proof fn lemma_last_line_ends(b: Seq<u8>)
    ensures
        line_end(b, newlines(b)) == b.len(),
{
    let end = line_end(b, newlines(b));
    law_line_of_line_end(b, newlines(b));
    lemma_line_bounds(b, newlines(b));
    lemma_break_from(b, line_start(b, newlines(b)));
    if end < b.len() {
        lemma_newlines_step(b, end);
        lemma_newlines_monotone(b, end + 1, b.len() as int);
        assert(b.take(b.len() as int) =~= b);
    }
}

/// Joining the lines from `from` up to `to` gives the stretch of text that they take up.
pub proof fn lemma_joined_lines(b: Seq<u8>, from: int, to: int)
    requires
        0 <= from < to <= newlines(b) + 1,
    ensures
        joined(lines(b).subrange(from, to)) == b.subrange(
            line_start(b, from as nat),
            line_end(b, (to - 1) as nat),
        ),
    decreases to,
{
    let parts = lines(b).subrange(from, to);
    let last = (to - 1) as nat;
    lemma_line_bounds(b, last);
    if to - from > 1 {
        lemma_joined_lines(b, from, to - 1);
        lemma_line_break(b, (to - 2) as nat);
        lemma_line_order(b, from as nat, (to - 2) as nat);
        lemma_line_bounds(b, from as nat);
        lemma_line_bounds(b, (to - 2) as nat);
        assert(parts.drop_last() =~= lines(b).subrange(from, to - 1));
        let start = line_start(b, from as nat);
        let end = line_end(b, (to - 2) as nat);
        assert(b.subrange(start, end) + seq![10u8] + b.subrange(end + 1, line_end(b, last))
            =~= b.subrange(start, line_end(b, last)));
    }
}

/// A joined text splits where the parts do.
pub proof fn lemma_joined_concat(a: Seq<Seq<u8>>, c: Seq<Seq<u8>>)
    requires
        a.len() > 0,
        c.len() > 0,
    ensures
        joined(a + c) == joined(a) + seq![10u8] + joined(c),
    decreases c.len(),
{
    assert((a + c).drop_last() =~= a + c.drop_last());
    if c.len() == 1 {
        assert(a + c.drop_last() =~= a);
    } else {
        lemma_joined_concat(a, c.drop_last());
        assert(joined(a + c) =~= joined(a) + seq![10u8] + joined(c));
    }
}

/// Joining the lines of a text gives the text.
pub proof fn law_joining_the_lines_gives_the_text(b: Seq<u8>)
    ensures
        joined(lines(b)) == b,
{
    lemma_last_line_ends(b);
    lemma_joined_lines(b, 0, newlines(b) as int + 1);
    assert(lines(b).subrange(0, newlines(b) as int + 1) =~= lines(b));
    assert(b.subrange(0, b.len() as int) =~= b);
}

/// A line-and-column address stays within its line, on a character boundary.
pub proof fn law_offset_at_within_line(b: Seq<u8>, line: nat, col: nat)
    requires
        valid_utf8(b),
    ensures
        line_start(b, line) <= offset_at(b, line, col) <= line_end(b, line),
        is_char_boundary(b, offset_at(b, line, col)),
{
    lemma_line_bounds(b, line);
    lemma_line_boundaries(b, line);
    lemma_advance(b, line_start(b, line), col);
    if line_start(b, line) < line_end(b, line) {
        lemma_prev_boundary(b, line_end(b, line));
    }
}

/// A stretch of a text holds no more characters than its bytes, and stepping over `m` of those
/// that start in it counts `m`.
pub proof fn lemma_char_count_advance(b: Seq<u8>, from: int, to: int, m: nat)
    requires
        valid_utf8(b),
        0 <= from <= to <= b.len(),
        is_char_boundary(b, from),
        is_char_boundary(b, to),
        m <= char_count(b, from, to),
    ensures
        from <= advance(b, from, m) <= to,
        is_char_boundary(b, advance(b, from, m)),
        char_count(b, from, advance(b, from, m)) == m,
    decreases m,
{
    lemma_advance(b, from, m);
    if m > 0 {
        lemma_char_count_advance(b, from, to, (m - 1) as nat);
        let p = advance(b, from, (m - 1) as nat);
        assert(p < to);
        lemma_next_boundary(b, p);
        lemma_advance_add(b, from, (m - 1) as nat, 1);
        assert(advance(b, p, 1) == next_boundary(b, p)) by {
            reveal_with_fuel(advance, 2);
        }
        lemma_char_count_gap(b, from, p + 1, next_boundary(b, p));
    }
}

/// A line-and-column address lies on that line, at that column, or on the last character of a
/// line that is too short for it.
pub proof fn law_offset_at_finds_line_and_col(b: Seq<u8>, line: nat, col: nat)
    requires
        valid_utf8(b),
        line <= newlines(b),
    ensures
        line_of(b, offset_at(b, line, col)) == line,
        ({
            let length = char_count(b, line_start(b, line), line_end(b, line)) as int;
            col_of(b, offset_at(b, line, col)) == min_int(col as int, max_int(length - 1, 0))
        }),
{
    let start = line_start(b, line);
    let end = line_end(b, line);
    let at = offset_at(b, line, col);
    lemma_line_bounds(b, line);
    lemma_line_boundaries(b, line);
    law_line_of_line_start(b, line);
    law_offset_at_within_line(b, line, col);
    lemma_break_from(b, start);
    lemma_newlines_gap(b, start, at);
    if start < end {
        let length = char_count(b, start, end);
        lemma_advance_char_count(b, start, end);
        lemma_char_count_left(b, start, end);
        assert(length > 0);
        let last = (length - 1) as nat;
        lemma_char_count_advance(b, start, end, last);
        lemma_advance_add(b, start, last, 1);
        let p = advance(b, start, last);
        assert(advance(b, p, 1) == next_boundary(b, p)) by {
            reveal_with_fuel(advance, 2);
        }
        assert(next_boundary(b, p) == end);
        assert(p < b.len());
        law_prev_undoes_next(b, p);
        assert(prev_boundary(b, end) == p);
        if col <= last {
            lemma_char_count_advance(b, start, end, col);
            lemma_advance_add(b, start, col, (last - col) as nat);
            lemma_advance(b, advance(b, start, col), (last - col) as nat);
            assert(at == advance(b, start, col));
        } else {
            lemma_advance_add(b, start, last, (col - last) as nat);
            lemma_advance(b, p, (col - last) as nat);
            assert(at == p);
        }
    }
}

/// Any place on a line belongs to it.
pub proof fn lemma_line_of_within(b: Seq<u8>, line: nat, i: int)
    requires
        line <= newlines(b),
        line_start(b, line) <= i <= line_end(b, line),
    ensures
        line_of(b, i) == line,
{
    lemma_line_bounds(b, line);
    law_line_of_line_start(b, line);
    lemma_break_from(b, line_start(b, line));
    lemma_newlines_gap(b, line_start(b, line), i);
}

/// A line past the last is empty, at the end of the text, and so lies on the last.
pub proof fn lemma_line_past_the_last(b: Seq<u8>, line: nat)
    requires
        line > newlines(b),
    ensures
        line_start(b, line) == b.len(),
        line_end(b, line) == b.len(),
        line_of(b, b.len() as int) == newlines(b),
{
    lemma_last_line_ends(b);
    lemma_lines_past_end(b, newlines(b), line);
    assert(b.take(b.len() as int) =~= b);
}

// ---------------------------------------------------------------------------
// Blanks
// ---------------------------------------------------------------------------

/// The ASCII whitespace bytes: space, tab, newline, form feed, carriage return.
pub open spec fn is_blank(byte: u8) -> bool {
    byte == 32 || byte == 9 || byte == 10 || byte == 12 || byte == 13
}

/// The ASCII whitespace characters.
pub open spec fn is_blank_char(c: char) -> bool {
    c == ' ' || c == '\t' || c == '\n' || c == '\x0c' || c == '\r'
}

/// The first byte of `from..to` that is not blank, or `to`.
pub open spec fn non_blank_from(b: Seq<u8>, from: int, to: int) -> int
    decreases to - from,
{
    if from >= to {
        to
    } else if !is_blank(b[from]) {
        from
    } else {
        non_blank_from(b, from + 1, to)
    }
}

/// The first non-blank offset of a line, or the line's end if it is all blank.
pub open spec fn first_non_blank(b: Seq<u8>, line: nat) -> int {
    non_blank_from(b, line_start(b, line), line_end(b, line))
}

/// The last character of `from..to` that is not blank, or `from`.
pub open spec fn last_non_blank(b: Seq<u8>, from: int, to: int) -> int
    decreases to,
{
    if to <= from || to <= 0 {
        from
    } else {
        let p = prev_boundary(b, to);
        if p < 0 || p >= to || p < from {
            from
        } else if !is_blank(b[p]) {
            p
        } else {
            last_non_blank(b, from, p)
        }
    }
}

pub proof fn lemma_non_blank_from(b: Seq<u8>, from: int, to: int)
    requires
        0 <= from <= to <= b.len(),
    ensures
        from <= non_blank_from(b, from, to) <= to,
        non_blank_from(b, from, to) < to ==> !is_blank(b[non_blank_from(b, from, to)]),
        forall|q: int| from <= q < non_blank_from(b, from, to) ==> is_blank(#[trigger] b[q]),
    decreases to - from,
{
    if from < to && is_blank(b[from]) {
        lemma_non_blank_from(b, from + 1, to);
    }
}

/// A stretch of blanks from a boundary ends on a boundary.
pub proof fn lemma_blanks_keep_boundary(b: Seq<u8>, from: int, to: int)
    requires
        valid_utf8(b),
        0 <= from <= to <= b.len(),
        is_char_boundary(b, from),
        forall|q: int| from <= q < to ==> is_blank(#[trigger] b[q]),
    ensures
        is_char_boundary(b, to),
    decreases to - from,
{
    if from < to {
        lemma_after_ascii(b, to - 1);
    }
}

/// The first non-blank of a line lies on a boundary within it.
pub proof fn lemma_first_non_blank(b: Seq<u8>, line: nat)
    requires
        valid_utf8(b),
    ensures
        line_start(b, line) <= first_non_blank(b, line) <= line_end(b, line),
        is_char_boundary(b, first_non_blank(b, line)),
{
    lemma_line_bounds(b, line);
    lemma_line_boundaries(b, line);
    let start = line_start(b, line);
    let end = line_end(b, line);
    lemma_non_blank_from(b, start, end);
    lemma_blanks_keep_boundary(b, start, first_non_blank(b, line));
}

pub proof fn lemma_last_non_blank(b: Seq<u8>, from: int, to: int)
    requires
        valid_utf8(b),
        0 <= from <= to <= b.len(),
        is_char_boundary(b, from),
    ensures
        from <= last_non_blank(b, from, to) <= to,
        is_char_boundary(b, last_non_blank(b, from, to)),
        from < to ==> last_non_blank(b, from, to) < to,
    decreases to,
{
    if from < to {
        lemma_prev_boundary(b, to);
        let p = prev_boundary(b, to);
        assert(p >= from);
        if is_blank(b[p]) {
            lemma_last_non_blank(b, from, p);
        }
    }
}

// ---------------------------------------------------------------------------
// Words
// ---------------------------------------------------------------------------

/// Whether Unicode counts a character as a letter or a number, as `char::is_alphanumeric`
/// reports it.
pub uninterp spec fn alphanumeric(c: char) -> bool;

/// `char::is_alphanumeric`: the Unicode alphabetic property or a numeric category. Among
/// the ASCII characters those are the letters and the digits; beyond ASCII the answer is
/// only named.
pub assume_specification[ char::is_alphanumeric ](c: char) -> (r: bool)
    ensures
        r == alphanumeric(c),
        (c as u32) < 128 ==> r == ('0' <= c <= '9' || 'A' <= c <= 'Z' || 'a' <= c <= 'z'),
;

/// The word class of a character.
pub open spec fn class_of(c: char, style: WordStyle) -> CharClass {
    if is_blank_char(c) {
        CharClass::Whitespace
    } else if style == WordStyle::Big {
        CharClass::Keyword
    } else if alphanumeric(c) || c == '_' {
        CharClass::Keyword
    } else {
        CharClass::Punctuation
    }
}

/// The word class of the character at boundary `i`.
pub open spec fn class_at(b: Seq<u8>, i: int, style: WordStyle) -> CharClass {
    class_of(char_at(b, i), style)
}

/// A word starts at `i`: a non-blank character that opens the text or follows a
/// character of another class.
pub open spec fn is_word_start(b: Seq<u8>, i: int, style: WordStyle) -> bool {
    &&& 0 <= i < b.len()
    &&& is_char_boundary(b, i)
    &&& class_at(b, i, style) != CharClass::Whitespace
    &&& (i > 0 ==> class_at(b, prev_boundary(b, i), style) != class_at(b, i, style))
}

/// A word's last character stands at `i`: a non-blank character that closes the text or
/// precedes a character of another class.
pub open spec fn is_word_end(b: Seq<u8>, i: int, style: WordStyle) -> bool {
    &&& 0 <= i < b.len()
    &&& is_char_boundary(b, i)
    &&& class_at(b, i, style) != CharClass::Whitespace
    &&& (next_boundary(b, i) < b.len() ==> class_at(b, next_boundary(b, i), style) != class_at(
        b,
        i,
        style,
    ))
}

/// The first word start at or after `i`, or the end of the text.
pub open spec fn word_start_from(b: Seq<u8>, i: int, style: WordStyle) -> int
    decreases b.len() - i,
{
    if i >= b.len() {
        b.len() as int
    } else if is_word_start(b, i, style) {
        i
    } else {
        word_start_from(b, i + 1, style)
    }
}

/// The last word start before `i`, or the start of the text.
pub open spec fn word_start_before(b: Seq<u8>, i: int, style: WordStyle) -> int
    decreases i,
{
    if i <= 0 {
        0
    } else if is_word_start(b, i - 1, style) {
        i - 1
    } else {
        word_start_before(b, i - 1, style)
    }
}

/// The first word end at or after `i`, or the end of the text.
pub open spec fn word_end_from(b: Seq<u8>, i: int, style: WordStyle) -> int
    decreases b.len() - i,
{
    if i >= b.len() {
        b.len() as int
    } else if is_word_end(b, i, style) {
        i
    } else {
        word_end_from(b, i + 1, style)
    }
}

/// One `w`: to the next word start.
pub open spec fn word_forward_once(b: Seq<u8>, i: int, style: WordStyle) -> int {
    if i >= b.len() {
        i
    } else {
        word_start_from(b, i + 1, style)
    }
}

/// `count` times `w`.
pub open spec fn word_forward(b: Seq<u8>, i: int, style: WordStyle, count: nat) -> int
    decreases count,
{
    if count == 0 {
        i
    } else {
        word_forward(b, word_forward_once(b, i, style), style, (count - 1) as nat)
    }
}

/// `count` times `b`.
pub open spec fn word_backward(b: Seq<u8>, i: int, style: WordStyle, count: nat) -> int
    decreases count,
{
    if count == 0 {
        i
    } else {
        word_backward(b, word_start_before(b, i, style), style, (count - 1) as nat)
    }
}

/// One `e`: to the next word end.
pub open spec fn word_end_once(b: Seq<u8>, i: int, style: WordStyle) -> int {
    if i >= b.len() {
        i
    } else {
        word_end_from(b, i + 1, style)
    }
}

/// `count` times `e`.
pub open spec fn word_end(b: Seq<u8>, i: int, style: WordStyle, count: nat) -> int
    decreases count,
{
    if count == 0 {
        i
    } else {
        word_end(b, word_end_once(b, i, style), style, (count - 1) as nat)
    }
}

/// `count` times `e`, held back to the last character of the text or, where the search began
/// past that one, to where it began.
pub open spec fn word_end_clamped(b: Seq<u8>, i: int, style: WordStyle, count: nat) -> int {
    if b.len() == 0 {
        0
    } else {
        min_int(
            word_end(b, i, style, count),
            max_int(prev_boundary(b, b.len() as int), i),
        )
    }
}

/// The first word start is where the search first succeeds.
pub proof fn lemma_word_start_from_is(b: Seq<u8>, i: int, r: int, style: WordStyle)
    requires
        0 <= i <= r <= b.len(),
        forall|q: int| i <= q < r ==> !is_word_start(b, q, style),
        r < b.len() ==> is_word_start(b, r, style),
    ensures
        word_start_from(b, i, style) == r,
    decreases r - i,
{
    if i < r {
        lemma_word_start_from_is(b, i + 1, r, style);
    }
}

/// The last word start is where the backward search first succeeds.
pub proof fn lemma_word_start_before_is(b: Seq<u8>, i: int, r: int, style: WordStyle)
    requires
        0 <= r < i,
        forall|q: int| r < q < i ==> !is_word_start(b, q, style),
        r > 0 ==> is_word_start(b, r, style),
    ensures
        word_start_before(b, i, style) == r,
    decreases i,
{
    if r < i - 1 {
        lemma_word_start_before_is(b, i - 1, r, style);
    } else if r == 0 {
        reveal_with_fuel(word_start_before, 2);
    }
}

/// The first word end is where the search first succeeds.
pub proof fn lemma_word_end_from_is(b: Seq<u8>, i: int, r: int, style: WordStyle)
    requires
        0 <= i <= r <= b.len(),
        forall|q: int| i <= q < r ==> !is_word_end(b, q, style),
        r < b.len() ==> is_word_end(b, r, style),
    ensures
        word_end_from(b, i, style) == r,
    decreases r - i,
{
    if i < r {
        lemma_word_end_from_is(b, i + 1, r, style);
    }
}

/// The end of the text is where `w` rests.
pub proof fn lemma_word_forward_rests(b: Seq<u8>, i: int, style: WordStyle, count: nat)
    requires
        i >= b.len(),
    ensures
        word_forward(b, i, style, count) == i,
        word_end(b, i, style, count) == i,
    decreases count,
{
    if count > 0 {
        lemma_word_forward_rests(b, i, style, (count - 1) as nat);
    }
}

/// The start of the text is where `b` rests.
pub proof fn lemma_word_backward_rests(b: Seq<u8>, style: WordStyle, count: nat)
    ensures
        word_backward(b, 0, style, count) == 0,
    decreases count,
{
    if count > 0 {
        lemma_word_backward_rests(b, style, (count - 1) as nat);
    }
}

/// Every character that starts in `from..to` is of class `class`.
pub open spec fn all_of_class(
    b: Seq<u8>,
    from: int,
    to: int,
    style: WordStyle,
    class: CharClass,
) -> bool {
    forall|q: int|
        from <= q < to && #[trigger] is_char_boundary(b, q) ==> class_at(b, q, style) == class
}

/// Extending a run by the character at its end.
pub proof fn lemma_run_extend(b: Seq<u8>, from: int, to: int, style: WordStyle, class: CharClass)
    requires
        valid_utf8(b),
        0 <= from <= to < b.len(),
        is_char_boundary(b, to),
        all_of_class(b, from, to, style, class),
        class_at(b, to, style) == class,
    ensures
        all_of_class(b, from, next_boundary(b, to), style, class),
{
    lemma_next_boundary(b, to);
}

/// Extending a run backwards by the character before its start.
pub proof fn lemma_run_extend_back(
    b: Seq<u8>,
    from: int,
    to: int,
    style: WordStyle,
    class: CharClass,
)
    requires
        valid_utf8(b),
        0 < from <= to <= b.len(),
        is_char_boundary(b, from),
        all_of_class(b, from, to, style, class),
        class_at(b, prev_boundary(b, from), style) == class,
    ensures
        all_of_class(b, prev_boundary(b, from), to, style, class),
{
    lemma_prev_boundary(b, from);
}

/// Skipping the run at `at` and then the blanks behind it reaches the next word start.
pub proof fn lemma_word_forward_once(
    b: Seq<u8>,
    at: int,
    run_end: int,
    r: int,
    style: WordStyle,
)
    requires
        valid_utf8(b),
        0 <= at < run_end <= r <= b.len(),
        is_char_boundary(b, at),
        is_char_boundary(b, run_end),
        is_char_boundary(b, r),
        all_of_class(b, at, run_end, style, class_at(b, at, style)),
        run_end < b.len() ==> class_at(b, run_end, style) != class_at(b, at, style),
        all_of_class(b, run_end, r, style, CharClass::Whitespace),
        r < b.len() ==> class_at(b, r, style) != CharClass::Whitespace,
    ensures
        word_forward_once(b, at, style) == r,
{
    assert forall|q: int| at + 1 <= q < r implies !is_word_start(b, q, style) by {
        if is_char_boundary(b, q) && q < run_end {
            lemma_prev_boundary(b, q);
        }
    }
    if r < b.len() {
        lemma_prev_boundary(b, r);
        let p = prev_boundary(b, r);
        assert(p >= at);
        if r > run_end {
            assert(p >= run_end);
        }
        assert(is_word_start(b, r, style));
    }
    lemma_word_start_from_is(b, at + 1, r, style);
}

/// Stepping back, over blanks and then over the run found there, reaches the last word
/// start before `at`.
pub proof fn lemma_word_start_before(b: Seq<u8>, at: int, on: int, r: int, style: WordStyle)
    requires
        valid_utf8(b),
        0 <= r <= on < at,
        on < b.len(),
        is_char_boundary(b, on),
        is_char_boundary(b, r),
        forall|q: int|
            on < q < at && q < b.len() && #[trigger] is_char_boundary(b, q) ==> class_at(b, q, style)
                == CharClass::Whitespace,
        class_at(b, on, style) == CharClass::Whitespace ==> on == 0,
        all_of_class(b, r, on + 1, style, class_at(b, on, style)),
        r > 0 ==> class_at(b, prev_boundary(b, r), style) != class_at(b, on, style),
    ensures
        word_start_before(b, at, style) == r,
{
    assert forall|q: int| r < q < at implies !is_word_start(b, q, style) by {
        if 0 <= q < b.len() && is_char_boundary(b, q) && q <= on {
            lemma_prev_boundary(b, q);
        }
    }
    lemma_word_start_before_is(b, at, r, style);
}

/// Skipping blanks and then the rest of the run found there reaches the next word end.
pub proof fn lemma_word_end_once(b: Seq<u8>, at: int, on: int, r: int, style: WordStyle)
    requires
        valid_utf8(b),
        0 <= at < on <= r < b.len(),
        is_char_boundary(b, on),
        is_char_boundary(b, r),
        all_of_class(b, at + 1, on, style, CharClass::Whitespace),
        class_at(b, on, style) != CharClass::Whitespace,
        all_of_class(b, on, r + 1, style, class_at(b, on, style)),
        next_boundary(b, r) < b.len() ==> class_at(b, next_boundary(b, r), style) != class_at(
            b,
            on,
            style,
        ),
    ensures
        word_end_once(b, at, style) == r,
{
    assert forall|q: int| at + 1 <= q < r implies !is_word_end(b, q, style) by {
        if is_char_boundary(b, q) && q >= on {
            lemma_next_boundary(b, q);
            assert(next_boundary(b, q) <= r);
        }
    }
    lemma_word_end_from_is(b, at + 1, r, style);
}

/// With nothing but blanks ahead there is no further word end.
pub proof fn lemma_no_word_end(b: Seq<u8>, at: int, style: WordStyle)
    requires
        valid_utf8(b),
        0 <= at < b.len(),
        all_of_class(b, at + 1, b.len() as int, style, CharClass::Whitespace),
    ensures
        word_end_once(b, at, style) == b.len(),
{
    assert forall|q: int| at + 1 <= q < b.len() implies !is_word_end(b, q, style) by {
    }
    lemma_word_end_from_is(b, at + 1, b.len() as int, style);
}

/// `w` never moves back, never leaves the text and always lands on a character.
pub proof fn law_word_forward_advances(b: Seq<u8>, i: int, style: WordStyle, count: nat)
    requires
        valid_utf8(b),
        0 <= i <= b.len(),
        is_char_boundary(b, i),
    ensures
        i <= word_forward(b, i, style, count) <= b.len(),
        is_char_boundary(b, word_forward(b, i, style, count)),
    decreases count,
{
    if count > 0 {
        if i < b.len() {
            lemma_word_start_from(b, i + 1, style);
        }
        law_word_forward_advances(b, word_forward_once(b, i, style), style, (count - 1) as nat);
    }
}

proof fn lemma_word_start_from(b: Seq<u8>, i: int, style: WordStyle)
    requires
        valid_utf8(b),
        0 <= i <= b.len(),
    ensures
        i <= word_start_from(b, i, style) <= b.len(),
        is_char_boundary(b, word_start_from(b, i, style)),
        word_start_from(b, i, style) < b.len() ==> is_word_start(
            b,
            word_start_from(b, i, style),
            style,
        ),
    decreases b.len() - i,
{
    is_char_boundary_start_end_of_seq(b);
    if i < b.len() && !is_word_start(b, i, style) {
        lemma_word_start_from(b, i + 1, style);
    }
}

/// `b` never moves forward and, once it has moved, lands on a word start or on the start of
/// the text.
pub proof fn law_word_backward_retreats(b: Seq<u8>, i: int, style: WordStyle, count: nat)
    requires
        valid_utf8(b),
        0 <= i,
    ensures
        0 <= word_backward(b, i, style, count) <= i,
        count > 0 ==> word_backward(b, i, style, count) == 0 || is_word_start(
            b,
            word_backward(b, i, style, count),
            style,
        ),
        is_char_boundary(b, i) ==> is_char_boundary(b, word_backward(b, i, style, count)),
    decreases count,
{
    is_char_boundary_start_end_of_seq(b);
    if count > 0 {
        lemma_word_start_before_range(b, i, style);
        law_word_backward_retreats(b, word_start_before(b, i, style), style, (count - 1) as nat);
        if count == 1 {
            reveal_with_fuel(word_backward, 2);
        }
    }
}

proof fn lemma_word_start_before_range(b: Seq<u8>, i: int, style: WordStyle)
    requires
        valid_utf8(b),
        0 <= i,
    ensures
        0 <= word_start_before(b, i, style) <= i,
        word_start_before(b, i, style) == 0 || is_word_start(
            b,
            word_start_before(b, i, style),
            style,
        ),
    decreases i,
{
    if i > 0 && !is_word_start(b, i - 1, style) {
        lemma_word_start_before_range(b, i - 1, style);
    }
}

/// `e` never moves back and never goes past the last character of the text.
pub proof fn law_word_end_advances(b: Seq<u8>, i: int, style: WordStyle, count: nat)
    requires
        valid_utf8(b),
        0 <= i <= b.len(),
        is_char_boundary(b, i),
    ensures
        i <= word_end_clamped(b, i, style, count) <= b.len(),
        is_char_boundary(b, word_end_clamped(b, i, style, count)),
        i < b.len() ==> word_end_clamped(b, i, style, count) < b.len(),
{
    is_char_boundary_start_end_of_seq(b);
    lemma_word_end_range(b, i, style, count);
    if b.len() > 0 {
        lemma_prev_boundary(b, b.len() as int);
    }
}

proof fn lemma_word_end_range(b: Seq<u8>, i: int, style: WordStyle, count: nat)
    requires
        valid_utf8(b),
        0 <= i <= b.len(),
        is_char_boundary(b, i),
    ensures
        i <= word_end(b, i, style, count) <= b.len(),
        is_char_boundary(b, word_end(b, i, style, count)),
    decreases count,
{
    if count > 0 {
        if i < b.len() {
            lemma_word_end_from(b, i + 1, style);
        }
        lemma_word_end_range(b, word_end_once(b, i, style), style, (count - 1) as nat);
    }
}

proof fn lemma_word_end_from(b: Seq<u8>, i: int, style: WordStyle)
    requires
        valid_utf8(b),
        0 <= i <= b.len(),
    ensures
        i <= word_end_from(b, i, style) <= b.len(),
        is_char_boundary(b, word_end_from(b, i, style)),
    decreases b.len() - i,
{
    is_char_boundary_start_end_of_seq(b);
    if i < b.len() && !is_word_end(b, i, style) {
        lemma_word_end_from(b, i + 1, style);
    }
}

/// `w` goes to the next word start and skips none, or to the end of the text where there is none;
/// counts add up.
pub proof fn law_w_goes_to_the_next_word(b: Seq<u8>, i: int, style: WordStyle, m: nat, n: nat)
    requires
        valid_utf8(b),
        0 <= i < b.len(),
    ensures
        ({
            let r = word_forward(b, i, style, 1);
            &&& i < r <= b.len()
            &&& r < b.len() ==> is_word_start(b, r, style)
            &&& forall|q: int| i < q < r ==> !is_word_start(b, q, style)
        }),
        word_forward(b, i, style, m + n) == word_forward(
            b,
            word_forward(b, i, style, m),
            style,
            n,
        ),
{
    reveal_with_fuel(word_forward, 2);
    lemma_word_start_from(b, i + 1, style);
    lemma_word_start_from_skips(b, i + 1, style);
    lemma_word_forward_add(b, i, style, m, n);
}

proof fn lemma_word_forward_add(b: Seq<u8>, i: int, style: WordStyle, m: nat, n: nat)
    ensures
        word_forward(b, i, style, m + n) == word_forward(
            b,
            word_forward(b, i, style, m),
            style,
            n,
        ),
    decreases m,
{
    if m > 0 {
        lemma_word_forward_add(b, word_forward_once(b, i, style), style, (m - 1) as nat, n);
        assert((m - 1) as nat + n == (m + n - 1) as nat);
    }
}

proof fn lemma_word_start_from_skips(b: Seq<u8>, i: int, style: WordStyle)
    ensures
        forall|q: int| i <= q < word_start_from(b, i, style) ==> !is_word_start(b, q, style),
    decreases b.len() - i,
{
    if i < b.len() && !is_word_start(b, i, style) {
        lemma_word_start_from_skips(b, i + 1, style);
    }
}

/// `b` goes to the last word start before and skips none, or to the start of the text; counts add
/// up.
pub proof fn law_b_goes_to_the_word_before(b: Seq<u8>, i: int, style: WordStyle, m: nat, n: nat)
    requires
        valid_utf8(b),
        0 < i,
    ensures
        ({
            let r = word_backward(b, i, style, 1);
            &&& 0 <= r < i
            &&& r > 0 ==> is_word_start(b, r, style)
            &&& forall|q: int| r < q < i ==> !is_word_start(b, q, style)
        }),
        word_backward(b, i, style, m + n) == word_backward(
            b,
            word_backward(b, i, style, m),
            style,
            n,
        ),
{
    reveal_with_fuel(word_backward, 2);
    lemma_word_start_before_range(b, i, style);
    lemma_word_start_before_skips(b, i, style);
    lemma_word_backward_add(b, i, style, m, n);
}

proof fn lemma_word_backward_add(b: Seq<u8>, i: int, style: WordStyle, m: nat, n: nat)
    ensures
        word_backward(b, i, style, m + n) == word_backward(
            b,
            word_backward(b, i, style, m),
            style,
            n,
        ),
    decreases m,
{
    if m > 0 {
        lemma_word_backward_add(b, word_start_before(b, i, style), style, (m - 1) as nat, n);
        assert((m - 1) as nat + n == (m + n - 1) as nat);
    }
}

proof fn lemma_word_start_before_skips(b: Seq<u8>, i: int, style: WordStyle)
    requires
        0 < i,
    ensures
        word_start_before(b, i, style) < i,
        forall|q: int| word_start_before(b, i, style) < q < i ==> !is_word_start(b, q, style),
    decreases i,
{
    if !is_word_start(b, i - 1, style) {
        if i > 1 {
            lemma_word_start_before_skips(b, i - 1, style);
        } else {
            reveal_with_fuel(word_start_before, 2);
        }
    }
}

/// `e` goes to the next word end and skips none, or to the last character of the text where there
/// is none.
pub proof fn law_e_goes_to_the_next_word_end(b: Seq<u8>, i: int, style: WordStyle)
    requires
        valid_utf8(b),
        0 <= i < b.len(),
        is_char_boundary(b, i),
    ensures
        ({
            let r = word_end_clamped(b, i, style, 1);
            let last = prev_boundary(b, b.len() as int);
            &&& i <= r <= last
            &&& r < last ==> i < r && is_word_end(b, r, style)
            &&& forall|q: int| i < q < r ==> !is_word_end(b, q, style)
        }),
{
    reveal_with_fuel(word_end, 2);
    is_char_boundary_start_end_of_seq(b);
    lemma_word_end_from(b, i + 1, style);
    lemma_word_end_from_skips(b, i + 1, style);
    lemma_prev_boundary(b, b.len() as int);
}

proof fn lemma_word_end_from_skips(b: Seq<u8>, i: int, style: WordStyle)
    ensures
        forall|q: int| i <= q < word_end_from(b, i, style) ==> !is_word_end(b, q, style),
        word_end_from(b, i, style) < b.len() ==> is_word_end(
            b,
            word_end_from(b, i, style),
            style,
        ),
    decreases b.len() - i,
{
    if i < b.len() && !is_word_end(b, i, style) {
        lemma_word_end_from_skips(b, i + 1, style);
    }
}

/// What a word is made of: in the big style everything between blanks; otherwise letters, digits
/// and underscores make words, and all other characters that are not blank make words of their
/// own.
pub proof fn law_word_classes(c: char)
    ensures
        class_of(' ', WordStyle::Little) == CharClass::Whitespace,
        class_of('\t', WordStyle::Little) == CharClass::Whitespace,
        class_of('\n', WordStyle::Little) == CharClass::Whitespace,
        class_of('_', WordStyle::Little) == CharClass::Keyword,
        class_of(c, WordStyle::Big) == CharClass::Whitespace <==> class_of(c, WordStyle::Little)
            == CharClass::Whitespace,
        class_of(c, WordStyle::Big) != CharClass::Punctuation,
        c != ' ' && c != '\t' && c != '\n' && c != '\x0c' && c != '\r' ==> class_of(
            c,
            WordStyle::Little,
        ) == (if alphanumeric(c) || c == '_' {
            CharClass::Keyword
        } else {
            CharClass::Punctuation
        }),
{
}

/// The character at a boundary is the one that starts there.
pub proof fn law_the_character_at_a_boundary(cs: Seq<char>, k: int)
    requires
        0 <= k < cs.len(),
    ensures
        char_at(encode_utf8(cs), char_offset(cs, k)) == cs[k],
{
    let b = encode_utf8(cs);
    let at = char_offset(cs, k);
    lemma_char_offset(cs, k);
    let rest = cs.skip(k);
    let tail = b.subrange(at, b.len() as int);
    assert(tail =~= b.skip(at));
    encode_utf8_first_scalar(rest);
    char_u32_cast(rest[0], decode_first_scalar(tail));
    assert(rest[0] == cs[k]);
}

/// A word starts at a character that is not blank and has no character of its class before it, and
/// ends at one that is not blank and has no character of its class behind it.
pub proof fn law_where_words_start_and_end(cs: Seq<char>, k: int, style: WordStyle)
    requires
        0 <= k < cs.len(),
    ensures
        is_word_start(encode_utf8(cs), char_offset(cs, k), style) <==> class_of(cs[k], style)
            != CharClass::Whitespace && (k > 0 ==> class_of(cs[k - 1], style) != class_of(
            cs[k],
            style,
        )),
        is_word_end(encode_utf8(cs), char_offset(cs, k), style) <==> class_of(cs[k], style)
            != CharClass::Whitespace && (k + 1 < cs.len() ==> class_of(cs[k + 1], style)
            != class_of(cs[k], style)),
{
    lemma_char_offset(cs, k);
    law_steps_go_by_characters(cs, k);
    law_the_character_at_a_boundary(cs, k);
    lemma_char_offset_order(cs, k, cs.len() as int);
    lemma_char_offset(cs, cs.len() as int);
    lemma_char_offset_order(cs, 0, k);
    lemma_char_offset(cs, 0);
    if k > 0 {
        law_the_character_at_a_boundary(cs, k - 1);
    }
    if k + 1 < cs.len() {
        law_the_character_at_a_boundary(cs, k + 1);
        lemma_char_offset_order(cs, k + 1, cs.len() as int);
    }
}

/// The line of a character is the number of line breaks before it.
pub proof fn law_lines_are_counted_by_line_breaks(cs: Seq<char>, k: int)
    requires
        0 <= k < cs.len(),
    ensures
        ({
            let b = encode_utf8(cs);
            let here = line_of(b, char_offset(cs, k));
            line_of(b, char_offset(cs, k + 1)) == (if cs[k] == '\n' {
                here + 1
            } else {
                here
            })
        }),
        line_of(encode_utf8(cs), 0) == 0,
{
    let b = encode_utf8(cs);
    let from = char_offset(cs, k);
    let to = char_offset(cs, k + 1);
    lemma_char_offset(cs, k);
    lemma_char_offset(cs, k + 1);
    law_steps_go_by_characters(cs, k);
    law_the_character_at_a_boundary(cs, k);
    assert(b.take(0).len() == 0);
    lemma_next_boundary(b, from);
    let tail = b.subrange(from, b.len() as int);
    valid_utf8_split(b, from);
    assert(tail[0] == b[from]);
    assert forall|q: int| from < q < to implies !is_newline(#[trigger] b[q]) by {
        if is_newline(b[q]) {
            lemma_after_ascii(b, q);
        }
    }
    let rest = cs.skip(k);
    encode_utf8_first_scalar(rest);
    assert(rest[0] == cs[k]);
    assert(tail =~= encode_utf8(rest));
    lemma_newline_byte(cs[k], rest);
    lemma_newlines_step(b, from);
    lemma_newlines_gap(b, from + 1, to);
}

proof fn lemma_newline_byte(c: char, rest: Seq<char>)
    requires
        rest.len() > 0,
        rest[0] == c,
    ensures
        encode_utf8(rest).len() > 0,
        is_newline(encode_utf8(rest)[0]) <==> c == '\n',
{
    let bytes = encode_utf8(rest);
    encode_utf8_first_scalar(rest);
    encode_utf8_valid_utf8(rest);
    if c == '\n' {
        assert(is_ascii_chars(seq!['\n']));
        is_ascii_chars_encode_utf8(seq!['\n']);
        textbuf::lemma_encode_concat(seq!['\n'], rest.drop_first());
        assert(rest =~= seq!['\n'] + rest.drop_first());
    }
    if is_newline(bytes[0]) {
        let value = decode_first_scalar(bytes);
        assert(value == 10) by {
            assert(bytes[0] == 10);
            assert(10u8 & 0x7f == 10) by (bit_vector);
        }
        char_u32_cast(c, value);
    }
}

/// The counts of `e` add up: going `m` word ends on and then `n` more is going `m + n` on.
pub proof fn law_word_end_counts_add_up(b: Seq<u8>, i: int, style: WordStyle, m: nat, n: nat)
    requires
        valid_utf8(b),
        0 <= i < b.len(),
        is_char_boundary(b, i),
    ensures
        word_end_clamped(b, i, style, m + n) == word_end_clamped(
            b,
            word_end_clamped(b, i, style, m),
            style,
            n,
        ),
{
    let last = prev_boundary(b, b.len() as int);
    is_char_boundary_start_end_of_seq(b);
    lemma_prev_boundary(b, b.len() as int);
    lemma_word_end_range(b, i, style, m);
    lemma_word_end_add(b, i, style, m, n);
    let reached = word_end(b, i, style, m);
    if reached <= last {
        assert(word_end_clamped(b, i, style, m) == reached);
    } else {
        assert(reached == b.len());
        lemma_word_forward_rests(b, b.len() as int, style, n);
        if n > 0 {
            assert forall|q: int| last + 1 <= q < b.len() implies !is_word_end(b, q, style) by {
            }
            lemma_word_end_from_is(b, last + 1, b.len() as int, style);
            lemma_word_forward_rests(b, b.len() as int, style, (n - 1) as nat);
        }
    }
}

proof fn lemma_word_end_add(b: Seq<u8>, i: int, style: WordStyle, m: nat, n: nat)
    ensures
        word_end(b, i, style, m + n) == word_end(b, word_end(b, i, style, m), style, n),
    decreases m,
{
    if m > 0 {
        lemma_word_end_add(b, word_end_once(b, i, style), style, (m - 1) as nat, n);
        assert((m - 1) as nat + n == (m + n - 1) as nat);
    }
}

} // verus!
