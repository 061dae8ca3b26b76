//! The compose overlay: a text with a cursor and an optional selection, edited locally and
//! mirrored into the shared input document.

use vstd::prelude::*;
use vstd::string::*;
use vstd::utf8::*;
use crate::input::vim::textutil;
use crate::layout;
use crate::textbuf;

verus! {

/// Which surface an overlay feeds.
#[derive(Clone, Copy, Debug, PartialEq, Eq, Structural)]
pub enum InputMode {
    Chat,
    Shell,
}

/// The text being composed.
#[derive(Clone, Debug)]
pub struct InputOverlay {
    pub text: String,
    /// Byte offset of the cursor.
    pub cursor: usize,
    /// The other end of the selection, if there is one.
    pub selection_anchor: Option<usize>,
    /// The vim mode banner; `None` in Normal mode.
    pub vim_mode: Option<String>,
    pub mode: InputMode,
}

/// One edit of the shared input document: at byte `pos`, delete `delete` bytes, then insert.
#[derive(Clone, Debug)]
pub struct DocEdit {
    pub pos: u64,
    pub insert: String,
    pub delete: u64,
}

/// What an edit makes of the bytes of a document.
pub open spec fn edited(b: Seq<u8>, edit: DocEdit) -> Seq<u8> {
    textbuf::spliced(b, edit.pos as int, edit.pos + edit.delete, encode_utf8(edit.insert@))
}

/// An offset that a cursor may stand on.
pub open spec fn is_offset(b: Seq<u8>, i: int) -> bool {
    0 <= i <= b.len() && is_char_boundary(b, i)
}

impl InputOverlay {
    /// The bytes of the text.
    pub open spec fn bytes(&self) -> Seq<u8> {
        encode_utf8(self.text@)
    }

    /// The cursor and the anchor stand on character boundaries within the text.
    pub open spec fn wf(&self) -> bool {
        &&& is_offset(self.bytes(), self.cursor as int)
        &&& (self.selection_anchor matches Some(a) ==> is_offset(self.bytes(), a as int))
    }

    /// The selected range: from the smaller to the larger of anchor and cursor. An anchor on
    /// the cursor selects nothing.
    pub open spec fn selection(&self) -> Option<(int, int)> {
        match self.selection_anchor {
            Some(a) => if a == self.cursor {
                None
            } else if a < self.cursor {
                Some((a as int, self.cursor as int))
            } else {
                Some((self.cursor as int, a as int))
            },
            None => None,
        }
    }

    /// What inserting or deleting replaces: the selection, or nothing at the cursor.
    pub open spec fn replaced_range(&self) -> (int, int) {
        match self.selection() {
            Some(range) => range,
            None => (self.cursor as int, self.cursor as int),
        }
    }

    /// What Backspace deletes: the selection, or the character before the cursor.
    pub open spec fn backspace_range(&self) -> (int, int) {
        match self.selection() {
            Some(range) => range,
            None => (layout::prev_boundary(self.bytes(), self.cursor as int), self.cursor as int),
        }
    }

    /// What Delete deletes: the selection, or the character at the cursor.
    pub open spec fn delete_range(&self) -> (int, int) {
        match self.selection() {
            Some(range) => range,
            None => (self.cursor as int, layout::next_boundary(self.bytes(), self.cursor as int)),
        }
    }

    /// The overlay after `range` was replaced by `insert`: the cursor behind what was
    /// inserted, nothing selected.
    pub open spec fn after_replacing(&self, range: (int, int), insert: Seq<u8>, new: &Self) -> bool {
        &&& new.bytes() == textbuf::spliced(self.bytes(), range.0, range.1, insert)
        &&& new.cursor == range.0 + insert.len()
        &&& new.selection_anchor is None
        &&& new.vim_mode == self.vim_mode
        &&& new.mode == self.mode
        &&& new.wf()
    }

    /// Whether there is no text.
    pub fn is_empty(&self) -> (empty: bool)
        ensures
            empty == (self.text@.len() == 0),
    {
        self.text.as_str().is_empty()
    }

    /// The selected byte range, if any.
    pub fn selection_range(&self) -> (range: Option<(usize, usize)>)
        ensures
            match range {
                Some((start, end)) => self.selection() == Some((start as int, end as int)),
                None => self.selection() is None,
            },
    {
        match self.selection_anchor {
            Some(a) => if a == self.cursor {
                None
            } else if a < self.cursor {
                Some((a, self.cursor))
            } else {
                Some((self.cursor, a))
            },
            None => None,
        }
    }

    /// Replace a range of the text and put the cursor behind the replacement.
    pub fn replace(&mut self, start: usize, end: usize, insert: &str)
        requires
            old(self).wf(),
            start <= end,
            is_offset(old(self).bytes(), start as int),
            is_offset(old(self).bytes(), end as int),
        ensures
            old(self).after_replacing(
                (start as int, end as int),
                encode_utf8(insert@),
                final(self),
            ),
    {
        let text = textbuf::splice(self.text.as_str(), start, end, insert);
        let inserted: usize = insert.as_bytes().len();
        self.text = text;
        self.cursor = start + inserted;
        self.selection_anchor = None;
    }

    /// Insert text at the cursor, replacing the selection.
    pub fn insert(&mut self, insert: &str)
        requires
            old(self).wf(),
        ensures
            old(self).after_replacing(
                old(self).replaced_range(),
                encode_utf8(insert@),
                final(self),
            ),
    {
        match self.selection_range() {
            Some((start, end)) => self.replace(start, end, insert),
            None => self.replace(self.cursor, self.cursor, insert),
        }
    }

    /// Delete the selection, or the character before the cursor.
    pub fn backspace(&mut self)
        requires
            old(self).wf(),
        ensures
            old(self).after_replacing(old(self).backspace_range(), Seq::empty(), final(self)),
    {
        proof {
            reveal_strlit("");
            assert(encode_utf8(""@) =~= Seq::empty());
        }
        match self.selection_range() {
            Some((start, end)) => self.replace(start, end, ""),
            None => {
                let prev: usize = textutil::prev_char_boundary(self.text.as_str(), self.cursor);
                proof {
                    encode_utf8_valid_utf8(self.text@);
                    if self.cursor > 0 {
                        layout::lemma_prev_boundary(self.bytes(), self.cursor as int);
                    }
                }
                self.replace(prev, self.cursor, "")
            },
        }
    }

    /// Delete the selection, or the character at the cursor.
    pub fn delete(&mut self)
        requires
            old(self).wf(),
        ensures
            old(self).after_replacing(old(self).delete_range(), Seq::empty(), final(self)),
    {
        proof {
            reveal_strlit("");
            assert(encode_utf8(""@) =~= Seq::empty());
        }
        match self.selection_range() {
            Some((start, end)) => self.replace(start, end, ""),
            None => {
                let next: usize = textutil::next_char_boundary(self.text.as_str(), self.cursor);
                proof {
                    encode_utf8_valid_utf8(self.text@);
                    if self.cursor < self.bytes().len() {
                        layout::lemma_next_boundary(self.bytes(), self.cursor as int);
                    }
                }
                self.replace(self.cursor, next, "")
            },
        }
    }

    /// Move the cursor one character left and drop the selection.
    pub fn move_left(&mut self)
        requires
            old(self).wf(),
        ensures
            final(self).wf(),
            final(self).text == old(self).text,
            final(self).cursor == layout::prev_boundary(old(self).bytes(), old(self).cursor as int),
            final(self).selection_anchor is None,
            final(self).vim_mode == old(self).vim_mode,
            final(self).mode == old(self).mode,
    {
        proof {
            encode_utf8_valid_utf8(self.text@);
            is_char_boundary_start_end_of_seq(self.bytes());
            if self.cursor > 0 {
                layout::lemma_prev_boundary(self.bytes(), self.cursor as int);
            }
        }
        self.cursor = textutil::prev_char_boundary(self.text.as_str(), self.cursor);
        self.selection_anchor = None;
    }

    /// Move the cursor one character right and drop the selection.
    pub fn move_right(&mut self)
        requires
            old(self).wf(),
        ensures
            final(self).wf(),
            final(self).text == old(self).text,
            final(self).cursor == layout::next_boundary(old(self).bytes(), old(self).cursor as int),
            final(self).selection_anchor is None,
            final(self).vim_mode == old(self).vim_mode,
            final(self).mode == old(self).mode,
    {
        proof {
            encode_utf8_valid_utf8(self.text@);
            is_char_boundary_start_end_of_seq(self.bytes());
            if self.cursor < self.bytes().len() {
                layout::lemma_next_boundary(self.bytes(), self.cursor as int);
            }
        }
        self.cursor = textutil::next_char_boundary(self.text.as_str(), self.cursor);
        self.selection_anchor = None;
    }

    /// Empty the overlay.
    pub fn clear(&mut self)
        ensures
            final(self).wf(),
            final(self).text@ == Seq::<char>::empty(),
            final(self).cursor == 0,
            final(self).selection_anchor is None,
            final(self).vim_mode == old(self).vim_mode,
            final(self).mode == old(self).mode,
    {
        self.text = String::new();
        self.cursor = 0;
        self.selection_anchor = None;
        proof {
            encode_utf8_valid_utf8(self.text@);
            is_char_boundary_start_end_of_seq(self.bytes());
        }
    }
}

/// Delete without a selection removes the character at the cursor and no other, and the cursor
/// stays before what follows; at the end of the text it changes nothing.
pub proof fn law_delete_removes_the_character_at_the_cursor(
    ov: InputOverlay,
    new: InputOverlay,
    k: int,
)
    requires
        0 <= k <= ov.text@.len(),
        ov.cursor == layout::char_offset(ov.text@, k),
        ov.selection_anchor is None || ov.selection_anchor == Some(ov.cursor),
        ov.after_replacing(ov.delete_range(), Seq::empty(), &new),
    ensures
        k < ov.text@.len() ==> new.text@ == ov.text@.remove(k),
        k == ov.text@.len() ==> new.text@ == ov.text@,
        new.cursor == ov.cursor,
        new.selection_anchor is None,
{
    let cs = ov.text@;
    let j = layout::min_int(k + 1, cs.len() as int);
    layout::law_steps_go_by_characters(cs, k);
    lemma_replaced_characters(ov, new, k, j, Seq::empty());
    if k < cs.len() {
        assert(cs.take(k) + Seq::empty() + cs.skip(j) =~= cs.remove(k));
    } else {
        assert(cs.take(k) + Seq::empty() + cs.skip(j) =~= cs);
    }
}

/// Backspace without a selection removes the character before the cursor and no other, and the
/// cursor goes where it stood; at the start of the text it changes nothing.
pub proof fn law_backspace_removes_the_character_before_the_cursor(
    ov: InputOverlay,
    new: InputOverlay,
    k: int,
)
    requires
        0 <= k <= ov.text@.len(),
        ov.cursor == layout::char_offset(ov.text@, k),
        ov.selection_anchor is None || ov.selection_anchor == Some(ov.cursor),
        ov.after_replacing(ov.backspace_range(), Seq::empty(), &new),
    ensures
        k > 0 ==> new.text@ == ov.text@.remove(k - 1) && new.cursor == layout::char_offset(
            ov.text@,
            k - 1,
        ),
        k == 0 ==> new.text@ == ov.text@ && new.cursor == 0,
        new.selection_anchor is None,
{
    let cs = ov.text@;
    let i = layout::max_int(k - 1, 0);
    layout::law_steps_go_by_characters(cs, k);
    lemma_replaced_characters(ov, new, i, k, Seq::empty());
    layout::lemma_char_offset(cs, k);
    if k > 0 {
        assert(cs.take(i) + Seq::empty() + cs.skip(k) =~= cs.remove(k - 1));
    } else {
        assert(cs.take(i) + Seq::empty() + cs.skip(k) =~= cs);
    }
}

/// Text goes in between the characters around the cursor, which comes to stand behind it.
pub proof fn law_an_insertion_goes_in_at_the_cursor(
    ov: InputOverlay,
    new: InputOverlay,
    k: int,
    insert: Seq<char>,
)
    requires
        0 <= k <= ov.text@.len(),
        ov.cursor == layout::char_offset(ov.text@, k),
        ov.selection_anchor is None || ov.selection_anchor == Some(ov.cursor),
        ov.after_replacing(ov.replaced_range(), encode_utf8(insert), &new),
    ensures
        new.text@ == ov.text@.take(k) + insert + ov.text@.skip(k),
        new.cursor == layout::char_offset(new.text@, k + insert.len()),
        new.selection_anchor is None,
{
    lemma_replaced_characters(ov, new, k, k, insert);
}

/// A selection is what typing replaces and what Delete and Backspace remove: the characters
/// between anchor and cursor, whichever of the two comes first.
pub proof fn law_a_selection_is_replaced_whole(
    ov: InputOverlay,
    new: InputOverlay,
    i: int,
    j: int,
    insert: Seq<char>,
)
    requires
        0 <= i < j <= ov.text@.len(),
        ({
            let (a, c) = (layout::char_offset(ov.text@, i), layout::char_offset(ov.text@, j));
            ||| ov.cursor == c && (ov.selection_anchor matches Some(at) && at == a)
            ||| ov.cursor == a && (ov.selection_anchor matches Some(at) && at == c)
        }),
        ov.after_replacing(ov.replaced_range(), encode_utf8(insert), &new) || insert.len() == 0 && (
        ov.after_replacing(ov.delete_range(), Seq::empty(), &new) || ov.after_replacing(
            ov.backspace_range(),
            Seq::empty(),
            &new,
        )),
    ensures
        new.text@ == ov.text@.take(i) + insert + ov.text@.skip(j),
        new.cursor == layout::char_offset(new.text@, i + insert.len()),
        new.selection_anchor is None,
{
    layout::lemma_char_offset_order(ov.text@, i, j);
    if insert.len() == 0 {
        assert(encode_utf8(insert) =~= Seq::empty());
    }
    lemma_replaced_characters(ov, new, i, j, insert);
}

proof fn lemma_replaced_characters(
    ov: InputOverlay,
    new: InputOverlay,
    i: int,
    j: int,
    insert: Seq<char>,
)
    requires
        0 <= i <= j <= ov.text@.len(),
        ov.after_replacing(
            (layout::char_offset(ov.text@, i), layout::char_offset(ov.text@, j)),
            encode_utf8(insert),
            &new,
        ) || insert.len() == 0 && ov.after_replacing(
            (layout::char_offset(ov.text@, i), layout::char_offset(ov.text@, j)),
            Seq::empty(),
            &new,
        ),
    ensures
        new.text@ == ov.text@.take(i) + insert + ov.text@.skip(j),
        new.cursor == layout::char_offset(new.text@, i + insert.len()),
        new.cursor == layout::char_offset(ov.text@, i) + encode_utf8(insert).len(),
{
    let cs = ov.text@;
    if insert.len() == 0 {
        assert(encode_utf8(insert) =~= Seq::empty());
    }
    layout::law_splices_go_by_characters(cs, i, j, insert);
    layout::lemma_same_bytes_same_text(new.text@, cs.take(i) + insert + cs.skip(j));
}

} // verus!
