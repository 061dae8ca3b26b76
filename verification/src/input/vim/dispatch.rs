//! Vim dispatch for the compose overlay: what each action of the vim machine does to the
//! text, the register and the rest of the application.

use vstd::prelude::*;
use vstd::string::*;
use vstd::utf8::*;
use crate::input::action::Action;
use crate::input::keys::{HeldKeys, KeyCode, KeyboardInput};
use crate::input::keys;
use crate::input::overlay::{DocEdit, InputOverlay};
use crate::input::overlay;
use crate::input::vim::KaijutsuAction;
use crate::input::vim::edit::{EditAction, EditContext, EditTarget, MoveDir1D, OperationSpec, RangeType};
use crate::input::vim::edit;
use crate::input::vim::keyconv::{TermKey, TermModifiers};
use crate::input::vim::keyconv;
use crate::input::vim::machine::VimMachineResource;
use crate::input::vim::machine;
use crate::input::vim::motion;
use crate::input::vim::motion::MotionContext;
use crate::input::vim::textutil;
use crate::layout;
use crate::textbuf;

verus! {

/// Vim editing state: column memory for j/k and the unnamed register.
#[derive(Clone, Debug)]
pub struct VimMotionState {
    pub desired_col: Option<usize>,
    /// Unnamed register: the last deleted or yanked text.
    pub register: String,
    /// Whether the register holds whole lines (for `p`/`P`).
    pub register_linewise: bool,
}

impl Default for VimMotionState {
    fn default() -> (state: Self)
        ensures
            state.desired_col is None,
            state.register@ == Seq::<char>::empty(),
            !state.register_linewise,
    {
        VimMotionState { desired_col: None, register: String::new(), register_linewise: false }
    }
}

/// Where a paste goes.
#[derive(Clone, Copy, Debug, PartialEq, Eq, Structural)]
pub enum PasteStyle {
    Cursor,
    Side(MoveDir1D),
    Replace,
}

/// An action of the vim machine.
#[derive(Clone, Copy, Debug, PartialEq, Eq, Structural)]
pub enum VimAction {
    /// Insert a typed character.
    Type(char),
    /// Paste the register.
    Paste(PasteStyle),
    /// Apply an operation to a target.
    Edit(OperationSpec, EditTarget),
    /// Submit the prompt.
    PromptSubmit,
    /// Abort the prompt.
    PromptAbort,
    /// An action of the application itself.
    Application(KaijutsuAction),
    /// Anything the compose overlay has no use for.
    Unhandled,
}

/// What an action asks of the rest of the application.
#[derive(Clone, Debug)]
pub enum VimEffect {
    /// Deliver text to the compose handler.
    Type(String),
    /// Fire an action.
    Fire(Action),
    /// Mirror an edit into the shared input document.
    Sync(DocEdit),
}

/// The editing state as mathematical values.
#[verifier::ext_equal]
pub struct EditorState {
    pub text: Seq<u8>,
    pub cursor: int,
    pub anchor: Option<int>,
    pub desired: Option<nat>,
    pub register: Seq<u8>,
    pub linewise: bool,
}

/// An effect as mathematical values.
#[verifier::ext_equal]
pub enum EffectView {
    Type(Seq<char>),
    Fire(Action),
    Sync { pos: int, insert: Seq<u8>, delete: int },
}

/// The state that an overlay and a motion state hold between them.
pub open spec fn state_of(overlay: InputOverlay, motion_state: VimMotionState) -> EditorState {
    EditorState {
        text: overlay.bytes(),
        cursor: overlay.cursor as int,
        anchor: match overlay.selection_anchor {
            Some(a) => Some(a as int),
            None => None,
        },
        desired: motion::memory_view(motion_state.desired_col),
        register: encode_utf8(motion_state.register@),
        linewise: motion_state.register_linewise,
    }
}

impl VimEffect {
    /// The effect as mathematical values.
    pub open spec fn view(&self) -> EffectView {
        match *self {
            VimEffect::Type(text) => EffectView::Type(text@),
            VimEffect::Fire(action) => EffectView::Fire(action),
            VimEffect::Sync(edit) => EffectView::Sync {
                pos: edit.pos as int,
                insert: encode_utf8(edit.insert@),
                delete: edit.delete as int,
            },
        }
    }
}

/// The view of an optional effect.
pub open spec fn effect_view(effect: Option<VimEffect>) -> Option<EffectView> {
    match effect {
        Some(e) => Some(e.view()),
        None => None,
    }
}

impl EditorState {
    /// The text is UTF-8, and cursor and anchor stand on boundaries within it.
    pub open spec fn wf(self) -> bool {
        &&& valid_utf8(self.text)
        &&& valid_utf8(self.register)
        &&& overlay::is_offset(self.text, self.cursor)
        &&& (self.anchor matches Some(a) ==> overlay::is_offset(self.text, a))
    }

    /// The state after `start..end` was replaced by `insert`, the cursor behind it.
    pub open spec fn replacing(self, start: int, end: int, insert: Seq<u8>) -> EditorState {
        EditorState {
            text: textbuf::spliced(self.text, start, end, insert),
            cursor: start + insert.len(),
            anchor: None,
            ..self
        }
    }

    /// The state with the register filled.
    pub open spec fn yanking(self, register: Seq<u8>, linewise: bool) -> EditorState {
        EditorState { register, linewise, ..self }
    }
}

/// The byte range `(start, end, linewise)` that an operation on a target covers.
///
/// A motion covers what lies between the cursor and where it leads, with the character there
/// if the motion is inclusive. A range of lines covers them with the newline behind the last
/// or, at the end of the text, the one before the first. The current position is the
/// character under the cursor.
pub open spec fn target_range(
    b: Seq<u8>,
    cursor: int,
    target: EditTarget,
    ctx: EditContext,
    desired: Option<nat>,
) -> Option<(int, int, bool)> {
    match target {
        EditTarget::Motion(move_type, count) => {
            let to = motion::motion_target(
                b,
                cursor,
                move_type,
                motion::repeats(count, ctx.count),
                ctx.count,
                desired,
            );
            let start = layout::min_int(cursor, to);
            let end = layout::max_int(cursor, to);
            if motion::inclusive_motion(move_type) && end < b.len() {
                Some((start, layout::next_boundary(b, end), false))
            } else {
                Some((start, end, false))
            }
        },
        EditTarget::Range(RangeType::Line, _, count) => {
            let first = layout::line_of(b, cursor);
            let last = range_last_line(b, cursor, count, ctx);
            let start = layout::line_start(b, first);
            let end = layout::line_end(b, last);
            if end < b.len() {
                Some((start, end + 1, true))
            } else if start > 0 {
                Some((layout::prev_boundary(b, start), end, true))
            } else {
                Some((start, end, true))
            }
        },
        EditTarget::CurrentPosition => if cursor < b.len() {
            Some((cursor, layout::next_boundary(b, cursor), false))
        } else {
            None
        },
        _ => None,
    }
}

/// The last line of a range of lines that begins at the cursor.
pub open spec fn range_last_line(b: Seq<u8>, cursor: int, count: edit::Count, ctx: EditContext) -> nat {
    motion::lines_down(
        b,
        layout::line_of(b, cursor),
        (motion::repeats(count, ctx.count) - 1) as nat,
    )
}

/// The lines `first` to `last` as the register holds them, closed by a newline. An empty text has
/// nothing to hold.
pub open spec fn whole_lines(b: Seq<u8>, first: nat, last: nat) -> Seq<u8> {
    if b.len() == 0 {
        Seq::empty()
    } else {
        b.subrange(layout::line_start(b, first), layout::line_end(b, last)).push(10)
    }
}

/// What an operation on a target takes into the register: the lines of a range of lines, and
/// otherwise the text of the range.
pub open spec fn taken(
    b: Seq<u8>,
    cursor: int,
    target: EditTarget,
    ctx: EditContext,
    start: int,
    end: int,
) -> Seq<u8> {
    match target {
        EditTarget::Range(RangeType::Line, _, count) => whole_lines(
            b,
            layout::line_of(b, cursor),
            range_last_line(b, cursor, count, ctx),
        ),
        _ => b.subrange(start, end),
    }
}

/// Where a paste inserts. Whole lines go behind the line of the cursor, or before it; other text
/// behind the character under the cursor, or before it.
pub open spec fn paste_pos(s: EditorState, style: PasteStyle) -> int {
    if s.linewise {
        let line = layout::line_of(s.text, s.cursor);
        if style == PasteStyle::Side(MoveDir1D::Next) {
            layout::min_int(layout::line_end(s.text, line) + 1, s.text.len() as int)
        } else {
            layout::line_start(s.text, line)
        }
    } else if style == PasteStyle::Side(MoveDir1D::Next) {
        layout::next_boundary(s.text, s.cursor)
    } else {
        s.cursor
    }
}

/// Whether whole lines go behind a line that no newline ends.
pub open spec fn opens_line(s: EditorState, style: PasteStyle) -> bool {
    s.linewise && style == PasteStyle::Side(MoveDir1D::Next) && layout::line_end(
        s.text,
        layout::line_of(s.text, s.cursor),
    ) == s.text.len()
}

/// A register without the newline that closes it, if one does.
pub open spec fn unclosed(register: Seq<u8>) -> Seq<u8> {
    if layout::is_newline(register.last()) {
        register.drop_last()
    } else {
        register
    }
}

/// What a paste inserts: the register. Whole lines are closed by a newline or, behind a line that
/// no newline ends, set off by one.
pub open spec fn paste_text(s: EditorState, style: PasteStyle) -> Seq<u8> {
    if opens_line(s, style) {
        seq![10u8] + unclosed(s.register)
    } else if s.linewise {
        unclosed(s.register).push(10)
    } else {
        s.register
    }
}

/// The mirror of an edit, where the input document is shared.
pub open spec fn mirrored(shared: bool, pos: int, insert: Seq<u8>, delete: int) -> Option<
    EffectView,
> {
    if shared {
        Some(EffectView::Sync { pos, insert, delete })
    } else {
        None
    }
}

/// What an action of the vim machine does: the state after it, and what it asks for.
/// `shared` tells whether edits are mirrored into the input document.
pub open spec fn step(
    s: EditorState,
    action: VimAction,
    ctx: EditContext,
    shared: bool,
) -> (EditorState, Option<EffectView>) {
    match action {
        VimAction::Type(c) => (s, Some(EffectView::Type(seq![c]))),
        VimAction::Paste(style) => if s.register.len() == 0 {
            (s, None)
        } else {
            let pos = paste_pos(s, style);
            let insert = paste_text(s, style);
            (s.replacing(pos, pos, insert), mirrored(shared, pos, insert, 0))
        },
        VimAction::Edit(op_spec, target) => {
            let op = match op_spec {
                OperationSpec::Contextual => ctx.operation,
                OperationSpec::Exact(op) => op,
            };
            match (op, target) {
                (EditAction::Motion, EditTarget::Motion(move_type, count)) => (
                    EditorState {
                        cursor: motion::motion_target(
                            s.text,
                            s.cursor,
                            move_type,
                            motion::repeats(count, ctx.count),
                            ctx.count,
                            s.desired,
                        ),
                        desired: motion::motion_memory(s.text, s.cursor, move_type, s.desired),
                        anchor: None,
                        ..s
                    },
                    None,
                ),
                (EditAction::Delete, _) => match target_range(
                    s.text,
                    s.cursor,
                    target,
                    ctx,
                    s.desired,
                ) {
                    Some((start, end, linewise)) => {
                        let register = taken(s.text, s.cursor, target, ctx, start, end);
                        if start == end {
                            (s.yanking(register, linewise), None)
                        } else {
                            (
                                s.yanking(register, linewise).replacing(start, end, Seq::empty()),
                                mirrored(shared, start, Seq::empty(), end - start),
                            )
                        }
                    },
                    None => (s, None),
                },
                (EditAction::Yank, _) => match target_range(
                    s.text,
                    s.cursor,
                    target,
                    ctx,
                    s.desired,
                ) {
                    Some((start, end, linewise)) => (
                        s.yanking(taken(s.text, s.cursor, target, ctx, start, end), linewise),
                        None,
                    ),
                    None => (s, None),
                },
                _ => (s, None),
            }
        },
        VimAction::PromptSubmit => (s, Some(EffectView::Fire(Action::Submit))),
        VimAction::PromptAbort => (s, Some(EffectView::Fire(Action::Unfocus))),
        VimAction::Application(KaijutsuAction::Submit) => (
            s,
            Some(EffectView::Fire(Action::Submit)),
        ),
        VimAction::Application(KaijutsuAction::DismissCompose) => (
            s,
            Some(EffectView::Fire(Action::Unfocus)),
        ),
        _ => (s, None),
    }
}

/// The range an operation covers lies within the text, in order, on boundaries.
pub proof fn law_target_range_is_a_range(
    b: Seq<u8>,
    cursor: int,
    target: EditTarget,
    ctx: EditContext,
    desired: Option<nat>,
)
    requires
        valid_utf8(b),
        overlay::is_offset(b, cursor),
    ensures
        target_range(b, cursor, target, ctx, desired) matches Some((start, end, _)) ==> {
            &&& start <= end
            &&& overlay::is_offset(b, start)
            &&& overlay::is_offset(b, end)
        },
{
    match target {
        EditTarget::Motion(move_type, count) => {
            let n = motion::repeats(count, ctx.count);
            motion::law_motion_keeps_boundaries(b, cursor, move_type, n, ctx.count, desired);
            let to = motion::motion_target(b, cursor, move_type, n, ctx.count, desired);
            let end = layout::max_int(cursor, to);
            if end < b.len() {
                layout::lemma_next_boundary(b, end);
            }
        },
        EditTarget::Range(RangeType::Line, _, count) => {
            let first = layout::line_of(b, cursor);
            let last = range_last_line(b, cursor, count, ctx);
            lemma_line_range(b, cursor, first, last);
        },
        EditTarget::CurrentPosition => {
            if cursor < b.len() {
                layout::lemma_next_boundary(b, cursor);
            }
        },
        _ => {},
    }
}

/// The lines from the cursor's one to a later one form a range.
proof fn lemma_line_range(b: Seq<u8>, cursor: int, first: nat, last: nat)
    requires
        valid_utf8(b),
        overlay::is_offset(b, cursor),
        first == layout::line_of(b, cursor),
        last == motion::last_line(b) || last >= first,
    ensures
        layout::line_start(b, first) <= layout::line_end(b, last),
        layout::line_end(b, last) < b.len() ==> overlay::is_offset(
            b,
            layout::line_end(b, last) + 1,
        ),
        layout::line_start(b, first) > 0 ==> {
            &&& layout::prev_boundary(b, layout::line_start(b, first)) < layout::line_start(
                b,
                first,
            )
            &&& overlay::is_offset(b, layout::prev_boundary(b, layout::line_start(b, first)))
        },
        overlay::is_offset(b, layout::line_start(b, first)),
        overlay::is_offset(b, layout::line_end(b, last)),
{
    layout::lemma_newlines_monotone(b, cursor, b.len() as int);
    assert(b.take(b.len() as int) =~= b);
    assert(first <= motion::last_line(b));
    layout::lemma_line_bounds(b, first);
    layout::lemma_line_bounds(b, last);
    layout::lemma_line_boundaries(b, first);
    layout::lemma_line_boundaries(b, last);
    layout::lemma_line_order(b, first, last);
    layout::lemma_break_from(b, layout::line_start(b, last));
    if layout::line_end(b, last) < b.len() {
        layout::lemma_after_newline(b, layout::line_end(b, last));
    }
    if layout::line_start(b, first) > 0 {
        layout::lemma_prev_boundary(b, layout::line_start(b, first));
    }
}

/// Resolve a target to the byte range `(start, end, linewise)` it covers.
/// Returns `None` if the target can't be resolved.
pub fn resolve_target_range(
    text: &str,
    cursor: usize,
    target: &EditTarget,
    ctx: &EditContext,
    motion_state: &VimMotionState,
) -> (range: Option<(usize, usize, bool)>)
    requires
        overlay::is_offset(encode_utf8(text@), cursor as int),
    ensures
        match range {
            Some((start, end, linewise)) => target_range(
                encode_utf8(text@),
                cursor as int,
                *target,
                *ctx,
                motion::memory_view(motion_state.desired_col),
            ) == Some((start as int, end as int, linewise)),
            None => target_range(
                encode_utf8(text@),
                cursor as int,
                *target,
                *ctx,
                motion::memory_view(motion_state.desired_col),
            ) is None,
        },
{
    let ghost b = encode_utf8(text@);
    let len: usize = text.as_bytes().len();
    proof {
        encode_utf8_valid_utf8(text@);
        law_target_range_is_a_range(
            b,
            cursor as int,
            *target,
            *ctx,
            motion::memory_view(motion_state.desired_col),
        );
    }
    match *target {
        EditTarget::Motion(move_type, count) => {
            let motion_ctx = MotionContext { desired_col: motion_state.desired_col };
            let result = motion::resolve_motion(
                text,
                cursor,
                &move_type,
                &count,
                ctx,
                &motion_ctx,
            );
            let start: usize = if result.cursor < cursor {
                result.cursor
            } else {
                cursor
            };
            let end: usize = if result.cursor < cursor {
                cursor
            } else {
                result.cursor
            };
            if motion::is_inclusive(&move_type) && end < len {
                Some((start, textutil::next_char_boundary(text, end), false))
            } else {
                Some((start, end, false))
            }
        },
        EditTarget::Range(RangeType::Line, _, count) => {
            let resolved: usize = ctx.resolve(&count);
            let more: usize = if resolved < 1 {
                0
            } else {
                resolved - 1
            };
            let first: usize = textutil::line_of(text, cursor);
            let last: usize = motion::line_below(text, first, more);
            let start: usize = textutil::line_start(text, first);
            let end: usize = textutil::line_end(text, last);
            if end < len {
                Some((start, end + 1, true))
            } else if start > 0 {
                Some((textutil::prev_char_boundary(text, start), end, true))
            } else {
                Some((start, end, true))
            }
        },
        EditTarget::CurrentPosition => if cursor < len {
            Some((cursor, textutil::next_char_boundary(text, cursor), false))
        } else {
            None
        },
        _ => None,
    }
}

/// Apply a text deletion to the overlay; the edit to mirror, if there is one.
fn apply_delete(overlay: &mut InputOverlay, start: usize, end: usize, shared: bool) -> (effect:
    Option<VimEffect>)
    requires
        old(overlay).wf(),
        start <= end,
        overlay::is_offset(old(overlay).bytes(), start as int),
        overlay::is_offset(old(overlay).bytes(), end as int),
    ensures
        start == end ==> *final(overlay) == *old(overlay) && effect is None,
        start < end ==> old(overlay).after_replacing(
            (start as int, end as int),
            Seq::empty(),
            final(overlay),
        ) && effect_view(effect) == mirrored(shared, start as int, Seq::empty(), end - start),
{
    if start == end {
        return None;
    }
    proof {
        reveal_strlit("");
        assert(encode_utf8(""@) =~= Seq::<u8>::empty());
    }
    overlay.replace(start, end, "");
    if shared {
        let insert = String::new();
        proof {
            assert(encode_utf8(insert@) =~= Seq::<u8>::empty());
        }
        Some(
            VimEffect::Sync(
                DocEdit { pos: start as u64, insert, delete: (end - start) as u64 },
            ),
        )
    } else {
        None
    }
}

/// Apply a text insertion to the overlay; the edit to mirror, if there is one.
fn apply_insert(overlay: &mut InputOverlay, pos: usize, insert: &str, shared: bool) -> (effect:
    Option<VimEffect>)
    requires
        old(overlay).wf(),
        overlay::is_offset(old(overlay).bytes(), pos as int),
    ensures
        insert@.len() == 0 ==> *final(overlay) == *old(overlay) && effect is None,
        insert@.len() > 0 ==> old(overlay).after_replacing(
            (pos as int, pos as int),
            encode_utf8(insert@),
            final(overlay),
        ) && effect_view(effect) == mirrored(shared, pos as int, encode_utf8(insert@), 0),
{
    if insert.is_empty() {
        return None;
    }
    overlay.replace(pos, pos, insert);
    if shared {
        Some(VimEffect::Sync(DocEdit { pos: pos as u64, insert: insert.to_owned(), delete: 0 }))
    } else {
        None
    }
}

/// A character that the Normal-mode cursor can stand on: no newline.
pub open spec fn is_stand(b: Seq<u8>, i: int) -> bool {
    is_char_boundary(b, i) && !layout::is_newline(b[i])
}

/// The nearest character at or before `i` that is no newline, if there is one.
pub open spec fn stand_to(b: Seq<u8>, i: int) -> Option<int>
    decreases i + 1,
{
    if i < 0 {
        None
    } else if is_stand(b, i) {
        Some(i)
    } else {
        stand_to(b, i - 1)
    }
}

/// The nearest character at or after `i` that is no newline, if there is one.
pub open spec fn stand_from(b: Seq<u8>, i: int) -> Option<int>
    decreases b.len() - i,
{
    if i >= b.len() {
        None
    } else if is_stand(b, i) {
        Some(i)
    } else {
        stand_from(b, i + 1)
    }
}

/// Where the Normal-mode cursor comes to rest: on the nearest character at or before it that is
/// no newline, or, where none stands before, on the first one after it. A text of newlines alone
/// has no such character: there the cursor stays within the text, one step back.
pub open spec fn resting_cursor(b: Seq<u8>, cursor: int) -> int {
    if b.len() == 0 {
        cursor
    } else {
        let inside = layout::min_int(cursor, b.len() - 1);
        match (stand_to(b, inside), stand_from(b, inside)) {
            (Some(i), _) => i,
            (None, Some(i)) => i,
            (None, None) => layout::max_int(inside - 1, 0),
        }
    }
}

proof fn lemma_stand_to(b: Seq<u8>, i: int)
    requires
        i < b.len(),
    ensures
        match stand_to(b, i) {
            Some(r) => 0 <= r <= i && is_stand(b, r) && forall|q: int|
                r < q <= i ==> !is_stand(b, q),
            None => forall|q: int| 0 <= q <= i ==> !is_stand(b, q),
        },
    decreases i + 1,
{
    if i >= 0 && !is_stand(b, i) {
        lemma_stand_to(b, i - 1);
    }
}

proof fn lemma_stand_from(b: Seq<u8>, i: int)
    requires
        0 <= i,
    ensures
        match stand_from(b, i) {
            Some(r) => i <= r < b.len() && is_stand(b, r) && forall|q: int|
                i <= q < r ==> !is_stand(b, q),
            None => forall|q: int| i <= q < b.len() ==> !is_stand(b, q),
        },
    decreases b.len() - i,
{
    if i < b.len() && !is_stand(b, i) {
        lemma_stand_from(b, i + 1);
    }
}

/// A byte that is no newline belongs to a character that is none.
proof fn lemma_stand_of_byte(b: Seq<u8>, q: int)
    requires
        valid_utf8(b),
        0 <= q < b.len(),
        !layout::is_newline(b[q]),
    ensures
        is_stand(b, layout::boundary_to(b, q)),
        0 <= layout::boundary_to(b, q) <= q,
{
    layout::lemma_boundary_to(b, q);
    let p = layout::boundary_to(b, q);
    if layout::is_newline(b[p]) {
        layout::lemma_after_newline(b, p);
    }
}

/// Without a character to stand on, every byte is a newline.
proof fn lemma_newlines_alone(b: Seq<u8>)
    requires
        valid_utf8(b),
        forall|q: int| 0 <= q < b.len() ==> !is_stand(b, q),
    ensures
        forall|q: int| 0 <= q < b.len() ==> b[q] == 10,
        forall|q: int| 0 <= q <= b.len() ==> is_char_boundary(b, q),
{
    assert forall|q: int| 0 <= q < b.len() implies b[q] == 10 by {
        if b[q] != 10 {
            lemma_stand_of_byte(b, q);
        }
    }
    assert forall|q: int| 0 <= q <= b.len() implies is_char_boundary(b, q) by {
        lemma_newlines_are_boundaries(b, q);
    }
}

proof fn lemma_newlines_are_boundaries(b: Seq<u8>, q: int)
    requires
        valid_utf8(b),
        forall|k: int| 0 <= k < b.len() ==> b[k] == 10,
        0 <= q <= b.len(),
    ensures
        is_char_boundary(b, q),
    decreases q,
{
    is_char_boundary_start_end_of_seq(b);
    if q > 0 {
        lemma_newlines_are_boundaries(b, q - 1);
        layout::lemma_after_newline(b, q - 1);
    }
}

/// In Normal mode the cursor rests on a character within the text, which is no newline wherever
/// the text holds anything else; and it stays where it is if it stands on such a character.
pub proof fn law_resting_cursor_is_on_a_character(b: Seq<u8>, cursor: int)
    requires
        valid_utf8(b),
        b.len() > 0,
        overlay::is_offset(b, cursor),
    ensures
        0 <= resting_cursor(b, cursor) < b.len(),
        is_char_boundary(b, resting_cursor(b, cursor)),
        (exists|q: int| 0 <= q < b.len() && b[q] != 10) ==> b[resting_cursor(b, cursor)] != 10,
        cursor < b.len() && b[cursor] != 10 ==> resting_cursor(b, cursor) == cursor,
{
    let inside = layout::min_int(cursor, b.len() - 1);
    lemma_stand_to(b, inside);
    lemma_stand_from(b, inside);
    if stand_to(b, inside) is None && stand_from(b, inside) is None {
        lemma_newlines_alone(b);
    }
}

/// In Normal mode, keep the cursor on a character: not past the end of the text and not on a
/// newline, as far as the text holds anything else. In any other mode the cursor may stand at the
/// end of the text.
pub fn clamp_normal_cursor(overlay: &mut InputOverlay)
    requires
        old(overlay).wf(),
    ensures
        final(overlay).wf(),
        final(overlay).text == old(overlay).text,
        final(overlay).selection_anchor == old(overlay).selection_anchor,
        final(overlay).vim_mode == old(overlay).vim_mode,
        final(overlay).mode == old(overlay).mode,
        final(overlay).cursor == (if old(overlay).vim_mode is Some {
            old(overlay).cursor as int
        } else {
            resting_cursor(old(overlay).bytes(), old(overlay).cursor as int)
        }),
{
    let ghost b = overlay.bytes();
    let len: usize = overlay.text.as_str().as_bytes().len();
    if overlay.vim_mode.is_some() || len == 0 {
        return;
    }
    proof {
        encode_utf8_valid_utf8(overlay.text@);
        law_resting_cursor_is_on_a_character(b, overlay.cursor as int);
    }
    overlay.cursor = rest(overlay.text.as_str(), overlay.cursor);
}

/// Where the cursor comes to rest in a text that has a character.
fn rest(text: &str, cursor: usize) -> (pos: usize)
    requires
        encode_utf8(text@).len() > 0,
        overlay::is_offset(encode_utf8(text@), cursor as int),
    ensures
        pos == resting_cursor(encode_utf8(text@), cursor as int),
{
    let ghost b = encode_utf8(text@);
    let bytes = text.as_bytes();
    let len: usize = bytes.len();
    let inside: usize = if cursor < len {
        cursor
    } else {
        len - 1
    };
    proof {
        encode_utf8_valid_utf8(text@);
        lemma_stand_to(b, inside as int);
        lemma_stand_from(b, inside as int);
        is_char_boundary_start_end_of_seq(b);
    }
    let mut back: usize = inside + 1;
    while back > 0
        invariant
            b == encode_utf8(text@),
            bytes@ == b,
            valid_utf8(b),
            b.len() > 0,
            inside == layout::min_int(cursor as int, b.len() - 1),
            back <= inside + 1 <= b.len(),
            forall|q: int| back <= q <= inside ==> !is_stand(b, q),
        decreases back,
    {
        let prev: usize = textutil::prev_char_boundary(text, back);
        proof {
            layout::lemma_prev_boundary(b, back as int);
            lemma_stand_to(b, inside as int);
        }
        assert forall|q: int| prev < q <= inside implies !is_stand(b, q) by {
            if q < back {
                assert(!is_char_boundary(b, q));
            }
        }
        if bytes[prev] != 10 {
            assert(is_stand(b, prev as int));
            return prev;
        }
        back = prev;
    }
    let mut ahead: usize = inside;
    while ahead < len
        invariant
            b == encode_utf8(text@),
            bytes@ == b,
            valid_utf8(b),
            b.len() > 0,
            len == b.len(),
            inside == layout::min_int(cursor as int, b.len() - 1),
            inside <= ahead <= b.len(),
            stand_to(b, inside as int) is None,
            forall|q: int| inside <= q < ahead ==> !is_stand(b, q),
            forall|q: int| 0 <= q <= inside ==> !is_stand(b, q),
            ahead == inside || is_char_boundary(b, ahead as int),
        decreases len - ahead,
    {
        proof {
            lemma_stand_from(b, inside as int);
            layout::lemma_next_boundary(b, ahead as int);
        }
        if bytes[ahead] != 10 {
            proof {
                lemma_stand_of_byte(b, ahead as int);
            }
            return ahead;
        }
        ahead = textutil::next_char_boundary(text, ahead);
    }
    if inside > 0 {
        inside - 1
    } else {
        0
    }
}

/// The register's whole lines, set off by a newline before them or closed by one behind them.
fn put_lines(register: &str, opens: bool) -> (insert: String)
    requires
        register@.len() > 0,
    ensures
        insert@.len() > 0,
        encode_utf8(insert@) == (if opens {
            seq![10u8] + unclosed(encode_utf8(register@))
        } else {
            unclosed(encode_utf8(register@)).push(10)
        }),
{
    let ghost bytes = encode_utf8(register@);
    proof {
        encode_utf8_valid_utf8(register@);
        lemma_encoding_not_empty(register@);
        is_char_boundary_start_end_of_seq(bytes);
    }
    let len: usize = register.as_bytes().len();
    let end: usize = if register.as_bytes()[len - 1] == 10 {
        proof {
            layout::lemma_after_newline(bytes, len - 1);
        }
        len - 1
    } else {
        len
    };
    let body = textbuf::slice(register, 0, end);
    let mut insert = String::new();
    proof {
        reveal_strlit("\n");
        assert("\n"@ =~= seq!['\n']);
        lemma_encode_newline();
        assert(encode_utf8(body@) =~= unclosed(bytes));
        textbuf::lemma_encode_concat("\n"@, body@);
        textbuf::lemma_encode_concat(body@, "\n"@);
        assert(unclosed(bytes) + seq![10u8] =~= unclosed(bytes).push(10));
    }
    if opens {
        insert.append("\n");
        insert.append(body.as_str());
        assert(insert@ =~= "\n"@ + body@);
    } else {
        insert.append(body.as_str());
        insert.append("\n");
        assert(insert@ =~= body@ + "\n"@);
    }
    insert
}

/// What an operation on a target takes into the register.
fn taken_text(
    text: &str,
    cursor: usize,
    target: &EditTarget,
    ctx: &EditContext,
    start: usize,
    end: usize,
) -> (register: String)
    requires
        overlay::is_offset(encode_utf8(text@), cursor as int),
        start <= end,
        overlay::is_offset(encode_utf8(text@), start as int),
        overlay::is_offset(encode_utf8(text@), end as int),
    ensures
        encode_utf8(register@) == taken(
            encode_utf8(text@),
            cursor as int,
            *target,
            *ctx,
            start as int,
            end as int,
        ),
{
    let ghost b = encode_utf8(text@);
    match *target {
        EditTarget::Range(RangeType::Line, _, count) => {
            proof {
                encode_utf8_valid_utf8(text@);
            }
            let mut register = String::new();
            if text.as_bytes().len() == 0 {
                assert(encode_utf8(register@) =~= Seq::<u8>::empty());
                return register;
            }
            let resolved: usize = ctx.resolve(&count);
            let more: usize = if resolved < 1 {
                0
            } else {
                resolved - 1
            };
            let first: usize = textutil::line_of(text, cursor);
            let last: usize = motion::line_below(text, first, more);
            proof {
                lemma_line_range(b, cursor as int, first as nat, last as nat);
            }
            let from: usize = textutil::line_start(text, first);
            let to: usize = textutil::line_end(text, last);
            let body = textbuf::slice(text, from, to);
            register.append(body.as_str());
            register.append("\n");
            proof {
                reveal_strlit("\n");
                assert("\n"@ =~= seq!['\n']);
                lemma_encode_newline();
                assert(register@ =~= body@ + "\n"@);
                textbuf::lemma_encode_concat(body@, "\n"@);
                assert(encode_utf8(body@) + seq![10u8] =~= encode_utf8(body@).push(10));
            }
            register
        },
        _ => textbuf::slice(text, start, end),
    }
}

proof fn lemma_encode_newline()
    ensures
        encode_utf8(seq!['\n']) == seq![10u8],
{
    let s = seq!['\n'];
    assert(is_ascii_chars(s));
    is_ascii_chars_encode_utf8(s);
    assert(encode_utf8(s) =~= seq![10u8]);
}

proof fn lemma_encoding_not_empty(s: Seq<char>)
    ensures
        s.len() > 0 <==> encode_utf8(s).len() > 0,
{
    if s.len() > 0 {
        encode_utf8_first_scalar(s);
    }
}

/// Where a paste inserts lies on a boundary within the text.
proof fn lemma_paste_pos(s: EditorState, style: PasteStyle)
    requires
        s.wf(),
    ensures
        overlay::is_offset(s.text, paste_pos(s, style)),
{
    let line = layout::line_of(s.text, s.cursor);
    is_char_boundary_start_end_of_seq(s.text);
    layout::lemma_line_bounds(s.text, line);
    layout::lemma_line_boundaries(s.text, line);
    layout::lemma_break_from(s.text, layout::line_start(s.text, line));
    if layout::line_end(s.text, line) < s.text.len() {
        layout::lemma_after_newline(s.text, layout::line_end(s.text, line));
    }
    if s.cursor < s.text.len() {
        layout::lemma_next_boundary(s.text, s.cursor);
    }
}

/// Translate an action of the vim machine into changes of the overlay and the motion state,
/// and into what it asks of the rest of the application.
///
/// `online` tells whether there is a connection and an active context; `skip_crdt` is set on
/// the shell surface, whose text is not shared.
pub fn translate_action(
    action: &VimAction,
    ctx: &EditContext,
    overlay: &mut InputOverlay,
    motion_state: &mut VimMotionState,
    online: bool,
    skip_crdt: bool,
) -> (effect: Option<VimEffect>)
    requires
        old(overlay).wf(),
    ensures
        final(overlay).wf(),
        final(overlay).vim_mode == old(overlay).vim_mode,
        final(overlay).mode == old(overlay).mode,
        (state_of(*final(overlay), *final(motion_state)), effect_view(effect)) == step(
            state_of(*old(overlay), *old(motion_state)),
            *action,
            *ctx,
            online && !skip_crdt,
        ),
{
    let shared: bool = online && !skip_crdt;
    let ghost s = state_of(*overlay, *motion_state);
    proof {
        encode_utf8_valid_utf8(overlay.text@);
        encode_utf8_valid_utf8(motion_state.register@);
    }
    match *action {
        VimAction::Type(c) => {
            let mut text = String::new();
            text.push(c);
            proof {
                assert(text@ =~= seq![c]);
            }
            Some(VimEffect::Type(text))
        },
        VimAction::Paste(style) => {
            proof {
                lemma_encoding_not_empty(motion_state.register@);
                lemma_paste_pos(s, style);
                layout::lemma_line_bounds(s.text, layout::line_of(s.text, s.cursor));
            }
            if motion_state.register.as_str().is_empty() {
                return None;
            }
            let after: bool = match style {
                PasteStyle::Side(MoveDir1D::Next) => true,
                _ => false,
            };
            if motion_state.register_linewise {
                let line: usize = textutil::line_of(overlay.text.as_str(), overlay.cursor);
                let end: usize = textutil::line_end(overlay.text.as_str(), line);
                let opens: bool = after && end == overlay.text.as_str().as_bytes().len();
                let pos: usize = if opens {
                    end
                } else if after {
                    end + 1
                } else {
                    textutil::line_start(overlay.text.as_str(), line)
                };
                let insert = put_lines(motion_state.register.as_str(), opens);
                apply_insert(overlay, pos, insert.as_str(), shared)
            } else {
                let pos: usize = if after {
                    textutil::next_char_boundary(overlay.text.as_str(), overlay.cursor)
                } else {
                    overlay.cursor
                };
                let insert = motion_state.register.clone();
                apply_insert(overlay, pos, insert.as_str(), shared)
            }
        },
        VimAction::Edit(op_spec, target) => {
            proof {
                law_target_range_is_a_range(s.text, s.cursor, target, *ctx, s.desired);
            }
            match ctx.resolve_operation(&op_spec) {
                EditAction::Motion => {
                    if let EditTarget::Motion(move_type, count) = target {
                        let motion_ctx = MotionContext { desired_col: motion_state.desired_col };
                        let result = motion::resolve_motion(
                            overlay.text.as_str(),
                            overlay.cursor,
                            &move_type,
                            &count,
                            ctx,
                            &motion_ctx,
                        );
                        proof {
                            motion::law_motion_keeps_boundaries(
                                s.text,
                                s.cursor,
                                move_type,
                                motion::repeats(count, ctx.count),
                                ctx.count,
                                s.desired,
                            );
                        }
                        overlay.cursor = result.cursor;
                        motion_state.desired_col = result.desired_col;
                        overlay.selection_anchor = None;
                    }
                    None
                },
                EditAction::Delete => {
                    match resolve_target_range(
                        overlay.text.as_str(),
                        overlay.cursor,
                        &target,
                        ctx,
                        motion_state,
                    ) {
                        Some((start, end, linewise)) => {
                            motion_state.register = taken_text(
                                overlay.text.as_str(),
                                overlay.cursor,
                                &target,
                                ctx,
                                start,
                                end,
                            );
                            motion_state.register_linewise = linewise;
                            apply_delete(overlay, start, end, shared)
                        },
                        None => None,
                    }
                },
                EditAction::Yank => {
                    if let Some((start, end, linewise)) = resolve_target_range(
                        overlay.text.as_str(),
                        overlay.cursor,
                        &target,
                        ctx,
                        motion_state,
                    ) {
                        motion_state.register = taken_text(
                            overlay.text.as_str(),
                            overlay.cursor,
                            &target,
                            ctx,
                            start,
                            end,
                        );
                        motion_state.register_linewise = linewise;
                    }
                    None
                },
                _ => None,
            }
        },
        VimAction::PromptSubmit => Some(VimEffect::Fire(Action::Submit)),
        VimAction::PromptAbort => Some(VimEffect::Fire(Action::Unfocus)),
        VimAction::Application(KaijutsuAction::Submit) => Some(VimEffect::Fire(Action::Submit)),
        VimAction::Application(KaijutsuAction::DismissCompose) => Some(
            VimEffect::Fire(Action::Unfocus),
        ),
        _ => None,
    }
}

/// Where a key event goes while composing.
#[derive(Clone, Copy, Debug, PartialEq, Eq, Structural)]
pub enum ComposeKey {
    /// Nowhere.
    Ignore,
    /// Past the vim machine: fire an action.
    Fire(Action),
    /// To the vim machine.
    Feed(TermKey, TermModifiers),
}

/// Where a key event goes while composing, with the given keys held. The interrupt and the
/// surface toggle work whatever the vim machine waits for; every other key that has a terminal
/// key goes to the machine, repeats included.
pub open spec fn compose_route(event: KeyboardInput, held: Set<KeyCode>) -> ComposeKey {
    if !event.pressed {
        ComposeKey::Ignore
    } else if keys::ctrl_held(held) && event.key_code == KeyCode::KeyC {
        ComposeKey::Fire(Action::InterruptContext { immediate: false })
    } else if keys::ctrl_held(held) && event.key_code == KeyCode::KeyZ {
        ComposeKey::Fire(Action::ToggleSurface)
    } else {
        match keyconv::event_code(event) {
            Some(code) => ComposeKey::Feed(
                code,
                TermModifiers { bits: keyconv::modifier_bits(held) as u8 },
            ),
            None => ComposeKey::Ignore,
        }
    }
}

/// Route a key event while composing.
pub fn route_compose_key(event: &KeyboardInput, keys: &HeldKeys) -> (route: ComposeKey)
    ensures
        route == compose_route(*event, keys@),
{
    if !event.pressed {
        return ComposeKey::Ignore;
    }
    let ctrl = keys.ctrl();
    if ctrl && event.key_code == KeyCode::KeyC {
        return ComposeKey::Fire(Action::InterruptContext { immediate: false });
    }
    if ctrl && event.key_code == KeyCode::KeyZ {
        return ComposeKey::Fire(Action::ToggleSurface);
    }
    match keyconv::terminal_code(event) {
        Some(code) => ComposeKey::Feed(code, keyconv::bevy_modifiers(keys)),
        None => ComposeKey::Ignore,
    }
}

/// What a sequence of actions does, one after the other, and all they ask for in order.
pub open spec fn run(
    s: EditorState,
    actions: Seq<(VimAction, EditContext)>,
    shared: bool,
) -> (EditorState, Seq<EffectView>)
    decreases actions.len(),
{
    if actions.len() == 0 {
        (s, Seq::empty())
    } else {
        let before = run(s, actions.drop_last(), shared);
        let (action, ctx) = actions.last();
        let after = step(before.0, action, ctx, shared);
        (
            after.0,
            match after.1 {
                Some(effect) => before.1.push(effect),
                None => before.1,
            },
        )
    }
}

/// The views of a list of effects.
pub open spec fn effect_views(effects: Seq<VimEffect>) -> Seq<EffectView> {
    effects.map_values(|e: VimEffect| e.view())
}

/// A mode banner as characters.
pub open spec fn banner(mode: Option<String>) -> Option<Seq<char>> {
    match mode {
        Some(text) => Some(text@),
        None => None,
    }
}

/// The state with the cursor at rest, which it comes to in Normal mode alone.
pub open spec fn rested(s: EditorState, mode: Option<Seq<char>>) -> EditorState {
    if mode is Some {
        s
    } else {
        EditorState { cursor: resting_cursor(s.text, s.cursor), ..s }
    }
}

/// Take in one keystroke: show the machine's mode, carry out the actions it produced in
/// order, and then bring the cursor to rest.
pub fn apply_keystroke(
    overlay: &mut InputOverlay,
    motion_state: &mut VimMotionState,
    mode: Option<String>,
    actions: &Vec<(VimAction, EditContext)>,
    online: bool,
    skip_crdt: bool,
) -> (effects: Vec<VimEffect>)
    requires
        old(overlay).wf(),
    ensures
        final(overlay).wf(),
        final(overlay).vim_mode == mode,
        final(overlay).mode == old(overlay).mode,
        ({
            let (s, asked) = run(
                state_of(*old(overlay), *old(motion_state)),
                actions@,
                online && !skip_crdt,
            );
            state_of(*final(overlay), *final(motion_state)) == rested(s, banner(mode))
                && effect_views(effects@) == asked
        }),
{
    let ghost start = state_of(*overlay, *motion_state);
    let ghost shared = online && !skip_crdt;
    overlay.vim_mode = mode;
    let mut effects: Vec<VimEffect> = Vec::new();
    let mut i: usize = 0;
    assert(actions@.take(0) =~= Seq::empty());
    assert(effect_views(effects@) =~= Seq::empty());
    while i < actions.len()
        invariant
            i <= actions.len(),
            shared == (online && !skip_crdt),
            overlay.wf(),
            overlay.vim_mode == mode,
            overlay.mode == old(overlay).mode,
            (state_of(*overlay, *motion_state), effect_views(effects@)) == run(
                start,
                actions@.take(i as int),
                shared,
            ),
        decreases actions.len() - i,
    {
        let ghost before = state_of(*overlay, *motion_state);
        let ghost done = effects@;
        let effect = translate_action(
            &actions[i].0,
            &actions[i].1,
            overlay,
            motion_state,
            online,
            skip_crdt,
        );
        proof {
            assert(actions@.take(i + 1).drop_last() =~= actions@.take(i as int));
            assert(actions@.take(i + 1).last() == actions@[i as int]);
        }
        match effect {
            Some(e) => {
                effects.push(e);
                proof {
                    assert(effect_views(effects@) =~= effect_views(done).push(e.view()));
                }
            },
            None => {},
        }
        i = i + 1;
    }
    assert(actions@.take(i as int) =~= actions@);
    clamp_normal_cursor(overlay);
    effects
}

/// The compose area as a whole: the machine, the banner of its mode as shown, the editing state,
/// and what was asked of the rest of the application so far.
#[verifier::ext_equal]
pub struct Composing {
    pub vim: VimMachineResource,
    pub mode: Option<Seq<char>>,
    pub state: EditorState,
    pub effects: Seq<EffectView>,
}

/// What a key that goes to the machine does: the mode that the machine is then in is shown, all
/// that it has queued is carried out in order, and the cursor comes to rest.
pub open spec fn keystroke(
    c: Composing,
    code: TermKey,
    modifiers: TermModifiers,
    shared: bool,
) -> Composing {
    let vim = machine::fed(c.vim, code, modifiers);
    let mode = machine::shown_mode(vim);
    let (s, asked) = run(c.state, machine::queued(vim), shared);
    Composing {
        vim: machine::emptied(vim),
        mode,
        state: rested(s, mode),
        effects: c.effects + asked,
    }
}

/// What a key event does.
pub open spec fn typed(
    c: Composing,
    event: KeyboardInput,
    held: Set<KeyCode>,
    shared: bool,
) -> Composing {
    match compose_route(event, held) {
        ComposeKey::Ignore => c,
        ComposeKey::Fire(action) => Composing {
            effects: c.effects.push(EffectView::Fire(action)),
            ..c
        },
        ComposeKey::Feed(code, modifiers) => keystroke(c, code, modifiers, shared),
    }
}

/// What a sequence of key events does, one after the other.
pub open spec fn typed_all(
    c: Composing,
    events: Seq<KeyboardInput>,
    held: Set<KeyCode>,
    shared: bool,
) -> Composing
    decreases events.len(),
{
    if events.len() == 0 {
        c
    } else {
        typed(typed_all(c, events.drop_last(), held, shared), events.last(), held, shared)
    }
}

/// Feed a key to the machine, and carry out what it asks for.
pub fn feed_compose_key(
    code: TermKey,
    modifiers: TermModifiers,
    vim: &mut VimMachineResource,
    overlay: &mut InputOverlay,
    motion_state: &mut VimMotionState,
    online: bool,
    skip_crdt: bool,
) -> (effects: Vec<VimEffect>)
    requires
        old(overlay).wf(),
    ensures
        final(overlay).wf(),
        final(overlay).mode == old(overlay).mode,
        (Composing {
            vim: *final(vim),
            mode: banner(final(overlay).vim_mode),
            state: state_of(*final(overlay), *final(motion_state)),
            effects: effect_views(effects@),
        }) == keystroke(
            (Composing {
                vim: *old(vim),
                mode: banner(old(overlay).vim_mode),
                state: state_of(*old(overlay), *old(motion_state)),
                effects: Seq::empty(),
            }),
            code,
            modifiers,
            online && !skip_crdt,
        ),
{
    vim.feed(code, modifiers);
    let mode = vim.mode_display();
    let actions = vim.drain();
    let effects = apply_keystroke(overlay, motion_state, mode, &actions, online, skip_crdt);
    assert(Seq::<EffectView>::empty() + effect_views(effects@) =~= effect_views(effects@));
    effects
}

/// Take in key events while composing, with the given keys held: the interrupt and the surface
/// toggle are fired past the vim machine, every other key is fed to it, and what the machine asks
/// for is carried out before the next event. Returns what the events ask of the rest of the
/// application, in order.
///
/// `online` tells whether there is a connection and an active context; `skip_crdt` is set on
/// the shell surface, whose text is not shared.
pub fn vim_dispatch_compose(
    events: &Vec<KeyboardInput>,
    keys: &HeldKeys,
    vim: &mut VimMachineResource,
    overlay: &mut InputOverlay,
    motion_state: &mut VimMotionState,
    online: bool,
    skip_crdt: bool,
) -> (effects: Vec<VimEffect>)
    requires
        old(overlay).wf(),
    ensures
        final(overlay).wf(),
        final(overlay).mode == old(overlay).mode,
        (Composing {
            vim: *final(vim),
            mode: banner(final(overlay).vim_mode),
            state: state_of(*final(overlay), *final(motion_state)),
            effects: effect_views(effects@),
        }) == typed_all(
            (Composing {
                vim: *old(vim),
                mode: banner(old(overlay).vim_mode),
                state: state_of(*old(overlay), *old(motion_state)),
                effects: Seq::empty(),
            }),
            events@,
            keys@,
            online && !skip_crdt,
        ),
{
    let ghost shared = online && !skip_crdt;
    let mut effects: Vec<VimEffect> = Vec::new();
    let ghost start = Composing {
        vim: *vim,
        mode: banner(overlay.vim_mode),
        state: state_of(*overlay, *motion_state),
        effects: Seq::empty(),
    };
    let mut i: usize = 0;
    assert(effect_views(effects@) =~= Seq::empty());
    assert(events@.take(0) =~= Seq::empty());
    while i < events.len()
        invariant
            i <= events.len(),
            shared == (online && !skip_crdt),
            overlay.wf(),
            overlay.mode == old(overlay).mode,
            (Composing {
                vim: *vim,
                mode: banner(overlay.vim_mode),
                state: state_of(*overlay, *motion_state),
                effects: effect_views(effects@),
            }) == typed_all(start, events@.take(i as int), keys@, shared),
        decreases events.len() - i,
    {
        let ghost done = effects@;
        proof {
            assert(events@.take(i + 1).drop_last() =~= events@.take(i as int));
            assert(events@.take(i + 1).last() == events@[i as int]);
        }
        match route_compose_key(&events[i], keys) {
            ComposeKey::Ignore => {},
            ComposeKey::Fire(action) => {
                effects.push(VimEffect::Fire(action));
                assert(effect_views(effects@) =~= effect_views(done).push(EffectView::Fire(action)));
            },
            ComposeKey::Feed(code, modifiers) => {
                let mut more = feed_compose_key(
                    code,
                    modifiers,
                    vim,
                    overlay,
                    motion_state,
                    online,
                    skip_crdt,
                );
                let ghost asked = more@;
                effects.append(&mut more);
                assert(effect_views(effects@) =~= effect_views(done) + effect_views(asked));
                assert(Seq::<EffectView>::empty() + effect_views(asked) =~= effect_views(asked));
            },
        }
        i = i + 1;
    }
    assert(events@.take(i as int) =~= events@);
    effects
}

/// No action of the vim machine tears the text or strands the cursor.
pub proof fn law_step_keeps_the_state_well_formed(
    s: EditorState,
    action: VimAction,
    ctx: EditContext,
    shared: bool,
)
    requires
        s.wf(),
    ensures
        step(s, action, ctx, shared).0.wf(),
{
    match action {
        VimAction::Paste(style) => {
            if s.register.len() > 0 {
                let pos = paste_pos(s, style);
                lemma_paste_pos(s, style);
                lemma_paste_text_valid(s, style);
                lemma_replacing_keeps_wf(s, pos, pos, paste_text(s, style));
            }
        },
        VimAction::Edit(op_spec, target) => {
            law_target_range_is_a_range(s.text, s.cursor, target, ctx, s.desired);
            match target {
                EditTarget::Motion(move_type, count) => {
                    motion::law_motion_keeps_boundaries(
                        s.text,
                        s.cursor,
                        move_type,
                        motion::repeats(count, ctx.count),
                        ctx.count,
                        s.desired,
                    );
                },
                _ => {},
            }
            match target_range(s.text, s.cursor, target, ctx, s.desired) {
                Some((start, end, linewise)) => {
                    let register = taken(s.text, s.cursor, target, ctx, start, end);
                    lemma_taken_valid(s.text, s.cursor, target, ctx, start, end);
                    lemma_replacing_keeps_wf(
                        s.yanking(register, linewise),
                        start,
                        end,
                        Seq::empty(),
                    );
                },
                None => {},
            }
        },
        _ => {},
    }
}

/// No sequence of actions of the vim machine tears the text or strands the cursor.
pub proof fn law_run_keeps_the_state_well_formed(
    s: EditorState,
    actions: Seq<(VimAction, EditContext)>,
    shared: bool,
)
    requires
        s.wf(),
    ensures
        run(s, actions, shared).0.wf(),
    decreases actions.len(),
{
    if actions.len() > 0 {
        law_run_keeps_the_state_well_formed(s, actions.drop_last(), shared);
        let (action, ctx) = actions.last();
        law_step_keeps_the_state_well_formed(
            run(s, actions.drop_last(), shared).0,
            action,
            ctx,
            shared,
        );
    }
}

/// After every key that goes to the machine, whatever it asks for, the editing state is well
/// formed; and wherever that leaves the machine in Normal mode, the cursor stands on a character
/// that is no newline, if the text holds one.
pub proof fn law_a_keystroke_leaves_the_cursor_at_rest(
    c: Composing,
    code: TermKey,
    modifiers: TermModifiers,
    shared: bool,
)
    requires
        c.state.wf(),
    ensures
        ({
            let after = keystroke(c, code, modifiers, shared);
            &&& after.state.wf()
            &&& after.mode is None && (exists|q: int|
                0 <= q < after.state.text.len() && after.state.text[q] != 10) ==> after.state.cursor
                < after.state.text.len() && after.state.text[after.state.cursor] != 10
        }),
{
    let vim = machine::fed(c.vim, code, modifiers);
    law_run_keeps_the_state_well_formed(c.state, machine::queued(vim), shared);
    let s = run(c.state, machine::queued(vim), shared).0;
    if s.text.len() > 0 {
        law_resting_cursor_is_on_a_character(s.text, s.cursor);
    }
}

/// The interrupt and the surface toggle always work, whatever the vim machine waits for: they
/// fire, and neither the machine nor its mode nor the text changes.
pub proof fn law_interrupt_and_toggle_pass_the_machine_by(
    c: Composing,
    event: KeyboardInput,
    held: Set<KeyCode>,
    shared: bool,
)
    requires
        event.pressed,
        keys::ctrl_held(held),
        event.key_code == KeyCode::KeyC || event.key_code == KeyCode::KeyZ,
    ensures
        typed(c, event, held, shared) == (Composing {
            effects: c.effects.push(
                EffectView::Fire(
                    if event.key_code == KeyCode::KeyC {
                        Action::InterruptContext { immediate: false }
                    } else {
                        Action::ToggleSurface
                    },
                ),
            ),
            ..c
        }),
{
}

/// It makes no difference how key events are handed over: some of them, and then the others, do
/// what all of them do at once.
pub proof fn law_events_can_be_split(
    c: Composing,
    first: Seq<KeyboardInput>,
    others: Seq<KeyboardInput>,
    held: Set<KeyCode>,
    shared: bool,
)
    ensures
        typed_all(c, first + others, held, shared) == typed_all(
            typed_all(c, first, held, shared),
            others,
            held,
            shared,
        ),
    decreases others.len(),
{
    if others.len() == 0 {
        assert(first + others =~= first);
    } else {
        assert((first + others).drop_last() =~= first + others.drop_last());
        assert((first + others).last() == others.last());
        law_events_can_be_split(c, first, others.drop_last(), held, shared);
    }
}

proof fn lemma_closed_valid(register: Seq<u8>)
    requires
        valid_utf8(register),
    ensures
        valid_utf8(register.push(10)),
        valid_utf8(seq![10u8] + register),
{
    encode_utf8_valid_utf8(seq!['\n']);
    lemma_encode_newline();
    valid_utf8_concat(register, seq![10u8]);
    valid_utf8_concat(seq![10u8], register);
    assert(register + seq![10u8] =~= register.push(10));
}

proof fn lemma_paste_text_valid(s: EditorState, style: PasteStyle)
    requires
        s.wf(),
        s.register.len() > 0,
    ensures
        valid_utf8(paste_text(s, style)),
{
    let register = s.register;
    if layout::is_newline(register.last()) {
        is_char_boundary_start_end_of_seq(register);
        layout::lemma_after_newline(register, register.len() - 1);
        textbuf::lemma_subrange_valid(register, 0, register.len() - 1);
        assert(register.subrange(0, register.len() - 1) =~= register.drop_last());
    }
    lemma_closed_valid(unclosed(register));
}

proof fn lemma_taken_valid(
    b: Seq<u8>,
    cursor: int,
    target: EditTarget,
    ctx: EditContext,
    start: int,
    end: int,
)
    requires
        valid_utf8(b),
        overlay::is_offset(b, cursor),
        start <= end,
        overlay::is_offset(b, start),
        overlay::is_offset(b, end),
    ensures
        valid_utf8(taken(b, cursor, target, ctx, start, end)),
{
    textbuf::lemma_subrange_valid(b, start, end);
    match target {
        EditTarget::Range(RangeType::Line, _, count) => {
            let first = layout::line_of(b, cursor);
            let last = range_last_line(b, cursor, count, ctx);
            lemma_line_range(b, cursor, first, last);
            textbuf::lemma_subrange_valid(
                b,
                layout::line_start(b, first),
                layout::line_end(b, last),
            );
            lemma_closed_valid(
                b.subrange(layout::line_start(b, first), layout::line_end(b, last)),
            );
            if b.len() == 0 {
                assert(b =~= Seq::empty());
            }
        },
        _ => {},
    }
}

proof fn lemma_replacing_keeps_wf(s: EditorState, start: int, end: int, insert: Seq<u8>)
    requires
        s.wf(),
        valid_utf8(insert),
        start <= end,
        overlay::is_offset(s.text, start),
        overlay::is_offset(s.text, end),
    ensures
        s.replacing(start, end, insert).wf(),
{
    textbuf::lemma_spliced_valid(s.text, start, end, insert);
}

/// The shared document follows the text: whatever an action does to the text, the edit it
/// mirrors does to the document, and an action that mirrors nothing leaves the text alone.
pub proof fn law_mirrored_edits_follow_the_text(
    s: EditorState,
    action: VimAction,
    ctx: EditContext,
)
    ensures
        match step(s, action, ctx, true).1 {
            Some(EffectView::Sync { pos, insert, delete }) => step(s, action, ctx, true).0.text
                == textbuf::spliced(s.text, pos, pos + delete, insert),
            _ => step(s, action, ctx, true).0.text == s.text,
        },
{
}

/// Where the document is not shared nothing is mirrored, and the text changes all the same.
pub proof fn law_unshared_edits_stay_local(s: EditorState, action: VimAction, ctx: EditContext)
    ensures
        !(step(s, action, ctx, false).1 matches Some(EffectView::Sync { .. })),
        step(s, action, ctx, false).0 == step(s, action, ctx, true).0,
{
}

/// Yanking only fills the register.
pub proof fn law_yank_leaves_the_text_alone(
    s: EditorState,
    target: EditTarget,
    ctx: EditContext,
    shared: bool,
)
    ensures
        ({
            let after = step(
                s,
                VimAction::Edit(OperationSpec::Exact(EditAction::Yank), target),
                ctx,
                shared,
            );
            &&& after.1 is None
            &&& after.0.text == s.text
            &&& after.0.cursor == s.cursor
            &&& after.0.desired == s.desired
        }),
{
}

/// Deleting lines leaves exactly the other lines: what lies outside the range are they, with a
/// newline between each two. So no blank line stays behind, even where the last line goes.
pub proof fn law_a_line_range_leaves_the_other_lines(
    b: Seq<u8>,
    cursor: int,
    inclusive: bool,
    count: edit::Count,
    ctx: EditContext,
    desired: Option<nat>,
)
    requires
        valid_utf8(b),
        0 <= cursor <= b.len(),
    ensures
        ({
            let first = layout::line_of(b, cursor);
            let last = range_last_line(b, cursor, count, ctx);
            let target = EditTarget::Range(RangeType::Line, inclusive, count);
            target_range(b, cursor, target, ctx, desired) matches Some((start, end, linewise))
                && linewise && 0 <= start <= end <= b.len() && b.take(start) + b.skip(end)
                == layout::joined(
                layout::lines(b).take(first as int) + layout::lines(b).skip(last as int + 1),
            )
        }),
{
    let total = layout::newlines(b);
    let lines = layout::lines(b);
    let first = layout::line_of(b, cursor);
    let last = range_last_line(b, cursor, count, ctx);
    layout::lemma_newlines_monotone(b, cursor, b.len() as int);
    assert(b.take(b.len() as int) =~= b);
    if b.len() == 0 {
        assert(total == 0);
    }
    assert(first <= last <= total);
    layout::lemma_line_bounds(b, first);
    layout::lemma_line_bounds(b, last);
    layout::lemma_line_order(b, first, last);
    layout::lemma_last_line_ends(b);
    let start = layout::line_start(b, first);
    let end = layout::line_end(b, last);
    let next = last as int + 1;
    let kept = lines.take(first as int) + lines.skip(next);
    if first > 0 {
        layout::lemma_line_bounds(b, (first - 1) as nat);
        layout::lemma_line_break(b, (first - 1) as nat);
        layout::lemma_joined_lines(b, 0, first as int);
        assert(lines.take(first as int) =~= lines.subrange(0, first as int));
        layout::lemma_after_newline(b, start - 1);
    }
    if last < total {
        layout::lemma_line_break(b, last);
        layout::lemma_joined_lines(b, next, total as int + 1);
        assert(lines.skip(next) =~= lines.subrange(next, total as int + 1));
        if first > 0 {
            layout::lemma_joined_concat(lines.take(first as int), lines.skip(next));
            assert(b.take(start) + b.skip(end + 1) =~= layout::joined(kept));
        } else {
            assert(kept =~= lines.skip(next));
            assert(b.take(start) + b.skip(end + 1) =~= layout::joined(kept));
        }
    } else {
        assert(end == b.len());
        assert(kept =~= lines.take(first as int));
        if first > 0 {
            assert(layout::prev_boundary(b, start) == start - 1);
            assert(b.take(start - 1) + b.skip(end) =~= layout::joined(kept));
        } else {
            assert(b.take(start) + b.skip(end) =~= layout::joined(kept));
        }
    }
}

/// Lines inserted before line `k` of a text, or behind all of its lines.
proof fn lemma_lines_inserted(b: Seq<u8>, body: Seq<u8>, k: int)
    requires
        0 <= k <= layout::newlines(b) + 1,
    ensures
        layout::joined(layout::lines(b).take(k) + layout::lines(body) + layout::lines(b).skip(k))
            == (if k <= layout::newlines(b) {
            textbuf::spliced(
                b,
                layout::line_start(b, k as nat),
                layout::line_start(b, k as nat),
                body.push(10),
            )
        } else {
            b + (seq![10u8] + body)
        }),
{
    let total = layout::newlines(b);
    let lines = layout::lines(b);
    let put = layout::lines(body);
    let (before, behind) = (lines.take(k), lines.skip(k));
    layout::law_joining_the_lines_gives_the_text(body);
    layout::law_joining_the_lines_gives_the_text(b);
    if k <= total {
        let start = layout::line_start(b, k as nat);
        layout::lemma_line_bounds(b, k as nat);
        layout::lemma_last_line_ends(b);
        layout::lemma_joined_lines(b, k, total as int + 1);
        assert(behind =~= lines.subrange(k, total as int + 1));
        layout::lemma_joined_concat(put, behind);
        assert(before + put + behind =~= before + (put + behind));
        if k > 0 {
            layout::lemma_line_bounds(b, (k - 1) as nat);
            layout::lemma_line_break(b, (k - 1) as nat);
            layout::lemma_joined_lines(b, 0, k);
            assert(before =~= lines.subrange(0, k));
            layout::lemma_joined_concat(before, put + behind);
            assert(layout::joined(before + put + behind) =~= textbuf::spliced(
                b,
                start,
                start,
                body.push(10),
            ));
        } else {
            assert(before + (put + behind) =~= put + behind);
            assert(layout::joined(put + behind) =~= textbuf::spliced(b, 0, 0, body.push(10)));
        }
    } else {
        assert(before =~= lines);
        assert(before + put + behind =~= lines + put);
        layout::lemma_joined_concat(lines, put);
        assert(b + seq![10u8] + body =~= b + (seq![10u8] + body));
    }
}

/// Putting whole lines adds exactly these lines, behind the line of the cursor or before it: the
/// lines of the text stay as they are, and no line is torn or joined to another.
pub proof fn law_a_linewise_put_adds_whole_lines(
    s: EditorState,
    style: PasteStyle,
    ctx: EditContext,
    shared: bool,
)
    requires
        s.wf(),
        s.linewise,
        s.register.len() > 0,
    ensures
        ({
            let line = layout::line_of(s.text, s.cursor) as int;
            let k = if style == PasteStyle::Side(MoveDir1D::Next) {
                line + 1
            } else {
                line
            };
            let lines = layout::lines(s.text);
            step(s, VimAction::Paste(style), ctx, shared).0.text == layout::joined(
                lines.take(k) + layout::lines(unclosed(s.register)) + lines.skip(k),
            )
        }),
{
    let b = s.text;
    let total = layout::newlines(b);
    let line = layout::line_of(b, s.cursor);
    let body = unclosed(s.register);
    layout::lemma_newlines_monotone(b, s.cursor, b.len() as int);
    assert(b.take(b.len() as int) =~= b);
    layout::lemma_line_bounds(b, line);
    layout::lemma_last_line_ends(b);
    if style == PasteStyle::Side(MoveDir1D::Next) {
        lemma_lines_inserted(b, body, line as int + 1);
        if line < total {
            layout::lemma_line_break(b, line);
        } else {
            assert(textbuf::spliced(b, b.len() as int, b.len() as int, seq![10u8] + body) =~= b + (
            seq![10u8] + body));
        }
    } else {
        lemma_lines_inserted(b, body, line as int);
    }
}

/// A text without some of its lines, but not the last: where they were, a line starts.
proof fn lemma_lines_cut_before_others(b: Seq<u8>, first: nat, last: nat)
    requires
        first <= last < layout::newlines(b),
    ensures
        ({
            let start = layout::line_start(b, first);
            let end = layout::line_end(b, last);
            let cut = textbuf::spliced(b, start, end + 1, Seq::empty());
            &&& 0 <= start <= end < b.len()
            &&& layout::line_start(cut, layout::line_of(cut, start)) == start
            &&& textbuf::spliced(cut, start, start, b.subrange(start, end).push(10)) == b
        }),
{
    layout::lemma_line_bounds(b, first);
    layout::lemma_line_bounds(b, last);
    layout::lemma_line_order(b, first, last);
    layout::lemma_line_break(b, last);
    let start = layout::line_start(b, first);
    let end = layout::line_end(b, last);
    let cut = textbuf::spliced(b, start, end + 1, Seq::empty());
    let line = layout::line_of(cut, start);
    layout::law_offset_within_its_line(cut, start);
    layout::lemma_line_bounds(cut, line);
    layout::lemma_break_from(cut, layout::line_start(cut, line));
    if first > 0 {
        layout::lemma_line_bounds(b, (first - 1) as nat);
        layout::lemma_line_break(b, (first - 1) as nat);
        assert(cut[start - 1] == b[start - 1]);
    }
    assert(textbuf::spliced(cut, start, start, b.subrange(start, end).push(10)) =~= b);
}

/// A text without its last lines ends with a line.
proof fn lemma_last_lines_cut(b: Seq<u8>, first: nat)
    requires
        valid_utf8(b),
        0 < first <= layout::newlines(b),
    ensures
        ({
            let start = layout::line_start(b, first);
            let cut = textbuf::spliced(b, start - 1, b.len() as int, Seq::empty());
            &&& 0 < start <= b.len()
            &&& layout::prev_boundary(b, start) == start - 1
            &&& cut.len() == start - 1
            &&& layout::line_end(cut, layout::line_of(cut, start - 1)) == cut.len()
            &&& textbuf::spliced(
                cut,
                start - 1,
                start - 1,
                seq![10u8] + b.subrange(start, b.len() as int),
            ) == b
        }),
{
    layout::lemma_line_bounds(b, first);
    layout::lemma_line_bounds(b, (first - 1) as nat);
    layout::lemma_line_break(b, (first - 1) as nat);
    let start = layout::line_start(b, first);
    layout::lemma_after_newline(b, start - 1);
    let cut = textbuf::spliced(b, start - 1, b.len() as int, Seq::empty());
    assert(cut =~= b.take(start - 1));
    assert(cut.take(cut.len() as int) =~= cut);
    layout::lemma_last_line_ends(cut);
    assert(textbuf::spliced(
        cut,
        start - 1,
        start - 1,
        seq![10u8] + b.subrange(start, b.len() as int),
    ) =~= b);
}

/// Putting lines back where a delete took them undoes the delete: before the line that came
/// behind them or, where they were the last of the text, behind the line that came before them.
pub proof fn law_lines_put_back_undo_the_delete(
    s: EditorState,
    inclusive: bool,
    count: edit::Count,
    ctx: EditContext,
    put_ctx: EditContext,
    shared: bool,
)
    requires
        s.wf(),
        layout::line_of(s.text, s.cursor) > 0 || range_last_line(s.text, s.cursor, count, ctx)
            < layout::newlines(s.text),
    ensures
        ({
            let target = EditTarget::Range(RangeType::Line, inclusive, count);
            let deleted = step(
                s,
                VimAction::Edit(OperationSpec::Exact(EditAction::Delete), target),
                ctx,
                shared,
            ).0;
            let side = if range_last_line(s.text, s.cursor, count, ctx) < layout::newlines(s.text) {
                MoveDir1D::Previous
            } else {
                MoveDir1D::Next
            };
            step(deleted, VimAction::Paste(PasteStyle::Side(side)), put_ctx, shared).0.text
                == s.text
        }),
{
    let b = s.text;
    let total = layout::newlines(b);
    let first = layout::line_of(b, s.cursor);
    let last = range_last_line(b, s.cursor, count, ctx);
    let target = EditTarget::Range(RangeType::Line, inclusive, count);
    let deleted = step(
        s,
        VimAction::Edit(OperationSpec::Exact(EditAction::Delete), target),
        ctx,
        shared,
    ).0;
    layout::lemma_newlines_monotone(b, s.cursor, b.len() as int);
    assert(b.take(b.len() as int) =~= b);
    layout::lemma_newlines_bound(b);
    let start = layout::line_start(b, first);
    let end = layout::line_end(b, last);
    let body = b.subrange(start, end);
    assert(unclosed(body.push(10)) =~= body);
    assert(deleted.register == taken(b, s.cursor, target, ctx, 0, 0));
    assert(deleted.register == body.push(10));
    if last < total {
        lemma_lines_cut_before_others(b, first, last);
        assert(deleted.text == textbuf::spliced(b, start, end + 1, Seq::empty()));
        assert(deleted.cursor == start);
    } else {
        lemma_last_lines_cut(b, first);
        layout::lemma_last_line_ends(b);
        assert(deleted.text == textbuf::spliced(b, start - 1, b.len() as int, Seq::empty()));
        assert(deleted.cursor == start - 1);
    }
}

/// Putting back, anywhere but after the cursor, what a delete within a line took undoes the
/// delete: the text is as it was, with the cursor behind what was put back, which the register
/// still holds.
pub proof fn law_put_back_undoes_delete(
    s: EditorState,
    target: EditTarget,
    ctx: EditContext,
    style: PasteStyle,
    put_ctx: EditContext,
    shared: bool,
)
    requires
        s.wf(),
        target_range(s.text, s.cursor, target, ctx, s.desired) matches Some((_, _, linewise))
            && !linewise,
        style != PasteStyle::Side(MoveDir1D::Next),
    ensures
        ({
            let (start, end, _) = target_range(
                s.text,
                s.cursor,
                target,
                ctx,
                s.desired,
            ).unwrap();
            let deleted = step(
                s,
                VimAction::Edit(OperationSpec::Exact(EditAction::Delete), target),
                ctx,
                shared,
            ).0;
            let put = step(deleted, VimAction::Paste(style), put_ctx, shared).0;
            &&& put.text == s.text
            &&& put.cursor == (if start == end {
                s.cursor
            } else {
                end
            })
            &&& put.register == s.text.subrange(start, end)
            &&& !put.linewise
        }),
{
    law_target_range_is_a_range(s.text, s.cursor, target, ctx, s.desired);
    match target_range(s.text, s.cursor, target, ctx, s.desired) {
        Some((start, end, _)) => {
            let cut = textbuf::spliced(s.text, start, end, Seq::empty());
            assert(textbuf::spliced(cut, start, start, s.text.subrange(start, end)) =~= s.text);
        },
        None => {},
    }
}

// ---------------------------------------------------------------------------
// What editing does to the characters
// ---------------------------------------------------------------------------

/// The text is `cs`, and the cursor stands on its character `k`, or behind the last.
pub open spec fn cursor_on(s: EditorState, cs: Seq<char>, k: int) -> bool {
    &&& 0 <= k <= cs.len()
    &&& s.text == encode_utf8(cs)
    &&& s.cursor == layout::char_offset(cs, k)
}

/// Deleting at the cursor takes the character under it out of the text and into the register, and
/// no other; behind the last character there is nothing to take.
pub proof fn law_deleting_at_the_cursor_takes_one_character(
    s: EditorState,
    cs: Seq<char>,
    k: int,
    ctx: EditContext,
    shared: bool,
)
    requires
        cursor_on(s, cs, k),
    ensures
        ({
            let action = VimAction::Edit(
                OperationSpec::Exact(EditAction::Delete),
                EditTarget::CurrentPosition,
            );
            let (after, effect) = step(s, action, ctx, shared);
            &&& k < cs.len() ==> {
                &&& cursor_on(after, cs.remove(k), k)
                &&& after.register == encode_utf8(seq![cs[k]])
                &&& !after.linewise
                &&& after.anchor is None
                &&& shared ==> effect == Some(
                    EffectView::Sync {
                        pos: s.cursor,
                        insert: Seq::empty(),
                        delete: encode_utf8(seq![cs[k]]).len() as int,
                    },
                )
            }
            &&& k == cs.len() ==> after == s && effect is None
            &&& after.desired == s.desired
        }),
{
    layout::lemma_char_offset(cs, k);
    layout::law_steps_go_by_characters(cs, k);
    if k < cs.len() {
        lemma_taken_characters(cs, k, k + 1);
        lemma_removed_characters(cs, k, k + 1);
        assert(cs.subrange(k, k + 1) =~= seq![cs[k]]);
        assert(cs.take(k) + cs.skip(k + 1) =~= cs.remove(k));
    }
}

proof fn lemma_taken_characters(cs: Seq<char>, i: int, j: int)
    requires
        0 <= i <= j <= cs.len(),
    ensures
        encode_utf8(cs).subrange(layout::char_offset(cs, i), layout::char_offset(cs, j))
            == encode_utf8(cs.subrange(i, j)),
        layout::char_offset(cs, j) - layout::char_offset(cs, i) == encode_utf8(
            cs.subrange(i, j),
        ).len(),
        layout::char_offset(cs, i) <= layout::char_offset(cs, j) <= encode_utf8(cs).len(),
{
    let b = encode_utf8(cs);
    layout::lemma_char_offset(cs, i);
    layout::lemma_char_offset(cs, j);
    layout::lemma_char_offset_order(cs, i, j);
    let upto = cs.take(j);
    layout::lemma_char_offset(upto, i);
    assert(upto.take(i) =~= cs.take(i));
    assert(upto.skip(i) =~= cs.subrange(i, j));
    let (from, to) = (layout::char_offset(cs, i), layout::char_offset(cs, j));
    assert(encode_utf8(upto).skip(from) =~= b.subrange(from, to));
}

proof fn lemma_removed_characters(cs: Seq<char>, i: int, j: int)
    requires
        0 <= i <= j <= cs.len(),
    ensures
        textbuf::spliced(
            encode_utf8(cs),
            layout::char_offset(cs, i),
            layout::char_offset(cs, j),
            Seq::empty(),
        ) == encode_utf8(cs.take(i) + cs.skip(j)),
        layout::char_offset(cs.take(i) + cs.skip(j), i) == layout::char_offset(cs, i),
{
    layout::law_splices_go_by_characters(cs, i, j, Seq::empty());
    assert(encode_utf8(Seq::<char>::empty()) =~= Seq::empty());
    assert(cs.take(i) + Seq::empty() + cs.skip(j) =~= cs.take(i) + cs.skip(j));
    assert((cs.take(i) + cs.skip(j)).take(i) =~= cs.take(i));
}

/// Deleting over a motion takes out what lies between the cursor and where the motion leads,
/// whichever comes first, into the register, and leaves the cursor there; an inclusive motion
/// (e, $ and g_) takes the character at its far end along.
pub proof fn law_deleting_over_a_motion(
    s: EditorState,
    cs: Seq<char>,
    k: int,
    to: int,
    motion: edit::MoveType,
    count: edit::Count,
    ctx: EditContext,
    shared: bool,
)
    requires
        cursor_on(s, cs, k),
        0 <= to <= cs.len(),
        motion::motion_target(
            s.text,
            s.cursor,
            motion,
            motion::repeats(count, ctx.count),
            ctx.count,
            s.desired,
        ) == layout::char_offset(cs, to),
    ensures
        ({
            let action = VimAction::Edit(
                OperationSpec::Exact(EditAction::Delete),
                EditTarget::Motion(motion, count),
            );
            let inclusive = motion is WordEnd || motion is FinalNonBlank || motion
                == edit::MoveType::LinePos(edit::MovePosition::End);
            let i = if k <= to {
                k
            } else {
                to
            };
            let far = if k <= to {
                to
            } else {
                k
            };
            let j = if inclusive && far < cs.len() {
                far + 1
            } else {
                far
            };
            let after = step(s, action, ctx, shared).0;
            &&& after.text == encode_utf8(cs.take(i) + cs.skip(j))
            &&& i < j ==> after.cursor == layout::char_offset(cs, i)
            &&& i == j ==> after.cursor == s.cursor
            &&& after.register == encode_utf8(cs.subrange(i, j))
            &&& !after.linewise
        }),
{
    let i = layout::min_int(k, to);
    let far = layout::max_int(k, to);
    layout::lemma_char_offset_order(cs, i, far);
    layout::lemma_char_offset(cs, far);
    layout::law_steps_go_by_characters(cs, far);
    if far < cs.len() {
        lemma_taken_characters(cs, i, far + 1);
        lemma_removed_characters(cs, i, far + 1);
        layout::lemma_char_offset_order(cs, i, far + 1);
        layout::lemma_char_offset(cs, far + 1);
    }
    lemma_taken_characters(cs, i, far);
    lemma_removed_characters(cs, i, far);
    assert(cs.take(i) + cs.skip(i) =~= cs);
}

/// A yank takes into the register what a delete of the same target takes.
pub proof fn law_a_yank_takes_what_a_delete_takes(
    s: EditorState,
    target: EditTarget,
    ctx: EditContext,
    shared: bool,
)
    ensures
        ({
            let yanked = step(
                s,
                VimAction::Edit(OperationSpec::Exact(EditAction::Yank), target),
                ctx,
                shared,
            ).0;
            let deleted = step(
                s,
                VimAction::Edit(OperationSpec::Exact(EditAction::Delete), target),
                ctx,
                shared,
            ).0;
            yanked.register == deleted.register && yanked.linewise == deleted.linewise
        }),
{
}

/// An operation that is left to the context is the one that is pending there.
pub proof fn law_a_pending_operation_is_carried_out(
    s: EditorState,
    target: EditTarget,
    ctx: EditContext,
    shared: bool,
)
    ensures
        step(s, VimAction::Edit(OperationSpec::Contextual, target), ctx, shared) == step(
            s,
            VimAction::Edit(OperationSpec::Exact(ctx.operation), target),
            ctx,
            shared,
        ),
{
}

/// A range of lines has as many as its count says from the line of the cursor on, or up to the
/// last. The register holds them whole, each closed by a newline.
pub proof fn law_a_range_has_so_many_lines(
    s: EditorState,
    inclusive: bool,
    typed: usize,
    ctx: EditContext,
    shared: bool,
)
    requires
        s.wf(),
        s.text.len() > 0,
        typed > 0,
        ctx.count == Some(typed),
    ensures
        ({
            let first = layout::line_of(s.text, s.cursor) as int;
            let total = layout::newlines(s.text) + 1;
            let next = if first + typed <= total {
                first + typed
            } else {
                total as int
            };
            let target = EditTarget::Range(RangeType::Line, inclusive, edit::Count::Contextual);
            let taken = step(
                s,
                VimAction::Edit(OperationSpec::Exact(EditAction::Yank), target),
                ctx,
                shared,
            ).0;
            let gone = step(
                s,
                VimAction::Edit(OperationSpec::Exact(EditAction::Delete), target),
                ctx,
                shared,
            ).0;
            let lines = layout::lines(s.text);
            &&& taken.linewise && gone.linewise
            &&& taken.register == layout::joined(lines.subrange(first, next)) + seq![10u8]
            &&& gone.register == taken.register
            &&& gone.text == layout::joined(lines.take(first) + lines.skip(next))
        }),
{
    let b = s.text;
    let first = layout::line_of(b, s.cursor);
    let total = layout::newlines(b) + 1;
    layout::lemma_newlines_monotone(b, s.cursor, b.len() as int);
    assert(b.take(b.len() as int) =~= b);
    let count = edit::Count::Contextual;
    let last = range_last_line(b, s.cursor, count, ctx);
    let next = last as int + 1;
    assert(next == layout::min_int(first + typed, total as int));
    layout::lemma_joined_lines(b, first as int, next);
    law_a_line_range_leaves_the_other_lines(b, s.cursor, inclusive, count, ctx, s.desired);
    let target = EditTarget::Range(RangeType::Line, inclusive, count);
    law_target_range_is_a_range(b, s.cursor, target, ctx, s.desired);
    let body = b.subrange(layout::line_start(b, first), layout::line_end(b, last));
    assert(body.push(10) =~= body + seq![10u8]);
    match target_range(b, s.cursor, target, ctx, s.desired) {
        Some((start, end, _)) => {
            assert(textbuf::spliced(b, start, end, Seq::empty()) =~= b.take(start) + b.skip(end));
            if start == end {
                assert(b.take(start) + b.skip(end) =~= b);
            }
        },
        None => {},
    }
}

/// Putting characters puts them behind the character under the cursor or before it, and leaves the
/// cursor behind them and the register as it is. An empty register puts nothing.
pub proof fn law_a_put_goes_beside_the_cursor(
    s: EditorState,
    cs: Seq<char>,
    k: int,
    register: Seq<char>,
    style: PasteStyle,
    ctx: EditContext,
    shared: bool,
)
    requires
        cursor_on(s, cs, k),
        s.register == encode_utf8(register),
        !s.linewise,
    ensures
        ({
            let after = step(s, VimAction::Paste(style), ctx, shared).0;
            let at = if style == PasteStyle::Side(MoveDir1D::Next) && k < cs.len() {
                k + 1
            } else {
                k
            };
            &&& register.len() == 0 ==> after == s
            &&& register.len() > 0 ==> cursor_on(
                after,
                cs.take(at) + register + cs.skip(at),
                at + register.len(),
            )
            &&& after.register == s.register && !after.linewise
            &&& after.desired == s.desired
        }),
{
    lemma_encoding_not_empty(register);
    layout::law_steps_go_by_characters(cs, k);
    layout::law_splices_go_by_characters(cs, k, k, register);
    if k < cs.len() {
        layout::law_splices_go_by_characters(cs, k + 1, k + 1, register);
    }
}

/// A put of whole lines leaves the cursor behind what was put, and the register as it is.
pub proof fn law_a_linewise_put_leaves_the_cursor_behind_it(
    s: EditorState,
    style: PasteStyle,
    ctx: EditContext,
    shared: bool,
)
    requires
        s.wf(),
        s.linewise,
        s.register.len() > 0,
    ensures
        ({
            let after = step(s, VimAction::Paste(style), ctx, shared).0;
            let line = layout::line_of(s.text, s.cursor);
            let from = if style != PasteStyle::Side(MoveDir1D::Next) {
                layout::line_start(s.text, line)
            } else if layout::line_end(s.text, line) < s.text.len() {
                layout::line_end(s.text, line) + 1
            } else {
                s.text.len() as int
            };
            &&& after.cursor == from + (after.text.len() - s.text.len())
            &&& after.text.take(from) == s.text.take(from)
            &&& after.register == s.register && after.linewise
            &&& after.anchor is None
        }),
{
    lemma_paste_pos(s, style);
    layout::lemma_line_bounds(s.text, layout::line_of(s.text, s.cursor));
    let pos = paste_pos(s, style);
    let after = step(s, VimAction::Paste(style), ctx, shared).0;
    assert(after.text.take(pos) =~= s.text.take(pos));
}

/// A motion moves the cursor to where it leads, hands on its column, drops the selection, and
/// touches neither text nor register.
pub proof fn law_a_motion_moves_only_the_cursor(
    s: EditorState,
    motion: edit::MoveType,
    count: edit::Count,
    ctx: EditContext,
    shared: bool,
)
    ensures
        ({
            let action = VimAction::Edit(
                OperationSpec::Exact(EditAction::Motion),
                EditTarget::Motion(motion, count),
            );
            let (after, effect) = step(s, action, ctx, shared);
            &&& after.text == s.text && after.register == s.register && after.linewise
                == s.linewise
            &&& after.anchor is None && effect is None
            &&& after.cursor == motion::motion_target(
                s.text,
                s.cursor,
                motion,
                motion::repeats(count, ctx.count),
                ctx.count,
                s.desired,
            )
            &&& after.desired == motion::motion_memory(s.text, s.cursor, motion, s.desired)
        }),
{
}

/// What is typed goes to the compose handler; a submitted or aborted prompt submits the text or
/// leaves it. Everything else that the overlay has no use for changes and asks for nothing.
pub proof fn law_actions_that_are_passed_on(
    s: EditorState,
    c: char,
    target: EditTarget,
    ctx: EditContext,
    shared: bool,
)
    ensures
        step(s, VimAction::Type(c), ctx, shared) == (s, Some(EffectView::Type(seq![c]))),
        step(s, VimAction::PromptSubmit, ctx, shared) == (
            s,
            Some(EffectView::Fire(Action::Submit)),
        ),
        step(s, VimAction::PromptAbort, ctx, shared) == (
            s,
            Some(EffectView::Fire(Action::Unfocus)),
        ),
        step(s, VimAction::Application(KaijutsuAction::Submit), ctx, shared) == (
            s,
            Some(EffectView::Fire(Action::Submit)),
        ),
        step(s, VimAction::Application(KaijutsuAction::DismissCompose), ctx, shared) == (
            s,
            Some(EffectView::Fire(Action::Unfocus)),
        ),
        step(s, VimAction::Unhandled, ctx, shared) == (s, None::<EffectView>),
        step(
            s,
            VimAction::Edit(OperationSpec::Exact(EditAction::Other), target),
            ctx,
            shared,
        ) == (s, None::<EffectView>),
        !(target is Motion) ==> step(
            s,
            VimAction::Edit(OperationSpec::Exact(EditAction::Motion), target),
            ctx,
            shared,
        ) == (s, None::<EffectView>),
{
}

/// In Normal mode the cursor rests on the last character at or before it that is no newline; only
/// where there is none does it go on, to the first one behind.
pub proof fn law_the_cursor_rests_on_the_nearest_character(b: Seq<u8>, cursor: int, q: int)
    requires
        valid_utf8(b),
        b.len() > 0,
        overlay::is_offset(b, cursor),
        0 <= q < b.len(),
        is_char_boundary(b, q),
        b[q] != 10,
    ensures
        q <= cursor ==> q <= resting_cursor(b, cursor) <= cursor,
        resting_cursor(b, cursor) > cursor ==> q >= resting_cursor(b, cursor),
{
    let inside = layout::min_int(cursor, b.len() - 1);
    lemma_stand_to(b, inside);
    lemma_stand_from(b, inside);
    assert(is_stand(b, q));
}

/// While composing, a release does nothing; Ctrl+C interrupts and Ctrl+Z switches the surface
/// without the machine; every other key that has a terminal key is fed to it with its modifiers.
pub proof fn law_where_a_compose_key_goes(event: KeyboardInput, held: Set<KeyCode>)
    ensures
        ({
            let ctrl = held.contains(KeyCode::ControlLeft) || held.contains(KeyCode::ControlRight);
            let route = compose_route(event, held);
            &&& !event.pressed ==> route == ComposeKey::Ignore
            &&& event.pressed && ctrl && event.key_code == KeyCode::KeyC ==> route
                == ComposeKey::Fire(Action::InterruptContext { immediate: false })
            &&& event.pressed && ctrl && event.key_code == KeyCode::KeyZ ==> route
                == ComposeKey::Fire(Action::ToggleSurface)
            &&& event.pressed && !(ctrl && (event.key_code == KeyCode::KeyC || event.key_code
                == KeyCode::KeyZ)) ==> match keyconv::event_code(event) {
                Some(code) => route matches ComposeKey::Feed(fed, modifiers) && fed == code
                    && modifiers.bits == keyconv::modifier_bits(held),
                None => route == ComposeKey::Ignore,
            }
        }),
{
}

/// Actions are carried out one after another, each on what the ones before it left, and what they
/// ask for is asked in their order.
pub proof fn law_actions_are_carried_out_in_order(
    s: EditorState,
    first: Seq<(VimAction, EditContext)>,
    rest: Seq<(VimAction, EditContext)>,
    action: VimAction,
    ctx: EditContext,
    shared: bool,
)
    ensures
        ({
            let one = run(s, first, shared);
            let two = run(one.0, rest, shared);
            run(s, first + rest, shared) == (two.0, one.1 + two.1)
        }),
        ({
            let alone = step(s, action, ctx, shared);
            run(s, seq![(action, ctx)], shared) == (
                alone.0,
                match alone.1 {
                    Some(effect) => seq![effect],
                    None => Seq::empty(),
                },
            )
        }),
    decreases rest.len(),
{
    reveal_with_fuel(run, 2);
    assert(seq![(action, ctx)].drop_last() =~= Seq::empty());
    let one = run(s, first, shared);
    if rest.len() == 0 {
        assert(first + rest =~= first);
        assert(one.1 + Seq::<EffectView>::empty() =~= one.1);
    } else {
        law_actions_are_carried_out_in_order(s, first, rest.drop_last(), action, ctx, shared);
        assert((first + rest).drop_last() =~= first + rest.drop_last());
        assert((first + rest).last() == rest.last());
        let front = run(one.0, rest.drop_last(), shared);
        let (last, context) = rest.last();
        match step(front.0, last, context, shared).1 {
            Some(effect) => {
                assert((one.1 + front.1).push(effect) =~= one.1 + front.1.push(effect));
            },
            None => {},
        }
    }
}

/// A key that is fed to the machine has everything carried out that the machine then has queued,
/// which leaves nothing queued; the mode is shown; and only in Normal mode does the cursor come to
/// rest, which moves nothing but the cursor.
pub proof fn law_a_keystroke_carries_out_what_is_queued(
    c: Composing,
    code: TermKey,
    modifiers: TermModifiers,
    shared: bool,
)
    ensures
        ({
            let vim = machine::fed(c.vim, code, modifiers);
            let done = run(c.state, machine::queued(vim), shared);
            let after = keystroke(c, code, modifiers, shared);
            &&& after.vim == machine::emptied(vim)
            &&& after.mode == machine::shown_mode(vim)
            &&& after.effects == c.effects + done.1
            &&& after.mode is Some ==> after.state == done.0
            &&& after.mode is None ==> after.state == (EditorState {
                cursor: resting_cursor(done.0.text, done.0.cursor),
                ..done.0
            })
        }),
{
}

/// A single event does what it does by itself, and a release does nothing.
pub proof fn law_a_single_event(
    c: Composing,
    event: KeyboardInput,
    held: Set<KeyCode>,
    shared: bool,
)
    ensures
        typed_all(c, seq![event], held, shared) == typed(c, event, held, shared),
        typed_all(c, Seq::empty(), held, shared) == c,
        !event.pressed ==> typed(c, event, held, shared) == c,
        compose_route(event, held) matches ComposeKey::Feed(code, modifiers) ==> typed(
            c,
            event,
            held,
            shared,
        ) == keystroke(c, code, modifiers, shared),
{
    reveal_with_fuel(typed_all, 2);
    assert(seq![event].drop_last() =~= Seq::empty());
}

} // verus!
