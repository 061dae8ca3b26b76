//! Text input in the compose overlay: typing, editing, pasting and submitting, mirrored into the
//! shared input document.

use vstd::prelude::*;
use vstd::string::*;
use vstd::utf8::*;
use crate::input::action::Action;
use crate::input::events::TextInputReceived;
use crate::input::focus::FocusArea;
use crate::input::overlay::{DocEdit, InputOverlay};
use crate::input::vim::textutil;
use crate::layout;
use crate::textbuf;

verus! {

/// What composing asks the outside to do.
#[derive(Debug)]
pub enum ComposeEffect {
    /// Edit the shared input document.
    Edit(DocEdit),
    /// Run a command in the shell.
    ExecuteShell(String),
    /// Submit the shared input document. Whoever takes it clears it, and reports that.
    SubmitChat,
}

/// What composing asks for, as mathematical values; texts by their bytes.
#[verifier::ext_equal]
pub enum ComposeEffectView {
    Edit { pos: int, insert: Seq<u8>, delete: int },
    ExecuteShell(Seq<u8>),
    SubmitChat,
}

impl ComposeEffect {
    /// The effect as mathematical values.
    pub open spec fn view(&self) -> ComposeEffectView {
        match self {
            ComposeEffect::Edit(e) => ComposeEffectView::Edit {
                pos: e.pos as int,
                insert: encode_utf8(e.insert@),
                delete: e.delete as int,
            },
            ComposeEffect::ExecuteShell(code) => ComposeEffectView::ExecuteShell(
                encode_utf8(code@),
            ),
            ComposeEffect::SubmitChat => ComposeEffectView::SubmitChat,
        }
    }
}

/// The compose text, its cursor and selection, and the focus.
#[verifier::ext_equal]
pub struct ComposeState {
    pub text: Seq<u8>,
    pub cursor: int,
    pub anchor: Option<int>,
    pub area: FocusArea,
}

/// The state that an overlay and a focus hold between them.
pub open spec fn state_of(ov: InputOverlay, area: FocusArea) -> ComposeState {
    ComposeState {
        text: ov.bytes(),
        cursor: ov.cursor as int,
        anchor: match ov.selection_anchor {
            Some(a) => Some(a as int),
            None => None,
        },
        area,
    }
}

/// Where the text goes besides the overlay.
#[derive(Clone, Copy, Debug, PartialEq, Eq, Structural)]
pub struct ComposeTarget {
    /// The text is a command line: it stays local, and is executed on submit.
    pub is_shell: bool,
    /// There is a connection and a context.
    pub online: bool,
}

impl ComposeTarget {
    /// Edits are mirrored into the shared document.
    pub open spec fn shared(self) -> bool {
        !self.is_shell && self.online
    }
}

impl ComposeState {
    /// The selected range, if any.
    pub open spec fn selection(self) -> Option<(int, int)> {
        match self.anchor {
            Some(a) => if a == self.cursor {
                None
            } else if a < self.cursor {
                Some((a, self.cursor))
            } else {
                Some((self.cursor, a))
            },
            None => None,
        }
    }

    /// What an insertion replaces: the selection, or nothing at the cursor.
    pub open spec fn replaced(self) -> (int, int) {
        match self.selection() {
            Some(range) => range,
            None => (self.cursor, self.cursor),
        }
    }

    /// What Backspace deletes: the selection, or the character before the cursor.
    pub open spec fn before(self) -> (int, int) {
        match self.selection() {
            Some(range) => range,
            None => (layout::prev_boundary(self.text, self.cursor), self.cursor),
        }
    }

    /// What Delete deletes: the selection, or the character at the cursor.
    pub open spec fn behind(self) -> (int, int) {
        match self.selection() {
            Some(range) => range,
            None => (self.cursor, layout::next_boundary(self.text, self.cursor)),
        }
    }

    /// The state after a range was replaced: the cursor behind the insertion, nothing selected.
    pub open spec fn replacing(self, range: (int, int), insert: Seq<u8>) -> ComposeState {
        ComposeState {
            text: textbuf::spliced(self.text, range.0, range.1, insert),
            cursor: range.0 + insert.len(),
            anchor: None,
            area: self.area,
        }
    }

    /// The state without text.
    pub open spec fn cleared(self) -> ComposeState {
        ComposeState { text: Seq::empty(), cursor: 0, anchor: None, ..self }
    }

    /// The state with the cursor elsewhere and nothing selected.
    pub open spec fn moved(self, cursor: int) -> ComposeState {
        ComposeState { cursor, anchor: None, ..self }
    }
}

/// A mirrored edit, where edits are mirrored.
pub open spec fn mirrored(shared: bool, pos: int, insert: Seq<u8>, delete: int) -> Option<
    ComposeEffectView,
> {
    if shared {
        Some(ComposeEffectView::Edit { pos, insert, delete })
    } else {
        None
    }
}

/// What typed text does: it goes in at the cursor or in place of the selection, in the overlay
/// and in the shared document.
pub open spec fn typed(s: ComposeState, text: Seq<u8>, target: ComposeTarget) -> (
    ComposeState,
    Option<ComposeEffectView>,
) {
    let (start, end) = s.replaced();
    (s.replacing((start, end), text), mirrored(target.shared(), start, text, end - start))
}

/// What an editing action does. `paste` is what a paste would insert, if it could be read.
///
/// A submit leaves the compose area. A command line is cleared with it; chat text stays until
/// the shared document is reported as cleared.
pub open spec fn acted(
    s: ComposeState,
    action: Action,
    paste: Option<Seq<u8>>,
    target: ComposeTarget,
) -> (ComposeState, Option<ComposeEffectView>) {
    match action {
        Action::Submit => if s.text.len() > 0 && target.online {
            let left = ComposeState { area: FocusArea::Conversation, ..s };
            if target.is_shell {
                (left.cleared(), Some(ComposeEffectView::ExecuteShell(s.text)))
            } else {
                (left, Some(ComposeEffectView::SubmitChat))
            }
        } else {
            (s, None)
        },
        Action::InsertNewline => typed(s, encode_utf8("\n"@), target),
        Action::Backspace => {
            let (start, end) = s.before();
            (
                s.replacing((start, end), Seq::empty()),
                mirrored(target.shared() && start < end, start, Seq::empty(), end - start),
            )
        },
        Action::Delete => {
            let (start, end) = s.behind();
            (
                s.replacing((start, end), Seq::empty()),
                mirrored(target.shared() && start < end, start, Seq::empty(), end - start),
            )
        },
        Action::CursorLeft => (s.moved(layout::prev_boundary(s.text, s.cursor)), None),
        Action::CursorRight => (s.moved(layout::next_boundary(s.text, s.cursor)), None),
        Action::Paste | Action::PastePrimary => match paste {
            Some(text) => {
                let (start, end) = s.replaced();
                (
                    s.replacing((start, end), text),
                    mirrored(target.shared(), start, text, end - start),
                )
            },
            None => (s, None),
        },
        _ => (s, None),
    }
}

/// An effect as mathematical values, if there is one.
pub open spec fn effect_view(effect: Option<ComposeEffect>) -> Option<ComposeEffectView> {
    match effect {
        Some(e) => Some(e@),
        None => None,
    }
}

fn mirror(shared: bool, pos: usize, insert: &str, delete: usize) -> (effect: Option<ComposeEffect>)
    ensures
        effect_view(effect) == mirrored(
            shared,
            pos as int,
            encode_utf8(insert@),
            delete as int,
        ),
{
    if shared {
        Some(
            ComposeEffect::Edit(
                DocEdit { pos: pos as u64, insert: insert.to_owned(), delete: delete as u64 },
            ),
        )
    } else {
        None
    }
}

/// Insert at the cursor, or in place of the selection, and mirror it.
fn insert_mirrored(ov: &mut InputOverlay, text: &str, shared: bool) -> (effect: Option<
    ComposeEffect,
>)
    requires
        old(ov).wf(),
    ensures
        old(ov).after_replacing(old(ov).replaced_range(), encode_utf8(text@), final(ov)),
        ({
            let (start, end) = old(ov).replaced_range();
            effect_view(effect) == mirrored(shared, start, encode_utf8(text@), end - start)
        }),
{
    let (start, end) = match ov.selection_range() {
        Some(range) => range,
        None => (ov.cursor, ov.cursor),
    };
    ov.insert(text);
    mirror(shared, start, text, end - start)
}

/// Handle typed text.
pub fn handle_compose_text(
    ov: &mut InputOverlay,
    text: &str,
    target: ComposeTarget,
    area: FocusArea,
) -> (effect: Option<ComposeEffect>)
    requires
        old(ov).wf(),
    ensures
        final(ov).wf(),
        final(ov).vim_mode == old(ov).vim_mode,
        final(ov).mode == old(ov).mode,
        (state_of(*final(ov), area), effect_view(effect)) == typed(
            state_of(*old(ov), area),
            encode_utf8(text@),
            target,
        ),
{
    insert_mirrored(ov, text, !target.is_shell && target.online)
}

proof fn lemma_delete_ranges(ov: InputOverlay)
    requires
        ov.wf(),
    ensures
        0 <= ov.backspace_range().0 <= ov.backspace_range().1 <= ov.bytes().len(),
        0 <= ov.delete_range().0 <= ov.delete_range().1 <= ov.bytes().len(),
{
    encode_utf8_valid_utf8(ov.text@);
    if ov.cursor > 0 {
        layout::lemma_prev_boundary(ov.bytes(), ov.cursor as int);
    }
    if ov.cursor < ov.bytes().len() {
        layout::lemma_next_boundary(ov.bytes(), ov.cursor as int);
    }
}

/// A text has bytes exactly if it has characters.
proof fn lemma_empty_text(s: Seq<char>)
    ensures
        encode_utf8(s).len() == 0 <==> s.len() == 0,
        s.len() == 0 ==> encode_utf8(s) == Seq::<u8>::empty(),
{
    if s.len() == 0 {
        assert(encode_utf8(s) =~= Seq::empty());
    } else {
        encode_utf8_first_scalar(s);
    }
}

/// Handle an editing action. `paste` is what a paste would insert, if it could be read.
pub fn handle_compose_action(
    ov: &mut InputOverlay,
    action: &Action,
    paste: Option<&str>,
    target: ComposeTarget,
    area: &mut FocusArea,
) -> (effect: Option<ComposeEffect>)
    requires
        old(ov).wf(),
    ensures
        final(ov).wf(),
        final(ov).vim_mode == old(ov).vim_mode,
        final(ov).mode == old(ov).mode,
        (state_of(*final(ov), *final(area)), effect_view(effect)) == acted(
            state_of(*old(ov), *old(area)),
            *action,
            paste_bytes(paste),
            target,
        ),
{
    let shared = !target.is_shell && target.online;
    proof {
        lemma_empty_text(ov.text@);
        reveal_strlit("");
        lemma_empty_text(""@);
        lemma_empty_text(Seq::empty());
        lemma_delete_ranges(*ov);
    }
    match *action {
        Action::Submit => {
            if ov.is_empty() || !target.online {
                return None;
            }
            *area = FocusArea::Conversation;
            if target.is_shell {
                let line = ov.text.clone();
                ov.clear();
                Some(ComposeEffect::ExecuteShell(line))
            } else {
                Some(ComposeEffect::SubmitChat)
            }
        },
        Action::InsertNewline => insert_mirrored(ov, "\n", shared),
        Action::Backspace => {
            let (start, end) = match ov.selection_range() {
                Some(range) => range,
                None => (textutil::prev_char_boundary(ov.text.as_str(), ov.cursor), ov.cursor),
            };
            ov.backspace();
            mirror(shared && start < end, start, "", end - start)
        },
        Action::Delete => {
            let (start, end) = match ov.selection_range() {
                Some(range) => range,
                None => (ov.cursor, textutil::next_char_boundary(ov.text.as_str(), ov.cursor)),
            };
            ov.delete();
            mirror(shared && start < end, start, "", end - start)
        },
        Action::CursorLeft => {
            ov.move_left();
            None
        },
        Action::CursorRight => {
            ov.move_right();
            None
        },
        Action::Paste | Action::PastePrimary => match paste {
            Some(text) => insert_mirrored(ov, text, shared),
            None => None,
        },
        _ => None,
    }
}

/// What a paste would insert, by its bytes.
pub open spec fn paste_bytes(paste: Option<&str>) -> Option<Seq<u8>> {
    match paste {
        Some(text) => Some(encode_utf8(text@)),
        None => None,
    }
}

/// A state with one more effect, if there is one.
pub open spec fn and_effect(
    effects: Seq<ComposeEffectView>,
    effect: Option<ComposeEffectView>,
) -> Seq<ComposeEffectView> {
    match effect {
        Some(e) => effects.push(e),
        None => effects,
    }
}

/// What a run of typed texts does.
pub open spec fn type_all(s: ComposeState, texts: Seq<Seq<u8>>, target: ComposeTarget) -> (
    ComposeState,
    Seq<ComposeEffectView>,
)
    decreases texts.len(),
{
    if texts.len() == 0 {
        (s, Seq::empty())
    } else {
        let front = type_all(s, texts.drop_last(), target);
        let last = typed(front.0, texts.last(), target);
        (last.0, and_effect(front.1, last.1))
    }
}

/// What a run of actions does; a paste of the primary selection inserts `primary`, another one
/// `clipboard`.
pub open spec fn act_all(
    s: ComposeState,
    actions: Seq<Action>,
    clipboard: Option<Seq<u8>>,
    primary: Option<Seq<u8>>,
    target: ComposeTarget,
) -> (ComposeState, Seq<ComposeEffectView>)
    decreases actions.len(),
{
    if actions.len() == 0 {
        (s, Seq::empty())
    } else {
        let front = act_all(s, actions.drop_last(), clipboard, primary, target);
        let paste = if actions.last() == Action::PastePrimary {
            primary
        } else {
            clipboard
        };
        let last = acted(front.0, actions.last(), paste, target);
        (last.0, and_effect(front.1, last.1))
    }
}

/// Texts by their bytes.
pub open spec fn text_bytes(texts: Seq<TextInputReceived>) -> Seq<Seq<u8>> {
    texts.map_values(|t: TextInputReceived| encode_utf8(t.text@))
}

/// Effects as mathematical values.
pub open spec fn effect_views(effects: Seq<ComposeEffect>) -> Seq<ComposeEffectView> {
    effects.map_values(|e: ComposeEffect| e@)
}

/// What a frame of input does: first the typed texts, then the actions.
pub open spec fn compose(
    s: ComposeState,
    texts: Seq<Seq<u8>>,
    actions: Seq<Action>,
    clipboard: Option<Seq<u8>>,
    primary: Option<Seq<u8>>,
    target: ComposeTarget,
) -> (ComposeState, Seq<ComposeEffectView>) {
    let first = type_all(s, texts, target);
    let second = act_all(first.0, actions, clipboard, primary, target);
    (second.0, first.1 + second.1)
}

fn record(effects: &mut Vec<ComposeEffect>, effect: Option<ComposeEffect>)
    ensures
        effect_views(final(effects)@) == and_effect(
            effect_views(old(effects)@),
            effect_view(effect),
        ),
{
    let ghost before = effect_views(effects@);
    if let Some(e) = effect {
        effects.push(e);
        assert(effect_views(effects@) =~= before.push(e@));
    }
}

/// Handle a frame of text input: the typed texts in order, then the actions in order.
/// `clipboard` and `primary` are what the two kinds of paste would insert, if they can be read.
pub fn handle_compose_input(
    ov: &mut InputOverlay,
    texts: &Vec<TextInputReceived>,
    actions: &Vec<Action>,
    clipboard: Option<&str>,
    primary: Option<&str>,
    target: ComposeTarget,
    area: &mut FocusArea,
) -> (effects: Vec<ComposeEffect>)
    requires
        old(ov).wf(),
    ensures
        final(ov).wf(),
        final(ov).vim_mode == old(ov).vim_mode,
        final(ov).mode == old(ov).mode,
        (state_of(*final(ov), *final(area)), effect_views(effects@)) == compose(
            state_of(*old(ov), *old(area)),
            text_bytes(texts@),
            actions@,
            paste_bytes(clipboard),
            paste_bytes(primary),
            target,
        ),
{
    let ghost start = state_of(*ov, *area);
    let ghost bytes = text_bytes(texts@);
    let mut effects: Vec<ComposeEffect> = Vec::new();
    let mut i: usize = 0;
    assert(effect_views(effects@) =~= Seq::empty());
    assert(bytes.take(0) =~= Seq::empty());
    while i < texts.len()
        invariant
            i <= texts.len(),
            ov.wf(),
            ov.vim_mode == old(ov).vim_mode,
            ov.mode == old(ov).mode,
            bytes == text_bytes(texts@),
            (state_of(*ov, *area), effect_views(effects@)) == type_all(
                start,
                bytes.take(i as int),
                target,
            ),
        decreases texts.len() - i,
    {
        proof {
            assert(bytes.take(i + 1).drop_last() =~= bytes.take(i as int));
            assert(bytes.take(i + 1).last() == encode_utf8(texts@[i as int].text@));
        }
        let effect = handle_compose_text(ov, texts[i].text.as_str(), target, *area);
        record(&mut effects, effect);
        i = i + 1;
    }
    assert(bytes.take(i as int) =~= bytes);
    let ghost middle = state_of(*ov, *area);
    let ghost first = effect_views(effects@);
    let ghost clip = paste_bytes(clipboard);
    let ghost prim = paste_bytes(primary);
    let mut k: usize = 0;
    assert(actions@.take(0) =~= Seq::empty());
    assert(first + Seq::<ComposeEffectView>::empty() =~= first);
    while k < actions.len()
        invariant
            k <= actions.len(),
            ov.wf(),
            ov.vim_mode == old(ov).vim_mode,
            ov.mode == old(ov).mode,
            clip == paste_bytes(clipboard),
            prim == paste_bytes(primary),
            ({
                let done = act_all(middle, actions@.take(k as int), clip, prim, target);
                state_of(*ov, *area) == done.0 && effect_views(effects@) == first + done.1
            }),
        decreases actions.len() - k,
    {
        let ghost done = act_all(middle, actions@.take(k as int), clip, prim, target);
        proof {
            assert(actions@.take(k + 1).drop_last() =~= actions@.take(k as int));
        }
        let action = actions[k];
        let paste = if action == Action::PastePrimary {
            primary
        } else {
            clipboard
        };
        let effect = handle_compose_action(ov, &action, paste, target, area);
        let ghost asked = effect_view(effect);
        record(&mut effects, effect);
        assert(and_effect(first + done.1, asked) =~= first + and_effect(done.1, asked));
        k = k + 1;
    }
    assert(actions@.take(k as int) =~= actions@);
    effects
}

/// Take in the report that the shared document was cleared: the overlay is emptied with it.
pub fn handle_input_cleared(ov: &mut InputOverlay, area: FocusArea)
    ensures
        final(ov).wf(),
        final(ov).vim_mode == old(ov).vim_mode,
        final(ov).mode == old(ov).mode,
        state_of(*final(ov), area) == state_of(*old(ov), area).cleared(),
{
    ov.clear();
    proof {
        lemma_empty_text(ov.text@);
    }
}

// ---------------------------------------------------------------------------
// The shared document
// ---------------------------------------------------------------------------

/// What effects make of the shared document. A submit leaves it as it is: it is cleared later,
/// by whoever takes it.
pub open spec fn document_after(doc: Seq<u8>, effects: Seq<ComposeEffectView>) -> Seq<u8>
    decreases effects.len(),
{
    if effects.len() == 0 {
        doc
    } else {
        let before = document_after(doc, effects.drop_last());
        match effects.last() {
            ComposeEffectView::Edit { pos, insert, delete } => textbuf::spliced(
                before,
                pos,
                pos + delete,
                insert,
            ),
            ComposeEffectView::ExecuteShell(_) => before,
            ComposeEffectView::SubmitChat => before,
        }
    }
}

/// The cursor and the anchor stand within the text.
pub open spec fn in_bounds(s: ComposeState) -> bool {
    &&& 0 <= s.cursor <= s.text.len()
    &&& (s.anchor matches Some(a) ==> 0 <= a <= s.text.len())
}

proof fn lemma_typed_follows(s: ComposeState, text: Seq<u8>, target: ComposeTarget)
    requires
        target.shared(),
        in_bounds(s),
    ensures
        in_bounds(typed(s, text, target).0),
        document_after(s.text, and_effect(Seq::empty(), typed(s, text, target).1)) == typed(
            s,
            text,
            target,
        ).0.text,
{
    let effects = and_effect(Seq::empty(), typed(s, text, target).1);
    assert(effects.drop_last() =~= Seq::empty());
    reveal_with_fuel(document_after, 2);
}

proof fn lemma_acted_follows(
    s: ComposeState,
    action: Action,
    paste: Option<Seq<u8>>,
    target: ComposeTarget,
)
    requires
        target.shared(),
        in_bounds(s),
    ensures
        in_bounds(acted(s, action, paste, target).0),
        document_after(s.text, and_effect(Seq::empty(), acted(s, action, paste, target).1))
            == acted(s, action, paste, target).0.text,
{
    let (after, effect) = acted(s, action, paste, target);
    let effects = and_effect(Seq::empty(), effect);
    if effect is Some {
        assert(effects.drop_last() =~= Seq::empty());
    }
    reveal_with_fuel(document_after, 2);
    lemma_boundaries_in_bounds(s);
    if effect is None {
        assert(after.text =~= s.text);
    }
}

proof fn lemma_boundaries_in_bounds(s: ComposeState)
    requires
        in_bounds(s),
    ensures
        0 <= layout::prev_boundary(s.text, s.cursor) <= s.cursor,
        s.cursor <= layout::next_boundary(s.text, s.cursor) <= s.text.len(),
{
    layout::lemma_boundaries_in_bounds(s.text, s.cursor);
}

proof fn lemma_effects_compose(doc: Seq<u8>, a: Seq<ComposeEffectView>, b: Seq<ComposeEffectView>)
    ensures
        document_after(doc, a + b) == document_after(document_after(doc, a), b),
    decreases b.len(),
{
    if b.len() == 0 {
        assert(a + b =~= a);
    } else {
        lemma_effects_compose(doc, a, b.drop_last());
        assert((a + b).drop_last() =~= a + b.drop_last());
    }
}

/// While chat text is shared, whatever is typed, edited, pasted and submitted in a frame keeps
/// the shared document equal to the compose text.
pub proof fn law_the_shared_document_follows_the_text(
    s: ComposeState,
    texts: Seq<Seq<u8>>,
    actions: Seq<Action>,
    clipboard: Option<Seq<u8>>,
    primary: Option<Seq<u8>>,
    target: ComposeTarget,
)
    requires
        target.shared(),
        in_bounds(s),
    ensures
        ({
            let (after, effects) = compose(s, texts, actions, clipboard, primary, target);
            document_after(s.text, effects) == after.text
        }),
{
    let first = type_all(s, texts, target);
    lemma_type_all_follows(s, texts, target);
    lemma_act_all_follows(first.0, actions, clipboard, primary, target);
    let second = act_all(first.0, actions, clipboard, primary, target);
    lemma_effects_compose(s.text, first.1, second.1);
}

proof fn lemma_one_more(
    doc: Seq<u8>,
    effects: Seq<ComposeEffectView>,
    effect: Option<ComposeEffectView>,
)
    ensures
        document_after(doc, and_effect(effects, effect)) == document_after(
            document_after(doc, effects),
            and_effect(Seq::empty(), effect),
        ),
{
    let one = and_effect(Seq::empty(), effect);
    lemma_effects_compose(doc, effects, one);
    assert(and_effect(effects, effect) =~= effects + one);
}

proof fn lemma_type_all_follows(s: ComposeState, texts: Seq<Seq<u8>>, target: ComposeTarget)
    requires
        target.shared(),
        in_bounds(s),
    ensures
        in_bounds(type_all(s, texts, target).0),
        document_after(s.text, type_all(s, texts, target).1) == type_all(s, texts, target).0.text,
    decreases texts.len(),
{
    if texts.len() > 0 {
        lemma_type_all_follows(s, texts.drop_last(), target);
        let front = type_all(s, texts.drop_last(), target);
        lemma_typed_follows(front.0, texts.last(), target);
        lemma_one_more(s.text, front.1, typed(front.0, texts.last(), target).1);
    }
}

proof fn lemma_act_all_follows(
    s: ComposeState,
    actions: Seq<Action>,
    clipboard: Option<Seq<u8>>,
    primary: Option<Seq<u8>>,
    target: ComposeTarget,
)
    requires
        target.shared(),
        in_bounds(s),
    ensures
        ({
            let (after, effects) = act_all(s, actions, clipboard, primary, target);
            &&& in_bounds(after)
            &&& document_after(s.text, effects) == after.text
        }),
    decreases actions.len(),
{
    if actions.len() > 0 {
        let shorter = actions.drop_last();
        lemma_act_all_follows(s, shorter, clipboard, primary, target);
        let front = act_all(s, shorter, clipboard, primary, target);
        let last = actions[actions.len() - 1];
        let paste = if last == Action::PastePrimary {
            primary
        } else {
            clipboard
        };
        lemma_acted_follows(front.0, last, paste, target);
        lemma_one_more(s.text, front.1, acted(front.0, last, paste, target).1);
    }
}

/// Chat text is not lost by submitting it: the text, the cursor and the selection stay as they
/// are, until the shared document is reported as cleared.
pub proof fn law_submitted_chat_text_stays(
    s: ComposeState,
    paste: Option<Seq<u8>>,
    target: ComposeTarget,
)
    requires
        !target.is_shell,
    ensures
        ({
            let (after, effect) = acted(s, Action::Submit, paste, target);
            &&& after.text == s.text && after.cursor == s.cursor && after.anchor == s.anchor
            &&& effect == Some(ComposeEffectView::SubmitChat) <==> s.text.len() > 0
                && target.online
            &&& effect is Some ==> after.area == FocusArea::Conversation
            &&& effect is None ==> after == s
        }),
{
}

/// Shell text stays local: nothing that is typed or edited in it goes to the shared document.
pub proof fn law_shell_text_stays_local(
    s: ComposeState,
    text: Seq<u8>,
    action: Action,
    paste: Option<Seq<u8>>,
    target: ComposeTarget,
)
    requires
        target.is_shell,
    ensures
        typed(s, text, target).1 is None,
        !(acted(s, action, paste, target).1 matches Some(e) && e is Edit),
        acted(s, action, paste, target).1 != Some(ComposeEffectView::SubmitChat),
{
}

/// Without a connection nothing is sent, and a submit keeps the text.
pub proof fn law_offline_text_is_kept(
    s: ComposeState,
    text: Seq<u8>,
    action: Action,
    paste: Option<Seq<u8>>,
    target: ComposeTarget,
)
    requires
        !target.online,
    ensures
        typed(s, text, target).1 is None,
        acted(s, action, paste, target).1 is None,
        acted(s, Action::Submit, paste, target).0 == s,
{
}

// ---------------------------------------------------------------------------
// Editing by characters
// ---------------------------------------------------------------------------

/// The text is `cs`, the cursor stands before its character `k`, and nothing is selected.
pub open spec fn stands_at(s: ComposeState, cs: Seq<char>, k: int) -> bool {
    &&& 0 <= k <= cs.len()
    &&& s.text == encode_utf8(cs)
    &&& s.cursor == layout::char_offset(cs, k)
    &&& s.anchor is None || s.anchor == Some(s.cursor)
}

/// The text is `cs`, and its characters from `i` up to `j` are selected, from either end.
pub open spec fn selects(s: ComposeState, cs: Seq<char>, i: int, j: int) -> bool {
    let (a, c) = (layout::char_offset(cs, i), layout::char_offset(cs, j));
    &&& 0 <= i < j <= cs.len()
    &&& s.text == encode_utf8(cs)
    &&& s.cursor == c && s.anchor == Some(a) || s.cursor == a && s.anchor == Some(c)
}

proof fn lemma_replacing_characters(
    s: ComposeState,
    cs: Seq<char>,
    i: int,
    j: int,
    insert: Seq<char>,
)
    requires
        0 <= i <= j <= cs.len(),
        s.text == encode_utf8(cs),
    ensures
        ({
            let after = s.replacing(
                (layout::char_offset(cs, i), layout::char_offset(cs, j)),
                encode_utf8(insert),
            );
            &&& stands_at(after, cs.take(i) + insert + cs.skip(j), i + insert.len())
            &&& after.anchor is None
            &&& after.area == s.area
        }),
        insert.len() == 0 ==> encode_utf8(insert) == Seq::<u8>::empty(),
{
    layout::law_splices_go_by_characters(cs, i, j, insert);
    if insert.len() == 0 {
        assert(encode_utf8(insert) =~= Seq::empty());
    }
}

/// Delete removes the character behind the cursor and no other; the cursor stays where it is.
/// At the end of the text nothing happens. The shared document is told of that one character.
pub proof fn law_delete_removes_one_character(
    s: ComposeState,
    cs: Seq<char>,
    k: int,
    paste: Option<Seq<u8>>,
    target: ComposeTarget,
)
    requires
        stands_at(s, cs, k),
    ensures
        ({
            let (after, effect) = acted(s, Action::Delete, paste, target);
            &&& k < cs.len() ==> stands_at(after, cs.remove(k), k)
            &&& k == cs.len() ==> stands_at(after, cs, k)
            &&& after.cursor == s.cursor && after.anchor is None && after.area == s.area
            &&& k < cs.len() && target.online && !target.is_shell ==> effect == Some(
                ComposeEffectView::Edit {
                    pos: s.cursor,
                    insert: Seq::empty(),
                    delete: encode_utf8(seq![cs[k]]).len() as int,
                },
            )
            &&& !(k < cs.len() && target.online && !target.is_shell) ==> effect is None
        }),
{
    let j = layout::min_int(k + 1, cs.len() as int);
    layout::lemma_char_offset(cs, k);
    layout::law_steps_go_by_characters(cs, k);
    lemma_replacing_characters(s, cs, k, j, Seq::empty());
    if k < cs.len() {
        assert(cs.take(k) + Seq::empty() + cs.skip(j) =~= cs.remove(k));
        lemma_one_character(cs, k);
    } else {
        assert(cs.take(k) + Seq::empty() + cs.skip(j) =~= cs);
    }
}

/// Backspace removes the character before the cursor and no other; the cursor goes where that
/// character stood. At the start of the text nothing happens. The shared document is told of
/// that one character.
pub proof fn law_backspace_removes_one_character(
    s: ComposeState,
    cs: Seq<char>,
    k: int,
    paste: Option<Seq<u8>>,
    target: ComposeTarget,
)
    requires
        stands_at(s, cs, k),
    ensures
        ({
            let (after, effect) = acted(s, Action::Backspace, paste, target);
            &&& k > 0 ==> stands_at(after, cs.remove(k - 1), k - 1)
            &&& k == 0 ==> stands_at(after, cs, 0)
            &&& after.anchor is None && after.area == s.area
            &&& k > 0 && target.online && !target.is_shell ==> effect == Some(
                ComposeEffectView::Edit {
                    pos: layout::char_offset(cs, k - 1),
                    insert: Seq::empty(),
                    delete: encode_utf8(seq![cs[k - 1]]).len() as int,
                },
            )
            &&& !(k > 0 && target.online && !target.is_shell) ==> effect is None
        }),
{
    let i = layout::max_int(k - 1, 0);
    layout::lemma_char_offset(cs, k);
    layout::law_steps_go_by_characters(cs, k);
    lemma_replacing_characters(s, cs, i, k, Seq::empty());
    if k > 0 {
        assert(cs.take(i) + Seq::empty() + cs.skip(k) =~= cs.remove(k - 1));
        layout::law_steps_go_by_characters(cs, k - 1);
        lemma_one_character(cs, k - 1);
    } else {
        assert(cs.take(i) + Seq::empty() + cs.skip(k) =~= cs);
    }
}

proof fn lemma_one_character(cs: Seq<char>, k: int)
    requires
        0 <= k < cs.len(),
    ensures
        layout::char_offset(cs, k + 1) == layout::char_offset(cs, k) + encode_utf8(
            seq![cs[k]],
        ).len(),
{
    assert(cs.take(k + 1) =~= cs.take(k) + seq![cs[k]]);
    textbuf::lemma_encode_concat(cs.take(k), seq![cs[k]]);
}

/// Delete and Backspace remove the selected characters and no others, and the cursor goes where
/// they stood.
pub proof fn law_a_selection_is_removed_whole(
    s: ComposeState,
    cs: Seq<char>,
    i: int,
    j: int,
    action: Action,
    paste: Option<Seq<u8>>,
    target: ComposeTarget,
)
    requires
        selects(s, cs, i, j),
        action == Action::Delete || action == Action::Backspace,
    ensures
        ({
            let (after, effect) = acted(s, action, paste, target);
            &&& stands_at(after, cs.take(i) + cs.skip(j), i)
            &&& after.anchor is None && after.area == s.area
            &&& target.online && !target.is_shell ==> effect == Some(
                ComposeEffectView::Edit {
                    pos: layout::char_offset(cs, i),
                    insert: Seq::empty(),
                    delete: layout::char_offset(cs, j) - layout::char_offset(cs, i),
                },
            )
        }),
{
    layout::lemma_char_offset_order(cs, i, j);
    lemma_replacing_characters(s, cs, i, j, Seq::empty());
    assert(cs.take(i) + Seq::empty() + cs.skip(j) =~= cs.take(i) + cs.skip(j));
}

/// Typed text goes in between the characters around the cursor, which comes to stand behind it.
/// A line break is typed like any other character, and a paste like typed text.
pub proof fn law_typed_text_goes_in_at_the_cursor(
    s: ComposeState,
    cs: Seq<char>,
    k: int,
    insert: Seq<char>,
    target: ComposeTarget,
)
    requires
        stands_at(s, cs, k),
    ensures
        ({
            let after = typed(s, encode_utf8(insert), target).0;
            &&& stands_at(after, cs.take(k) + insert + cs.skip(k), k + insert.len())
            &&& after.anchor is None && after.area == s.area
        }),
        acted(s, Action::Paste, Some(encode_utf8(insert)), target) == typed(
            s,
            encode_utf8(insert),
            target,
        ),
        acted(s, Action::PastePrimary, Some(encode_utf8(insert)), target) == typed(
            s,
            encode_utf8(insert),
            target,
        ),
        acted(s, Action::InsertNewline, Some(encode_utf8(insert)), target) == typed(
            s,
            encode_utf8(seq!['\n']),
            target,
        ),
{
    lemma_replacing_characters(s, cs, k, k, insert);
    reveal_strlit("\n");
    assert("\n"@ =~= seq!['\n']);
}

/// Typed text takes the place of the selected characters, and the cursor comes to stand behind
/// it.
pub proof fn law_typed_text_replaces_the_selection(
    s: ComposeState,
    cs: Seq<char>,
    i: int,
    j: int,
    insert: Seq<char>,
    target: ComposeTarget,
)
    requires
        selects(s, cs, i, j),
    ensures
        ({
            let after = typed(s, encode_utf8(insert), target).0;
            &&& stands_at(after, cs.take(i) + insert + cs.skip(j), i + insert.len())
            &&& after.anchor is None && after.area == s.area
        }),
{
    layout::lemma_char_offset_order(cs, i, j);
    lemma_replacing_characters(s, cs, i, j, insert);
}

/// What was typed without a selection, Backspace takes back, character by character from the
/// last.
pub proof fn law_backspace_undoes_typing(
    s: ComposeState,
    cs: Seq<char>,
    k: int,
    c: char,
    paste: Option<Seq<u8>>,
    target: ComposeTarget,
)
    requires
        stands_at(s, cs, k),
    ensures
        ({
            let after = acted(
                typed(s, encode_utf8(seq![c]), target).0,
                Action::Backspace,
                paste,
                target,
            ).0;
            after.text == s.text && after.cursor == s.cursor && after.area == s.area
        }),
{
    law_typed_text_goes_in_at_the_cursor(s, cs, k, seq![c], target);
    let between = typed(s, encode_utf8(seq![c]), target).0;
    let longer = cs.take(k) + seq![c] + cs.skip(k);
    law_backspace_removes_one_character(between, longer, k + 1, paste, target);
    assert(longer.remove(k) =~= cs);
}

/// The cursor keys go one character at a time and stop at the ends of the text, which they leave
/// as it is.
pub proof fn law_the_cursor_goes_by_characters(
    s: ComposeState,
    cs: Seq<char>,
    k: int,
    paste: Option<Seq<u8>>,
    target: ComposeTarget,
)
    requires
        0 <= k <= cs.len(),
        s.text == encode_utf8(cs),
        s.cursor == layout::char_offset(cs, k),
    ensures
        ({
            let (left, told) = acted(s, Action::CursorLeft, paste, target);
            &&& stands_at(left, cs, if k > 0 { k - 1 } else { 0 })
            &&& left.anchor is None && left.area == s.area && told is None
        }),
        ({
            let (right, told) = acted(s, Action::CursorRight, paste, target);
            &&& stands_at(right, cs, if k < cs.len() { k + 1 } else { k })
            &&& right.anchor is None && right.area == s.area && told is None
        }),
{
    layout::law_steps_go_by_characters(cs, k);
    layout::lemma_char_offset(cs, k);
    layout::lemma_char_offset(cs, 0);
}

/// A submitted command line is executed as it stands, letter for letter, and the overlay is
/// emptied. An empty one is not executed.
pub proof fn law_a_command_line_is_executed_whole(
    s: ComposeState,
    paste: Option<Seq<u8>>,
    target: ComposeTarget,
)
    requires
        target.is_shell,
        target.online,
    ensures
        s.text.len() > 0 ==> acted(s, Action::Submit, paste, target) == (
            ComposeState {
                text: Seq::empty(),
                cursor: 0,
                anchor: None,
                area: FocusArea::Conversation,
            },
            Some(ComposeEffectView::ExecuteShell(s.text)),
        ),
        s.text.len() == 0 ==> acted(s, Action::Submit, paste, target) == (
            s,
            None::<ComposeEffectView>,
        ),
{
}

/// No other action touches the text, the cursor or the focus, and a paste without anything to
/// insert touches nothing either.
pub proof fn law_other_actions_leave_the_text_alone(
    s: ComposeState,
    action: Action,
    paste: Option<Seq<u8>>,
    target: ComposeTarget,
)
    requires
        action != Action::Submit,
        action != Action::InsertNewline,
        action != Action::Backspace,
        action != Action::Delete,
        action != Action::CursorLeft,
        action != Action::CursorRight,
        action == Action::Paste || action == Action::PastePrimary ==> paste is None,
    ensures
        acted(s, action, paste, target) == (s, None::<ComposeEffectView>),
{
}

/// A frame takes its actions one after another: the first ones and then the rest come to the
/// same as all of them at once. The two kinds of paste draw on their own sources.
pub proof fn law_actions_come_one_after_another(
    s: ComposeState,
    first: Seq<Action>,
    rest: Seq<Action>,
    clipboard: Option<Seq<u8>>,
    primary: Option<Seq<u8>>,
    target: ComposeTarget,
)
    ensures
        ({
            let one = act_all(s, first, clipboard, primary, target);
            let two = act_all(one.0, rest, clipboard, primary, target);
            act_all(s, first + rest, clipboard, primary, target) == (two.0, one.1 + two.1)
        }),
        act_all(s, seq![Action::Paste], clipboard, primary, target).0 == acted(
            s,
            Action::Paste,
            clipboard,
            target,
        ).0,
        act_all(s, seq![Action::PastePrimary], clipboard, primary, target).0 == acted(
            s,
            Action::PastePrimary,
            primary,
            target,
        ).0,
    decreases rest.len(),
{
    let one = act_all(s, first, clipboard, primary, target);
    reveal_with_fuel(act_all, 2);
    assert(seq![Action::Paste].drop_last() =~= Seq::empty());
    assert(seq![Action::PastePrimary].drop_last() =~= Seq::empty());
    if rest.len() == 0 {
        assert(first + rest =~= first);
        assert(one.1 + Seq::<ComposeEffectView>::empty() =~= one.1);
    } else {
        law_actions_come_one_after_another(s, first, rest.drop_last(), clipboard, primary, target);
        assert((first + rest).drop_last() =~= first + rest.drop_last());
        let front = act_all(one.0, rest.drop_last(), clipboard, primary, target);
        let last = rest[rest.len() - 1];
        let paste = if last == Action::PastePrimary {
            primary
        } else {
            clipboard
        };
        let asked = acted(front.0, last, paste, target).1;
        assert(and_effect(one.1 + front.1, asked) =~= one.1 + and_effect(front.1, asked));
    }
}

/// What is typed in pieces comes to the same as what is typed at once.
pub proof fn law_typing_in_pieces_is_typing_at_once(
    s: ComposeState,
    cs: Seq<char>,
    k: int,
    one: Seq<char>,
    two: Seq<char>,
    target: ComposeTarget,
)
    requires
        stands_at(s, cs, k),
    ensures
        type_all(s, seq![encode_utf8(one), encode_utf8(two)], target).0 == typed(
            s,
            encode_utf8(one + two),
            target,
        ).0,
{
    let texts = seq![encode_utf8(one), encode_utf8(two)];
    assert(texts.drop_last() =~= seq![encode_utf8(one)]);
    assert(texts.drop_last().drop_last() =~= Seq::empty());
    reveal_with_fuel(type_all, 3);
    law_typed_text_goes_in_at_the_cursor(s, cs, k, one, target);
    law_typed_text_goes_in_at_the_cursor(s, cs, k, one + two, target);
    let middle = typed(s, encode_utf8(one), target).0;
    let longer = cs.take(k) + one + cs.skip(k);
    let place = k + one.len();
    law_typed_text_goes_in_at_the_cursor(middle, longer, place, two, target);
    assert(longer.take(place) + two + longer.skip(place) =~= cs.take(k) + (one + two) + cs.skip(
        k,
    ));
    assert(place + two.len() == k + (one + two).len());
}

/// A single action in a frame does what it does by itself, and asks for what it asks by itself.
pub proof fn law_a_frame_of_one_action(
    s: ComposeState,
    action: Action,
    clipboard: Option<Seq<u8>>,
    primary: Option<Seq<u8>>,
    target: ComposeTarget,
)
    ensures
        ({
            let (after, effects) = compose(
                s,
                Seq::empty(),
                seq![action],
                clipboard,
                primary,
                target,
            );
            let alone = if action == Action::PastePrimary {
                acted(s, action, primary, target)
            } else {
                acted(s, action, clipboard, target)
            };
            after == alone.0 && match alone.1 {
                Some(effect) => effects == seq![effect],
                None => effects.len() == 0,
            }
        }),
{
    reveal_with_fuel(act_all, 2);
    reveal_with_fuel(type_all, 2);
    assert(seq![action].drop_last() =~= Seq::empty());
}

/// A single text in a frame is typed as it is.
pub proof fn law_a_frame_of_one_text(
    s: ComposeState,
    text: Seq<u8>,
    clipboard: Option<Seq<u8>>,
    primary: Option<Seq<u8>>,
    target: ComposeTarget,
)
    ensures
        ({
            let (after, effects) = compose(
                s,
                seq![text],
                Seq::empty(),
                clipboard,
                primary,
                target,
            );
            let alone = typed(s, text, target);
            after == alone.0 && match alone.1 {
                Some(effect) => effects == seq![effect],
                None => effects.len() == 0,
            }
        }),
{
    reveal_with_fuel(act_all, 2);
    reveal_with_fuel(type_all, 2);
    assert(seq![text].drop_last() =~= Seq::empty());
}

/// A frame can be cut anywhere: its texts in order and then its actions in order come to the
/// same in one frame as in several.
pub proof fn law_a_frame_can_be_cut(
    s: ComposeState,
    early: Seq<Seq<u8>>,
    late: Seq<Seq<u8>>,
    first: Seq<Action>,
    rest: Seq<Action>,
    clipboard: Option<Seq<u8>>,
    primary: Option<Seq<u8>>,
    target: ComposeTarget,
)
    ensures
        ({
            let none = Seq::<Action>::empty();
            let mute = Seq::<Seq<u8>>::empty();
            let one = compose(s, early, none, clipboard, primary, target);
            let two = compose(one.0, late, none, clipboard, primary, target);
            let three = compose(two.0, mute, first, clipboard, primary, target);
            let four = compose(three.0, mute, rest, clipboard, primary, target);
            compose(s, early + late, first + rest, clipboard, primary, target) == (
                four.0,
                one.1 + two.1 + three.1 + four.1,
            )
        }),
{
    lemma_texts_split(s, early, late, target);
    let one = type_all(s, early, target);
    let two = type_all(one.0, late, target);
    law_actions_come_one_after_another(two.0, first, rest, clipboard, primary, target);
    let three = act_all(two.0, first, clipboard, primary, target);
    let four = act_all(three.0, rest, clipboard, primary, target);
    let none = Seq::<ComposeEffectView>::empty();
    assert(one.1 + none =~= one.1);
    assert(two.1 + none =~= two.1);
    assert(none + three.1 =~= three.1);
    assert(none + four.1 =~= four.1);
    assert((one.1 + two.1) + (three.1 + four.1) =~= one.1 + two.1 + three.1 + four.1);
}

proof fn lemma_texts_split(
    s: ComposeState,
    early: Seq<Seq<u8>>,
    late: Seq<Seq<u8>>,
    target: ComposeTarget,
)
    ensures
        ({
            let one = type_all(s, early, target);
            let two = type_all(one.0, late, target);
            type_all(s, early + late, target) == (two.0, one.1 + two.1)
        }),
    decreases late.len(),
{
    let one = type_all(s, early, target);
    if late.len() == 0 {
        assert(early + late =~= early);
        assert(one.1 + Seq::<ComposeEffectView>::empty() =~= one.1);
    } else {
        lemma_texts_split(s, early, late.drop_last(), target);
        assert((early + late).drop_last() =~= early + late.drop_last());
        let front = type_all(one.0, late.drop_last(), target);
        let asked = typed(front.0, late.last(), target).1;
        assert(and_effect(one.1 + front.1, asked) =~= one.1 + and_effect(front.1, asked));
    }
}

/// The state of an overlay is its text, its cursor and its anchor, as they stand.
pub proof fn law_the_state_is_the_overlay_s(ov: InputOverlay, area: FocusArea, a: usize)
    ensures
        state_of(ov, area).text == encode_utf8(ov.text@),
        state_of(ov, area).cursor == ov.cursor,
        state_of(ov, area).area == area,
        ov.selection_anchor == Some(a) ==> state_of(ov, area).anchor == Some(a as int),
        ov.selection_anchor is None ==> state_of(ov, area).anchor is None,
{
}

} // verus!
