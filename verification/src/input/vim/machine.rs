//! The vim machine of the compose area: `modalkit`'s modal machine with the usual vim bindings,
//! fed with terminal keys and drained of the actions it asks for.

use vstd::prelude::*;
use vstd::string::*;
use editor_types::Action as MkAction;
use editor_types::EditAction as MkOperation;
use editor_types::application::{
    ApplicationAction, ApplicationContentId, ApplicationInfo, ApplicationStore, ApplicationWindowId,
};
use editor_types::context::EditContext as MkContext;
use editor_types::context::Resolve;
use editor_types::prelude::{
    Char, CommandType, Count as MkCount, EditTarget as MkTarget, MoveDir1D as MkDir,
    MovePosition as MkPosition, MoveType as MkMove, PasteStyle as MkPaste, RangeType as MkRange,
    Specifier, WordStyle as MkStyle,
};
use editor_types::{EditorAction, InsertTextAction, PromptAction};
use modalkit::env::vim::keybindings::{VimBindings, VimMachine};
use modalkit::key::TerminalKey;
use modalkit::keybindings::{BindingMachine, InputBindings, SequenceStatus};
use crate::input::vim::KaijutsuAction;
use crate::input::vim::dispatch::{PasteStyle, VimAction};
use crate::input::vim::edit::{
    Count, EditAction, EditContext, EditTarget, MkWordStyle, MoveDir1D, MovePosition, MoveType,
    OperationSpec, RangeType,
};
use crate::input::vim::keyconv::{TermKey, TermModifiers};
use crate::input::vim::keyconv;

verus! {

// ---------------------------------------------------------------------------
// What the machine is told of the application
// ---------------------------------------------------------------------------

/// How `modalkit` takes an action into a sequence that can be repeated.
#[verifier::external_type_specification]
#[verifier::external_body]
pub struct ExSequenceStatus(SequenceStatus);

/// The kinds of command line of `modalkit`.
#[verifier::external_type_specification]
#[verifier::external_body]
pub struct ExCommandType(CommandType);

/// The editing context of `modalkit`.
#[verifier::external_type_specification]
#[verifier::external_body]
pub struct ExMkContext(MkContext);

/// What an action does to a sequence that is being tracked.
#[derive(Clone, Copy, Debug, PartialEq, Eq, Structural)]
pub enum Tracking {
    /// The sequence ends before it.
    Break,
    /// It is a sequence of its own.
    Atom,
    /// It is left out.
    Ignore,
}

/// The status of `modalkit` that stands for a way of tracking.
pub uninterp spec fn status_of(tracking: Tracking) -> SequenceStatus;

/// The variant of `SequenceStatus` with the name of the given one; the result is only named.
#[verifier::external_body]
fn status(tracking: Tracking) -> (status: SequenceStatus)
    ensures
        status == status_of(tracking),
{
    match tracking {
        Tracking::Break => SequenceStatus::Break,
        Tracking::Atom => SequenceStatus::Atom,
        Tracking::Ignore => SequenceStatus::Ignore,
    }
}

impl ApplicationAction for KaijutsuAction {
    fn is_edit_sequence(&self, _ctx: &MkContext) -> (s: SequenceStatus)
        ensures
            s == status_of(Tracking::Break),
    {
        status(Tracking::Break)
    }

    fn is_last_action(&self, _ctx: &MkContext) -> (s: SequenceStatus)
        ensures
            s == status_of(Tracking::Atom),
    {
        status(Tracking::Atom)
    }

    fn is_last_selection(&self, _ctx: &MkContext) -> (s: SequenceStatus)
        ensures
            s == status_of(Tracking::Ignore),
    {
        status(Tracking::Ignore)
    }

    fn is_switchable(&self, _ctx: &MkContext) -> (switchable: bool)
        ensures
            !switchable,
    {
        false
    }
}

/// What the application keeps beside the machine: nothing.
pub struct KaijutsuStore;

impl ApplicationStore for KaijutsuStore {

}

/// The one window.
#[derive(Clone, Copy, Debug, PartialEq, Eq, Hash)]
pub struct KaijutsuWindowId;

impl ApplicationWindowId for KaijutsuWindowId {

}

/// `CommandType::clone` of `editor_types`: a copy of the same kind.
pub assume_specification[ <CommandType as Clone>::clone ](kind: &CommandType) -> (copy: CommandType)
    ensures
        copy == *kind,
;

/// The contents a window can show.
#[derive(Clone, Debug, PartialEq, Eq, Hash)]
pub enum KaijutsuContentId {
    /// The compose text.
    Compose,
    /// A command line.
    Command(CommandType),
}

impl ApplicationContentId for KaijutsuContentId {

}

/// What the machine is told of the application.
#[derive(Clone, Copy, Debug, PartialEq, Eq)]
pub struct KaijutsuInfo;

impl ApplicationInfo for KaijutsuInfo {
    type Error = String;

    type Action = KaijutsuAction;

    type Store = KaijutsuStore;

    type WindowId = KaijutsuWindowId;

    type ContentId = KaijutsuContentId;

    fn content_of_command(kind: CommandType) -> (content: KaijutsuContentId)
        ensures
            content == KaijutsuContentId::Command(kind),
    {
        KaijutsuContentId::Command(kind)
    }
}

// ---------------------------------------------------------------------------
// The machine
// ---------------------------------------------------------------------------

/// The vim machine.
#[verifier::external_body]
pub struct VimMachineResource {
    machine: VimMachine<TerminalKey, KaijutsuInfo>,
}

/// The actions that the machine has queued, each with the context it is meant in (`actions` in
/// `ModalMachine`).
pub uninterp spec fn queued(vim: VimMachineResource) -> Seq<(VimAction, EditContext)>;

/// The banner of the machine's mode.
pub uninterp spec fn shown_mode(vim: VimMachineResource) -> Option<Seq<char>>;

/// The machine after it took in a key. It goes by the machine and the key alone: the tables of
/// bindings are looked up in, never walked.
pub uninterp spec fn after_key(vim: VimMachineResource, key: TerminalKey) -> VimMachineResource;

/// The machine after it was fed a key.
pub open spec fn fed(
    vim: VimMachineResource,
    code: TermKey,
    modifiers: TermModifiers,
) -> VimMachineResource {
    let form = keyconv::terminal_form(code, modifiers);
    after_key(vim, keyconv::terminal_key_of(form.0, form.1))
}

/// The machine after it went back to Normal mode.
pub uninterp spec fn after_reset(vim: VimMachineResource) -> VimMachineResource;

/// The machine after it gave out its first queued action.
pub uninterp spec fn after_pop(vim: VimMachineResource) -> VimMachineResource;

/// The machine after it gave out its first `n` queued actions.
pub open spec fn drained(vim: VimMachineResource, n: nat) -> VimMachineResource
    decreases n,
{
    if n == 0 {
        vim
    } else {
        drained(after_pop(vim), (n - 1) as nat)
    }
}

/// The machine after it gave out all it has queued.
pub open spec fn emptied(vim: VimMachineResource) -> VimMachineResource {
    drained(vim, queued(vim).len())
}

/// An action of `editor_types` and the context it is meant in, as they left the queue.
#[verifier::external_body]
pub struct Queued {
    action: MkAction<KaijutsuInfo>,
    ctx: MkContext,
}

/// What a queued action asks for, as far as the compose overlay has a use for it, with the pending
/// operation and the count of its context.
pub uninterp spec fn asked(item: Queued) -> (VimAction, EditContext);

impl VimMachineResource {
    /// A machine of `modalkit` with the bindings of `VimBindings::default`, but that Enter
    /// submits. It is in Normal mode, where it shows no banner, and has nothing queued.
    #[verifier::external_body]
    pub fn new() -> (vim: Self)
        ensures
            queued(vim) == Seq::<(VimAction, EditContext)>::empty(),
            shown_mode(vim) is None,
    {
        let mut machine = VimMachine::<TerminalKey, KaijutsuInfo>::empty();
        VimBindings::default().submit_on_enter().setup(&mut machine);
        VimMachineResource { machine }
    }

    /// `ModalMachine::input_key`: take in a key. What the machine does with it is only named, but
    /// for this: new actions queue up behind those already there. (No dialog is ever opened,
    /// whose actions would go first.) Where the machine takes a key literally (after `f` or
    /// Ctrl+V, say), `TerminalKey::get_literal_char` panics on a Control combination that stands
    /// for no character.
    #[verifier::external_body]
    fn input_key(&mut self, key: TerminalKey)
        requires
            exists|code: TermKey, modifiers: TermModifiers|
                key == #[trigger] keyconv::terminal_key_of(code, modifiers)
                    && !keyconv::no_control_char(code, modifiers),
        ensures
            *final(self) == after_key(*old(self), key),
            queued(*old(self)).is_prefix_of(queued(*final(self))),
    {
        self.machine.input_key(key)
    }

    /// `ModalMachine::reset_mode`: go back to Normal mode. What entering the mode asks for queues
    /// up behind what is already there.
    #[verifier::external_body]
    pub(crate) fn reset_mode(&mut self)
        ensures
            *final(self) == after_reset(*old(self)),
            queued(*old(self)).is_prefix_of(queued(*final(self))),
    {
        self.machine.reset_mode()
    }

    /// `ModalMachine::pop`: give out the first queued action with its context, if there is one.
    /// (It would give out none while a dialog is open; none ever is.)
    #[verifier::external_body]
    fn next(&mut self) -> (next: Option<Queued>)
        ensures
            match next {
                None => queued(*old(self)).len() == 0 && *final(self) == *old(self),
                Some(item) => {
                    &&& queued(*old(self)).len() > 0
                    &&& asked(item) == queued(*old(self))[0]
                    &&& queued(*final(self)) == queued(*old(self)).drop_first()
                    &&& *final(self) == after_pop(*old(self))
                },
            },
    {
        let (action, ctx) = self.machine.pop()?;
        Some(Queued { action, ctx })
    }

    /// `ModalMachine::show_mode`: the banner of the mode; the result is only named.
    #[verifier::external_body]
    fn show_mode(&self) -> (mode: Option<String>)
        ensures
            match mode {
                Some(banner) => shown_mode(*self) == Some(banner@),
                None => shown_mode(*self) is None,
            },
    {
        self.machine.show_mode()
    }

    /// The banner of the machine's mode (such as `-- INSERT --`); none in Normal mode.
    pub fn mode_display(&self) -> (mode: Option<String>)
        ensures
            match mode {
                Some(banner) => shown_mode(*self) == Some(banner@),
                None => shown_mode(*self) is None,
            },
    {
        self.show_mode()
    }

    /// Feed the machine a key, in the form in which it takes it.
    pub fn feed(&mut self, code: TermKey, modifiers: TermModifiers)
        ensures
            *final(self) == fed(*old(self), code, modifiers),
            queued(*old(self)).is_prefix_of(queued(*final(self))),
    {
        let (code, modifiers) = keyconv::machine_form(code, modifiers);
        self.input_key(keyconv::terminal_key(code, modifiers));
    }

    /// Take out the first queued action with its context, if there is one.
    pub fn pop(&mut self) -> (next: Option<(VimAction, EditContext)>)
        ensures
            queued(*old(self)).len() == 0 ==> next is None && *final(self) == *old(self),
            queued(*old(self)).len() > 0 ==> next == Some(queued(*old(self))[0]) && queued(
                *final(self),
            ) == queued(*old(self)).drop_first() && *final(self) == after_pop(*old(self)),
    {
        match self.next() {
            Some(item) => Some((vim_action(&item), edit_context(&item))),
            None => None,
        }
    }

    /// Take out all queued actions, in order.
    pub fn drain(&mut self) -> (actions: Vec<(VimAction, EditContext)>)
        ensures
            actions@ == queued(*old(self)),
            queued(*final(self)) == Seq::<(VimAction, EditContext)>::empty(),
            *final(self) == emptied(*old(self)),
    {
        let mut actions: Vec<(VimAction, EditContext)> = Vec::new();
        let ghost start = *self;
        loop
            invariant
                start == *old(self),
                queued(start) =~= actions@ + queued(*self),
                emptied(start) == drained(*self, queued(*self).len()),
            ensures
                queued(*self).len() == 0,
            decreases queued(*self).len(),
        {
            match self.pop() {
                Some(action) => {
                    actions.push(action);
                },
                None => {
                    break;
                },
            }
        }
        actions
    }

    /// Go back to Normal mode, with nothing pending and nothing queued.
    pub fn reset(&mut self)
        ensures
            *final(self) == emptied(after_reset(*old(self))),
            queued(*final(self)) == Seq::<(VimAction, EditContext)>::empty(),
    {
        self.reset_mode();
        let _ = self.drain();
    }

    /// Type `i`, and drop what that asks for.
    pub fn enter_insert(&mut self)
        ensures
            *final(self) == inserting(*old(self)),
            queued(*final(self)) == Seq::<(VimAction, EditContext)>::empty(),
    {
        self.feed(TermKey::Char('i'), TermModifiers { bits: 0 });
        let _ = self.drain();
    }
}

/// The machine after an `i` was typed.
pub open spec fn inserting(vim: VimMachineResource) -> VimMachineResource {
    emptied(fed(vim, TermKey::Char('i'), TermModifiers { bits: 0 }))
}

// ---------------------------------------------------------------------------
// Reading an action
// ---------------------------------------------------------------------------

/// The motion of an edit.
pub open spec fn motion_of(action: VimAction) -> Option<MoveType> {
    match action {
        VimAction::Edit(_, EditTarget::Motion(motion, _)) => Some(motion),
        _ => None,
    }
}

/// The direction of a motion.
pub open spec fn dir_of(motion: MoveType) -> Option<MoveDir1D> {
    match motion {
        MoveType::Column(dir, _) => Some(dir),
        MoveType::Line(dir) => Some(dir),
        MoveType::FirstWord(dir) => Some(dir),
        MoveType::FinalNonBlank(dir) => Some(dir),
        MoveType::WordBegin(_, dir) => Some(dir),
        MoveType::WordEnd(_, dir) => Some(dir),
        _ => None,
    }
}

/// The position of a motion.
pub open spec fn pos_of(motion: MoveType) -> Option<MovePosition> {
    match motion {
        MoveType::LinePos(pos) => Some(pos),
        MoveType::BufferPos(pos) => Some(pos),
        _ => None,
    }
}

/// The word style of a motion.
pub open spec fn style_of(motion: MoveType) -> Option<MkWordStyle> {
    match motion {
        MoveType::WordBegin(style, _) => Some(style),
        MoveType::WordEnd(style, _) => Some(style),
        _ => None,
    }
}

/// What kind of motion it is, whatever its direction, position or style.
#[derive(Clone, Copy, Debug, PartialEq, Eq, Structural)]
pub enum MotionKind {
    BufferPos,
    BufferLineOffset,
    Column(bool),
    FinalNonBlank,
    FirstWord,
    Line,
    LinePos,
    WordBegin,
    WordEnd,
    Other,
}

/// The kind of a motion.
pub open spec fn kind_of(motion: MoveType) -> MotionKind {
    match motion {
        MoveType::BufferPos(_) => MotionKind::BufferPos,
        MoveType::BufferLineOffset => MotionKind::BufferLineOffset,
        MoveType::Column(_, wrap) => MotionKind::Column(wrap),
        MoveType::FinalNonBlank(_) => MotionKind::FinalNonBlank,
        MoveType::FirstWord(_) => MotionKind::FirstWord,
        MoveType::Line(_) => MotionKind::Line,
        MoveType::LinePos(_) => MotionKind::LinePos,
        MoveType::WordBegin(_, _) => MotionKind::WordBegin,
        MoveType::WordEnd(_, _) => MotionKind::WordEnd,
        MoveType::Other => MotionKind::Other,
    }
}

/// What kind of target it is, whatever its motion or count.
#[derive(Clone, Copy, Debug, PartialEq, Eq, Structural)]
pub enum TargetKind {
    CurrentPosition,
    Motion,
    Range(RangeType, bool),
    Other,
}

/// The kind of the target of an edit.
pub open spec fn target_kind_of(action: VimAction) -> Option<TargetKind> {
    match action {
        VimAction::Edit(_, EditTarget::CurrentPosition) => Some(TargetKind::CurrentPosition),
        VimAction::Edit(_, EditTarget::Motion(_, _)) => Some(TargetKind::Motion),
        VimAction::Edit(_, EditTarget::Range(range, inclusive, _)) => Some(
            TargetKind::Range(range, inclusive),
        ),
        VimAction::Edit(_, EditTarget::Other) => Some(TargetKind::Other),
        _ => None,
    }
}

/// The count of the target of an edit.
pub open spec fn count_of(action: VimAction) -> Option<Count> {
    match action {
        VimAction::Edit(_, EditTarget::Motion(_, count)) => Some(count),
        VimAction::Edit(_, EditTarget::Range(_, _, count)) => Some(count),
        _ => None,
    }
}

/// An action of `editor_types` that is neither an edit nor a paste: a single typed character,
/// the two prompt actions, the application's own, or anything else.
#[verifier::external_body]
fn plain_action(item: &Queued) -> (plain: Option<VimAction>)
    ensures
        plain == (match asked(*item).0 {
            VimAction::Paste(_) => None,
            VimAction::Edit(_, _) => None,
            other => Some(other),
        }),
{
    match &item.action {
        MkAction::Editor(EditorAction::Edit(..)) => None,
        MkAction::Editor(EditorAction::InsertText(InsertTextAction::Paste(..))) => None,
        MkAction::Editor(EditorAction::InsertText(InsertTextAction::Type(
            Specifier::Exact(Char::Single(c)), _, _))) => Some(VimAction::Type(*c)),
        MkAction::Prompt(PromptAction::Submit) => Some(VimAction::PromptSubmit),
        MkAction::Prompt(PromptAction::Abort(_)) => Some(VimAction::PromptAbort),
        MkAction::Application(own) => Some(VimAction::Application(*own)),
        _ => Some(VimAction::Unhandled),
    }
}

/// The style of a paste of `editor_types`.
#[verifier::external_body]
fn paste_style(item: &Queued) -> (style: Option<PasteStyle>)
    ensures
        style == (match asked(*item).0 {
            VimAction::Paste(style) => Some(style),
            _ => None,
        }),
{
    match &item.action {
        MkAction::Editor(EditorAction::InsertText(InsertTextAction::Paste(style, _))) => match style {
            MkPaste::Side(MkDir::Previous) => Some(PasteStyle::Side(MoveDir1D::Previous)),
            MkPaste::Side(MkDir::Next) => Some(PasteStyle::Side(MoveDir1D::Next)),
            MkPaste::Replace => Some(PasteStyle::Replace),
            MkPaste::Cursor => Some(PasteStyle::Cursor),
        },
        _ => None,
    }
}

/// The operation of an edit of `editor_types`: given outright, or left to the context.
#[verifier::external_body]
fn operation(item: &Queued) -> (spec: Option<OperationSpec>)
    ensures
        spec == (match asked(*item).0 {
            VimAction::Edit(spec, _) => Some(spec),
            _ => None,
        }),
{
    match &item.action {
        MkAction::Editor(EditorAction::Edit(spec, _)) => match spec {
            Specifier::Contextual => Some(OperationSpec::Contextual),
            Specifier::Exact(MkOperation::Motion) => Some(OperationSpec::Exact(EditAction::Motion)),
            Specifier::Exact(MkOperation::Delete) => Some(OperationSpec::Exact(EditAction::Delete)),
            Specifier::Exact(MkOperation::Yank) => Some(OperationSpec::Exact(EditAction::Yank)),
            Specifier::Exact(_) => Some(OperationSpec::Exact(EditAction::Other)),
        },
        _ => None,
    }
}

/// The kind of target of an edit of `editor_types`.
#[verifier::external_body]
fn target_kind(item: &Queued) -> (kind: Option<TargetKind>)
    ensures
        kind == target_kind_of(asked(*item).0),
{
    match &item.action {
        MkAction::Editor(EditorAction::Edit(_, target)) => match target {
            MkTarget::CurrentPosition => Some(TargetKind::CurrentPosition),
            MkTarget::Motion(..) => Some(TargetKind::Motion),
            MkTarget::Range(MkRange::Line, on, _) => Some(TargetKind::Range(RangeType::Line, *on)),
            MkTarget::Range(_, on, _) => Some(TargetKind::Range(RangeType::Other, *on)),
            _ => Some(TargetKind::Other),
        },
        _ => None,
    }
}

/// The count of an edit of `editor_types` whose target is a motion or a range.
#[verifier::external_body]
fn target_count(item: &Queued) -> (count: Option<Count>)
    ensures
        count == count_of(asked(*item).0),
{
    match &item.action {
        MkAction::Editor(EditorAction::Edit(_, MkTarget::Motion(_, n) | MkTarget::Range(_, _, n))) =>
            match n {
                MkCount::Contextual => Some(Count::Contextual),
                MkCount::MinusOne => Some(Count::MinusOne),
                MkCount::Exact(n) => Some(Count::Exact(*n)),
            },
        _ => None,
    }
}

/// The kind of motion of an edit of `editor_types`.
#[verifier::external_body]
fn motion_kind(item: &Queued) -> (kind: Option<MotionKind>)
    ensures
        kind == (match motion_of(asked(*item).0) {
            Some(motion) => Some(kind_of(motion)),
            None => None,
        }),
{
    match &item.action {
        MkAction::Editor(EditorAction::Edit(_, MkTarget::Motion(motion, _))) => Some(match motion {
            MkMove::BufferPos(_) => MotionKind::BufferPos,
            MkMove::BufferLineOffset => MotionKind::BufferLineOffset,
            MkMove::Column(_, wrap) => MotionKind::Column(*wrap),
            MkMove::FinalNonBlank(_) => MotionKind::FinalNonBlank,
            MkMove::FirstWord(_) => MotionKind::FirstWord,
            MkMove::Line(_) => MotionKind::Line, MkMove::LinePos(_) => MotionKind::LinePos,
            MkMove::WordBegin(..) => MotionKind::WordBegin,
            MkMove::WordEnd(..) => MotionKind::WordEnd,
            _ => MotionKind::Other,
        }),
        _ => None,
    }
}

/// The direction of a motion of `editor_types`, where its kind has one here.
#[verifier::external_body]
fn motion_dir(item: &Queued) -> (dir: Option<MoveDir1D>)
    ensures
        dir == (match motion_of(asked(*item).0) {
            Some(motion) => dir_of(motion),
            None => None,
        }),
{
    match &item.action {
        MkAction::Editor(EditorAction::Edit(_, MkTarget::Motion(MkMove::Column(dir, _)
            | MkMove::Line(dir) | MkMove::FirstWord(dir) | MkMove::FinalNonBlank(dir)
            | MkMove::WordBegin(_, dir) | MkMove::WordEnd(_, dir), _))) => match dir {
            MkDir::Previous => Some(MoveDir1D::Previous),
            MkDir::Next => Some(MoveDir1D::Next),
        },
        _ => None,
    }
}

/// The position of a motion of `editor_types`, where its kind has one here.
#[verifier::external_body]
fn motion_pos(item: &Queued) -> (pos: Option<MovePosition>)
    ensures
        pos == (match motion_of(asked(*item).0) {
            Some(motion) => pos_of(motion),
            None => None,
        }),
{
    match &item.action {
        MkAction::Editor(EditorAction::Edit(_, MkTarget::Motion(
            MkMove::LinePos(pos) | MkMove::BufferPos(pos), _))) => match pos {
            MkPosition::Beginning => Some(MovePosition::Beginning),
            MkPosition::Middle => Some(MovePosition::Middle),
            MkPosition::End => Some(MovePosition::End),
        },
        _ => None,
    }
}

/// The word style of a motion of `editor_types`, where its kind has one.
#[verifier::external_body]
fn motion_style(item: &Queued) -> (style: Option<MkWordStyle>)
    ensures
        style == (match motion_of(asked(*item).0) {
            Some(motion) => style_of(motion),
            None => None,
        }),
{
    match &item.action {
        MkAction::Editor(EditorAction::Edit(_, MkTarget::Motion(
            MkMove::WordBegin(style, _) | MkMove::WordEnd(style, _), _))) => match style {
            MkStyle::Little => Some(MkWordStyle::Little),
            MkStyle::Big => Some(MkWordStyle::Big),
            _ => Some(MkWordStyle::Other),
        },
        _ => None,
    }
}

/// The motion of an edit.
fn read_motion(item: &Queued) -> (motion: Option<MoveType>)
    ensures
        motion == motion_of(asked(*item).0),
{
    let kind = match motion_kind(item) {
        Some(kind) => kind,
        None => {
            return None;
        },
    };
    let dir = motion_dir(item);
    let pos = motion_pos(item);
    let style = motion_style(item);
    match (kind, dir, pos, style) {
        (MotionKind::BufferPos, _, Some(pos), _) => Some(MoveType::BufferPos(pos)),
        (MotionKind::BufferLineOffset, _, _, _) => Some(MoveType::BufferLineOffset),
        (MotionKind::Column(wrap), Some(dir), _, _) => Some(MoveType::Column(dir, wrap)),
        (MotionKind::FinalNonBlank, Some(dir), _, _) => Some(MoveType::FinalNonBlank(dir)),
        (MotionKind::FirstWord, Some(dir), _, _) => Some(MoveType::FirstWord(dir)),
        (MotionKind::Line, Some(dir), _, _) => Some(MoveType::Line(dir)),
        (MotionKind::LinePos, _, Some(pos), _) => Some(MoveType::LinePos(pos)),
        (MotionKind::WordBegin, Some(dir), _, Some(style)) => Some(MoveType::WordBegin(style, dir)),
        (MotionKind::WordEnd, Some(dir), _, Some(style)) => Some(MoveType::WordEnd(style, dir)),
        _ => Some(MoveType::Other),
    }
}

/// What an action asks for.
fn vim_action(item: &Queued) -> (read: VimAction)
    ensures
        read == asked(*item).0,
{
    if let Some(plain) = plain_action(item) {
        return plain;
    }
    if let Some(style) = paste_style(item) {
        return VimAction::Paste(style);
    }
    let spec = operation(item);
    let kind = target_kind(item);
    let count = target_count(item);
    let motion = read_motion(item);
    let target = match (kind, count, motion) {
        (Some(TargetKind::CurrentPosition), _, _) => EditTarget::CurrentPosition,
        (Some(TargetKind::Motion), Some(count), Some(motion)) => EditTarget::Motion(motion, count),
        (Some(TargetKind::Range(range, inclusive)), Some(count), _) => EditTarget::Range(
            range,
            inclusive,
            count,
        ),
        _ => EditTarget::Other,
    };
    match spec {
        Some(spec) => VimAction::Edit(spec, target),
        None => VimAction::Unhandled,
    }
}

/// `EditContext::resolve` of `editor_types` on an operation left to the context: the pending one.
#[verifier::external_body]
fn pending_operation(item: &Queued) -> (op: EditAction)
    ensures
        op == asked(*item).1.operation,
{
    let op: MkOperation = item.ctx.resolve(&Specifier::Contextual);
    match op {
        MkOperation::Motion => EditAction::Motion,
        MkOperation::Delete => EditAction::Delete,
        MkOperation::Yank => EditAction::Yank,
        _ => EditAction::Other,
    }
}

/// `EditContext::get_count` of `editor_types`: the count the user typed, if any.
#[verifier::external_body]
fn typed_count(item: &Queued) -> (count: Option<usize>)
    ensures
        count == asked(*item).1.count,
{
    item.ctx.get_count()
}

/// The pending operation and the count of a context.
fn edit_context(item: &Queued) -> (read: EditContext)
    ensures
        read == asked(*item).1,
{
    EditContext { operation: pending_operation(item), count: typed_count(item) }
}

} // verus!
