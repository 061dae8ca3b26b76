//! The editing vocabulary that the vim machine speaks: motions, counts, targets and
//! operations, as plain values.

use vstd::prelude::*;
use editor_types::context::Resolve;

verus! {

/// Direction along one dimension.
#[derive(Clone, Copy, Debug, PartialEq, Eq, Structural)]
pub enum MoveDir1D {
    Previous,
    Next,
}

/// A position relative to a line or a buffer.
#[derive(Clone, Copy, Debug, PartialEq, Eq, Structural)]
pub enum MovePosition {
    Beginning,
    Middle,
    End,
}

/// The word styles of a motion. Words in any style but the second are delimited alike.
#[derive(Clone, Copy, Debug, PartialEq, Eq, Structural)]
pub enum MkWordStyle {
    Little,
    Big,
    /// Any other style the vim machine can name.
    Other,
}

/// The cursor motions that lead somewhere in the compose overlay.
#[derive(Clone, Copy, Debug, PartialEq, Eq, Structural)]
pub enum MoveType {
    BufferPos(MovePosition),
    BufferLineOffset,
    Column(MoveDir1D, bool),
    FinalNonBlank(MoveDir1D),
    FirstWord(MoveDir1D),
    Line(MoveDir1D),
    LinePos(MovePosition),
    WordBegin(MkWordStyle, MoveDir1D),
    WordEnd(MkWordStyle, MoveDir1D),
    /// Any other motion the vim machine can ask for.
    Other,
}

/// How to determine the count of an action.
#[derive(Clone, Copy, Debug, PartialEq, Eq, Structural)]
pub enum Count {
    /// The count the user typed, or 1 if none was.
    Contextual,
    /// One less than the count the user typed, at least 0.
    MinusOne,
    /// This count, whatever the user typed.
    Exact(usize),
}

/// The kinds of range a target can name.
#[derive(Clone, Copy, Debug, PartialEq, Eq, Structural)]
pub enum RangeType {
    Line,
    /// Any other kind.
    Other,
}

/// What an edit operation applies to.
#[derive(Clone, Copy, Debug, PartialEq, Eq, Structural)]
pub enum EditTarget {
    CurrentPosition,
    Motion(MoveType, Count),
    Range(RangeType, bool, Count),
    /// Any other target.
    Other,
}

/// The operations an edit can perform.
#[derive(Clone, Copy, Debug, PartialEq, Eq, Structural)]
pub enum EditAction {
    Motion,
    Delete,
    Yank,
    /// Any other operation.
    Other,
}

/// A value given outright, or left to the context.
#[derive(Clone, Copy, Debug, PartialEq, Eq, Structural)]
pub enum OperationSpec {
    Contextual,
    Exact(EditAction),
}

/// What was typed before an action: a pending operation and a count.
#[derive(Clone, Copy, Debug, PartialEq, Eq, Structural)]
pub struct EditContext {
    pub operation: EditAction,
    pub count: Option<usize>,
}

/// What a count comes to when `given` is what the user typed.
pub open spec fn count_value(count: Count, given: Option<usize>) -> int {
    match count {
        Count::Contextual => match given {
            Some(n) => n as int,
            None => 1,
        },
        Count::MinusOne => match given {
            Some(n) => if n == 0 {
                0
            } else {
                n - 1
            },
            None => 0,
        },
        Count::Exact(n) => n as int,
    }
}

/// `EditContext::resolve` of `editor_types` on a count, in a context that holds the count
/// `given` and nothing else: the typed count or 1, one less than the typed count but not below
/// 0, or the exact number.
#[verifier::external_body]
fn resolve_count(count: Count, given: Option<usize>) -> (n: usize)
    ensures
        n == count_value(count, given),
{
    let count = match count {
        Count::Contextual => editor_types::prelude::Count::Contextual,
        Count::MinusOne => editor_types::prelude::Count::MinusOne,
        Count::Exact(n) => editor_types::prelude::Count::Exact(n),
    };
    editor_types::context::EditContextBuilder::default().count(given).build().resolve(&count)
}

impl EditContext {
    /// What a count comes to in this context.
    pub fn resolve(&self, count: &Count) -> (n: usize)
        ensures
            n == count_value(*count, self.count),
    {
        resolve_count(*count, self.count)
    }

    /// The operation an edit performs in this context: its own, or the pending one.
    pub fn resolve_operation(&self, spec: &OperationSpec) -> (op: EditAction)
        ensures
            op == (match *spec {
                OperationSpec::Contextual => self.operation,
                OperationSpec::Exact(op) => op,
            }),
    {
        match spec {
            OperationSpec::Contextual => self.operation,
            OperationSpec::Exact(op) => *op,
        }
    }

    /// The count the user typed, if any.
    pub fn get_count(&self) -> (count: Option<usize>)
        ensures
            count == self.count,
    {
        self.count
    }
}

impl Default for EditContext {
    fn default() -> (ctx: Self)
        ensures
            ctx.operation == EditAction::Motion,
            ctx.count is None,
    {
        EditContext { operation: EditAction::Motion, count: None }
    }
}

} // verus!
