//! Input action handlers: what each fired action does to focus, surfaces, blocks and the
//! compose text.

use vstd::prelude::*;
use vstd::string::*;
use vstd::utf8::*;
use crate::input::action::Action;
use crate::input::context::Screen;
use crate::input::focus::{ActiveSurface, FocusArea};
use crate::input::focus;
use crate::input::interrupt::InterruptState;
use crate::input::overlay::{InputMode, InputOverlay};
use crate::input::vim::dispatch::banner;
use crate::input::vim::machine::VimMachineResource;
use crate::input::vim::machine;
use crate::strutil;
use crate::time::Moment;

verus! {

// ---------------------------------------------------------------------------
// Focus
// ---------------------------------------------------------------------------

/// The next focus in the Tab cycle; a dialog keeps it.
pub open spec fn cycled(area: FocusArea) -> FocusArea {
    match area {
        FocusArea::Compose => FocusArea::Conversation,
        FocusArea::Conversation => FocusArea::Compose,
        FocusArea::Dialog => FocusArea::Dialog,
    }
}

/// Handle CycleFocusForward and CycleFocusBackward.
pub fn handle_focus_cycle(action: &Action, area: &mut FocusArea)
    ensures
        *final(area) == (match *action {
            Action::CycleFocusForward | Action::CycleFocusBackward => cycled(*old(area)),
            _ => *old(area),
        }),
{
    match *action {
        Action::CycleFocusForward | Action::CycleFocusBackward => {
            *area = match *area {
                FocusArea::Compose => FocusArea::Conversation,
                FocusArea::Conversation => FocusArea::Compose,
                FocusArea::Dialog => FocusArea::Dialog,
            };
        },
        _ => {},
    }
}

/// A full round of the Tab cycle ends where it began. It leads out of everything but a dialog, and
/// never into one.
pub proof fn law_focus_cycle_returns(area: FocusArea)
    ensures
        cycled(cycled(area)) == area,
        cycled(area) == area <==> area == FocusArea::Dialog,
        cycled(area) == FocusArea::Dialog <==> area == FocusArea::Dialog,
{
}

/// Handle FocusCompose and SummonChat: focus the compose area on the chat surface. Returns
/// whether the overlay is to be entered.
pub fn handle_focus_compose(
    action: &Action,
    area: &mut FocusArea,
    surface: &mut ActiveSurface,
) -> (summoned: bool)
    ensures
        summoned == (*action == Action::FocusCompose || *action == Action::SummonChat),
        *final(area) == (if summoned {
            FocusArea::Compose
        } else {
            *old(area)
        }),
        *final(surface) == (if summoned {
            ActiveSurface::Chat
        } else {
            *old(surface)
        }),
{
    if *action == Action::FocusCompose || *action == Action::SummonChat {
        *area = FocusArea::Compose;
        *surface = ActiveSurface::Chat;
        true
    } else {
        false
    }
}

/// The machine as it enters a text: in Normal mode, or Insert mode, with nothing pending.
pub open spec fn entered(vim: VimMachineResource, insert: bool) -> VimMachineResource {
    let fresh = machine::emptied(machine::after_reset(vim));
    if insert {
        machine::inserting(fresh)
    } else {
        fresh
    }
}

/// Enter the chat overlay: an empty one takes up the shared draft, if there is one and no clear
/// is pending. The machine starts afresh, in Insert mode where there is no text to review.
pub fn enter_chat_overlay(
    ov: &mut InputOverlay,
    draft: Option<&str>,
    pending_clear: bool,
    vim: &mut VimMachineResource,
)
    requires
        old(ov).wf(),
    ensures
        final(ov).wf(),
        final(ov).mode == InputMode::Chat,
        final(ov).selection_anchor == old(ov).selection_anchor,
        match draft {
            Some(text) if old(ov).text@.len() == 0 && !pending_clear && text@.len() > 0 => {
                &&& final(ov).text@ == text@
                &&& final(ov).cursor == encode_utf8(text@).len()
            },
            _ => final(ov).text == old(ov).text && final(ov).cursor == old(ov).cursor,
        },
        *final(vim) == entered(*old(vim), final(ov).text@.len() == 0),
        banner(final(ov).vim_mode) == machine::shown_mode(*final(vim)),
{
    ov.mode = InputMode::Chat;
    if ov.is_empty() && !pending_clear {
        if let Some(text) = draft {
            if !text.is_empty() {
                proof {
                    assert(ov.text@ =~= Seq::empty());
                    assert(encode_utf8(ov.text@).len() == 0);
                    encode_utf8_valid_utf8(text@);
                    is_char_boundary_start_end_of_seq(encode_utf8(text@));
                }
                ov.text = text.to_owned();
                ov.cursor = text.as_bytes().len();
            }
        }
    }
    vim.reset();
    enter_overlay(ov, vim);
}

/// Enter an overlay with a fresh machine: in Insert mode where it is empty. The overlay shows the
/// mode.
pub fn enter_overlay(ov: &mut InputOverlay, vim: &mut VimMachineResource)
    ensures
        *final(vim) == (if old(ov).text@.len() == 0 {
            machine::inserting(*old(vim))
        } else {
            *old(vim)
        }),
        banner(final(ov).vim_mode) == machine::shown_mode(*final(vim)),
        final(ov).text == old(ov).text,
        final(ov).cursor == old(ov).cursor,
        final(ov).selection_anchor == old(ov).selection_anchor,
        final(ov).mode == old(ov).mode,
{
    if ov.is_empty() {
        vim.enter_insert();
    }
    ov.vim_mode = vim.mode_display();
}

/// Handle ToggleSurface: switch between chat and shell, focus the compose area, and start the
/// machine afresh. Returns whether the overlay of the new surface is to be entered.
pub fn handle_toggle_surface(
    action: &Action,
    area: &mut FocusArea,
    surface: &mut ActiveSurface,
    vim: &mut VimMachineResource,
) -> (toggled: bool)
    ensures
        toggled == (*action == Action::ToggleSurface),
        *final(area) == (if toggled {
            FocusArea::Compose
        } else {
            *old(area)
        }),
        *final(surface) == (if toggled {
            focus::other_surface(*old(surface))
        } else {
            *old(surface)
        }),
        *final(vim) == (if toggled {
            entered(*old(vim), false)
        } else {
            *old(vim)
        }),
{
    if *action == Action::ToggleSurface {
        surface.toggle();
        *area = FocusArea::Compose;
        vim.reset();
        true
    } else {
        false
    }
}

/// Handle PopLevel for the conversation screen: leave the compose area, with the machine back in
/// Normal mode, and the shell with it. A dialog handles its own. Returns whether the compose area
/// was left.
pub fn handle_pop_level(
    action: &Action,
    area: &mut FocusArea,
    surface: &mut ActiveSurface,
    vim: &mut VimMachineResource,
) -> (left: bool)
    ensures
        left == (*action == Action::PopLevel && *old(area) == FocusArea::Compose),
        *final(area) == (if left {
            FocusArea::Conversation
        } else {
            *old(area)
        }),
        *final(surface) == (if left {
            ActiveSurface::Chat
        } else {
            *old(surface)
        }),
        *final(vim) == (if left {
            machine::after_reset(*old(vim))
        } else {
            *old(vim)
        }),
{
    if *action == Action::PopLevel && *area == FocusArea::Compose {
        vim.reset_mode();
        *area = FocusArea::Conversation;
        if surface.is_shell() {
            *surface = ActiveSurface::Chat;
        }
        true
    } else {
        false
    }
}

/// The command line that an action types ahead.
pub open spec fn prefill_of(action: Action) -> Option<Seq<char>> {
    match action {
        Action::PromptContextRename => Some("kj context rename "@),
        Action::PromptContextSwitch => Some("kj context switch "@),
        _ => None,
    }
}

/// Handle the prompt actions: summon the shell surface, and say what is typed ahead there.
pub fn handle_prompt_prefill(action: &Action, area: &mut FocusArea, surface: &mut ActiveSurface)
    -> (prefill: Option<&'static str>)
    ensures
        match prefill {
            Some(line) => prefill_of(*action) == Some(line@),
            None => prefill_of(*action) is None,
        },
        *action == Action::PromptContextRename ==> (prefill matches Some(line) && line@
            == "kj context rename "@),
        *action == Action::PromptContextSwitch ==> (prefill matches Some(line) && line@
            == "kj context switch "@),
        prefill is Some <==> *action == Action::PromptContextRename || *action
            == Action::PromptContextSwitch,
        *final(area) == (if prefill is Some {
            FocusArea::Compose
        } else {
            *old(area)
        }),
        *final(surface) == (if prefill is Some {
            ActiveSurface::Shell
        } else {
            *old(surface)
        }),
{
    let line = match *action {
        Action::PromptContextRename => "kj context rename ",
        Action::PromptContextSwitch => "kj context switch ",
        _ => {
            return None;
        },
    };
    *surface = ActiveSurface::Shell;
    *area = FocusArea::Compose;
    Some(line)
}

/// Type a line ahead: it is the whole text, with the cursor at its end and the machine in Insert
/// mode.
pub fn prefill_overlay(ov: &mut InputOverlay, line: &str, vim: &mut VimMachineResource)
    ensures
        final(ov).wf(),
        final(ov).text@ == line@,
        final(ov).cursor == encode_utf8(line@).len(),
        final(ov).selection_anchor is None,
        final(ov).mode == old(ov).mode,
        *final(vim) == entered(*old(vim), true),
        banner(final(ov).vim_mode) == machine::shown_mode(*final(vim)),
{
    proof {
        encode_utf8_valid_utf8(line@);
        is_char_boundary_start_end_of_seq(encode_utf8(line@));
    }
    ov.text = line.to_owned();
    ov.cursor = line.as_bytes().len();
    ov.selection_anchor = None;
    vim.reset();
    vim.enter_insert();
    ov.vim_mode = vim.mode_display();
}

/// Handle DetachToConversation: the screen to go to, if it is another one.
pub fn handle_detach(action: &Action, screen: Screen) -> (next: Option<Screen>)
    ensures
        next == (if *action == Action::DetachToConversation && screen != Screen::Conversation {
            Some(Screen::Conversation)
        } else {
            None
        }),
{
    if *action == Action::DetachToConversation && screen != Screen::Conversation {
        Some(Screen::Conversation)
    } else {
        None
    }
}

// ---------------------------------------------------------------------------
// Interrupt
// ---------------------------------------------------------------------------

/// What an interrupt press does.
#[derive(Clone, Copy, Debug, PartialEq, Eq, Structural)]
pub struct InterruptPlan {
    /// Abort at once (otherwise after the current turn).
    pub immediate: bool,
    /// Also clear the compose text, here and in the shared document.
    pub clear: bool,
}

/// The plan for a number of presses: from the second on at once, from the third on with a clear.
pub open spec fn interrupt_plan(count: int) -> InterruptPlan {
    InterruptPlan { immediate: count >= 2, clear: count >= 3 }
}

/// Handle InterruptContext: count the press, and escalate by the count. The third press starts
/// the count over.
pub fn handle_interrupt(action: &Action, state: &mut InterruptState, now: Moment) -> (plan: Option<
    InterruptPlan,
>)
    ensures
        plan is Some <==> *action is InterruptContext,
        plan is None ==> *final(state) == *old(state),
        plan matches Some(p) ==> exists|pressed: InterruptState| #[trigger]
            old(state).taps.pressed_at(now, &pressed.taps) && p == interrupt_plan(
                pressed.taps.count as int,
            ) && (if pressed.taps.count >= 3 {
                pressed.taps.cleared(&final(state).taps)
            } else {
                *final(state) == pressed
            }),
{
    match *action {
        Action::InterruptContext { .. } => {},
        _ => {
            return None;
        },
    }
    let count = state.press_at(now);
    let ghost pressed = *state;
    if count >= 3 {
        state.reset();
    }
    assert(old(state).taps.pressed_at(now, &pressed.taps));
    Some(InterruptPlan { immediate: count >= 2, clear: count >= 3 })
}

// ---------------------------------------------------------------------------
// Screenshots
// ---------------------------------------------------------------------------

/// The file that a screenshot taken at a time (in seconds of the epoch) goes to.
pub fn screenshot_path(secs: usize) -> (path: String)
    ensures
        path@ == "design/screenshots/screenshot-"@ + strutil::digits_of(secs as nat) + ".png"@,
{
    let number = strutil::decimal(secs);
    strutil::enclosed("design/screenshots/screenshot-", number.as_str(), ".png")
}

// ---------------------------------------------------------------------------
// Block navigation
// ---------------------------------------------------------------------------

/// Navigation direction for block focus.
#[derive(Clone, Copy, Debug, PartialEq, Eq, Structural)]
pub enum NavigationDirection {
    Next,
    Previous,
    First,
    Last,
}

/// A row of the conversation: a block, or a header above blocks.
#[derive(Clone, Copy, Debug, PartialEq, Eq, Structural)]
pub enum RowKey {
    Block(u64),
    Header(u64),
}

/// The direction of a navigation action.
pub open spec fn direction_of(action: Action) -> Option<NavigationDirection> {
    match action {
        Action::FocusNextBlock => Some(NavigationDirection::Next),
        Action::FocusPrevBlock => Some(NavigationDirection::Previous),
        Action::FocusFirstBlock => Some(NavigationDirection::First),
        Action::FocusLastBlock => Some(NavigationDirection::Last),
        _ => None,
    }
}

/// The direction that counts: that of the last navigation action.
pub open spec fn last_direction(actions: Seq<Action>) -> Option<NavigationDirection>
    decreases actions.len(),
{
    if actions.len() == 0 {
        None
    } else if direction_of(actions.last()) is Some {
        direction_of(actions.last())
    } else {
        last_direction(actions.drop_last())
    }
}

/// The blocks among the rows, in order.
pub open spec fn block_ids(rows: Seq<RowKey>) -> Seq<u64>
    decreases rows.len(),
{
    if rows.len() == 0 {
        Seq::empty()
    } else {
        let front = block_ids(rows.drop_last());
        match rows.last() {
            RowKey::Block(id) => front.push(id),
            RowKey::Header(_) => front,
        }
    }
}

/// The first place of a block.
pub open spec fn place_of(ids: Seq<u64>, id: u64, from: int) -> Option<int>
    decreases ids.len() - from,
{
    if from < 0 || from >= ids.len() {
        None
    } else if ids[from] == id {
        Some(from)
    } else {
        place_of(ids, id, from + 1)
    }
}

/// The place to go to among `len` blocks: one step, not beyond either end, or straight to an
/// end; without a place to start from, Next begins at the first and Previous at the last.
pub open spec fn new_place(direction: NavigationDirection, current: Option<int>, len: int) -> int {
    match direction {
        NavigationDirection::Next => match current {
            Some(i) => if i + 1 < len {
                i + 1
            } else {
                i
            },
            None => 0,
        },
        NavigationDirection::Previous => match current {
            Some(i) => if i > 0 {
                i - 1
            } else {
                i
            },
            None => len - 1,
        },
        NavigationDirection::First => 0,
        NavigationDirection::Last => len - 1,
    }
}

fn navigation_direction(actions: &Vec<Action>) -> (direction: Option<NavigationDirection>)
    ensures
        direction == last_direction(actions@),
{
    let mut direction: Option<NavigationDirection> = None;
    let mut i: usize = 0;
    while i < actions.len()
        invariant
            i <= actions.len(),
            direction == last_direction(actions@.take(i as int)),
        decreases actions.len() - i,
    {
        assert(actions@.take(i + 1).drop_last() =~= actions@.take(i as int));
        match actions[i] {
            Action::FocusNextBlock => {
                direction = Some(NavigationDirection::Next);
            },
            Action::FocusPrevBlock => {
                direction = Some(NavigationDirection::Previous);
            },
            Action::FocusFirstBlock => {
                direction = Some(NavigationDirection::First);
            },
            Action::FocusLastBlock => {
                direction = Some(NavigationDirection::Last);
            },
            _ => {},
        }
        i = i + 1;
    }
    assert(actions@.take(i as int) =~= actions@);
    direction
}

fn blocks_of(rows: &Vec<RowKey>) -> (ids: Vec<u64>)
    ensures
        ids@ == block_ids(rows@),
{
    let mut ids: Vec<u64> = Vec::new();
    let mut i: usize = 0;
    while i < rows.len()
        invariant
            i <= rows.len(),
            ids@ == block_ids(rows@.take(i as int)),
        decreases rows.len() - i,
    {
        assert(rows@.take(i + 1).drop_last() =~= rows@.take(i as int));
        if let RowKey::Block(id) = rows[i] {
            ids.push(id);
        }
        i = i + 1;
    }
    assert(rows@.take(i as int) =~= rows@);
    ids
}

fn find_block(ids: &Vec<u64>, id: u64) -> (place: Option<usize>)
    ensures
        match place {
            Some(i) => i < ids.len() && place_of(ids@, id, 0) == Some(i as int),
            None => place_of(ids@, id, 0) is None,
        },
{
    let mut i: usize = 0;
    while i < ids.len()
        invariant
            i <= ids.len(),
            place_of(ids@, id, 0) == place_of(ids@, id, i as int),
        decreases ids.len() - i,
    {
        if ids[i] == id {
            return Some(i);
        }
        i = i + 1;
    }
    None
}

/// Handle block navigation: the block to focus, and its place among the blocks. Only the last
/// navigation action of a frame counts.
pub fn handle_navigate_blocks(actions: &Vec<Action>, rows: &Vec<RowKey>, focused: Option<u64>) -> (
    target: Option<(u64, usize)>)
    ensures
        ({
            let ids = block_ids(rows@);
            let current = match focused {
                Some(id) => place_of(ids, id, 0),
                None => None,
            };
            match last_direction(actions@) {
                Some(direction) if ids.len() > 0 => {
                    let place = new_place(direction, current, ids.len() as int);
                    &&& 0 <= place < ids.len()
                    &&& target == Some((ids[place], place as usize))
                },
                _ => target is None,
            }
        }),
{
    let direction = match navigation_direction(actions) {
        Some(direction) => direction,
        None => {
            return None;
        },
    };
    let ids = blocks_of(rows);
    if ids.len() == 0 {
        return None;
    }
    let current = match focused {
        Some(id) => find_block(&ids, id),
        None => None,
    };
    let place: usize = match direction {
        NavigationDirection::Next => match current {
            Some(i) => if i + 1 < ids.len() {
                i + 1
            } else {
                i
            },
            None => 0,
        },
        NavigationDirection::Previous => match current {
            Some(i) => if i > 0 {
                i - 1
            } else {
                i
            },
            None => ids.len() - 1,
        },
        NavigationDirection::First => 0,
        NavigationDirection::Last => ids.len() - 1,
    };
    Some((ids[place], place))
}

/// Stepping forward and back again returns, unless the first step was at the end.
pub proof fn law_steps_undo_each_other(i: int, len: int)
    requires
        0 <= i < len,
    ensures
        i + 1 < len ==> new_place(
            NavigationDirection::Previous,
            Some(new_place(NavigationDirection::Next, Some(i), len)),
            len,
        ) == i,
        i > 0 ==> new_place(
            NavigationDirection::Next,
            Some(new_place(NavigationDirection::Previous, Some(i), len)),
            len,
        ) == i,
{
}

/// What to do about the marker of the focused block.
#[derive(Debug)]
pub struct MarkerChange {
    /// Entities that lose the marker.
    pub remove: Vec<u64>,
    /// The entity that gets it.
    pub insert: Option<u64>,
}

/// The entity of a marker.
pub open spec fn marker_entity() -> spec_fn((u64, u64)) -> u64 {
    |m: (u64, u64)| m.0
}

/// The block of a marker is another one.
pub open spec fn on_other_block(focused: u64) -> spec_fn((u64, u64)) -> bool {
    |m: (u64, u64)| m.1 != focused
}

/// The entities among the marked ones whose block is another one.
pub open spec fn wrongly_marked(marked: Seq<(u64, u64)>, focused: u64) -> Seq<u64> {
    marked.filter(on_other_block(focused)).map_values(marker_entity())
}

/// Keep the marker on the focused block: entities of other blocks lose it, and the focused
/// block's entity gets it once it exists. `marked` holds the entity and the block of each
/// marker.
pub fn apply_focused_block_marker(
    focused: Option<u64>,
    marked: &Vec<(u64, u64)>,
    entity: Option<u64>,
) -> (change: MarkerChange)
    ensures
        match focused {
            None => change.remove@.len() == 0 && change.insert is None,
            Some(id) => {
                &&& change.remove@ == wrongly_marked(marked@, id)
                &&& change.insert == (if exists|i: int|
                    0 <= i < marked@.len() && (#[trigger] marked@[i]).1 == id {
                    None
                } else {
                    entity
                })
            },
        },
{
    let id = match focused {
        Some(id) => id,
        None => {
            return MarkerChange { remove: Vec::new(), insert: None };
        },
    };
    let ghost wrong = on_other_block(id);
    let ghost first = marker_entity();
    let mut remove: Vec<u64> = Vec::new();
    let mut already = false;
    let mut i: usize = 0;
    proof {
        reveal(Seq::filter);
        assert(remove@ =~= marked@.take(0).filter(wrong).map_values(first));
    }
    while i < marked.len()
        invariant
            i <= marked.len(),
            wrong == on_other_block(id),
            first == marker_entity(),
            remove@ == marked@.take(i as int).filter(wrong).map_values(first),
            already == exists|k: int| 0 <= k < i && (#[trigger] marked@[k]).1 == id,
        decreases marked.len() - i,
    {
        let ghost before = marked@.take(i as int).filter(wrong);
        proof {
            reveal(Seq::filter);
            assert(marked@.take(i + 1).drop_last() =~= marked@.take(i as int));
            assert(before.push(marked@[i as int]).map_values(first) =~= before.map_values(
                first,
            ).push(marked@[i as int].0));
        }
        let m = marked[i];
        if m.1 == id {
            assert(marked@[i as int].1 == id);
            already = true;
        } else {
            remove.push(m.0);
        }
        i = i + 1;
    }
    assert(marked@.take(i as int) =~= marked@);
    MarkerChange {
        remove,
        insert: if already {
            None
        } else {
            entity
        },
    }
}

/// Whether markers of focused blocks are stale: the conversation has no focus.
pub fn cleanup_stale_focused_markers(area: FocusArea) -> (stale: bool)
    ensures
        stale == (area != FocusArea::Conversation),
{
    area != FocusArea::Conversation
}

// ---------------------------------------------------------------------------
// Blocks
// ---------------------------------------------------------------------------

/// What collapsing has to know of a block.
#[derive(Clone, Copy, Debug, PartialEq, Eq, Structural)]
pub struct BlockState {
    pub id: u64,
    pub thinking: bool,
    pub collapsed: bool,
}

/// The blocks after a toggle: each thinking block collapsed or expanded, the others as they
/// were.
pub open spec fn toggled(blocks: Seq<BlockState>) -> Seq<BlockState> {
    blocks.map_values(
        |b: BlockState|
            if b.thinking {
                BlockState { collapsed: !b.collapsed, ..b }
            } else {
                b
            },
    )
}

/// Handle CollapseToggle: toggle every thinking block.
pub fn handle_collapse_toggle(action: &Action, blocks: &mut Vec<BlockState>)
    ensures
        final(blocks)@ == (if *action == Action::CollapseToggle {
            toggled(old(blocks)@)
        } else {
            old(blocks)@
        }),
{
    if *action != Action::CollapseToggle {
        return ;
    }
    let ghost before = blocks@;
    let mut i: usize = 0;
    while i < blocks.len()
        invariant
            i <= blocks.len(),
            blocks@.len() == before.len(),
            forall|k: int| 0 <= k < i ==> blocks@[k] == toggled(before)[k],
            forall|k: int| i <= k < before.len() ==> blocks@[k] == before[k],
        decreases blocks.len() - i,
    {
        let b = blocks[i];
        if b.thinking {
            blocks.set(i, BlockState { collapsed: !b.collapsed, ..b });
        }
        i = i + 1;
    }
    assert(blocks@ =~= toggled(before));
}

/// Toggling twice changes nothing.
pub proof fn law_collapse_toggle_is_its_own_inverse(blocks: Seq<BlockState>)
    ensures
        toggled(toggled(blocks)) == blocks,
{
    assert(toggled(toggled(blocks)) =~= blocks);
}

/// Handle ToggleBlockExcluded: what the focused block's exclusion should become, where there is
/// such a block and someone to tell.
pub fn handle_toggle_block_excluded(action: &Action, excluded: Option<bool>, online: bool) -> (next:
    Option<bool>)
    ensures
        next == (match excluded {
            Some(now) if *action == Action::ToggleBlockExcluded && online => Some(!now),
            _ => None,
        }),
{
    if *action != Action::ToggleBlockExcluded || !online {
        return None;
    }
    match excluded {
        Some(now) => Some(!now),
        None => None,
    }
}

// ---------------------------------------------------------------------------
// Tiling
// ---------------------------------------------------------------------------

/// Where to look for the next pane.
#[derive(Clone, Copy, Debug, PartialEq, Eq, Structural)]
pub enum FocusDirection {
    Left,
    Down,
    Up,
    Right,
}

/// How a split arranges its panes.
#[derive(Clone, Copy, Debug, PartialEq, Eq, Structural)]
pub enum SplitDirection {
    Row,
    Column,
}

/// An operation on the pane tree.
#[derive(Clone, Copy, Debug, PartialEq, Eq, Structural)]
pub enum TilingOp {
    Focus(FocusDirection),
    Split(SplitDirection),
    Close,
    Grow,
    Shrink,
    TogglePrevious,
}

/// The operation of a tiling action.
pub open spec fn tiling_op(action: Action) -> Option<TilingOp> {
    match action {
        Action::FocusPaneLeft => Some(TilingOp::Focus(FocusDirection::Left)),
        Action::FocusPaneDown => Some(TilingOp::Focus(FocusDirection::Down)),
        Action::FocusPaneUp => Some(TilingOp::Focus(FocusDirection::Up)),
        Action::FocusPaneRight => Some(TilingOp::Focus(FocusDirection::Right)),
        Action::SplitVertical => Some(TilingOp::Split(SplitDirection::Row)),
        Action::SplitHorizontal => Some(TilingOp::Split(SplitDirection::Column)),
        Action::ClosePane => Some(TilingOp::Close),
        Action::GrowPane => Some(TilingOp::Grow),
        Action::ShrinkPane => Some(TilingOp::Shrink),
        Action::TogglePreviousPaneFocus => Some(TilingOp::TogglePrevious),
        _ => None,
    }
}

/// Handle tiling pane actions: the operation on the pane tree.
pub fn handle_tiling(action: &Action) -> (op: Option<TilingOp>)
    ensures
        op == tiling_op(*action),
        *action == Action::FocusPaneLeft <==> op == Some(TilingOp::Focus(FocusDirection::Left)),
        *action == Action::FocusPaneDown <==> op == Some(TilingOp::Focus(FocusDirection::Down)),
        *action == Action::FocusPaneUp <==> op == Some(TilingOp::Focus(FocusDirection::Up)),
        *action == Action::FocusPaneRight <==> op == Some(TilingOp::Focus(FocusDirection::Right)),
        *action == Action::SplitVertical <==> op == Some(TilingOp::Split(SplitDirection::Row)),
        *action == Action::SplitHorizontal <==> op == Some(TilingOp::Split(SplitDirection::Column)),
        *action == Action::ClosePane <==> op == Some(TilingOp::Close),
        *action == Action::GrowPane <==> op == Some(TilingOp::Grow),
        *action == Action::ShrinkPane <==> op == Some(TilingOp::Shrink),
        *action == Action::TogglePreviousPaneFocus <==> op == Some(TilingOp::TogglePrevious),
{
    match *action {
        Action::FocusPaneLeft => Some(TilingOp::Focus(FocusDirection::Left)),
        Action::FocusPaneDown => Some(TilingOp::Focus(FocusDirection::Down)),
        Action::FocusPaneUp => Some(TilingOp::Focus(FocusDirection::Up)),
        Action::FocusPaneRight => Some(TilingOp::Focus(FocusDirection::Right)),
        Action::SplitVertical => Some(TilingOp::Split(SplitDirection::Row)),
        Action::SplitHorizontal => Some(TilingOp::Split(SplitDirection::Column)),
        Action::ClosePane => Some(TilingOp::Close),
        Action::GrowPane => Some(TilingOp::Grow),
        Action::ShrinkPane => Some(TilingOp::Shrink),
        Action::TogglePreviousPaneFocus => Some(TilingOp::TogglePrevious),
        _ => None,
    }
}

/// A full press of the interrupt escalates: the first within its window interrupts softly, the
/// second at once, and the third clears the text too.
pub proof fn law_interrupts_escalate(
    fresh: InterruptState,
    once: InterruptState,
    twice: InterruptState,
    thrice: InterruptState,
    first: Moment,
    second: Moment,
    third: Moment,
)
    requires
        fresh.taps.max == 3,
        fresh.taps.window_ms == 500,
        fresh.taps.last is None,
        fresh.taps.pressed_at(first, &once.taps),
        once.taps.pressed_at(second, &twice.taps),
        twice.taps.pressed_at(third, &thrice.taps),
        second.nanos - first.nanos < 500_000_000,
        third.nanos - second.nanos < 500_000_000,
    ensures
        interrupt_plan(once.taps.count as int) == (InterruptPlan { immediate: false, clear: false }),
        interrupt_plan(twice.taps.count as int) == (InterruptPlan { immediate: true, clear: false }),
        interrupt_plan(thrice.taps.count as int) == (InterruptPlan { immediate: true, clear: true }),
        thrice.taps.count == 3,
{
}

/// Presses that come too slowly stay soft, however many they are.
pub proof fn law_slow_interrupts_stay_soft(
    state: InterruptState,
    pressed: InterruptState,
    now: Moment,
)
    requires
        state.taps.pressed_at(now, &pressed.taps),
        state.taps.last matches Some(last) ==> now.nanos - last.nanos >= state.taps.window_ms
            * 1_000_000,
    ensures
        interrupt_plan(pressed.taps.count as int) == (InterruptPlan {
            immediate: false,
            clear: false,
        }),
{
}

/// Only the last navigation action of a frame counts: later ones win over earlier ones, and what
/// is no navigation counts for nothing.
pub proof fn law_the_last_navigation_counts(earlier: Seq<Action>, later: Seq<Action>, action: Action)
    ensures
        last_direction(earlier + later) == (if last_direction(later) is Some {
            last_direction(later)
        } else {
            last_direction(earlier)
        }),
        last_direction(seq![Action::FocusNextBlock]) == Some(NavigationDirection::Next),
        last_direction(seq![Action::FocusPrevBlock]) == Some(NavigationDirection::Previous),
        last_direction(seq![Action::FocusFirstBlock]) == Some(NavigationDirection::First),
        last_direction(seq![Action::FocusLastBlock]) == Some(NavigationDirection::Last),
        last_direction(Seq::empty()) is None,
        action != Action::FocusNextBlock && action != Action::FocusPrevBlock && action
            != Action::FocusFirstBlock && action != Action::FocusLastBlock ==> last_direction(
            seq![action],
        ) is None,
    decreases later.len(),
{
    reveal_with_fuel(last_direction, 2);
    assert(seq![action].drop_last() =~= Seq::empty());
    if later.len() == 0 {
        assert(earlier + later =~= earlier);
    } else {
        law_the_last_navigation_counts(earlier, later.drop_last(), action);
        assert((earlier + later).drop_last() =~= earlier + later.drop_last());
    }
}

/// The blocks are the rows that are no headers, in their order.
pub proof fn law_blocks_are_the_rows_without_headers(rows: Seq<RowKey>)
    ensures
        block_ids(rows) == rows.filter(|r: RowKey| r is Block).map_values(
            |r: RowKey| r->Block_0,
        ),
    decreases rows.len(),
{
    let is_block = |r: RowKey| r is Block;
    let id = |r: RowKey| r->Block_0;
    reveal(Seq::filter);
    if rows.len() > 0 {
        let front = rows.drop_last();
        law_blocks_are_the_rows_without_headers(front);
        let kept = front.filter(is_block);
        if rows.last() is Block {
            assert(rows.filter(is_block) =~= kept.push(rows.last()));
            assert(kept.push(rows.last()).map_values(id) =~= kept.map_values(id).push(
                rows.last()->Block_0,
            ));
        }
    } else {
        assert(rows.filter(is_block).map_values(id) =~= Seq::empty());
    }
}

/// A block is found at its first place, and is not found exactly if it is not there.
pub proof fn law_a_block_is_found_at_its_first_place(ids: Seq<u64>, id: u64)
    ensures
        match place_of(ids, id, 0) {
            Some(i) => {
                &&& 0 <= i < ids.len()
                &&& ids[i] == id
                &&& forall|k: int| 0 <= k < i ==> ids[k] != id
            },
            None => !ids.contains(id),
        },
{
    lemma_place_of(ids, id, 0);
}

proof fn lemma_place_of(ids: Seq<u64>, id: u64, from: int)
    requires
        0 <= from <= ids.len(),
    ensures
        match place_of(ids, id, from) {
            Some(i) => {
                &&& from <= i < ids.len()
                &&& ids[i] == id
                &&& forall|k: int| from <= k < i ==> ids[k] != id
            },
            None => forall|k: int| from <= k < ids.len() ==> ids[k] != id,
        },
    decreases ids.len() - from,
{
    if from < ids.len() && ids[from] != id {
        lemma_place_of(ids, id, from + 1);
    }
}

/// Next and Previous go one block on or back and stop at the ends; First and Last go to the ends
/// from anywhere; with no block focused, Next begins at the first and Previous at the last.
pub proof fn law_navigation_goes_block_by_block(i: int, from: Option<int>, len: int)
    requires
        0 <= i < len,
    ensures
        new_place(NavigationDirection::Next, Some(i), len) == (if i == len - 1 {
            len - 1
        } else {
            i + 1
        }),
        new_place(NavigationDirection::Previous, Some(i), len) == (if i == 0 {
            0
        } else {
            i - 1
        }),
        new_place(NavigationDirection::First, from, len) == 0,
        new_place(NavigationDirection::Last, from, len) == len - 1,
        new_place(NavigationDirection::Next, None, len) == 0,
        new_place(NavigationDirection::Previous, None, len) == len - 1,
{
}

/// A toggle collapses the thinking blocks that are expanded and expands those that are collapsed,
/// and touches no other block and nothing else of any.
pub proof fn law_only_thinking_blocks_are_toggled(blocks: Seq<BlockState>, i: int)
    requires
        0 <= i < blocks.len(),
    ensures
        toggled(blocks).len() == blocks.len(),
        toggled(blocks)[i].id == blocks[i].id,
        toggled(blocks)[i].thinking == blocks[i].thinking,
        toggled(blocks)[i].collapsed == (blocks[i].collapsed != blocks[i].thinking),
{
}

/// The markers that go are those on any block but the focused one, in their order, and no other.
pub proof fn law_markers_on_other_blocks_go(
    marked: Seq<(u64, u64)>,
    entity: u64,
    block: u64,
    focused: u64,
)
    ensures
        wrongly_marked(marked.push((entity, block)), focused) == (if block == focused {
            wrongly_marked(marked, focused)
        } else {
            wrongly_marked(marked, focused).push(entity)
        }),
        wrongly_marked(Seq::empty(), focused) == Seq::<u64>::empty(),
{
    reveal(Seq::filter);
    let more = marked.push((entity, block));
    let wrong = on_other_block(focused);
    let first = marker_entity();
    assert(more.drop_last() =~= marked);
    let kept = marked.filter(wrong);
    assert(kept.push((entity, block)).map_values(first) =~= kept.map_values(first).push(entity));
    assert(wrongly_marked(Seq::empty(), focused) =~= Seq::<u64>::empty());
}

} // verus!
