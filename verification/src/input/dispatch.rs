//! Input dispatcher: the one place that turns raw input into actions.
//!
//! Per pressed key: the prefix machine first, then a binding match, then the keyboard grab.
//! While a grab is active only Global bindings match, so that they work everywhere without
//! leaking keys into text.

use vstd::prelude::*;
use crate::input::action::{Action, Scalar};
use crate::input::binding::{Binding, InputSource};
use crate::input::context::{ActiveInputContexts, InputContext, KeyboardGrab};
use crate::input::events::ActionFired;
use crate::input::keys::{GamepadButton, HeldKeys, KeyCode, KeyboardInput};
use crate::input::keys;
use crate::input::prefix;
use crate::input::prefix::PrefixState;
use crate::time::Moment;

verus! {

/// The rank of a context where several claim a key: the higher wins. Global yields to all,
/// a dialog to none; a held overlay yields to a dialog alone, and the ledger ribbon outranks
/// the ask sheet.
pub open spec fn rank(ctx: InputContext) -> nat {
    match ctx {
        InputContext::Global => 0,
        InputContext::AskSheet => 2,
        InputContext::LedgerRibbon => 3,
        InputContext::QuickContext => 4,
        InputContext::Dialog => 5,
        _ => 1,
    }
}

/// Context priority for conflict resolution (higher is more specific and wins).
pub fn context_priority(ctx: InputContext) -> (priority: usize)
    ensures
        priority == rank(ctx),
{
    match ctx {
        InputContext::Global => 0,
        InputContext::AskSheet => 2,
        InputContext::LedgerRibbon => 3,
        InputContext::QuickContext => 4,
        InputContext::Dialog => 5,
        _ => 1,
    }
}

/// A context is matchable: under a grab only Global, otherwise any active one.
pub open spec fn matchable(grabbed: bool, contexts: Seq<InputContext>, ctx: InputContext) -> bool {
    if grabbed {
        ctx == InputContext::Global
    } else {
        contexts.contains(ctx)
    }
}

/// A binding answers to a key press.
pub open spec fn answers(
    binding: Binding,
    key: KeyCode,
    held: Set<KeyCode>,
    grabbed: bool,
    contexts: Seq<InputContext>,
) -> bool {
    &&& binding.source == InputSource::Key(key)
    &&& binding.modifiers.are_held(held)
    &&& matchable(grabbed, contexts, binding.context)
}

/// Which of the bindings answers a key press: the first of the highest rank.
pub open spec fn best_match(
    bindings: Seq<Binding>,
    key: KeyCode,
    held: Set<KeyCode>,
    grabbed: bool,
    contexts: Seq<InputContext>,
) -> Option<int>
    decreases bindings.len(),
{
    if bindings.len() == 0 {
        None
    } else {
        let last = bindings.len() - 1;
        let before = best_match(bindings.drop_last(), key, held, grabbed, contexts);
        if answers(bindings[last], key, held, grabbed, contexts) && (before matches Some(i)
            ==> rank(bindings[i].context) < rank(bindings[last].context)) {
            Some(last)
        } else {
            before
        }
    }
}

/// The match answers the key, no answering binding outranks it, and none of its rank comes
/// before it. Without a match no binding answers.
pub proof fn law_best_match_is_the_most_specific(
    bindings: Seq<Binding>,
    key: KeyCode,
    held: Set<KeyCode>,
    grabbed: bool,
    contexts: Seq<InputContext>,
)
    ensures
        match best_match(bindings, key, held, grabbed, contexts) {
            Some(i) => {
                &&& 0 <= i < bindings.len()
                &&& answers(bindings[i], key, held, grabbed, contexts)
                &&& forall|j: int|
                    0 <= j < bindings.len() && #[trigger] answers(
                        bindings[j],
                        key,
                        held,
                        grabbed,
                        contexts,
                    ) ==> rank(bindings[j].context) < rank(bindings[i].context) || rank(
                        bindings[j].context,
                    ) == rank(bindings[i].context) && i <= j
            },
            None => forall|j: int|
                0 <= j < bindings.len() ==> !#[trigger] answers(
                    bindings[j],
                    key,
                    held,
                    grabbed,
                    contexts,
                ),
        },
    decreases bindings.len(),
{
    if bindings.len() > 0 {
        let rest = bindings.drop_last();
        law_best_match_is_the_most_specific(rest, key, held, grabbed, contexts);
        let last = bindings.len() - 1;
        assert forall|j: int| 0 <= j < last implies #[trigger] bindings[j] == rest[j] by {
        }
        match best_match(bindings, key, held, grabbed, contexts) {
            Some(i) => {
                assert forall|j: int|
                    0 <= j < bindings.len() && #[trigger] answers(
                        bindings[j],
                        key,
                        held,
                        grabbed,
                        contexts,
                    ) implies rank(bindings[j].context) < rank(bindings[i].context) || rank(
                    bindings[j].context,
                ) == rank(bindings[i].context) && i <= j by {
                    if j < last {
                        assert(answers(rest[j], key, held, grabbed, contexts));
                    }
                }
            },
            None => {
                assert forall|j: int| 0 <= j < bindings.len() implies !#[trigger] answers(
                    bindings[j],
                    key,
                    held,
                    grabbed,
                    contexts,
                ) by {
                    if j < last {
                        assert(!answers(rest[j], key, held, grabbed, contexts));
                    }
                }
            },
        }
    }
}

/// A dialog outranks everything and Global nothing; a held overlay yields to a dialog alone,
/// and the ribbon outranks the sheet.
pub proof fn law_context_ranks(ctx: InputContext)
    ensures
        ctx != InputContext::Dialog ==> rank(ctx) < rank(InputContext::Dialog),
        ctx != InputContext::Global ==> rank(InputContext::Global) < rank(ctx),
        rank(InputContext::QuickContext) < rank(ctx) ==> ctx == InputContext::Dialog,
        rank(InputContext::AskSheet) < rank(InputContext::LedgerRibbon),
{
}

/// The match of a key press as the action to fire.
pub open spec fn matched_action(bindings: Seq<Binding>, found: Option<int>) -> Option<ActionFired> {
    match found {
        Some(i) => Some(
            ActionFired { action: bindings[i].action, context: bindings[i].context },
        ),
        None => None,
    }
}

/// Find the binding that answers a key press.
pub fn find_direct_match(
    key: KeyCode,
    keys: &HeldKeys,
    bindings: &Vec<Binding>,
    grabbed: bool,
    contexts: &ActiveInputContexts,
) -> (found: Option<ActionFired>)
    ensures
        found == matched_action(
            bindings@,
            best_match(bindings@, key, keys@, grabbed, contexts.contexts@),
        ),
{
    let mut best: Option<usize> = None;
    let mut i: usize = 0;
    assert(bindings@.take(0) =~= Seq::empty());
    while i < bindings.len()
        invariant
            i <= bindings.len(),
            best matches Some(j) ==> j < i,
            match best {
                Some(j) => best_match(
                    bindings@.take(i as int),
                    key,
                    keys@,
                    grabbed,
                    contexts.contexts@,
                ) == Some(j as int),
                None => best_match(
                    bindings@.take(i as int),
                    key,
                    keys@,
                    grabbed,
                    contexts.contexts@,
                ) is None,
            },
        decreases bindings.len() - i,
    {
        let binding = &bindings[i];
        proof {
            assert(bindings@.take(i + 1).drop_last() =~= bindings@.take(i as int));
        }
        let source_matches: bool = match binding.source {
            InputSource::Key(k) => k == key,
            InputSource::GamepadButton(_) => false,
        };
        let context_matches: bool = if grabbed {
            binding.context == InputContext::Global
        } else {
            contexts.contains(binding.context)
        };
        if source_matches && binding.modifiers.matches(keys) && context_matches {
            let better: bool = match best {
                Some(j) => context_priority(bindings[j].context) < context_priority(
                    binding.context,
                ),
                None => true,
            };
            if better {
                best = Some(i);
            }
        }
        i = i + 1;
    }
    assert(bindings@.take(i as int) =~= bindings@);
    match best {
        Some(j) => Some(ActionFired::new(bindings[j].action, bindings[j].context)),
        None => None,
    }
}

/// What becomes of one keyboard event.
#[derive(Clone, Copy, Debug, PartialEq, Eq, Structural)]
pub enum KeyOutcome {
    /// Nothing comes of it.
    Dropped,
    /// An action fires.
    Fire(ActionFired),
    /// A literal prefix key goes to the focused vi surface.
    Literal,
    /// The event goes to the owner of the keyboard grab.
    Grab,
}

/// What becomes of a keyboard event, and whether the prefix is armed after it.
///
/// Releases pass unnoticed. An armed prefix swallows every key: a fresh key that is no
/// modifier resolves and disarms it. Ctrl+A arms it. Any other key goes to the binding that
/// answers it, repeats included, although only a fresh press fires. What no binding answers
/// goes to the grab, if there is one.
pub open spec fn key_outcome(
    event: KeyboardInput,
    held: Set<KeyCode>,
    bindings: Seq<Binding>,
    contexts: Seq<InputContext>,
    grab: KeyboardGrab,
    armed: bool,
) -> (KeyOutcome, bool) {
    let ctrl = keys::ctrl_held(held);
    let shift = keys::shift_held(held);
    let grabbed = grab != KeyboardGrab::NoGrab;
    if !event.pressed {
        (KeyOutcome::Dropped, armed)
    } else if armed {
        if prefix::modifier_key(event.key_code) || event.repeat {
            (KeyOutcome::Dropped, true)
        } else {
            (
                match prefix::chord(event.key_code, ctrl, shift) {
                    Some(Action::SendLiteralPrefix) => KeyOutcome::Literal,
                    Some(action) => KeyOutcome::Fire(
                        ActionFired { action, context: InputContext::Global },
                    ),
                    None => KeyOutcome::Dropped,
                },
                false,
            )
        }
    } else if ctrl && event.key_code == KeyCode::KeyA && !event.repeat {
        (KeyOutcome::Dropped, true)
    } else {
        match matched_action(
            bindings,
            best_match(bindings, event.key_code, held, grabbed, contexts),
        ) {
            Some(fired) => (
                if event.repeat {
                    KeyOutcome::Dropped
                } else {
                    KeyOutcome::Fire(fired)
                },
                false,
            ),
            None => (
                if grabbed {
                    KeyOutcome::Grab
                } else {
                    KeyOutcome::Dropped
                },
                false,
            ),
        }
    }
}

/// Since when the prefix is armed after a key at `now`: a prefix that stays armed keeps its time.
pub open spec fn armed_since(before: Option<Moment>, armed: bool, now: Moment) -> Option<Moment> {
    if !armed {
        None
    } else if before is Some {
        before
    } else {
        Some(now)
    }
}

/// Dispatch one keyboard event at `now`.
pub fn dispatch_key(
    event: &KeyboardInput,
    keys: &HeldKeys,
    bindings: &Vec<Binding>,
    contexts: &ActiveInputContexts,
    grab: KeyboardGrab,
    prefix: &mut PrefixState,
    now: Moment,
) -> (outcome: KeyOutcome)
    ensures
        ({
            let (what, armed) = key_outcome(
                *event,
                keys@,
                bindings@,
                contexts.contexts@,
                grab,
                old(prefix).armed_at is Some,
            );
            outcome == what && final(prefix).armed_at == armed_since(
                old(prefix).armed_at,
                armed,
                now,
            )
        }),
        final(prefix).clock == old(prefix).clock,
{
    if !event.pressed {
        return KeyOutcome::Dropped;
    }
    let key = event.key_code;
    let ctrl: bool = keys.ctrl();
    let shift: bool = keys.shift();
    if prefix.armed() {
        if prefix::is_bare_modifier(key) || event.repeat {
            return KeyOutcome::Dropped;
        }
        prefix.disarm();
        return match prefix::resolve_chord(key, ctrl, shift) {
            Some(Action::SendLiteralPrefix) => KeyOutcome::Literal,
            Some(action) => KeyOutcome::Fire(ActionFired::new(action, InputContext::Global)),
            None => KeyOutcome::Dropped,
        };
    }
    if ctrl && key == KeyCode::KeyA && !event.repeat {
        prefix.arm_at(now);
        return KeyOutcome::Dropped;
    }
    let grabbed: bool = grab != KeyboardGrab::NoGrab;
    match find_direct_match(key, keys, bindings, grabbed, contexts) {
        Some(fired) => if event.repeat {
            KeyOutcome::Dropped
        } else {
            KeyOutcome::Fire(fired)
        },
        None => if grabbed {
            KeyOutcome::Grab
        } else {
            KeyOutcome::Dropped
        },
    }
}

/// While armed, the prefix swallows every pressed key: nothing leaks to bindings or to a grab.
pub proof fn law_armed_prefix_leaks_nothing(
    event: KeyboardInput,
    held: Set<KeyCode>,
    bindings: Seq<Binding>,
    contexts: Seq<InputContext>,
    grab: KeyboardGrab,
)
    requires
        event.pressed,
    ensures
        match key_outcome(event, held, bindings, contexts, grab, true).0 {
            KeyOutcome::Fire(fired) => Some(fired.action) == prefix::chord(
                event.key_code,
                keys::ctrl_held(held),
                keys::shift_held(held),
            ) && fired.context == InputContext::Global,
            KeyOutcome::Grab => false,
            _ => true,
        },
{
}

/// A key repeat never fires an action, and a bound key is consumed even while it repeats.
pub proof fn law_repeats_never_fire(
    event: KeyboardInput,
    held: Set<KeyCode>,
    bindings: Seq<Binding>,
    contexts: Seq<InputContext>,
    grab: KeyboardGrab,
    armed: bool,
)
    requires
        event.repeat,
    ensures
        ({
            let outcome = key_outcome(event, held, bindings, contexts, grab, armed).0;
            &&& !(outcome is Fire)
            &&& !(outcome is Literal)
            &&& best_match(
                bindings,
                event.key_code,
                held,
                grab != KeyboardGrab::NoGrab,
                contexts,
            ) is Some ==> outcome is Dropped
        }),
{
}

/// Under a grab only Global bindings and prefix verbs fire, and a key that a Global binding
/// answers never reaches the grab's owner.
pub proof fn law_grab_leaves_only_global_bindings(
    event: KeyboardInput,
    held: Set<KeyCode>,
    bindings: Seq<Binding>,
    contexts: Seq<InputContext>,
    grab: KeyboardGrab,
    armed: bool,
)
    requires
        grab != KeyboardGrab::NoGrab,
    ensures
        ({
            let outcome = key_outcome(event, held, bindings, contexts, grab, armed).0;
            &&& outcome matches KeyOutcome::Fire(fired) ==> fired.context == InputContext::Global
            &&& best_match(bindings, event.key_code, held, true, contexts) is Some ==> !(outcome is
                Grab)
        }),
{
    law_best_match_is_the_most_specific(bindings, event.key_code, held, true, contexts);
}

/// Without a grab no event is handed to one.
pub proof fn law_no_grab_takes_no_keys(
    event: KeyboardInput,
    held: Set<KeyCode>,
    bindings: Seq<Binding>,
    contexts: Seq<InputContext>,
    armed: bool,
)
    ensures
        !(key_outcome(event, held, bindings, contexts, KeyboardGrab::NoGrab, armed).0 is Grab),
{
}

/// What a gamepad reports in a frame.
#[derive(Debug)]
pub struct GamepadFrame {
    /// The buttons that went down.
    pub just_pressed: Vec<GamepadButton>,
    /// How far the left stick scrolls, where it is deflected beyond its dead zone.
    pub stick_scroll: Option<Scalar>,
    /// Where the left stick flies, where it is deflected beyond its dead zone.
    pub stick_fly: Option<(Scalar, Scalar)>,
}

/// The raw input of a frame.
#[derive(Debug)]
pub struct InputFrame {
    /// How far each wheel event scrolls; negligible ones are left out.
    pub wheel: Vec<Scalar>,
    /// The middle mouse button went down.
    pub middle_clicked: bool,
    /// The keyboard events, in order.
    pub events: Vec<KeyboardInput>,
    /// The keys that are held.
    pub keys: HeldKeys,
    /// The first connected gamepad.
    pub gamepad: Option<GamepadFrame>,
}

/// One message of the dispatcher.
#[derive(Clone, Copy, Debug, PartialEq, Eq, Structural)]
pub enum Dispatched {
    /// An action fires.
    Fire(ActionFired),
    /// A literal prefix key goes to the focused vi surface.
    Literal,
    /// The keyboard event with this number goes to the owner of the keyboard grab.
    Grab(usize),
}

/// An action fires in a context.
pub open spec fn fire(action: Action, context: InputContext) -> Dispatched {
    Dispatched::Fire(ActionFired { action, context })
}

/// -1, 0 or 1 as a scalar.
pub open spec fn unit(n: int) -> Scalar {
    if n == 0 {
        Scalar { bits: 0 }
    } else if n > 0 {
        Scalar { bits: 0x3f80_0000 }
    } else {
        Scalar { bits: 0xbf80_0000 }
    }
}

/// One if it holds, otherwise nothing.
pub open spec fn one_if(b: bool) -> int {
    if b {
        1
    } else {
        0
    }
}

/// The scrolls of the mouse wheel.
pub open spec fn wheel_messages(wheel: Seq<Scalar>) -> Seq<Dispatched> {
    wheel.map_values(|delta: Scalar| fire(Action::ScrollDelta(delta), InputContext::Global))
}

/// A middle click pastes the primary selection, where there is a compose text to land in.
pub open spec fn click_messages(clicked: bool, grab: KeyboardGrab) -> Seq<Dispatched> {
    if clicked && grab == KeyboardGrab::ComposeVim {
        seq![fire(Action::PastePrimary, InputContext::TextInput)]
    } else {
        seq![]
    }
}

/// The message of one keyboard event.
pub open spec fn outcome_messages(outcome: KeyOutcome, index: int) -> Seq<Dispatched> {
    match outcome {
        KeyOutcome::Dropped => seq![],
        KeyOutcome::Fire(fired) => seq![Dispatched::Fire(fired)],
        KeyOutcome::Literal => seq![Dispatched::Literal],
        KeyOutcome::Grab => seq![Dispatched::Grab(index as usize)],
    }
}

/// The messages of the first `n` keyboard events of a frame at `now`, and since when the prefix
/// is armed after them.
pub open spec fn key_messages(
    events: Seq<KeyboardInput>,
    n: nat,
    held: Set<KeyCode>,
    bindings: Seq<Binding>,
    contexts: Seq<InputContext>,
    grab: KeyboardGrab,
    armed: Option<Moment>,
    now: Moment,
) -> (Seq<Dispatched>, Option<Moment>)
    decreases n,
{
    if n == 0 {
        (seq![], armed)
    } else {
        let before = key_messages(
            events,
            (n - 1) as nat,
            held,
            bindings,
            contexts,
            grab,
            armed,
            now,
        );
        let (outcome, after) = key_outcome(
            events[n - 1],
            held,
            bindings,
            contexts,
            grab,
            before.1 is Some,
        );
        (before.0 + outcome_messages(outcome, n - 1), armed_since(before.1, after, now))
    }
}

/// The horizontal fly axis of the held keys.
pub open spec fn fly_x(held: Set<KeyCode>) -> int {
    one_if(held.contains(KeyCode::KeyD) || held.contains(KeyCode::ArrowRight)) - one_if(
        held.contains(KeyCode::KeyA) || held.contains(KeyCode::ArrowLeft),
    )
}

/// The vertical fly axis of the held keys.
pub open spec fn fly_y(held: Set<KeyCode>) -> int {
    one_if(held.contains(KeyCode::KeyW) || held.contains(KeyCode::ArrowUp)) - one_if(
        held.contains(KeyCode::KeyS) || held.contains(KeyCode::ArrowDown),
    )
}

/// The altitude axis of the held keys.
pub open spec fn fly_altitude(held: Set<KeyCode>) -> int {
    one_if(held.contains(KeyCode::PageUp) || held.contains(KeyCode::Equal)) - one_if(
        held.contains(KeyCode::PageDown) || held.contains(KeyCode::Minus),
    )
}

/// Held keys fly continuously, where flying is active and no grab takes the keys.
pub open spec fn fly_messages(
    held: Set<KeyCode>,
    contexts: Seq<InputContext>,
    grab: KeyboardGrab,
) -> Seq<Dispatched> {
    if contexts.contains(InputContext::FsnFly) && grab == KeyboardGrab::NoGrab {
        (if fly_x(held) != 0 || fly_y(held) != 0 {
            seq![
                fire(
                    Action::FlyAxis { x: unit(fly_x(held)), y: unit(fly_y(held)) },
                    InputContext::FsnFly,
                ),
            ]
        } else {
            seq![]
        }) + (if fly_altitude(held) != 0 {
            seq![fire(Action::FlyAltitude(unit(fly_altitude(held))), InputContext::FsnFly)]
        } else {
            seq![]
        })
    } else {
        seq![]
    }
}

/// A binding answers to the buttons that went down.
pub open spec fn pad_answers(
    binding: Binding,
    just_pressed: Seq<GamepadButton>,
    contexts: Seq<InputContext>,
) -> bool {
    &&& binding.source matches InputSource::GamepadButton(button) && just_pressed.contains(button)
    &&& binding.modifiers == crate::input::binding::Modifiers::none()
    &&& contexts.contains(binding.context)
}

/// Every gamepad binding that answers fires, in the order of the table.
pub open spec fn button_messages(
    bindings: Seq<Binding>,
    just_pressed: Seq<GamepadButton>,
    contexts: Seq<InputContext>,
) -> Seq<Dispatched>
    decreases bindings.len(),
{
    if bindings.len() == 0 {
        seq![]
    } else {
        let before = button_messages(bindings.drop_last(), just_pressed, contexts);
        if pad_answers(bindings.last(), just_pressed, contexts) {
            before.push(fire(bindings.last().action, bindings.last().context))
        } else {
            before
        }
    }
}

/// The left stick scrolls the conversation or flies, as the contexts allow.
pub open spec fn stick_messages(pad: GamepadFrame, contexts: Seq<InputContext>) -> Seq<Dispatched> {
    (match pad.stick_scroll {
        Some(delta) => if contexts.contains(InputContext::Navigation) {
            seq![fire(Action::ScrollDelta(delta), InputContext::Navigation)]
        } else {
            seq![]
        },
        None => seq![],
    }) + (match pad.stick_fly {
        Some((x, y)) => if contexts.contains(InputContext::FsnFly) {
            seq![fire(Action::FlyAxis { x, y }, InputContext::FsnFly)]
        } else {
            seq![]
        },
        None => seq![],
    })
}

/// The messages of a gamepad.
pub open spec fn pad_messages(
    gamepad: Option<GamepadFrame>,
    bindings: Seq<Binding>,
    contexts: Seq<InputContext>,
) -> Seq<Dispatched> {
    match gamepad {
        Some(pad) => button_messages(bindings, pad.just_pressed@, contexts) + stick_messages(
            pad,
            contexts,
        ),
        None => seq![],
    }
}

/// All messages of a frame at `now`, and since when the prefix is armed after it.
pub open spec fn frame_messages(
    frame: InputFrame,
    bindings: Seq<Binding>,
    contexts: Seq<InputContext>,
    grab: KeyboardGrab,
    armed: Option<Moment>,
    now: Moment,
) -> (Seq<Dispatched>, Option<Moment>) {
    let keyed = key_messages(
        frame.events@,
        frame.events@.len(),
        frame.keys@,
        bindings,
        contexts,
        grab,
        armed,
        now,
    );
    (
        wheel_messages(frame.wheel@) + click_messages(frame.middle_clicked, grab) + keyed.0
            + fly_messages(frame.keys@, contexts, grab) + pad_messages(
            frame.gamepad,
            bindings,
            contexts,
        ),
        keyed.1,
    )
}

/// -1, 0 or 1 as a scalar.
fn unit_scalar(plus: bool, minus: bool) -> (scalar: Scalar)
    ensures
        scalar == unit(one_if(plus) - one_if(minus)),
{
    if plus == minus {
        Scalar { bits: 0 }
    } else if plus {
        Scalar { bits: 0x3f80_0000 }
    } else {
        Scalar { bits: 0xbf80_0000 }
    }
}

/// Held keys as fly actions, appended to `out`.
fn push_fly(
    out: &mut Vec<Dispatched>,
    keys: &HeldKeys,
    contexts: &ActiveInputContexts,
    grab: KeyboardGrab,
)
    ensures
        final(out)@ == old(out)@ + fly_messages(keys@, contexts.contexts@, grab),
{
    let ghost before = out@;
    if contexts.contains(InputContext::FsnFly) && grab == KeyboardGrab::NoGrab {
        let up: bool = keys.pressed(KeyCode::KeyW) || keys.pressed(KeyCode::ArrowUp);
        let down: bool = keys.pressed(KeyCode::KeyS) || keys.pressed(KeyCode::ArrowDown);
        let left: bool = keys.pressed(KeyCode::KeyA) || keys.pressed(KeyCode::ArrowLeft);
        let right: bool = keys.pressed(KeyCode::KeyD) || keys.pressed(KeyCode::ArrowRight);
        if up != down || left != right {
            out.push(
                Dispatched::Fire(
                    ActionFired::new(
                        Action::FlyAxis { x: unit_scalar(right, left), y: unit_scalar(up, down) },
                        InputContext::FsnFly,
                    ),
                ),
            );
        }
        let rise: bool = keys.pressed(KeyCode::PageUp) || keys.pressed(KeyCode::Equal);
        let sink: bool = keys.pressed(KeyCode::PageDown) || keys.pressed(KeyCode::Minus);
        if rise != sink {
            out.push(
                Dispatched::Fire(
                    ActionFired::new(
                        Action::FlyAltitude(unit_scalar(rise, sink)),
                        InputContext::FsnFly,
                    ),
                ),
            );
        }
    }
    assert(out@ =~= before + fly_messages(keys@, contexts.contexts@, grab));
}

/// Whether a button is among those that went down.
fn went_down(buttons: &Vec<GamepadButton>, button: GamepadButton) -> (down: bool)
    ensures
        down == buttons@.contains(button),
{
    let mut i: usize = 0;
    while i < buttons.len()
        invariant
            i <= buttons.len(),
            forall|j: int| 0 <= j < i ==> buttons@[j] != button,
        decreases buttons.len() - i,
    {
        if buttons[i] == button {
            return true;
        }
        i = i + 1;
    }
    false
}

/// A gamepad's messages, appended to `out`.
fn push_pad(
    out: &mut Vec<Dispatched>,
    pad: &GamepadFrame,
    bindings: &Vec<Binding>,
    contexts: &ActiveInputContexts,
)
    ensures
        final(out)@ == old(out)@ + (button_messages(
            bindings@,
            pad.just_pressed@,
            contexts.contexts@,
        ) + stick_messages(*pad, contexts.contexts@)),
{
    let ghost before = out@;
    let ghost cs = contexts.contexts@;
    let mut i: usize = 0;
    assert(bindings@.take(0) =~= Seq::empty());
    assert(out@ =~= before + button_messages(bindings@.take(0), pad.just_pressed@, cs));
    while i < bindings.len()
        invariant
            i <= bindings.len(),
            cs == contexts.contexts@,
            out@ == before + button_messages(bindings@.take(i as int), pad.just_pressed@, cs),
        decreases bindings.len() - i,
    {
        let binding = &bindings[i];
        proof {
            assert(bindings@.take(i + 1).drop_last() =~= bindings@.take(i as int));
            assert(bindings@.take(i + 1).last() == bindings@[i as int]);
        }
        let pressed: bool = match binding.source {
            InputSource::GamepadButton(button) => went_down(&pad.just_pressed, button),
            InputSource::Key(_) => false,
        };
        if pressed && binding.modifiers == crate::input::binding::Modifiers::none()
            && contexts.contains(binding.context) {
            out.push(Dispatched::Fire(ActionFired::new(binding.action, binding.context)));
        }
        proof {
            assert(out@ =~= before + button_messages(
                bindings@.take(i + 1),
                pad.just_pressed@,
                cs,
            ));
        }
        i = i + 1;
    }
    assert(bindings@.take(i as int) =~= bindings@);
    if let Some(delta) = pad.stick_scroll {
        if contexts.contains(InputContext::Navigation) {
            out.push(
                Dispatched::Fire(
                    ActionFired::new(Action::ScrollDelta(delta), InputContext::Navigation),
                ),
            );
        }
    }
    if let Some((x, y)) = pad.stick_fly {
        if contexts.contains(InputContext::FsnFly) {
            out.push(
                Dispatched::Fire(ActionFired::new(Action::FlyAxis { x, y }, InputContext::FsnFly)),
            );
        }
    }
    assert(out@ =~= before + (button_messages(bindings@, pad.just_pressed@, cs) + stick_messages(
        *pad,
        cs,
    )));
}

/// Dispatch the raw input of a frame at `now`.
///
/// A prefix that outlived its window lapses first.
pub fn dispatch_input(
    frame: &InputFrame,
    bindings: &Vec<Binding>,
    contexts: &ActiveInputContexts,
    grab: KeyboardGrab,
    prefix: &mut PrefixState,
    now: Moment,
) -> (out: Vec<Dispatched>)
    ensures
        (out@, final(prefix).armed_at) == frame_messages(
            *frame,
            bindings@,
            contexts.contexts@,
            grab,
            if old(prefix).lapsed(now) {
                None
            } else {
                old(prefix).armed_at
            },
            now,
        ),
        final(prefix).clock == old(prefix).clock,
{
    prefix.tick_timeout_at(now);
    let ghost armed = prefix.armed_at;
    let ghost cs = contexts.contexts@;
    let mut out: Vec<Dispatched> = Vec::new();
    let mut i: usize = 0;
    while i < frame.wheel.len()
        invariant
            i <= frame.wheel.len(),
            out@ =~= wheel_messages(frame.wheel@.take(i as int)),
        decreases frame.wheel.len() - i,
    {
        out.push(
            Dispatched::Fire(
                ActionFired::new(Action::ScrollDelta(frame.wheel[i]), InputContext::Global),
            ),
        );
        i = i + 1;
    }
    assert(frame.wheel@.take(i as int) =~= frame.wheel@);
    if frame.middle_clicked && grab == KeyboardGrab::ComposeVim {
        out.push(
            Dispatched::Fire(ActionFired::new(Action::PastePrimary, InputContext::TextInput)),
        );
    }
    let ghost before = wheel_messages(frame.wheel@) + click_messages(frame.middle_clicked, grab);
    assert(out@ =~= before);
    let mut k: usize = 0;
    assert(out@ =~= before + Seq::<Dispatched>::empty());
    while k < frame.events.len()
        invariant
            k <= frame.events.len(),
            cs == contexts.contexts@,
            prefix.clock == old(prefix).clock,
            (out@, prefix.armed_at) == (
                before + key_messages(
                    frame.events@,
                    k as nat,
                    frame.keys@,
                    bindings@,
                    cs,
                    grab,
                    armed,
                    now,
                ).0,
                key_messages(
                    frame.events@,
                    k as nat,
                    frame.keys@,
                    bindings@,
                    cs,
                    grab,
                    armed,
                    now,
                ).1,
            ),
        decreases frame.events.len() - k,
    {
        let ghost sofar = out@;
        let outcome = dispatch_key(
            &frame.events[k],
            &frame.keys,
            bindings,
            contexts,
            grab,
            prefix,
            now,
        );
        match outcome {
            KeyOutcome::Dropped => {},
            KeyOutcome::Fire(fired) => {
                out.push(Dispatched::Fire(fired));
            },
            KeyOutcome::Literal => {
                out.push(Dispatched::Literal);
            },
            KeyOutcome::Grab => {
                out.push(Dispatched::Grab(k));
            },
        }
        proof {
            assert(out@ =~= sofar + outcome_messages(outcome, k as int));
            let prior = key_messages(
                frame.events@,
                k as nat,
                frame.keys@,
                bindings@,
                cs,
                grab,
                armed,
                now,
            ).0;
            assert(before + prior + outcome_messages(outcome, k as int) =~= before + (prior
                + outcome_messages(outcome, k as int)));
        }
        k = k + 1;
    }
    push_fly(&mut out, &frame.keys, contexts, grab);
    match &frame.gamepad {
        Some(pad) => push_pad(&mut out, pad, bindings, contexts),
        None => {},
    }
    assert(out@ =~= frame_messages(*frame, bindings@, cs, grab, armed, now).0);
    out
}

/// What the second key of an armed prefix fires, key by key, whatever else is bound to it: the
/// next and the previous seat, a seat by its number, the previous context, closing, renaming,
/// switching, the well, detaching, and the prefix key itself. It fires once and leaves the prefix
/// disarmed.
pub proof fn law_prefix_chords(
    event: KeyboardInput,
    held: Set<KeyCode>,
    bindings: Seq<Binding>,
    contexts: Seq<InputContext>,
    grab: KeyboardGrab,
)
    requires
        event.pressed,
        !event.repeat,
    ensures
        ({
            let key = event.key_code;
            let ctrl = held.contains(KeyCode::ControlLeft) || held.contains(KeyCode::ControlRight);
            let shift = held.contains(KeyCode::ShiftLeft) || held.contains(KeyCode::ShiftRight);
            let (what, armed) = key_outcome(event, held, bindings, contexts, grab, true);
            let fires = |action: Action|
                what == KeyOutcome::Fire(ActionFired { action, context: InputContext::Global })
                    && !armed;
            &&& key == KeyCode::KeyN ==> fires(Action::ActiveSeatStep(1))
            &&& key == KeyCode::KeyP ==> fires(Action::ActiveSeatStep((-1) as i32))
            &&& key == KeyCode::KeyQ ==> fires(Action::CloseAndDemoteContext)
            &&& key == KeyCode::KeyD ==> fires(Action::DetachToConversation)
            &&& key == KeyCode::KeyW ==> fires(Action::GoToWell)
            &&& key == KeyCode::Quote && shift ==> fires(Action::GoToWell)
            &&& key == KeyCode::Quote && !shift ==> fires(Action::PromptContextSwitch)
            &&& key == KeyCode::KeyA && ctrl ==> fires(Action::SwitchToPreviousContext)
            &&& key == KeyCode::KeyA && !ctrl && shift ==> fires(Action::PromptContextRename)
            &&& key == KeyCode::KeyA && !ctrl && !shift ==> what == KeyOutcome::Literal && !armed
            &&& key == KeyCode::Digit0 ==> fires(Action::SwitchToActiveSeat(0))
            &&& key == KeyCode::Digit1 ==> fires(Action::SwitchToActiveSeat(1))
            &&& key == KeyCode::Digit2 ==> fires(Action::SwitchToActiveSeat(2))
            &&& key == KeyCode::Digit3 ==> fires(Action::SwitchToActiveSeat(3))
            &&& key == KeyCode::Digit4 ==> fires(Action::SwitchToActiveSeat(4))
            &&& key == KeyCode::Digit5 ==> fires(Action::SwitchToActiveSeat(5))
            &&& key == KeyCode::Digit6 ==> fires(Action::SwitchToActiveSeat(6))
            &&& key == KeyCode::Digit7 ==> fires(Action::SwitchToActiveSeat(7))
            &&& key == KeyCode::Digit8 ==> fires(Action::SwitchToActiveSeat(8))
            &&& key == KeyCode::Digit9 ==> fires(Action::SwitchToActiveSeat(9))
            &&& key == KeyCode::ControlLeft || key == KeyCode::ControlRight || key
                == KeyCode::ShiftLeft || key == KeyCode::ShiftRight || key == KeyCode::AltLeft
                || key == KeyCode::AltRight || key == KeyCode::SuperLeft || key
                == KeyCode::SuperRight ==> what == KeyOutcome::Dropped && armed
        }),
{
}

/// What a key press needs for a binding to answer it: the binding's own key, exactly the binding's
/// modifiers on either side of the keyboard, and the binding's context active; under a grab, a
/// Global binding.
pub proof fn law_what_answers_a_key(
    binding: Binding,
    key: KeyCode,
    held: Set<KeyCode>,
    grabbed: bool,
    contexts: Seq<InputContext>,
)
    ensures
        answers(binding, key, held, grabbed, contexts) <==> {
            &&& binding.source == InputSource::Key(key)
            &&& binding.modifiers.ctrl == (held.contains(KeyCode::ControlLeft) || held.contains(
                KeyCode::ControlRight,
            ))
            &&& binding.modifiers.shift == (held.contains(KeyCode::ShiftLeft) || held.contains(
                KeyCode::ShiftRight,
            ))
            &&& binding.modifiers.alt == (held.contains(KeyCode::AltLeft) || held.contains(
                KeyCode::AltRight,
            ))
            &&& binding.modifiers.super_key == (held.contains(KeyCode::SuperLeft) || held.contains(
                KeyCode::SuperRight,
            ))
            &&& grabbed ==> binding.context == InputContext::Global
            &&& !grabbed ==> contexts.contains(binding.context)
        },
{
}

/// Contexts of the surfaces rank alike, above Global and below the sheet, the ribbon, a held
/// overlay and a dialog, in this order.
pub proof fn law_surfaces_rank_alike(ctx: InputContext)
    requires
        ctx != InputContext::Global,
        ctx != InputContext::AskSheet,
        ctx != InputContext::LedgerRibbon,
        ctx != InputContext::QuickContext,
        ctx != InputContext::Dialog,
    ensures
        rank(ctx) == rank(InputContext::TextInput),
        rank(InputContext::Global) < rank(ctx),
        rank(ctx) < rank(InputContext::AskSheet),
        rank(InputContext::AskSheet) < rank(InputContext::LedgerRibbon),
        rank(InputContext::LedgerRibbon) < rank(InputContext::QuickContext),
        rank(InputContext::QuickContext) < rank(InputContext::Dialog),
{
}

/// Without an armed prefix: a fresh Ctrl+A arms it and does nothing else; another fresh press fires
/// the action of the binding that answers it, in that binding's context; one that nothing answers
/// goes to the grab, if there is one. A release does nothing in any case.
pub proof fn law_what_an_unarmed_key_does(
    event: KeyboardInput,
    held: Set<KeyCode>,
    bindings: Seq<Binding>,
    contexts: Seq<InputContext>,
    grab: KeyboardGrab,
    armed: bool,
)
    ensures
        !event.pressed ==> key_outcome(event, held, bindings, contexts, grab, armed) == (
            KeyOutcome::Dropped,
            armed,
        ),
        event.pressed ==> ({
            let (what, arms) = key_outcome(event, held, bindings, contexts, grab, false);
            let ctrl = held.contains(KeyCode::ControlLeft) || held.contains(KeyCode::ControlRight);
            let prefix = ctrl && event.key_code == KeyCode::KeyA && !event.repeat;
            let grabbed = grab != KeyboardGrab::NoGrab;
            let found = best_match(bindings, event.key_code, held, grabbed, contexts);
            &&& arms <==> prefix
            &&& prefix ==> what == KeyOutcome::Dropped
            &&& !prefix ==> match found {
                Some(i) => what == (if event.repeat {
                    KeyOutcome::Dropped
                } else {
                    KeyOutcome::Fire(
                        ActionFired { action: bindings[i].action, context: bindings[i].context },
                    )
                }),
                None => what == (if grabbed {
                    KeyOutcome::Grab
                } else {
                    KeyOutcome::Dropped
                }),
            }
        }),
{
}

/// A prefix that stays armed keeps the moment at which it was armed; one that is armed now has
/// this moment, and one that is not armed has none.
pub proof fn law_an_armed_prefix_keeps_its_moment(before: Moment, now: Moment, since: Option<Moment>)
    ensures
        armed_since(Some(before), true, now) == Some(before),
        armed_since(None, true, now) == Some(now),
        armed_since(since, false, now) is None,
{
}

/// Each wheel event scrolls by its own delta, everywhere and in order.
pub proof fn law_each_wheel_event_scrolls(wheel: Seq<Scalar>, i: int)
    requires
        0 <= i < wheel.len(),
    ensures
        wheel_messages(wheel).len() == wheel.len(),
        wheel_messages(wheel)[i] == Dispatched::Fire(
            ActionFired { action: Action::ScrollDelta(wheel[i]), context: InputContext::Global },
        ),
{
}

/// A middle click pastes the primary selection into the compose text, and only while its machine
/// has the keyboard.
pub proof fn law_a_middle_click_pastes(grab: KeyboardGrab)
    ensures
        click_messages(false, grab).len() == 0,
        click_messages(true, grab) == (if grab == KeyboardGrab::ComposeVim {
            seq![
                Dispatched::Fire(
                    ActionFired { action: Action::PastePrimary, context: InputContext::TextInput },
                ),
            ]
        } else {
            Seq::empty()
        }),
{
}

/// The keyboard events of a frame are taken one after another: each adds the one message that it
/// has, if any, behind those before it, and a grabbed one is named by its place.
pub proof fn law_events_are_taken_in_order(
    events: Seq<KeyboardInput>,
    i: int,
    held: Set<KeyCode>,
    bindings: Seq<Binding>,
    contexts: Seq<InputContext>,
    grab: KeyboardGrab,
    armed: Option<Moment>,
    now: Moment,
)
    requires
        0 <= i < events.len(),
        events.len() <= usize::MAX,
    ensures
        key_messages(events, 0, held, bindings, contexts, grab, armed, now) == (
            Seq::<Dispatched>::empty(),
            armed,
        ),
        ({
            let before = key_messages(
                events,
                i as nat,
                held,
                bindings,
                contexts,
                grab,
                armed,
                now,
            );
            let after = key_messages(
                events,
                (i + 1) as nat,
                held,
                bindings,
                contexts,
                grab,
                armed,
                now,
            );
            let (what, stays) = key_outcome(
                events[i],
                held,
                bindings,
                contexts,
                grab,
                before.1 is Some,
            );
            &&& match what {
                KeyOutcome::Dropped => after.0 == before.0,
                KeyOutcome::Fire(fired) => after.0 == before.0.push(Dispatched::Fire(fired)),
                KeyOutcome::Literal => after.0 == before.0.push(Dispatched::Literal),
                KeyOutcome::Grab => after.0 == before.0.push(Dispatched::Grab(i as usize)),
            }
            &&& after.1 is Some <==> stays
        }),
{
    let before = key_messages(events, i as nat, held, bindings, contexts, grab, armed, now);
    let after = key_messages(events, (i + 1) as nat, held, bindings, contexts, grab, armed, now);
    let (what, stays) = key_outcome(events[i], held, bindings, contexts, grab, before.1 is Some);
    match what {
        KeyOutcome::Dropped => {
            assert(after.0 =~= before.0);
        },
        KeyOutcome::Fire(fired) => {
            assert(after.0 =~= before.0.push(Dispatched::Fire(fired)));
        },
        KeyOutcome::Literal => {
            assert(after.0 =~= before.0.push(Dispatched::Literal));
        },
        KeyOutcome::Grab => {
            assert(after.0 =~= before.0.push(Dispatched::Grab(i as usize)));
        },
    }
}

/// Held keys fly while flying is active and nothing has grabbed the keys: D and Right to the
/// right, A and Left to the left, W and Up forward, S and Down back, Page Up and Equal up, Page
/// Down and Minus down. What is held against each other cancels out.
pub proof fn law_held_keys_fly(held: Set<KeyCode>, contexts: Seq<InputContext>, grab: KeyboardGrab)
    ensures
        ({
            let one = Scalar { bits: 0x3f80_0000 };
            let minus_one = Scalar { bits: 0xbf80_0000 };
            let axis = |plus: bool, minus: bool|
                if plus && !minus {
                    one
                } else if minus && !plus {
                    minus_one
                } else {
                    Scalar { bits: 0 }
                };
            let right = held.contains(KeyCode::KeyD) || held.contains(KeyCode::ArrowRight);
            let left = held.contains(KeyCode::KeyA) || held.contains(KeyCode::ArrowLeft);
            let forward = held.contains(KeyCode::KeyW) || held.contains(KeyCode::ArrowUp);
            let back = held.contains(KeyCode::KeyS) || held.contains(KeyCode::ArrowDown);
            let up = held.contains(KeyCode::PageUp) || held.contains(KeyCode::Equal);
            let down = held.contains(KeyCode::PageDown) || held.contains(KeyCode::Minus);
            let flying = contexts.contains(InputContext::FsnFly) && grab == KeyboardGrab::NoGrab;
            let plane = Dispatched::Fire(
                ActionFired {
                    action: Action::FlyAxis { x: axis(right, left), y: axis(forward, back) },
                    context: InputContext::FsnFly,
                },
            );
            let height = Dispatched::Fire(
                ActionFired {
                    action: Action::FlyAltitude(axis(up, down)),
                    context: InputContext::FsnFly,
                },
            );
            let messages = fly_messages(held, contexts, grab);
            &&& !flying ==> messages.len() == 0
            &&& flying && (right != left || forward != back) && up != down ==> messages == seq![
                plane,
                height,
            ]
            &&& flying && (right != left || forward != back) && up == down ==> messages == seq![
                plane,
            ]
            &&& flying && right == left && forward == back && up != down ==> messages == seq![
                height,
            ]
            &&& flying && right == left && forward == back && up == down ==> messages.len() == 0
        }),
{
    let messages = fly_messages(held, contexts, grab);
    assert(messages =~= messages + Seq::empty());
    assert(messages =~= Seq::empty() + messages);
}

/// Every gamepad binding whose button went down fires, if its context is active and it asks for no
/// modifier: once each, in the order of the table.
pub proof fn law_every_pressed_button_fires(
    bindings: Seq<Binding>,
    just_pressed: Seq<GamepadButton>,
    contexts: Seq<InputContext>,
)
    ensures
        button_messages(bindings, just_pressed, contexts) == bindings.filter(
            |b: Binding|
                (b.source matches InputSource::GamepadButton(button) && just_pressed.contains(
                    button,
                )) && !b.modifiers.ctrl && !b.modifiers.shift && !b.modifiers.alt
                    && !b.modifiers.super_key && contexts.contains(b.context),
        ).map_values(
            |b: Binding|
                Dispatched::Fire(ActionFired { action: b.action, context: b.context }),
        ),
    decreases bindings.len(),
{
    let fires = |b: Binding|
        (b.source matches InputSource::GamepadButton(button) && just_pressed.contains(button))
            && !b.modifiers.ctrl && !b.modifiers.shift && !b.modifiers.alt && !b.modifiers.super_key
            && contexts.contains(b.context);
    let message = |b: Binding|
        Dispatched::Fire(ActionFired { action: b.action, context: b.context });
    reveal(Seq::filter);
    if bindings.len() > 0 {
        let front = bindings.drop_last();
        let last = bindings.last();
        law_every_pressed_button_fires(front, just_pressed, contexts);
        let kept = front.filter(fires);
        assert(fires(last) == pad_answers(last, just_pressed, contexts));
        if fires(last) {
            assert(bindings.filter(fires) =~= kept.push(last));
            assert(kept.push(last).map_values(message) =~= kept.map_values(message).push(
                message(last),
            ));
        }
    } else {
        assert(bindings.filter(fires).map_values(message) =~= Seq::empty());
    }
}

/// A deflected stick scrolls while the conversation is navigated and flies while flying is active;
/// at rest it does nothing.
pub proof fn law_the_stick_scrolls_or_flies(pad: GamepadFrame, contexts: Seq<InputContext>)
    ensures
        ({
            let messages = stick_messages(pad, contexts);
            let scrolls = pad.stick_scroll is Some && contexts.contains(InputContext::Navigation);
            let flies = pad.stick_fly is Some && contexts.contains(InputContext::FsnFly);
            let scroll = Dispatched::Fire(
                ActionFired {
                    action: Action::ScrollDelta(pad.stick_scroll->0),
                    context: InputContext::Navigation,
                },
            );
            let (x, y) = pad.stick_fly->0;
            let fly = Dispatched::Fire(
                ActionFired {
                    action: Action::FlyAxis { x, y },
                    context: InputContext::FsnFly,
                },
            );
            &&& scrolls && flies ==> messages == seq![scroll, fly]
            &&& scrolls && !flies ==> messages == seq![scroll]
            &&& !scrolls && flies ==> messages == seq![fly]
            &&& !scrolls && !flies ==> messages.len() == 0
        }),
{
    let messages = stick_messages(pad, contexts);
    assert(messages =~= messages + Seq::empty());
    assert(messages =~= Seq::empty() + messages);
}

/// A frame's messages come in this order and none is lost: the wheel, the middle click, the
/// keyboard events, the keys that fly, the gamepad's buttons and its stick.
pub proof fn law_a_frame_has_all_its_messages(
    frame: InputFrame,
    bindings: Seq<Binding>,
    contexts: Seq<InputContext>,
    grab: KeyboardGrab,
    armed: Option<Moment>,
    now: Moment,
)
    ensures
        ({
            let (messages, still) = frame_messages(frame, bindings, contexts, grab, armed, now);
            let keyed = key_messages(
                frame.events@,
                frame.events@.len(),
                frame.keys@,
                bindings,
                contexts,
                grab,
                armed,
                now,
            );
            let rest = wheel_messages(frame.wheel@) + click_messages(frame.middle_clicked, grab)
                + keyed.0 + fly_messages(frame.keys@, contexts, grab);
            &&& still == keyed.1
            &&& frame.gamepad is None ==> messages == rest
            &&& frame.gamepad matches Some(pad) ==> messages == rest + button_messages(
                bindings,
                pad.just_pressed@,
                contexts,
            ) + stick_messages(pad, contexts)
        }),
{
    let (messages, still) = frame_messages(frame, bindings, contexts, grab, armed, now);
    let keyed = key_messages(
        frame.events@,
        frame.events@.len(),
        frame.keys@,
        bindings,
        contexts,
        grab,
        armed,
        now,
    );
    let rest = wheel_messages(frame.wheel@) + click_messages(frame.middle_clicked, grab) + keyed.0
        + fly_messages(frame.keys@, contexts, grab);
    match frame.gamepad {
        None => {
            assert(messages =~= rest);
        },
        Some(pad) => {
            assert(messages =~= rest + button_messages(bindings, pad.just_pressed@, contexts)
                + stick_messages(pad, contexts));
        },
    }
}

} // verus!
