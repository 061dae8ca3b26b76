//! Lenient reading of binding entries.
//!
//! Names only: an action carries no payload, an unknown modifier is passed over, and an entry
//! that cannot be read is skipped. The verbs and contexts of the room, of its stations, of the
//! prefix and of approvals are not among the names that it knows.

use vstd::prelude::*;
use vstd::string::*;
use crate::input::action::Action;
use crate::input::binding::{Binding, BindingView, InputSource, Modifiers};
use crate::input::bindings_config::{BindingEntry, EntryView};
use crate::input::bindings_config;
use crate::input::context::InputContext;
use crate::input::defaults;
use crate::input::names;
use crate::strutil;

verus! {

/// Modifiers added one after the other; unknown ones count for nothing.
pub open spec fn known_modifiers(m: Modifiers, parts: Seq<Seq<char>>) -> Modifiers
    decreases parts.len(),
{
    if parts.len() == 0 {
        m
    } else {
        let more = match bindings_config::with_modifier(m, strutil::trimmed(parts[0])) {
            Some(more) => more,
            None => m,
        };
        known_modifiers(more, parts.drop_first())
    }
}

/// What a modifiers field means.
pub open spec fn read_modifiers(s: Seq<char>) -> Modifiers {
    known_modifiers(Modifiers::none(), strutil::pieces(s, '+'))
}

/// Read a modifiers field, passing over unknown modifiers.
pub fn parse_modifiers(s: &str) -> (m: Modifiers)
    ensures
        m == read_modifiers(s@),
{
    let parts = strutil::split(s, '+');
    let ghost all = strutil::views(parts@);
    let mut m = Modifiers::none();
    let mut i: usize = 0;
    assert(all.skip(0) =~= all);
    while i < parts.len()
        invariant
            i <= parts.len(),
            all == strutil::views(parts@),
            known_modifiers(Modifiers::none(), all) == known_modifiers(m, all.skip(i as int)),
        decreases parts.len() - i,
    {
        let name = strutil::trim(parts[i].as_str());
        proof {
            assert(all.skip(i as int)[0] == parts@[i as int]@);
            assert(all.skip(i as int).drop_first() =~= all.skip(i + 1));
        }
        if strutil::same(name.as_str(), "CTRL") {
            m = Modifiers { ctrl: true, ..m };
        } else if strutil::same(name.as_str(), "SHIFT") {
            m = Modifiers { shift: true, ..m };
        } else if strutil::same(name.as_str(), "ALT") {
            m = Modifiers { alt: true, ..m };
        } else if strutil::same(name.as_str(), "SUPER") {
            m = Modifiers { super_key: true, ..m };
        }
        i = i + 1;
    }
    m
}

/// An action that is known by its bare name: of those without a payload, or the interrupt, the
/// ones that edit, navigate, arrange panes or run the app.
pub open spec fn nameable(a: Action) -> bool {
    match a {
        Action::ScrollDelta(_) => false,
        Action::SpatialNav(_, _) => false,
        Action::Pan(_, _) => false,
        Action::JumpSeat(_) => false,
        Action::FlyAxis { .. } => false,
        Action::FlyAltitude(_) => false,
        Action::SwitchToActiveSeat(_) => false,
        Action::ActiveSeatStep(_) => false,
        Action::PopLevel => false,
        Action::PastePrimary => false,
        Action::StepNext | Action::StepPrev => false,
        Action::LevelUp | Action::LevelDown => false,
        Action::Promote | Action::Demote | Action::Conclude => false,
        Action::PauseToggle | Action::Archive | Action::Rescan | Action::ToggleLegend => false,
        Action::SwitchToPreviousContext | Action::CloseAndDemoteContext => false,
        Action::GoToWell | Action::DetachToConversation | Action::SendLiteralPrefix => false,
        Action::PromptContextRename | Action::PromptContextSwitch => false,
        Action::InterruptContext { immediate } => !immediate,
        _ => true,
    }
}

/// What an action name means.
pub open spec fn read_action(s: Seq<char>) -> Result<Action, Seq<char>> {
    if exists|a: Action| nameable(a) && #[trigger] names::action_name(a) == s {
        Ok(choose|a: Action| nameable(a) && #[trigger] names::action_name(a) == s)
    } else {
        Err("unknown action '"@ + s + "'"@)
    }
}

fn is_nameable(a: &Action) -> (yes: bool)
    ensures
        yes == nameable(*a),
{
    match *a {
        Action::ScrollDelta(_) => false,
        Action::SpatialNav(_, _) => false,
        Action::Pan(_, _) => false,
        Action::JumpSeat(_) => false,
        Action::FlyAxis { .. } => false,
        Action::FlyAltitude(_) => false,
        Action::SwitchToActiveSeat(_) => false,
        Action::ActiveSeatStep(_) => false,
        Action::PopLevel => false,
        Action::PastePrimary => false,
        Action::StepNext | Action::StepPrev => false,
        Action::LevelUp | Action::LevelDown => false,
        Action::Promote | Action::Demote | Action::Conclude => false,
        Action::PauseToggle | Action::Archive | Action::Rescan | Action::ToggleLegend => false,
        Action::SwitchToPreviousContext | Action::CloseAndDemoteContext => false,
        Action::GoToWell | Action::DetachToConversation | Action::SendLiteralPrefix => false,
        Action::PromptContextRename | Action::PromptContextSwitch => false,
        Action::InterruptContext { immediate } => !immediate,
        _ => true,
    }
}

/// Read an action name.
pub fn parse_action(s: &str) -> (action: Result<Action, String>)
    ensures
        bindings_config::agrees(action, read_action(s@)),
{
    let found = names::action_of(s);
    proof {
        if exists|a: Action| nameable(a) && #[trigger] names::action_name(a) == s@ {
            let chosen = choose|a: Action| nameable(a) && #[trigger] names::action_name(a) == s@;
            assert(names::is_bare(chosen));
            if found is Some {
                names::law_action_names_are_distinct(chosen, found.unwrap());
            }
        }
    }
    match found {
        Some(action) => if is_nameable(&action) {
            Ok(action)
        } else {
            Err(strutil::enclosed("unknown action '", s, "'"))
        },
        None => Err(strutil::enclosed("unknown action '", s, "'")),
    }
}

/// A context that is known by its name.
pub open spec fn known_context(ctx: InputContext) -> bool {
    match ctx {
        InputContext::Global | InputContext::Navigation | InputContext::TextInput => true,
        InputContext::Constellation | InputContext::Dialog => true,
        _ => false,
    }
}

/// What a context name means.
pub open spec fn read_context(s: Seq<char>) -> Result<InputContext, Seq<char>> {
    if exists|ctx: InputContext| known_context(ctx) && #[trigger] names::context_name(ctx) == s {
        Ok(choose|ctx: InputContext| known_context(ctx) && #[trigger] names::context_name(ctx) == s)
    } else {
        Err("unknown context '"@ + s + "'"@)
    }
}

/// Read a context name.
pub fn parse_context(s: &str) -> (ctx: Result<InputContext, String>)
    ensures
        bindings_config::agrees(ctx, read_context(s@)),
{
    let found = names::context_of(s);
    proof {
        if exists|c: InputContext| known_context(c) && #[trigger] names::context_name(c) == s@ {
            let chosen = choose|c: InputContext|
                known_context(c) && #[trigger] names::context_name(c) == s@;
            if found is Some {
                names::law_context_names_are_distinct(chosen, found.unwrap());
            }
        }
    }
    match found {
        Some(ctx) => match ctx {
            InputContext::Global | InputContext::Navigation | InputContext::TextInput => Ok(ctx),
            InputContext::Constellation | InputContext::Dialog => Ok(ctx),
            _ => Err(strutil::enclosed("unknown context '", s, "'")),
        },
        None => Err(strutil::enclosed("unknown context '", s, "'")),
    }
}

/// What an entry means: the first of context, action and key that cannot be read is the error.
pub open spec fn read_entry(e: EntryView) -> Result<BindingView, Seq<char>> {
    match read_context(e.context) {
        Err(m) => Err(m),
        Ok(context) => match read_action(e.action) {
            Err(m) => Err(m),
            Ok(action) => match bindings_config::read_source(e.key, e.gamepad) {
                Err(m) => Err(m),
                Ok(source) => Ok(
                    BindingView {
                        source,
                        modifiers: read_modifiers(e.modifiers),
                        context,
                        action,
                        description: e.label,
                        sequence_prefix: None,
                    },
                ),
            },
        },
    }
}

/// Read an entry.
pub fn binding_from_entry(e: &BindingEntry) -> (binding: Result<Binding, String>)
    ensures
        match binding {
            Ok(b) => read_entry(e@) == Ok::<BindingView, Seq<char>>(b@),
            Err(m) => read_entry(e@) == Err::<BindingView, Seq<char>>(m@),
        },
{
    let context = match parse_context(e.context.as_str()) {
        Ok(context) => context,
        Err(m) => {
            return Err(m);
        },
    };
    let action = match parse_action(e.action.as_str()) {
        Ok(action) => action,
        Err(m) => {
            return Err(m);
        },
    };
    let modifiers = parse_modifiers(e.modifiers.as_str());
    let source = if e.gamepad {
        match bindings_config::parse_gamepad_button(e.key.as_str()) {
            Ok(button) => InputSource::GamepadButton(button),
            Err(m) => {
                return Err(m);
            },
        }
    } else {
        match bindings_config::parse_key_code(e.key.as_str()) {
            Ok(key) => InputSource::Key(key),
            Err(m) => {
                return Err(m);
            },
        }
    };
    Ok(
        Binding {
            source,
            modifiers,
            context,
            action,
            description: e.label.clone(),
            sequence_prefix: None,
        },
    )
}

/// The bindings of the entries that can be read, in order.
pub open spec fn read_entries(entries: Seq<EntryView>) -> Seq<BindingView>
    decreases entries.len(),
{
    if entries.len() == 0 {
        Seq::empty()
    } else {
        let front = read_entries(entries.drop_last());
        match read_entry(entries.last()) {
            Ok(b) => front.push(b),
            Err(_) => front,
        }
    }
}

/// Read a list of entries, skipping those that cannot be read. Without a usable file (`None`)
/// the defaults stand.
pub fn bindings_from_entries(entries: Option<&Vec<BindingEntry>>) -> (bindings: Vec<Binding>)
    ensures
        defaults::binding_views(bindings@) == match entries {
            Some(list) => read_entries(bindings_config::entry_views(list@)),
            None => defaults::default_table(),
        },
{
    let list = match entries {
        Some(list) => list,
        None => {
            return defaults::default_bindings();
        },
    };
    let mut bindings: Vec<Binding> = Vec::new();
    let ghost es = bindings_config::entry_views(list@);
    let mut i: usize = 0;
    assert(defaults::binding_views(bindings@) =~= Seq::empty());
    while i < list.len()
        invariant
            i <= list.len(),
            es == bindings_config::entry_views(list@),
            defaults::binding_views(bindings@) == read_entries(es.take(i as int)),
        decreases list.len() - i,
    {
        let ghost before = defaults::binding_views(bindings@);
        assert(es.take(i + 1).drop_last() =~= es.take(i as int));
        match binding_from_entry(&list[i]) {
            Ok(b) => {
                bindings.push(b);
                assert(defaults::binding_views(bindings@) =~= before.push(b@));
            },
            Err(_) => {},
        }
        i = i + 1;
    }
    assert(es.take(i as int) =~= es);
    bindings
}

/// Where every modifier is known, the lenient reading agrees with the strict one.
pub proof fn law_lenient_agrees_on_known_modifiers(m: Modifiers, parts: Seq<Seq<char>>)
    requires
        bindings_config::add_modifiers(m, parts) is Ok,
    ensures
        bindings_config::add_modifiers(m, parts) == Ok::<Modifiers, Seq<char>>(
            known_modifiers(m, parts),
        ),
    decreases parts.len(),
{
    if parts.len() > 0 {
        let more = bindings_config::with_modifier(m, strutil::trimmed(parts[0])).unwrap();
        law_lenient_agrees_on_known_modifiers(more, parts.drop_first());
    }
}

/// A list is read entry by entry: what can be read counts, in its place, and what cannot is passed
/// over, whatever stands before or behind it.
pub proof fn law_entries_are_read_one_by_one(
    first: Seq<EntryView>,
    rest: Seq<EntryView>,
    entry: EntryView,
)
    ensures
        read_entries(first + rest) == read_entries(first) + read_entries(rest),
        read_entries(seq![entry]) == (match read_entry(entry) {
            Ok(b) => seq![b],
            Err(_) => Seq::empty(),
        }),
    decreases rest.len(),
{
    reveal_with_fuel(read_entries, 2);
    assert(seq![entry].drop_last() =~= Seq::empty());
    if rest.len() == 0 {
        assert(first + rest =~= first);
    } else {
        law_entries_are_read_one_by_one(first, rest.drop_last(), entry);
        assert((first + rest).drop_last() =~= first + rest.drop_last());
    }
}

/// An entry that is read keeps its label, and has the meaning that each of its fields has by
/// itself; unknown modifiers never make one unreadable.
pub proof fn law_an_entry_means_what_its_fields_mean(e: EntryView)
    ensures
        read_entry(e) matches Ok(b) ==> {
            &&& read_context(e.context) == Ok::<InputContext, Seq<char>>(b.context)
            &&& read_action(e.action) == Ok::<Action, Seq<char>>(b.action)
            &&& b.source is GamepadButton <==> e.gamepad
            &&& b.modifiers == read_modifiers(e.modifiers)
            &&& b.description == e.label
            &&& b.sequence_prefix is None
        },
        read_entry(e) is Ok <==> read_context(e.context) is Ok && read_action(e.action) is Ok
            && bindings_config::read_source(e.key, e.gamepad) is Ok,
{
}

} // verus!
