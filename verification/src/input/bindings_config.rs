//! Bindings configuration: what the entries of a bindings file mean.
//!
//! An entry that cannot be read is reported with a message; the others still count. Actions
//! with a payload carry it behind a colon, so that writing and reading an entry loses nothing.
//! Numbers with a fraction are read and written by the float parser of the caller, which hands
//! over what it made of them.

use vstd::prelude::*;
use vstd::string::*;
use crate::input::action::{Action, Scalar};
use crate::input::binding::{Binding, BindingView, InputSource, Modifiers};
use crate::input::context::InputContext;
use crate::input::defaults;
use crate::input::keys::{GamepadButton, KeyCode};
use crate::input::names;
use crate::strutil;

verus! {

/// A single binding entry as it appears in a bindings file.
#[derive(Debug)]
pub struct BindingEntry {
    pub key: String,
    pub modifiers: String,
    pub context: String,
    pub action: String,
    pub gamepad: bool,
    pub label: String,
}

/// An entry as mathematical values.
#[verifier::ext_equal]
pub struct EntryView {
    pub key: Seq<char>,
    pub modifiers: Seq<char>,
    pub context: Seq<char>,
    pub action: Seq<char>,
    pub gamepad: bool,
    pub label: Seq<char>,
}

impl BindingEntry {
    /// The entry as mathematical values.
    pub open spec fn view(&self) -> EntryView {
        EntryView {
            key: self.key@,
            modifiers: self.modifiers@,
            context: self.context@,
            action: self.action@,
            gamepad: self.gamepad,
            label: self.label@,
        }
    }
}

/// What the float parser made of a number: its value, or what is wrong with it.
pub type FloatReading = Result<Scalar, String>;

/// A reading as mathematical values.
pub open spec fn reading_view(reading: FloatReading) -> Result<Scalar, Seq<char>> {
    match reading {
        Ok(value) => Ok(value),
        Err(message) => Err(message@),
    }
}

/// Readings as mathematical values.
pub open spec fn reading_views(readings: Seq<FloatReading>) -> Seq<Result<Scalar, Seq<char>>> {
    readings.map_values(|r: FloatReading| reading_view(r))
}

// ---------------------------------------------------------------------------
// Modifiers
// ---------------------------------------------------------------------------

/// One modifier added to others, if its name is known.
pub open spec fn with_modifier(m: Modifiers, name: Seq<char>) -> Option<Modifiers> {
    if name == "CTRL"@ {
        Some(Modifiers { ctrl: true, ..m })
    } else if name == "SHIFT"@ {
        Some(Modifiers { shift: true, ..m })
    } else if name == "ALT"@ {
        Some(Modifiers { alt: true, ..m })
    } else if name == "SUPER"@ {
        Some(Modifiers { super_key: true, ..m })
    } else {
        None
    }
}

/// The message about an unknown modifier.
pub open spec fn unknown_modifier(name: Seq<char>) -> Seq<char> {
    "unknown modifier '"@ + name + "' (expected CTRL, SHIFT, ALT, or SUPER)"@
}

/// Modifiers added one after the other; the first unknown one is an error.
pub open spec fn add_modifiers(m: Modifiers, parts: Seq<Seq<char>>) -> Result<Modifiers, Seq<char>>
    decreases parts.len(),
{
    if parts.len() == 0 {
        Ok(m)
    } else {
        let name = strutil::trimmed(parts[0]);
        match with_modifier(m, name) {
            Some(more) => add_modifiers(more, parts.drop_first()),
            None => Err(unknown_modifier(name)),
        }
    }
}

/// What a modifiers field means: nothing, or names joined by `+`.
pub open spec fn read_modifiers(s: Seq<char>) -> Result<Modifiers, Seq<char>> {
    if s.len() == 0 {
        Ok(Modifiers::none())
    } else {
        add_modifiers(Modifiers::none(), strutil::pieces(s, '+'))
    }
}

/// Read a modifiers field.
pub fn parse_modifiers(s: &str) -> (modifiers: Result<Modifiers, String>)
    ensures
        match modifiers {
            Ok(m) => read_modifiers(s@) == Ok::<Modifiers, Seq<char>>(m),
            Err(e) => read_modifiers(s@) == Err::<Modifiers, Seq<char>>(e@),
        },
{
    if s.is_empty() {
        return Ok(Modifiers::none());
    }
    let parts = strutil::split(s, '+');
    let ghost all = strutil::views(parts@);
    let mut m = Modifiers::none();
    let mut i: usize = 0;
    assert(all.skip(0) =~= all);
    while i < parts.len()
        invariant
            i <= parts.len(),
            all == strutil::views(parts@),
            all == strutil::pieces(s@, '+'),
            s@.len() > 0,
            add_modifiers(Modifiers::none(), all) == add_modifiers(m, all.skip(i as int)),
        decreases parts.len() - i,
    {
        let name = strutil::trim(parts[i].as_str());
        proof {
            assert(all.skip(i as int)[0] == parts@[i as int]@);
            assert(all.skip(i as int).drop_first() =~= all.skip(i + 1));
        }
        if strutil::same(name.as_str(), "CTRL") {
            m = Modifiers { ctrl: true, ..m };
        } else if strutil::same(name.as_str(), "SHIFT") {
            m = Modifiers { shift: true, ..m };
        } else if strutil::same(name.as_str(), "ALT") {
            m = Modifiers { alt: true, ..m };
        } else if strutil::same(name.as_str(), "SUPER") {
            m = Modifiers { super_key: true, ..m };
        } else {
            return Err(
                strutil::enclosed(
                    "unknown modifier '",
                    name.as_str(),
                    "' (expected CTRL, SHIFT, ALT, or SUPER)",
                ),
            );
        }
        i = i + 1;
    }
    Ok(m)
}

/// A name joined to what stands before it by `+`.
pub open spec fn joined(before: Seq<char>, name: Seq<char>) -> Seq<char> {
    if before.len() == 0 {
        name
    } else {
        before + "+"@ + name
    }
}

/// A name joined on if it is wanted.
pub open spec fn joined_if(before: Seq<char>, wanted: bool, name: Seq<char>) -> Seq<char> {
    if wanted {
        joined(before, name)
    } else {
        before
    }
}

/// The modifiers field of modifiers: their names joined by `+`.
pub open spec fn written_modifiers(m: Modifiers) -> Seq<char> {
    joined_if(
        joined_if(
            joined_if(joined_if(Seq::empty(), m.ctrl, "CTRL"@), m.shift, "SHIFT"@),
            m.alt,
            "ALT"@,
        ),
        m.super_key,
        "SUPER"@,
    )
}

fn join_if(before: String, wanted: bool, name: &str) -> (out: String)
    ensures
        out@ == joined_if(before@, wanted, name@),
{
    if !wanted {
        return before;
    }
    if before.as_str().is_empty() {
        return name.to_owned();
    }
    let mut out = before;
    out.append("+");
    out.append(name);
    out
}

/// Write modifiers.
pub fn modifiers_to_str(m: &Modifiers) -> (s: String)
    ensures
        s@ == written_modifiers(*m),
{
    let s = join_if(String::new(), m.ctrl, "CTRL");
    let s = join_if(s, m.shift, "SHIFT");
    let s = join_if(s, m.alt, "ALT");
    join_if(s, m.super_key, "SUPER")
}

proof fn lemma_last_modifier_counts(
    m: Modifiers,
    parts: Seq<Seq<char>>,
    name: Seq<char>,
    before: Modifiers,
    after: Modifiers,
)
    requires
        add_modifiers(m, parts) == Ok::<Modifiers, Seq<char>>(before),
        with_modifier(before, strutil::trimmed(name)) == Some(after),
    ensures
        add_modifiers(m, parts.push(name)) == Ok::<Modifiers, Seq<char>>(after),
    decreases parts.len(),
{
    reveal_with_fuel(add_modifiers, 2);
    if parts.len() == 0 {
        assert(parts.push(name).drop_first() =~= Seq::empty());
    } else {
        assert(parts.push(name).drop_first() =~= parts.drop_first().push(name));
        let first = with_modifier(m, strutil::trimmed(parts[0]));
        lemma_last_modifier_counts(first.unwrap(), parts.drop_first(), name, before, after);
    }
}

proof fn lemma_joined_modifier_counts(
    text: Seq<char>,
    name: Seq<char>,
    before: Modifiers,
    after: Modifiers,
)
    requires
        read_modifiers(text) == Ok::<Modifiers, Seq<char>>(before),
        with_modifier(before, name) == Some(after),
        name.len() > 0,
        !strutil::white_space(name[0]),
        !strutil::white_space(name.last()),
        forall|i: int| 0 <= i < name.len() ==> name[i] != '+',
    ensures
        read_modifiers(joined(text, name)) == Ok::<Modifiers, Seq<char>>(after),
{
    reveal_strlit("+");
    assert("+"@ =~= seq!['+']);
    assert(strutil::trimmed(name) == name);
    if text.len() == 0 {
        strutil::lemma_find_from_is(name, '+', 0, name.len() as int);
        assert(strutil::pieces(name, '+') =~= Seq::empty().push(name));
        lemma_last_modifier_counts(Modifiers::none(), Seq::empty(), name, before, after);
    } else {
        strutil::law_joining_adds_a_piece(text, '+', name);
        lemma_last_modifier_counts(
            Modifiers::none(),
            strutil::pieces(text, '+'),
            name,
            before,
            after,
        );
    }
}

/// Reading back written modifiers loses nothing.
pub proof fn law_written_modifiers_read_back(m: Modifiers)
    ensures
        read_modifiers(written_modifiers(m)) == Ok::<Modifiers, Seq<char>>(m),
{
    reveal_strlit("CTRL");
    reveal_strlit("SHIFT");
    reveal_strlit("ALT");
    reveal_strlit("SUPER");
    assert("CTRL"@.len() == 4 && "SHIFT"@.len() == 5 && "ALT"@.len() == 3 && "SUPER"@.len() == 5);
    assert("SHIFT"@[1] != "SUPER"@[1]);
    let none = Modifiers::none();
    let m1 = Modifiers { ctrl: m.ctrl, ..none };
    let m2 = Modifiers { shift: m.shift, ..m1 };
    let m3 = Modifiers { alt: m.alt, ..m2 };
    let s1 = joined_if(Seq::empty(), m.ctrl, "CTRL"@);
    let s2 = joined_if(s1, m.shift, "SHIFT"@);
    let s3 = joined_if(s2, m.alt, "ALT"@);
    assert(read_modifiers(Seq::empty()) == Ok::<Modifiers, Seq<char>>(none));
    if m.ctrl {
        lemma_joined_modifier_counts(Seq::empty(), "CTRL"@, none, m1);
    }
    if m.shift {
        lemma_joined_modifier_counts(s1, "SHIFT"@, m1, m2);
    }
    if m.alt {
        lemma_joined_modifier_counts(s2, "ALT"@, m2, m3);
    }
    if m.super_key {
        lemma_joined_modifier_counts(s3, "SUPER"@, m3, m);
    }
}

// ---------------------------------------------------------------------------
// Contexts, keys and buttons
// ---------------------------------------------------------------------------

/// A result against what it should be, its message by its characters.
pub open spec fn agrees<T>(result: Result<T, String>, expected: Result<T, Seq<char>>) -> bool {
    match result {
        Ok(value) => expected == Ok::<T, Seq<char>>(value),
        Err(e) => expected == Err::<T, Seq<char>>(e@),
    }
}

/// The context that a name means.
pub open spec fn read_context(s: Seq<char>) -> Result<InputContext, Seq<char>> {
    if exists|ctx: InputContext| #[trigger] names::context_name(ctx) == s {
        Ok(choose|ctx: InputContext| #[trigger] names::context_name(ctx) == s)
    } else {
        Err("unknown context '"@ + s + "'"@)
    }
}

/// The key that a name means.
pub open spec fn read_key(s: Seq<char>) -> Result<KeyCode, Seq<char>> {
    if exists|key: KeyCode| names::key_listed(key) && #[trigger] names::key_name(key) == s {
        Ok(choose|key: KeyCode| names::key_listed(key) && #[trigger] names::key_name(key) == s)
    } else {
        Err("unknown key code '"@ + s + "'"@)
    }
}

/// The gamepad button that a name means.
pub open spec fn read_button(s: Seq<char>) -> Result<GamepadButton, Seq<char>> {
    if exists|button: GamepadButton|
        names::button_listed(button) && #[trigger] names::button_name(button) == s {
        Ok(
            choose|button: GamepadButton|
                names::button_listed(button) && #[trigger] names::button_name(button) == s,
        )
    } else {
        Err("unknown gamepad button '"@ + s + "'"@)
    }
}

/// The source that a key field means.
pub open spec fn read_source(s: Seq<char>, gamepad: bool) -> Result<InputSource, Seq<char>> {
    if gamepad {
        match read_button(s) {
            Ok(button) => Ok(InputSource::GamepadButton(button)),
            Err(e) => Err(e),
        }
    } else {
        match read_key(s) {
            Ok(key) => Ok(InputSource::Key(key)),
            Err(e) => Err(e),
        }
    }
}

/// Read a context name.
pub fn parse_context(s: &str) -> (ctx: Result<InputContext, String>)
    ensures
        agrees(ctx, read_context(s@)),
{
    match names::context_of(s) {
        Some(ctx) => {
            proof {
                let chosen = choose|c: InputContext| #[trigger] names::context_name(c) == s@;
                names::law_context_names_are_distinct(chosen, ctx);
            }
            Ok(ctx)
        },
        None => Err(strutil::enclosed("unknown context '", s, "'")),
    }
}

/// Read a key name.
pub fn parse_key_code(s: &str) -> (key: Result<KeyCode, String>)
    ensures
        agrees(key, read_key(s@)),
{
    match names::key_code_of(s) {
        Some(key) => {
            proof {
                let chosen = choose|k: KeyCode|
                    names::key_listed(k) && #[trigger] names::key_name(k) == s@;
                names::law_key_names_are_distinct(chosen, key);
            }
            Ok(key)
        },
        None => Err(strutil::enclosed("unknown key code '", s, "'")),
    }
}

/// Read a gamepad button name.
pub fn parse_gamepad_button(s: &str) -> (button: Result<GamepadButton, String>)
    ensures
        agrees(button, read_button(s@)),
{
    match names::button_of(s) {
        Some(button) => {
            proof {
                let chosen = choose|b: GamepadButton|
                    names::button_listed(b) && #[trigger] names::button_name(b) == s@;
                names::law_button_names_are_distinct(chosen, button);
            }
            Ok(button)
        },
        None => Err(strutil::enclosed("unknown gamepad button '", s, "'")),
    }
}

// ---------------------------------------------------------------------------
// Actions
// ---------------------------------------------------------------------------

/// The action takes one number with a fraction as its payload.
pub open spec fn takes_float(name: Seq<char>) -> bool {
    name == "ScrollDelta"@ || name == "FlyAltitude"@
}

/// The action takes two numbers with a fraction as its payload.
pub open spec fn takes_pair(name: Seq<char>) -> bool {
    name == "SpatialNav"@ || name == "Pan"@ || name == "FlyAxis"@
}

/// The action takes a seat number as its payload.
pub open spec fn takes_seat(name: Seq<char>) -> bool {
    name == "JumpSeat"@ || name == "SwitchToActiveSeat"@
}

/// An action with one number.
pub open spec fn float_action(name: Seq<char>, value: Scalar) -> Action {
    if name == "ScrollDelta"@ {
        Action::ScrollDelta(value)
    } else {
        Action::FlyAltitude(value)
    }
}

/// An action with two numbers.
pub open spec fn pair_action(name: Seq<char>, x: Scalar, y: Scalar) -> Action {
    if name == "SpatialNav"@ {
        Action::SpatialNav(x, y)
    } else if name == "Pan"@ {
        Action::Pan(x, y)
    } else {
        Action::FlyAxis { x, y }
    }
}

/// An action with a seat number.
pub open spec fn seat_action(name: Seq<char>, seat: usize) -> Action {
    if name == "JumpSeat"@ {
        Action::JumpSeat(seat)
    } else {
        Action::SwitchToActiveSeat(seat)
    }
}

/// The parts of an action text that the float parser has to read.
pub open spec fn float_texts(s: Seq<char>) -> Seq<Seq<char>> {
    match strutil::split_at_first(s, ':') {
        Some((name, payload)) => if takes_float(name) {
            seq![payload]
        } else if takes_pair(name) {
            match strutil::split_at_first(payload, ',') {
                Some((x, y)) => seq![x, y],
                None => Seq::empty(),
            }
        } else {
            Seq::empty()
        },
        None => Seq::empty(),
    }
}

/// The message about a number that cannot be read.
pub open spec fn bad_float(
    name: Seq<char>,
    part: Seq<char>,
    text: Seq<char>,
    reason: Seq<char>,
) -> Seq<char> {
    name + part + text + "' must be a float: "@ + reason
}

/// What an action with a payload means; `floats` are the readings of its `float_texts`.
pub open spec fn read_payload(
    name: Seq<char>,
    payload: Seq<char>,
    floats: Seq<Result<Scalar, Seq<char>>>,
) -> Result<Action, Seq<char>> {
    if takes_float(name) {
        match floats[0] {
            Ok(value) => Ok(float_action(name, value)),
            Err(e) => Err(bad_float(name, " payload '"@, payload, e)),
        }
    } else if takes_pair(name) {
        match strutil::split_at_first(payload, ',') {
            None => Err(name + " payload '"@ + payload + "' must be 'x,y'"@),
            Some((x, y)) => match floats[0] {
                Err(e) => Err(bad_float(name, " x component '"@, x, e)),
                Ok(first) => match floats[1] {
                    Err(e) => Err(bad_float(name, " y component '"@, y, e)),
                    Ok(second) => Ok(pair_action(name, first, second)),
                },
            },
        }
    } else if name == "InterruptContext"@ {
        if payload == "true"@ {
            Ok(Action::InterruptContext { immediate: true })
        } else if payload == "false"@ {
            Ok(Action::InterruptContext { immediate: false })
        } else {
            Err(
                "InterruptContext payload '"@ + payload
                    + "' must be a bool: provided string was not `true` or `false`"@,
            )
        }
    } else if takes_seat(name) {
        match strutil::unsigned_value(payload) {
            Some(n) => if n <= usize::MAX {
                Ok(seat_action(name, n as usize))
            } else {
                Err(name + " payload '"@ + payload + "' must be a seat number"@)
            },
            None => Err(name + " payload '"@ + payload + "' must be a seat number"@),
        }
    } else if name == "ActiveSeatStep"@ {
        match strutil::signed_value(payload) {
            Some(n) => if i32::MIN <= n <= i32::MAX {
                Ok(Action::ActiveSeatStep(n as i32))
            } else {
                Err(name + " payload '"@ + payload + "' must be an integer"@)
            },
            None => Err(name + " payload '"@ + payload + "' must be an integer"@),
        }
    } else {
        Err("action '"@ + name + "' does not take a payload (got ':"@ + payload + "')"@)
    }
}

/// What an action text means: a bare name, or a name and its payload behind a colon.
pub open spec fn read_action(s: Seq<char>, floats: Seq<Result<Scalar, Seq<char>>>) -> Result<
    Action,
    Seq<char>,
> {
    match strutil::split_at_first(s, ':') {
        Some((name, payload)) => read_payload(name, payload, floats),
        None => if exists|a: Action| names::is_bare(a) && #[trigger] names::action_name(a) == s {
            Ok(choose|a: Action| names::is_bare(a) && #[trigger] names::action_name(a) == s)
        } else {
            Err("unknown action '"@ + s + "'"@)
        },
    }
}

fn is_float_action(name: &str) -> (yes: bool)
    ensures
        yes == takes_float(name@),
{
    strutil::same(name, "ScrollDelta") || strutil::same(name, "FlyAltitude")
}

fn is_pair_action(name: &str) -> (yes: bool)
    ensures
        yes == takes_pair(name@),
{
    strutil::same(name, "SpatialNav") || strutil::same(name, "Pan") || strutil::same(
        name,
        "FlyAxis",
    )
}

/// The parts of an action text that the float parser has to read.
pub fn float_fields(s: &str) -> (fields: Vec<String>)
    ensures
        strutil::views(fields@) == float_texts(s@),
{
    let mut fields: Vec<String> = Vec::new();
    match strutil::split_once(s, ':') {
        Some((name, payload)) => {
            if is_float_action(name.as_str()) {
                fields.push(payload);
            } else if is_pair_action(name.as_str()) {
                match strutil::split_once(payload.as_str(), ',') {
                    Some((x, y)) => {
                        fields.push(x);
                        fields.push(y);
                    },
                    None => {},
                }
            }
        },
        None => {},
    }
    assert(strutil::views(fields@) =~= float_texts(s@));
    fields
}

fn float_error(name: &str, part: &str, text: &str, reason: &str) -> (message: String)
    ensures
        message@ == bad_float(name@, part@, text@, reason@),
{
    let mut message: String = name.to_owned();
    message.append(part);
    message.append(text);
    message.append("' must be a float: ");
    message.append(reason);
    message
}

fn payload_error(name: &str, payload: &str, complaint: &str) -> (message: String)
    ensures
        message@ == name@ + " payload '"@ + payload@ + complaint@,
{
    let mut message: String = name.to_owned();
    message.append(" payload '");
    message.append(payload);
    message.append(complaint);
    message
}

/// Read two numbers; `floats` are the readings of the two parts.
fn parse_vec2(name: &str, payload: &str, floats: &Vec<FloatReading>) -> (pair: Result<
    (Scalar, Scalar),
    String,
>)
    requires
        takes_pair(name@),
        strutil::split_at_first(payload@, ',') is Some ==> floats.len() == 2,
    ensures
        match pair {
            Ok((x, y)) => read_payload(name@, payload@, reading_views(floats@)) == Ok::<
                Action,
                Seq<char>,
            >(pair_action(name@, x, y)),
            Err(e) => read_payload(name@, payload@, reading_views(floats@)) == Err::<
                Action,
                Seq<char>,
            >(e@),
        },
{
    proof {
        lemma_payload_names();
    }
    match strutil::split_once(payload, ',') {
        None => Err(payload_error(name, payload, "' must be 'x,y'")),
        Some((x, y)) => {
            let first = match &floats[0] {
                Ok(value) => *value,
                Err(e) => {
                    return Err(float_error(name, " x component '", x.as_str(), e.as_str()));
                },
            };
            let second = match &floats[1] {
                Ok(value) => *value,
                Err(e) => {
                    return Err(float_error(name, " y component '", y.as_str(), e.as_str()));
                },
            };
            Ok((first, second))
        },
    }
}

/// The names of actions with a payload are different.
proof fn lemma_payload_names()
    ensures
        forall|name: Seq<char>| #[trigger]
            takes_pair(name) ==> !takes_float(name) && !takes_seat(name),
        !takes_float("InterruptContext"@) && !takes_pair("InterruptContext"@),
        !takes_float("JumpSeat"@) && !takes_pair("JumpSeat"@),
        !takes_float("SwitchToActiveSeat"@) && !takes_pair("SwitchToActiveSeat"@),
        !takes_float("ActiveSeatStep"@) && !takes_pair("ActiveSeatStep"@),
        !takes_seat("ActiveSeatStep"@) && !takes_seat("InterruptContext"@),
        "InterruptContext"@ != "JumpSeat"@,
        "InterruptContext"@ != "SwitchToActiveSeat"@,
        "InterruptContext"@ != "ActiveSeatStep"@,
        "ScrollDelta"@ != "FlyAltitude"@,
        "SpatialNav"@ != "Pan"@,
        "SpatialNav"@ != "FlyAxis"@,
        "Pan"@ != "FlyAxis"@,
        "JumpSeat"@ != "SwitchToActiveSeat"@,
{
    reveal_strlit("ScrollDelta");
    reveal_strlit("FlyAltitude");
    reveal_strlit("SpatialNav");
    reveal_strlit("Pan");
    reveal_strlit("FlyAxis");
    reveal_strlit("InterruptContext");
    reveal_strlit("JumpSeat");
    reveal_strlit("SwitchToActiveSeat");
    reveal_strlit("ActiveSeatStep");
    assert("ScrollDelta"@.len() == 11 && "FlyAltitude"@.len() == 11);
    assert("SpatialNav"@.len() == 10 && "Pan"@.len() == 3 && "FlyAxis"@.len() == 7);
    assert("InterruptContext"@.len() == 16 && "ActiveSeatStep"@.len() == 14);
    assert("JumpSeat"@.len() == 8 && "SwitchToActiveSeat"@.len() == 18);
    assert("ScrollDelta"@[0] != "FlyAltitude"@[0]);
}

/// Read an action and its payload; `floats` are the readings of its `float_fields`.
fn parse_action_with_payload(
    name: &str,
    payload: &str,
    floats: &Vec<FloatReading>,
) -> (action: Result<Action, String>)
    requires
        takes_float(name@) ==> floats.len() == 1,
        takes_pair(name@) && strutil::split_at_first(payload@, ',') is Some ==> floats.len() == 2,
    ensures
        agrees(action, read_payload(name@, payload@, reading_views(floats@))),
{
    if is_float_action(name) {
        match &floats[0] {
            Ok(value) => if strutil::same(name, "ScrollDelta") {
                Ok(Action::ScrollDelta(*value))
            } else {
                Ok(Action::FlyAltitude(*value))
            },
            Err(e) => Err(float_error(name, " payload '", payload, e.as_str())),
        }
    } else if is_pair_action(name) {
        match parse_vec2(name, payload, floats) {
            Ok((x, y)) => if strutil::same(name, "SpatialNav") {
                Ok(Action::SpatialNav(x, y))
            } else if strutil::same(name, "Pan") {
                Ok(Action::Pan(x, y))
            } else {
                Ok(Action::FlyAxis { x, y })
            },
            Err(e) => Err(e),
        }
    } else if strutil::same(name, "InterruptContext") {
        if strutil::same(payload, "true") {
            Ok(Action::InterruptContext { immediate: true })
        } else if strutil::same(payload, "false") {
            Ok(Action::InterruptContext { immediate: false })
        } else {
            Err(
                strutil::enclosed(
                    "InterruptContext payload '",
                    payload,
                    "' must be a bool: provided string was not `true` or `false`",
                ),
            )
        }
    } else if strutil::same(name, "JumpSeat") || strutil::same(name, "SwitchToActiveSeat") {
        match strutil::parse_usize(payload) {
            Some(seat) => if strutil::same(name, "JumpSeat") {
                Ok(Action::JumpSeat(seat))
            } else {
                Ok(Action::SwitchToActiveSeat(seat))
            },
            None => Err(payload_error(name, payload, "' must be a seat number")),
        }
    } else if strutil::same(name, "ActiveSeatStep") {
        match strutil::parse_i32(payload) {
            Some(step) => Ok(Action::ActiveSeatStep(step)),
            None => Err(payload_error(name, payload, "' must be an integer")),
        }
    } else {
        let mut message = strutil::enclosed(
            "action '",
            name,
            "' does not take a payload (got ':",
        );
        message.append(payload);
        message.append("')");
        Err(message)
    }
}

/// Read an action; `floats` are the readings of its `float_fields`.
pub fn parse_action(s: &str, floats: &Vec<FloatReading>) -> (action: Result<Action, String>)
    requires
        floats.len() == float_texts(s@).len(),
    ensures
        agrees(action, read_action(s@, reading_views(floats@))),
{
    match strutil::split_once(s, ':') {
        Some((name, payload)) => {
            proof {
                lemma_payload_names();
            }
            parse_action_with_payload(name.as_str(), payload.as_str(), floats)
        },
        None => match names::action_of(s) {
            Some(action) => {
                proof {
                    let chosen = choose|a: Action|
                        names::is_bare(a) && #[trigger] names::action_name(a) == s@;
                    names::law_action_names_are_distinct(chosen, action);
                }
                Ok(action)
            },
            None => Err(strutil::enclosed("unknown action '", s, "'")),
        },
    }
}

/// The numbers with a fraction that an action carries.
pub open spec fn float_values(action: Action) -> Seq<Scalar> {
    match action {
        Action::ScrollDelta(d) => seq![d],
        Action::FlyAltitude(d) => seq![d],
        Action::SpatialNav(x, y) => seq![x, y],
        Action::Pan(x, y) => seq![x, y],
        Action::FlyAxis { x, y } => seq![x, y],
        _ => Seq::empty(),
    }
}

/// The digits of a number, a minus sign before them where it is negative.
pub open spec fn signed_digits(n: int) -> Seq<char> {
    if n < 0 {
        "-"@ + strutil::digits_of((-n) as nat)
    } else {
        strutil::digits_of(n as nat)
    }
}

/// The payload of an action; `shown` is how the float printer shows its `float_values`.
pub open spec fn written_payload(action: Action, shown: Seq<Seq<char>>) -> Option<Seq<char>> {
    match action {
        Action::ScrollDelta(_) => Some(shown[0]),
        Action::FlyAltitude(_) => Some(shown[0]),
        Action::SpatialNav(_, _) => Some(shown[0] + ","@ + shown[1]),
        Action::Pan(_, _) => Some(shown[0] + ","@ + shown[1]),
        Action::FlyAxis { .. } => Some(shown[0] + ","@ + shown[1]),
        Action::JumpSeat(n) => Some(strutil::digits_of(n as nat)),
        Action::SwitchToActiveSeat(n) => Some(strutil::digits_of(n as nat)),
        Action::ActiveSeatStep(n) => Some(signed_digits(n as int)),
        Action::InterruptContext { immediate } => Some(
            if immediate {
                "true"@
            } else {
                "false"@
            },
        ),
        _ => None,
    }
}

/// The text of an action: its name, and its payload behind a colon.
pub open spec fn written_action(action: Action, shown: Seq<Seq<char>>) -> Seq<char> {
    match written_payload(action, shown) {
        Some(payload) => names::action_name(action) + ":"@ + payload,
        None => names::action_name(action),
    }
}

/// The numbers with a fraction that an action carries, for the float printer.
pub fn float_payload(action: &Action) -> (values: Vec<Scalar>)
    ensures
        values@ == float_values(*action),
{
    let mut values: Vec<Scalar> = Vec::new();
    match *action {
        Action::ScrollDelta(d) => {
            values.push(d);
        },
        Action::FlyAltitude(d) => {
            values.push(d);
        },
        Action::SpatialNav(x, y) => {
            values.push(x);
            values.push(y);
        },
        Action::Pan(x, y) => {
            values.push(x);
            values.push(y);
        },
        Action::FlyAxis { x, y } => {
            values.push(x);
            values.push(y);
        },
        _ => {},
    }
    assert(values@ =~= float_values(*action));
    values
}

fn signed_decimal(n: i32) -> (s: String)
    ensures
        s@ == signed_digits(n as int),
{
    if n < 0 {
        let mut s: String = "-".to_owned();
        let magnitude: i64 = -(n as i64);
        let digits = strutil::decimal(magnitude as usize);
        s.append(digits.as_str());
        s
    } else {
        strutil::decimal(n as usize)
    }
}

/// Write an action; `shown` is how the float printer shows its `float_payload`.
pub fn action_to_str(a: &Action, shown: &Vec<String>) -> (s: String)
    requires
        shown.len() == float_values(*a).len(),
    ensures
        s@ == written_action(*a, strutil::views(shown@)),
{
    let name = names::action_to_name(a);
    let payload = match *a {
        Action::ScrollDelta(_) | Action::FlyAltitude(_) => shown[0].clone(),
        Action::SpatialNav(_, _) | Action::Pan(_, _) | Action::FlyAxis { .. } => strutil::enclosed(
            shown[0].as_str(),
            ",",
            shown[1].as_str(),
        ),
        Action::JumpSeat(n) => strutil::decimal(n),
        Action::SwitchToActiveSeat(n) => strutil::decimal(n),
        Action::ActiveSeatStep(n) => signed_decimal(n),
        Action::InterruptContext { immediate } => if immediate {
            "true".to_owned()
        } else {
            "false".to_owned()
        },
        _ => {
            return name.to_owned();
        },
    };
    strutil::enclosed(name, ":", payload.as_str())
}

/// What the float printer shows is what the float parser reads: one reading for each number,
/// which gives the number back, and no comma in the first of two.
pub open spec fn floats_agree(
    action: Action,
    shown: Seq<Seq<char>>,
    floats: Seq<Result<Scalar, Seq<char>>>,
) -> bool {
    let values = float_values(action);
    &&& shown.len() == values.len()
    &&& floats.len() == values.len()
    &&& forall|i: int|
        0 <= i < values.len() ==> #[trigger] floats[i] == Ok::<Scalar, Seq<char>>(values[i])
    &&& values.len() == 2 ==> forall|i: int| 0 <= i < shown[0].len() ==> shown[0][i] != ','
}

/// Reading back a written action loses nothing, and asks the float parser for exactly what the
/// float printer showed. Whatever carries no number is read back without either of them.
pub proof fn law_written_action_reads_back(
    action: Action,
    shown: Seq<Seq<char>>,
    floats: Seq<Result<Scalar, Seq<char>>>,
)
    requires
        floats_agree(action, shown, floats),
    ensures
        float_texts(written_action(action, shown)) == shown,
        read_action(written_action(action, shown), floats) == Ok::<Action, Seq<char>>(action),
{
    let name = names::action_name(action);
    let text = written_action(action, shown);
    names::lemma_action_name_has_no_colon(action);
    strutil::lemma_find_from(name, ':', 0);
    lemma_payload_names();
    reveal_strlit(":");
    reveal_strlit(",");
    assert(":"@ =~= seq![':']);
    assert(","@ =~= seq![',']);
    match written_payload(action, shown) {
        Some(payload) => {
            strutil::law_split_undoes_join(name, ':', payload);
            lemma_payload_reads_back(action, shown, floats);
            assert(float_texts(text) =~= shown);
        },
        None => {
            let chosen = choose|a: Action|
                names::is_bare(a) && #[trigger] names::action_name(a) == text;
            assert(names::is_bare(action));
            names::law_action_names_are_distinct(chosen, action);
            assert(float_texts(text) =~= shown);
        },
    }
}

/// Reading back a written action that carries no number of the float printer loses nothing.
pub proof fn law_written_action_without_floats_reads_back(action: Action)
    requires
        float_values(action).len() == 0,
    ensures
        read_action(written_action(action, Seq::empty()), Seq::empty()) == Ok::<Action, Seq<char>>(
            action,
        ),
{
    law_written_action_reads_back(action, Seq::empty(), Seq::empty());
}

proof fn lemma_payload_reads_back(
    action: Action,
    shown: Seq<Seq<char>>,
    floats: Seq<Result<Scalar, Seq<char>>>,
)
    requires
        floats_agree(action, shown, floats),
        written_payload(action, shown) is Some,
    ensures
        read_payload(
            names::action_name(action),
            written_payload(action, shown).unwrap(),
            floats,
        ) == Ok::<Action, Seq<char>>(action),
        float_values(action).len() == 2 ==> strutil::split_at_first(
            written_payload(action, shown).unwrap(),
            ',',
        ) == Some((shown[0], shown[1])),
{
    lemma_payload_names();
    reveal_strlit(",");
    assert(","@ =~= seq![',']);
    if float_values(action).len() == 2 {
        strutil::law_split_undoes_join(shown[0], ',', shown[1]);
        let values = float_values(action);
        let name = names::action_name(action);
        assert(floats[0] == Ok::<Scalar, Seq<char>>(values[0]));
        assert(floats[1] == Ok::<Scalar, Seq<char>>(values[1]));
        assert(takes_pair(name));
        assert(action == pair_action(name, values[0], values[1]));
    }
    match action {
        Action::ScrollDelta(d) => {
            assert(float_values(action)[0] == d);
            assert(floats[0] == Ok::<Scalar, Seq<char>>(d));
        },
        Action::FlyAltitude(d) => {
            assert(float_values(action)[0] == d);
            assert(floats[0] == Ok::<Scalar, Seq<char>>(d));
        },
        Action::JumpSeat(n) => {
            strutil::law_digits_spell_their_number(n as nat);
            lemma_digits_have_no_sign(n as nat);
        },
        Action::SwitchToActiveSeat(n) => {
            strutil::law_digits_spell_their_number(n as nat);
            lemma_digits_have_no_sign(n as nat);
        },
        Action::ActiveSeatStep(n) => {
            if n < 0 {
                strutil::law_digits_spell_their_number((-n) as nat);
                reveal_strlit("-");
                let s = signed_digits(n as int);
                assert(s.drop_first() =~= strutil::digits_of((-n) as nat));
            } else {
                strutil::law_digits_spell_their_number(n as nat);
                lemma_digits_have_no_sign(n as nat);
            }
        },
        Action::InterruptContext { immediate } => {
            reveal_strlit("true");
            reveal_strlit("false");
            assert("true"@.len() != "false"@.len());
        },
        _ => {},
    }
}

proof fn lemma_digits_have_no_sign(n: nat)
    ensures
        strutil::digits_of(n).len() > 0,
        strutil::digits_of(n)[0] != '-',
        strutil::digits_of(n)[0] != '+',
{
    strutil::law_digits_spell_their_number(n);
    assert(strutil::is_digit(strutil::digits_of(n)[0]));
}

// ---------------------------------------------------------------------------
// Entries
// ---------------------------------------------------------------------------

/// What an entry means; `floats` are the readings of its action's `float_texts`. The first
/// field that cannot be read is the error: context, action, modifiers, key.
pub open spec fn read_entry(e: EntryView, floats: Seq<Result<Scalar, Seq<char>>>) -> Result<
    BindingView,
    Seq<char>,
> {
    match read_context(e.context) {
        Err(m) => Err(m),
        Ok(context) => match read_action(e.action, floats) {
            Err(m) => Err(m),
            Ok(action) => match read_modifiers(e.modifiers) {
                Err(m) => Err(m),
                Ok(modifiers) => match read_source(e.key, e.gamepad) {
                    Err(m) => Err(m),
                    Ok(source) => Ok(
                        BindingView {
                            source,
                            modifiers,
                            context,
                            action,
                            description: e.label,
                            sequence_prefix: None,
                        },
                    ),
                },
            },
        },
    }
}

/// Read an entry; `floats` are the readings of its action's `float_fields`.
pub fn binding_from_entry(e: &BindingEntry, floats: &Vec<FloatReading>) -> (binding: Result<
    Binding,
    String,
>)
    requires
        floats.len() == float_texts(e@.action).len(),
    ensures
        match binding {
            Ok(b) => read_entry(e@, reading_views(floats@)) == Ok::<BindingView, Seq<char>>(b@),
            Err(m) => read_entry(e@, reading_views(floats@)) == Err::<BindingView, Seq<char>>(m@),
        },
{
    let context = match parse_context(e.context.as_str()) {
        Ok(context) => context,
        Err(m) => {
            return Err(m);
        },
    };
    let action = match parse_action(e.action.as_str(), floats) {
        Ok(action) => action,
        Err(m) => {
            return Err(m);
        },
    };
    let modifiers = match parse_modifiers(e.modifiers.as_str()) {
        Ok(modifiers) => modifiers,
        Err(m) => {
            return Err(m);
        },
    };
    let source = if e.gamepad {
        match parse_gamepad_button(e.key.as_str()) {
            Ok(button) => InputSource::GamepadButton(button),
            Err(m) => {
                return Err(m);
            },
        }
    } else {
        match parse_key_code(e.key.as_str()) {
            Ok(key) => InputSource::Key(key),
            Err(m) => {
                return Err(m);
            },
        }
    };
    Ok(
        Binding {
            source,
            modifiers,
            context,
            action,
            description: e.label.clone(),
            sequence_prefix: None,
        },
    )
}

/// The key field of a source.
pub open spec fn source_name(source: InputSource) -> Seq<char> {
    match source {
        InputSource::Key(key) => names::key_name(key),
        InputSource::GamepadButton(button) => names::button_name(button),
    }
}

/// The entry of a binding; `shown` is how the float printer shows its action's `float_values`.
pub open spec fn written_entry(b: BindingView, shown: Seq<Seq<char>>) -> EntryView {
    EntryView {
        key: source_name(b.source),
        modifiers: written_modifiers(b.modifiers),
        context: names::context_name(b.context),
        action: written_action(b.action, shown),
        gamepad: b.source is GamepadButton,
        label: b.description,
    }
}

/// Write a binding; `shown` is how the float printer shows its action's `float_payload`.
pub fn binding_to_entry(b: &Binding, shown: &Vec<String>) -> (e: BindingEntry)
    requires
        shown.len() == float_values(b.action).len(),
    ensures
        e@ == written_entry(b@, strutil::views(shown@)),
{
    let (key, gamepad) = match &b.source {
        InputSource::Key(key) => (names::key_code_to_str(*key), false),
        InputSource::GamepadButton(button) => (names::button_to_str(*button), true),
    };
    BindingEntry {
        key,
        modifiers: modifiers_to_str(&b.modifiers),
        context: names::context_to_str(b.context).to_owned(),
        action: action_to_str(&b.action, shown),
        gamepad,
        label: b.description.clone(),
    }
}

/// A source whose name can be read back.
pub open spec fn source_listed(source: InputSource) -> bool {
    match source {
        InputSource::Key(key) => names::key_listed(key),
        InputSource::GamepadButton(button) => names::button_listed(button),
    }
}

/// Reading back a written binding loses nothing.
pub proof fn law_written_entry_reads_back(
    b: BindingView,
    shown: Seq<Seq<char>>,
    floats: Seq<Result<Scalar, Seq<char>>>,
)
    requires
        source_listed(b.source),
        b.sequence_prefix is None,
        floats_agree(b.action, shown, floats),
    ensures
        float_texts(written_entry(b, shown).action) == shown,
        read_entry(written_entry(b, shown), floats) == Ok::<BindingView, Seq<char>>(b),
{
    law_written_action_reads_back(b.action, shown, floats);
    law_written_modifiers_read_back(b.modifiers);
    let context = names::context_name(b.context);
    names::law_context_names_are_distinct(
        choose|c: InputContext| #[trigger] names::context_name(c) == context,
        b.context,
    );
    let name = source_name(b.source);
    match b.source {
        InputSource::Key(key) => {
            names::law_key_names_are_distinct(
                choose|k: KeyCode| names::key_listed(k) && #[trigger] names::key_name(k) == name,
                key,
            );
        },
        InputSource::GamepadButton(button) => {
            names::law_button_names_are_distinct(
                choose|k: GamepadButton|
                    names::button_listed(k) && #[trigger] names::button_name(k) == name,
                button,
            );
        },
    }
}

/// How `Debug` shows a text: in double quotes, with what needs it escaped.
pub uninterp spec fn debug_text(s: Seq<char>) -> Seq<char>;

/// `Debug` of `str`, as `{:?}` formats it: the result is a function of the text alone.
#[verifier::external_body]
fn debug_str(s: &str) -> (shown: String)
    ensures
        shown@ == debug_text(s@),
{
    format!("{:?}", s)
}

/// The message about an entry that cannot be read: its place, its key and what is wrong.
pub open spec fn entry_error(idx: nat, key: Seq<char>, reason: Seq<char>) -> Seq<char> {
    "binding #"@ + strutil::digits_of(idx) + " ("@ + debug_text(key) + "): "@ + reason
}

/// What a list of entries means: the bindings of those that can be read, and a message for each
/// of the others.
pub open spec fn read_entries(
    entries: Seq<EntryView>,
    floats: Seq<Seq<Result<Scalar, Seq<char>>>>,
) -> (Seq<BindingView>, Seq<Seq<char>>)
    decreases entries.len(),
{
    if entries.len() == 0 {
        (Seq::empty(), Seq::empty())
    } else {
        let (bindings, errors) = read_entries(entries.drop_last(), floats.drop_last());
        let last = entries.last();
        match read_entry(last, floats.last()) {
            Ok(b) => (bindings.push(b), errors),
            Err(m) => (
                bindings,
                errors.push(entry_error((entries.len() - 1) as nat, last.key, m)),
            ),
        }
    }
}

/// Entries as mathematical values.
pub open spec fn entry_views(entries: Seq<BindingEntry>) -> Seq<EntryView> {
    entries.map_values(|e: BindingEntry| e@)
}

/// Readings of several entries as mathematical values.
pub open spec fn reading_lists(floats: Seq<Vec<FloatReading>>) -> Seq<
    Seq<Result<Scalar, Seq<char>>>,
> {
    floats.map_values(|f: Vec<FloatReading>| reading_views(f@))
}

/// Each entry comes with the readings of its action's numbers.
pub open spec fn floats_given(entries: Seq<BindingEntry>, floats: Seq<Vec<FloatReading>>) -> bool {
    &&& floats.len() == entries.len()
    &&& forall|i: int|
        0 <= i < entries.len() ==> (#[trigger] floats[i]).len() == float_texts(
            entries[i]@.action,
        ).len()
}

/// Successful load result. Individual entries that failed to parse appear in `entry_errors` as
/// human-readable messages; good bindings still populate `bindings`.
#[derive(Debug)]
pub struct LoadedBindings {
    pub bindings: Vec<Binding>,
    pub entry_errors: Vec<String>,
}

impl LoadedBindings {
    /// The bindings and messages as mathematical values.
    pub open spec fn view(&self) -> (Seq<BindingView>, Seq<Seq<char>>) {
        (defaults::binding_views(self.bindings@), strutil::views(self.entry_errors@))
    }
}

/// Read a list of entries; `floats` are the readings of each one's `float_fields`.
pub fn bindings_from_entries(
    entries: &Vec<BindingEntry>,
    floats: &Vec<Vec<FloatReading>>,
) -> (loaded: LoadedBindings)
    requires
        floats_given(entries@, floats@),
    ensures
        loaded@ == read_entries(entry_views(entries@), reading_lists(floats@)),
{
    let mut bindings: Vec<Binding> = Vec::new();
    let mut entry_errors: Vec<String> = Vec::new();
    let ghost es = entry_views(entries@);
    let ghost fs = reading_lists(floats@);
    let mut idx: usize = 0;
    assert(defaults::binding_views(bindings@) =~= Seq::empty());
    assert(strutil::views(entry_errors@) =~= Seq::empty());
    while idx < entries.len()
        invariant
            idx <= entries.len(),
            floats_given(entries@, floats@),
            es == entry_views(entries@),
            fs == reading_lists(floats@),
            (defaults::binding_views(bindings@), strutil::views(entry_errors@)) == read_entries(
                es.take(idx as int),
                fs.take(idx as int),
            ),
        decreases entries.len() - idx,
    {
        let entry = &entries[idx];
        let ghost old_bindings = defaults::binding_views(bindings@);
        let ghost old_errors = strutil::views(entry_errors@);
        proof {
            let e1 = es.take(idx + 1);
            let f1 = fs.take(idx + 1);
            assert(e1.drop_last() =~= es.take(idx as int));
            assert(f1.drop_last() =~= fs.take(idx as int));
            assert(e1.last() == entry@);
            assert(f1.last() == reading_views(floats@[idx as int]@));
        }
        match binding_from_entry(entry, &floats[idx]) {
            Ok(b) => {
                bindings.push(b);
                assert(defaults::binding_views(bindings@) =~= old_bindings.push(b@));
            },
            Err(e) => {
                let number = strutil::decimal(idx);
                let shown = debug_str(entry.key.as_str());
                let mut message = strutil::enclosed("binding #", number.as_str(), " (");
                message.append(shown.as_str());
                message.append("): ");
                message.append(e.as_str());
                entry_errors.push(message);
                assert(strutil::views(entry_errors@) =~= old_errors.push(message@));
            },
        }
        idx = idx + 1;
    }
    assert(es.take(idx as int) =~= es);
    assert(fs.take(idx as int) =~= fs);
    LoadedBindings { bindings, entry_errors }
}

/// How the numbers of several bindings are shown, as mathematical values.
pub open spec fn shown_lists(shown: Seq<Vec<String>>) -> Seq<Seq<Seq<char>>> {
    shown.map_values(|list: Vec<String>| strutil::views(list@))
}

/// Write a list of bindings; `shown` is how the float printer shows each one's `float_payload`.
pub fn bindings_to_entries(bindings: &Vec<Binding>, shown: &Vec<Vec<String>>) -> (entries: Vec<
    BindingEntry,
>)
    requires
        shown.len() == bindings.len(),
        forall|i: int|
            0 <= i < bindings.len() ==> (#[trigger] shown@[i]).len() == float_values(
                bindings@[i].action,
            ).len(),
    ensures
        entry_views(entries@) == Seq::new(
            bindings@.len(),
            |i: int| written_entry(bindings@[i]@, shown_lists(shown@)[i]),
        ),
{
    let mut entries: Vec<BindingEntry> = Vec::new();
    let mut i: usize = 0;
    while i < bindings.len()
        invariant
            i <= bindings.len(),
            shown.len() == bindings.len(),
            forall|k: int|
                0 <= k < bindings.len() ==> (#[trigger] shown@[k]).len() == float_values(
                    bindings@[k].action,
                ).len(),
            entries.len() == i,
            forall|k: int|
                0 <= k < i ==> (#[trigger] entries@[k])@ == written_entry(
                    bindings@[k]@,
                    shown_lists(shown@)[k],
                ),
        decreases bindings.len() - i,
    {
        entries.push(binding_to_entry(&bindings[i], &shown[i]));
        i = i + 1;
    }
    assert(entry_views(entries@) =~= Seq::new(
        bindings@.len(),
        |i: int| written_entry(bindings@[i]@, shown_lists(shown@)[i]),
    ));
    entries
}

/// Each entry counts once: as a binding or as a message.
pub proof fn law_every_entry_counts(
    entries: Seq<EntryView>,
    floats: Seq<Seq<Result<Scalar, Seq<char>>>>,
)
    ensures
        read_entries(entries, floats).0.len() + read_entries(entries, floats).1.len()
            == entries.len(),
    decreases entries.len(),
{
    if entries.len() > 0 {
        law_every_entry_counts(entries.drop_last(), floats.drop_last());
    }
}

/// Reading back a written list of bindings gives the list, and no message.
pub proof fn law_written_bindings_read_back(
    bindings: Seq<BindingView>,
    shown: Seq<Seq<Seq<char>>>,
    floats: Seq<Seq<Result<Scalar, Seq<char>>>>,
)
    requires
        shown.len() == bindings.len(),
        floats.len() == bindings.len(),
        forall|i: int|
            0 <= i < bindings.len() ==> {
                let b = #[trigger] bindings[i];
                source_listed(b.source) && b.sequence_prefix is None && floats_agree(
                    b.action,
                    shown[i],
                    floats[i],
                )
            },
    ensures
        read_entries(
            Seq::new(bindings.len(), |i: int| written_entry(bindings[i], shown[i])),
            floats,
        ) == (bindings, Seq::<Seq<char>>::empty()),
    decreases bindings.len(),
{
    let entries = Seq::new(bindings.len(), |i: int| written_entry(bindings[i], shown[i]));
    if bindings.len() > 0 {
        let front = bindings.drop_last();
        law_written_bindings_read_back(front, shown.drop_last(), floats.drop_last());
        assert(entries.drop_last() =~= Seq::new(
            front.len(),
            |i: int| written_entry(front[i], shown.drop_last()[i]),
        ));
        let last = bindings[bindings.len() - 1];
        law_written_entry_reads_back(last, shown.last(), floats.last());
        assert(front.push(last) =~= bindings);
    } else {
        assert(bindings =~= Seq::empty());
    }
}

/// A row that has a listed source, no prefix and no number with a fraction.
pub open spec fn plain_row(row: BindingView) -> bool {
    &&& source_listed(row.source)
    &&& row.sequence_prefix is None
    &&& float_values(row.action).len() == 0
}

proof fn lemma_default_rows_are_plain(i: int)
    requires
        0 <= i < defaults::default_table().len(),
    ensures
        plain_row(defaults::default_table()[i]),
{
}

/// The default table survives being written and read back: every binding is there, and there is
/// no message.
pub proof fn law_default_table_reads_back()
    ensures
        ({
            let table = defaults::default_table();
            let empty = Seq::<Seq<char>>::empty();
            read_entries(
                Seq::new(table.len(), |i: int| written_entry(table[i], empty)),
                Seq::new(table.len(), |i: int| Seq::<Result<Scalar, Seq<char>>>::empty()),
            ) == (table, Seq::<Seq<char>>::empty())
        }),
{
    let table = defaults::default_table();
    let empty = Seq::<Seq<char>>::empty();
    let shown = Seq::new(table.len(), |i: int| empty);
    let floats = Seq::new(table.len(), |i: int| Seq::<Result<Scalar, Seq<char>>>::empty());
    assert forall|i: int| 0 <= i < table.len() implies {
        let b = #[trigger] table[i];
        source_listed(b.source) && b.sequence_prefix is None && floats_agree(
            b.action,
            shown[i],
            floats[i],
        )
    } by {
        lemma_default_rows_are_plain(i);
    }
    law_written_bindings_read_back(table, shown, floats);
    assert(Seq::new(table.len(), |i: int| written_entry(table[i], shown[i])) =~= Seq::new(
        table.len(),
        |i: int| written_entry(table[i], empty),
    ));
}

// ---------------------------------------------------------------------------
// Loading
// ---------------------------------------------------------------------------

/// File-level failure loading the bindings. Per-entry failures are surfaced via
/// [`LoadedBindings::entry_errors`].
#[derive(Debug)]
pub enum BindingsConfigError {
    /// Failed to read the file. A missing file is no error.
    Io { path: String, source: String },
    /// Top-level syntax error.
    Parse { path: String, message: String },
}

impl BindingsConfigError {
    /// The message for the user.
    pub open spec fn text(&self) -> Seq<char> {
        match self {
            BindingsConfigError::Io { path, source } => "failed to read bindings at "@ + path@
                + ": "@ + source@,
            BindingsConfigError::Parse { path, message } => "failed to parse bindings at "@
                + path@ + ": "@ + message@,
        }
    }

    /// The message for the user.
    pub fn message(&self) -> (s: String)
        ensures
            s@ == self.text(),
    {
        match self {
            BindingsConfigError::Io { path, source } => {
                let mut s = strutil::enclosed("failed to read bindings at ", path.as_str(), ": ");
                s.append(source.as_str());
                s
            },
            BindingsConfigError::Parse { path, message } => {
                let mut s = strutil::enclosed("failed to parse bindings at ", path.as_str(), ": ");
                s.append(message.as_str());
                s
            },
        }
    }
}

/// What was found at the place of the bindings file.
#[derive(Debug)]
pub enum BindingsFile {
    /// No file, or no configuration directory.
    Missing,
    /// A file that could not be read, and why.
    Unreadable { source: String },
    /// A file that is not well-formed, and why.
    Malformed { message: String },
    /// The entries of a file, and the readings of each one's `float_fields`.
    Entries { entries: Vec<BindingEntry>, floats: Vec<Vec<FloatReading>> },
}

/// What to load, given what was found: a missing file means the defaults, an unreadable or
/// malformed one is an error, and otherwise the entries count.
pub fn load_bindings_file(path: &str, file: &BindingsFile) -> (loaded: Result<
    LoadedBindings,
    BindingsConfigError,
>)
    requires
        file matches BindingsFile::Entries { entries, floats } ==> floats_given(
            entries@,
            floats@,
        ),
    ensures
        match file {
            BindingsFile::Missing => loaded matches Ok(l) && l@ == (
                defaults::default_table(),
                Seq::<Seq<char>>::empty(),
            ),
            BindingsFile::Unreadable { source } => loaded matches Err(
                BindingsConfigError::Io { path: p, source: s },
            ) && p@ == path@ && s@ == source@,
            BindingsFile::Malformed { message } => loaded matches Err(
                BindingsConfigError::Parse { path: p, message: m },
            ) && p@ == path@ && m@ == message@,
            BindingsFile::Entries { entries, floats } => loaded matches Ok(l) && l@
                == read_entries(entry_views(entries@), reading_lists(floats@)),
        },
{
    match file {
        BindingsFile::Missing => {
            let entry_errors: Vec<String> = Vec::new();
            assert(strutil::views(entry_errors@) =~= Seq::empty());
            Ok(LoadedBindings { bindings: defaults::default_bindings(), entry_errors })
        },
        BindingsFile::Unreadable { source } => Err(
            BindingsConfigError::Io { path: path.to_owned(), source: source.clone() },
        ),
        BindingsFile::Malformed { message } => Err(
            BindingsConfigError::Parse { path: path.to_owned(), message: message.clone() },
        ),
        BindingsFile::Entries { entries, floats } => Ok(bindings_from_entries(entries, floats)),
    }
}

/// Each modifier has its name, an empty field means none, and any other name is an error that
/// quotes it.
pub proof fn law_modifier_names(m: Modifiers, name: Seq<char>)
    ensures
        read_modifiers(Seq::empty()) == Ok::<Modifiers, Seq<char>>(
            Modifiers { ctrl: false, shift: false, alt: false, super_key: false },
        ),
        with_modifier(m, seq!['C', 'T', 'R', 'L']) == Some(Modifiers { ctrl: true, ..m }),
        with_modifier(m, seq!['S', 'H', 'I', 'F', 'T']) == Some(Modifiers { shift: true, ..m }),
        with_modifier(m, seq!['A', 'L', 'T']) == Some(Modifiers { alt: true, ..m }),
        with_modifier(m, seq!['S', 'U', 'P', 'E', 'R']) == Some(Modifiers { super_key: true, ..m }),
        name != seq!['C', 'T', 'R', 'L'] && name != seq!['S', 'H', 'I', 'F', 'T'] && name != seq![
            'A',
            'L',
            'T',
        ] && name != seq!['S', 'U', 'P', 'E', 'R'] ==> with_modifier(m, name) is None,
{
    reveal_strlit("CTRL");
    reveal_strlit("SHIFT");
    reveal_strlit("ALT");
    reveal_strlit("SUPER");
    assert("CTRL"@ =~= seq!['C', 'T', 'R', 'L']);
    assert("SHIFT"@ =~= seq!['S', 'H', 'I', 'F', 'T']);
    assert("ALT"@ =~= seq!['A', 'L', 'T']);
    assert("SUPER"@ =~= seq!['S', 'U', 'P', 'E', 'R']);
    assert("SHIFT"@[1] != "SUPER"@[1]);
}

/// A modifier more counts on top of those before it, and one that is unknown makes the whole field
/// unreadable, wherever it stands.
pub proof fn law_modifiers_add_up(m: Modifiers, first: Seq<Seq<char>>, rest: Seq<Seq<char>>)
    ensures
        add_modifiers(m, first + rest) == (match add_modifiers(m, first) {
            Ok(some) => add_modifiers(some, rest),
            Err(e) => Err(e),
        }),
    decreases first.len(),
{
    if first.len() == 0 {
        assert(first + rest =~= rest);
    } else {
        assert((first + rest).drop_first() =~= first.drop_first() + rest);
        match with_modifier(m, strutil::trimmed(first[0])) {
            Some(more) => {
                law_modifiers_add_up(more, first.drop_first(), rest);
            },
            None => {},
        }
    }
}

/// A list is read entry by entry: what stands behind an entry changes neither the bindings nor the
/// messages before it, and an entry that can be read adds its binding behind them, in its place.
pub proof fn law_entries_are_read_in_order(
    first: Seq<EntryView>,
    rest: Seq<EntryView>,
    floats: Seq<Seq<Result<Scalar, Seq<char>>>>,
    more: Seq<Seq<Result<Scalar, Seq<char>>>>,
)
    requires
        floats.len() == first.len(),
        more.len() == rest.len(),
    ensures
        ({
            let one = read_entries(first, floats);
            let all = read_entries(first + rest, floats + more);
            &&& all.0 == one.0 + read_entries(rest, more).0
            &&& one.1.is_prefix_of(all.1)
            &&& all.1.len() == one.1.len() + read_entries(rest, more).1.len()
        }),
    decreases rest.len(),
{
    let one = read_entries(first, floats);
    if rest.len() == 0 {
        assert(first + rest =~= first);
        assert(floats + more =~= floats);
        assert(one.0 + Seq::<BindingView>::empty() =~= one.0);
    } else {
        law_entries_are_read_in_order(first, rest.drop_last(), floats, more.drop_last());
        assert((first + rest).drop_last() =~= first + rest.drop_last());
        assert((floats + more).drop_last() =~= floats + more.drop_last());
        assert((first + rest).last() == rest.last());
        assert((floats + more).last() == more.last());
        let front = read_entries(rest.drop_last(), more.drop_last());
        match read_entry(rest.last(), more.last()) {
            Ok(b) => {
                assert((one.0 + front.0).push(b) =~= one.0 + front.0.push(b));
            },
            Err(_) => {},
        }
    }
}

/// One entry that can be read is its binding, without a message; one that cannot is a message.
pub proof fn law_one_entry(entry: EntryView, floats: Seq<Result<Scalar, Seq<char>>>)
    ensures
        ({
            let (bindings, errors) = read_entries(seq![entry], seq![floats]);
            match read_entry(entry, floats) {
                Ok(b) => bindings == seq![b] && errors.len() == 0,
                Err(m) => bindings.len() == 0 && errors == seq![entry_error(0, entry.key, m)],
            }
        }),
{
    reveal_with_fuel(read_entries, 2);
    assert(seq![entry].drop_last() =~= Seq::empty());
    assert(seq![floats].drop_last() =~= Seq::empty());
}

/// An entry has the meaning that each of its fields has by itself and keeps its label; it can be
/// read exactly if all of them can.
pub proof fn law_an_entry_means_what_its_fields_mean(
    e: EntryView,
    floats: Seq<Result<Scalar, Seq<char>>>,
)
    ensures
        read_entry(e, floats) matches Ok(b) ==> {
            &&& read_context(e.context) == Ok::<InputContext, Seq<char>>(b.context)
            &&& read_action(e.action, floats) == Ok::<Action, Seq<char>>(b.action)
            &&& read_modifiers(e.modifiers) == Ok::<Modifiers, Seq<char>>(b.modifiers)
            &&& read_source(e.key, e.gamepad) == Ok::<InputSource, Seq<char>>(b.source)
            &&& b.description == e.label
            &&& b.sequence_prefix is None
        },
        read_entry(e, floats) is Ok <==> read_context(e.context) is Ok && read_action(
            e.action,
            floats,
        ) is Ok && read_modifiers(e.modifiers) is Ok && read_source(e.key, e.gamepad) is Ok,
{
}

/// A seat is named by its number, a step by a number that may be negative, and an interrupt by
/// whether it is immediate; what is no such payload is no action.
pub proof fn law_payloads_are_checked(
    n: usize,
    step: i32,
    payload: Seq<char>,
    floats: Seq<Result<Scalar, Seq<char>>>,
)
    ensures
        read_payload("JumpSeat"@, strutil::digits_of(n as nat), floats) == Ok::<Action, Seq<char>>(
            Action::JumpSeat(n),
        ),
        read_payload("SwitchToActiveSeat"@, strutil::digits_of(n as nat), floats) == Ok::<
            Action,
            Seq<char>,
        >(Action::SwitchToActiveSeat(n)),
        read_payload("JumpSeat"@, seq!['-'] + payload, floats) is Err,
        step >= 0 ==> read_payload("ActiveSeatStep"@, strutil::digits_of(step as nat), floats)
            == Ok::<Action, Seq<char>>(Action::ActiveSeatStep(step)),
        step < 0 ==> read_payload(
            "ActiveSeatStep"@,
            seq!['-'] + strutil::digits_of((-step) as nat),
            floats,
        ) == Ok::<Action, Seq<char>>(Action::ActiveSeatStep(step)),
        read_payload("InterruptContext"@, "true"@, floats) == Ok::<Action, Seq<char>>(
            Action::InterruptContext { immediate: true },
        ),
        read_payload("InterruptContext"@, "false"@, floats) == Ok::<Action, Seq<char>>(
            Action::InterruptContext { immediate: false },
        ),
        payload != "true"@ && payload != "false"@ ==> read_payload(
            "InterruptContext"@,
            payload,
            floats,
        ) is Err,
        read_payload("Submit"@, payload, floats) is Err,
{
    lemma_payload_names();
    strutil::law_spelled_numbers_read_back(n as nat);
    if step >= 0 {
        strutil::law_spelled_numbers_read_back(step as nat);
    } else {
        strutil::law_spelled_numbers_read_back((-step) as nat);
    }
    reveal_strlit("true");
    reveal_strlit("false");
    assert("true"@.len() != "false"@.len());
    reveal_strlit("Submit");
    reveal_strlit("ScrollDelta");
    reveal_strlit("FlyAltitude");
    reveal_strlit("SpatialNav");
    reveal_strlit("Pan");
    reveal_strlit("FlyAxis");
    reveal_strlit("JumpSeat");
    reveal_strlit("SwitchToActiveSeat");
    reveal_strlit("ActiveSeatStep");
    reveal_strlit("InterruptContext");
    assert("Submit"@.len() == 6);
    assert((seq!['-'] + payload)[0] == '-');
}

/// A key that a bindings file can name is read by its name.
proof fn lemma_key_reads(key: KeyCode)
    requires
        names::key_listed(key),
    ensures
        read_key(names::key_name(key)) == Ok::<KeyCode, Seq<char>>(key),
{
    let s = names::key_name(key);
    names::law_key_names_are_distinct(
        choose|k: KeyCode| names::key_listed(k) && #[trigger] names::key_name(k) == s,
        key,
    );
}

/// A button that a bindings file can name is read by its name.
proof fn lemma_button_reads(button: GamepadButton)
    requires
        names::button_listed(button),
    ensures
        read_button(names::button_name(button)) == Ok::<GamepadButton, Seq<char>>(button),
{
    let s = names::button_name(button);
    names::law_button_names_are_distinct(
        choose|b: GamepadButton| names::button_listed(b) && #[trigger] names::button_name(b) == s,
        button,
    );
}

/// A context is read by its name.
proof fn lemma_context_reads(ctx: InputContext)
    ensures
        read_context(names::context_name(ctx)) == Ok::<InputContext, Seq<char>>(ctx),
{
    let s = names::context_name(ctx);
    names::law_context_names_are_distinct(
        choose|c: InputContext| #[trigger] names::context_name(c) == s,
        ctx,
    );
}

/// An action without a payload, or with nothing in it, is read by its bare name.
pub proof fn law_a_bare_action_is_read_by_its_name(action: Action, floats: Seq<Result<Scalar, Seq<char>>>)
    requires
        names::is_bare(action),
    ensures
        read_action(names::action_name(action), floats) == Ok::<Action, Seq<char>>(action),
{
    let s = names::action_name(action);
    names::lemma_action_name_has_no_colon(action);
    strutil::lemma_find_from(s, ':', 0);
    names::law_action_names_are_distinct(
        choose|a: Action| names::is_bare(a) && #[trigger] names::action_name(a) == s,
        action,
    );
}

/// The keys that a bindings file can name, each by its own name.
pub proof fn law_keys_by_name()
    ensures
        read_key("KeyA"@) == Ok::<KeyCode, Seq<char>>(KeyCode::KeyA),
        read_key("KeyB"@) == Ok::<KeyCode, Seq<char>>(KeyCode::KeyB),
        read_key("KeyC"@) == Ok::<KeyCode, Seq<char>>(KeyCode::KeyC),
        read_key("KeyD"@) == Ok::<KeyCode, Seq<char>>(KeyCode::KeyD),
        read_key("KeyE"@) == Ok::<KeyCode, Seq<char>>(KeyCode::KeyE),
        read_key("KeyF"@) == Ok::<KeyCode, Seq<char>>(KeyCode::KeyF),
        read_key("KeyG"@) == Ok::<KeyCode, Seq<char>>(KeyCode::KeyG),
        read_key("KeyH"@) == Ok::<KeyCode, Seq<char>>(KeyCode::KeyH),
        read_key("KeyI"@) == Ok::<KeyCode, Seq<char>>(KeyCode::KeyI),
        read_key("KeyJ"@) == Ok::<KeyCode, Seq<char>>(KeyCode::KeyJ),
        read_key("KeyK"@) == Ok::<KeyCode, Seq<char>>(KeyCode::KeyK),
        read_key("KeyL"@) == Ok::<KeyCode, Seq<char>>(KeyCode::KeyL),
        read_key("KeyM"@) == Ok::<KeyCode, Seq<char>>(KeyCode::KeyM),
        read_key("KeyN"@) == Ok::<KeyCode, Seq<char>>(KeyCode::KeyN),
        read_key("KeyO"@) == Ok::<KeyCode, Seq<char>>(KeyCode::KeyO),
        read_key("KeyP"@) == Ok::<KeyCode, Seq<char>>(KeyCode::KeyP),
        read_key("KeyQ"@) == Ok::<KeyCode, Seq<char>>(KeyCode::KeyQ),
        read_key("KeyR"@) == Ok::<KeyCode, Seq<char>>(KeyCode::KeyR),
        read_key("KeyS"@) == Ok::<KeyCode, Seq<char>>(KeyCode::KeyS),
        read_key("KeyT"@) == Ok::<KeyCode, Seq<char>>(KeyCode::KeyT),
        read_key("KeyU"@) == Ok::<KeyCode, Seq<char>>(KeyCode::KeyU),
        read_key("KeyV"@) == Ok::<KeyCode, Seq<char>>(KeyCode::KeyV),
        read_key("KeyW"@) == Ok::<KeyCode, Seq<char>>(KeyCode::KeyW),
        read_key("KeyX"@) == Ok::<KeyCode, Seq<char>>(KeyCode::KeyX),
        read_key("KeyY"@) == Ok::<KeyCode, Seq<char>>(KeyCode::KeyY),
        read_key("KeyZ"@) == Ok::<KeyCode, Seq<char>>(KeyCode::KeyZ),
        read_key("Digit0"@) == Ok::<KeyCode, Seq<char>>(KeyCode::Digit0),
        read_key("Digit1"@) == Ok::<KeyCode, Seq<char>>(KeyCode::Digit1),
        read_key("Digit2"@) == Ok::<KeyCode, Seq<char>>(KeyCode::Digit2),
        read_key("Digit3"@) == Ok::<KeyCode, Seq<char>>(KeyCode::Digit3),
        read_key("Digit4"@) == Ok::<KeyCode, Seq<char>>(KeyCode::Digit4),
        read_key("Digit5"@) == Ok::<KeyCode, Seq<char>>(KeyCode::Digit5),
        read_key("Digit6"@) == Ok::<KeyCode, Seq<char>>(KeyCode::Digit6),
        read_key("Digit7"@) == Ok::<KeyCode, Seq<char>>(KeyCode::Digit7),
        read_key("Digit8"@) == Ok::<KeyCode, Seq<char>>(KeyCode::Digit8),
        read_key("Digit9"@) == Ok::<KeyCode, Seq<char>>(KeyCode::Digit9),
        read_key("F1"@) == Ok::<KeyCode, Seq<char>>(KeyCode::F1),
        read_key("F2"@) == Ok::<KeyCode, Seq<char>>(KeyCode::F2),
        read_key("F3"@) == Ok::<KeyCode, Seq<char>>(KeyCode::F3),
        read_key("F4"@) == Ok::<KeyCode, Seq<char>>(KeyCode::F4),
        read_key("F5"@) == Ok::<KeyCode, Seq<char>>(KeyCode::F5),
        read_key("F6"@) == Ok::<KeyCode, Seq<char>>(KeyCode::F6),
        read_key("F7"@) == Ok::<KeyCode, Seq<char>>(KeyCode::F7),
        read_key("F8"@) == Ok::<KeyCode, Seq<char>>(KeyCode::F8),
        read_key("F9"@) == Ok::<KeyCode, Seq<char>>(KeyCode::F9),
        read_key("F10"@) == Ok::<KeyCode, Seq<char>>(KeyCode::F10),
        read_key("F11"@) == Ok::<KeyCode, Seq<char>>(KeyCode::F11),
        read_key("F12"@) == Ok::<KeyCode, Seq<char>>(KeyCode::F12),
        read_key("Enter"@) == Ok::<KeyCode, Seq<char>>(KeyCode::Enter),
        read_key("Escape"@) == Ok::<KeyCode, Seq<char>>(KeyCode::Escape),
        read_key("Space"@) == Ok::<KeyCode, Seq<char>>(KeyCode::Space),
        read_key("Tab"@) == Ok::<KeyCode, Seq<char>>(KeyCode::Tab),
        read_key("Backspace"@) == Ok::<KeyCode, Seq<char>>(KeyCode::Backspace),
        read_key("Delete"@) == Ok::<KeyCode, Seq<char>>(KeyCode::Delete),
        read_key("Home"@) == Ok::<KeyCode, Seq<char>>(KeyCode::Home),
        read_key("End"@) == Ok::<KeyCode, Seq<char>>(KeyCode::End),
        read_key("ArrowLeft"@) == Ok::<KeyCode, Seq<char>>(KeyCode::ArrowLeft),
        read_key("ArrowRight"@) == Ok::<KeyCode, Seq<char>>(KeyCode::ArrowRight),
        read_key("ArrowUp"@) == Ok::<KeyCode, Seq<char>>(KeyCode::ArrowUp),
        read_key("ArrowDown"@) == Ok::<KeyCode, Seq<char>>(KeyCode::ArrowDown),
        read_key("BracketLeft"@) == Ok::<KeyCode, Seq<char>>(KeyCode::BracketLeft),
        read_key("BracketRight"@) == Ok::<KeyCode, Seq<char>>(KeyCode::BracketRight),
        read_key("Backslash"@) == Ok::<KeyCode, Seq<char>>(KeyCode::Backslash),
        read_key("Semicolon"@) == Ok::<KeyCode, Seq<char>>(KeyCode::Semicolon),
        read_key("Quote"@) == Ok::<KeyCode, Seq<char>>(KeyCode::Quote),
        read_key("Comma"@) == Ok::<KeyCode, Seq<char>>(KeyCode::Comma),
        read_key("Period"@) == Ok::<KeyCode, Seq<char>>(KeyCode::Period),
        read_key("Slash"@) == Ok::<KeyCode, Seq<char>>(KeyCode::Slash),
        read_key("Minus"@) == Ok::<KeyCode, Seq<char>>(KeyCode::Minus),
        read_key("Equal"@) == Ok::<KeyCode, Seq<char>>(KeyCode::Equal),
        read_key("Backquote"@) == Ok::<KeyCode, Seq<char>>(KeyCode::Backquote),
{
    lemma_key_reads(KeyCode::KeyA);
    lemma_key_reads(KeyCode::KeyB);
    lemma_key_reads(KeyCode::KeyC);
    lemma_key_reads(KeyCode::KeyD);
    lemma_key_reads(KeyCode::KeyE);
    lemma_key_reads(KeyCode::KeyF);
    lemma_key_reads(KeyCode::KeyG);
    lemma_key_reads(KeyCode::KeyH);
    lemma_key_reads(KeyCode::KeyI);
    lemma_key_reads(KeyCode::KeyJ);
    lemma_key_reads(KeyCode::KeyK);
    lemma_key_reads(KeyCode::KeyL);
    lemma_key_reads(KeyCode::KeyM);
    lemma_key_reads(KeyCode::KeyN);
    lemma_key_reads(KeyCode::KeyO);
    lemma_key_reads(KeyCode::KeyP);
    lemma_key_reads(KeyCode::KeyQ);
    lemma_key_reads(KeyCode::KeyR);
    lemma_key_reads(KeyCode::KeyS);
    lemma_key_reads(KeyCode::KeyT);
    lemma_key_reads(KeyCode::KeyU);
    lemma_key_reads(KeyCode::KeyV);
    lemma_key_reads(KeyCode::KeyW);
    lemma_key_reads(KeyCode::KeyX);
    lemma_key_reads(KeyCode::KeyY);
    lemma_key_reads(KeyCode::KeyZ);
    lemma_key_reads(KeyCode::Digit0);
    lemma_key_reads(KeyCode::Digit1);
    lemma_key_reads(KeyCode::Digit2);
    lemma_key_reads(KeyCode::Digit3);
    lemma_key_reads(KeyCode::Digit4);
    lemma_key_reads(KeyCode::Digit5);
    lemma_key_reads(KeyCode::Digit6);
    lemma_key_reads(KeyCode::Digit7);
    lemma_key_reads(KeyCode::Digit8);
    lemma_key_reads(KeyCode::Digit9);
    lemma_key_reads(KeyCode::F1);
    lemma_key_reads(KeyCode::F2);
    lemma_key_reads(KeyCode::F3);
    lemma_key_reads(KeyCode::F4);
    lemma_key_reads(KeyCode::F5);
    lemma_key_reads(KeyCode::F6);
    lemma_key_reads(KeyCode::F7);
    lemma_key_reads(KeyCode::F8);
    lemma_key_reads(KeyCode::F9);
    lemma_key_reads(KeyCode::F10);
    lemma_key_reads(KeyCode::F11);
    lemma_key_reads(KeyCode::F12);
    lemma_key_reads(KeyCode::Enter);
    lemma_key_reads(KeyCode::Escape);
    lemma_key_reads(KeyCode::Space);
    lemma_key_reads(KeyCode::Tab);
    lemma_key_reads(KeyCode::Backspace);
    lemma_key_reads(KeyCode::Delete);
    lemma_key_reads(KeyCode::Home);
    lemma_key_reads(KeyCode::End);
    lemma_key_reads(KeyCode::ArrowLeft);
    lemma_key_reads(KeyCode::ArrowRight);
    lemma_key_reads(KeyCode::ArrowUp);
    lemma_key_reads(KeyCode::ArrowDown);
    lemma_key_reads(KeyCode::BracketLeft);
    lemma_key_reads(KeyCode::BracketRight);
    lemma_key_reads(KeyCode::Backslash);
    lemma_key_reads(KeyCode::Semicolon);
    lemma_key_reads(KeyCode::Quote);
    lemma_key_reads(KeyCode::Comma);
    lemma_key_reads(KeyCode::Period);
    lemma_key_reads(KeyCode::Slash);
    lemma_key_reads(KeyCode::Minus);
    lemma_key_reads(KeyCode::Equal);
    lemma_key_reads(KeyCode::Backquote);
}

/// The gamepad buttons that a bindings file can name, each by its own name.
pub proof fn law_buttons_by_name()
    ensures
        read_button("South"@) == Ok::<GamepadButton, Seq<char>>(GamepadButton::South),
        read_button("East"@) == Ok::<GamepadButton, Seq<char>>(GamepadButton::East),
        read_button("North"@) == Ok::<GamepadButton, Seq<char>>(GamepadButton::North),
        read_button("West"@) == Ok::<GamepadButton, Seq<char>>(GamepadButton::West),
        read_button("Start"@) == Ok::<GamepadButton, Seq<char>>(GamepadButton::Start),
        read_button("Select"@) == Ok::<GamepadButton, Seq<char>>(GamepadButton::Select),
        read_button("DPadUp"@) == Ok::<GamepadButton, Seq<char>>(GamepadButton::DPadUp),
        read_button("DPadDown"@) == Ok::<GamepadButton, Seq<char>>(GamepadButton::DPadDown),
        read_button("DPadLeft"@) == Ok::<GamepadButton, Seq<char>>(GamepadButton::DPadLeft),
        read_button("DPadRight"@) == Ok::<GamepadButton, Seq<char>>(GamepadButton::DPadRight),
        read_button("LeftTrigger"@) == Ok::<GamepadButton, Seq<char>>(GamepadButton::LeftTrigger),
        read_button("RightTrigger"@) == Ok::<GamepadButton, Seq<char>>(GamepadButton::RightTrigger),
        read_button("LeftThumb"@) == Ok::<GamepadButton, Seq<char>>(GamepadButton::LeftThumb),
        read_button("RightThumb"@) == Ok::<GamepadButton, Seq<char>>(GamepadButton::RightThumb),
{
    lemma_button_reads(GamepadButton::South);
    lemma_button_reads(GamepadButton::East);
    lemma_button_reads(GamepadButton::North);
    lemma_button_reads(GamepadButton::West);
    lemma_button_reads(GamepadButton::Start);
    lemma_button_reads(GamepadButton::Select);
    lemma_button_reads(GamepadButton::DPadUp);
    lemma_button_reads(GamepadButton::DPadDown);
    lemma_button_reads(GamepadButton::DPadLeft);
    lemma_button_reads(GamepadButton::DPadRight);
    lemma_button_reads(GamepadButton::LeftTrigger);
    lemma_button_reads(GamepadButton::RightTrigger);
    lemma_button_reads(GamepadButton::LeftThumb);
    lemma_button_reads(GamepadButton::RightThumb);
}

/// The contexts, each by its own name.
pub proof fn law_contexts_by_name()
    ensures
        read_context("Global"@) == Ok::<InputContext, Seq<char>>(InputContext::Global),
        read_context("TextInput"@) == Ok::<InputContext, Seq<char>>(InputContext::TextInput),
        read_context("Navigation"@) == Ok::<InputContext, Seq<char>>(InputContext::Navigation),
        read_context("Dialog"@) == Ok::<InputContext, Seq<char>>(InputContext::Dialog),
        read_context("Constellation"@) == Ok::<InputContext, Seq<char>>(
            InputContext::Constellation,
        ),
        read_context("RoomNav"@) == Ok::<InputContext, Seq<char>>(InputContext::RoomNav),
        read_context("WellZoomed"@) == Ok::<InputContext, Seq<char>>(InputContext::WellZoomed),
        read_context("PatchBayZoomed"@) == Ok::<InputContext, Seq<char>>(
            InputContext::PatchBayZoomed,
        ),
        read_context("StationZoomed"@) == Ok::<InputContext, Seq<char>>(
            InputContext::StationZoomed,
        ),
        read_context("FsnFly"@) == Ok::<InputContext, Seq<char>>(InputContext::FsnFly),
        read_context("QuickContext"@) == Ok::<InputContext, Seq<char>>(InputContext::QuickContext),
        read_context("AskSheet"@) == Ok::<InputContext, Seq<char>>(InputContext::AskSheet),
        read_context("LedgerRibbon"@) == Ok::<InputContext, Seq<char>>(InputContext::LedgerRibbon),
{
    lemma_context_reads(InputContext::Global);
    lemma_context_reads(InputContext::TextInput);
    lemma_context_reads(InputContext::Navigation);
    lemma_context_reads(InputContext::Dialog);
    lemma_context_reads(InputContext::Constellation);
    lemma_context_reads(InputContext::RoomNav);
    lemma_context_reads(InputContext::WellZoomed);
    lemma_context_reads(InputContext::PatchBayZoomed);
    lemma_context_reads(InputContext::StationZoomed);
    lemma_context_reads(InputContext::FsnFly);
    lemma_context_reads(InputContext::QuickContext);
    lemma_context_reads(InputContext::AskSheet);
    lemma_context_reads(InputContext::LedgerRibbon);
}

} // verus!
