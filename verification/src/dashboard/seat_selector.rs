//! The seat selector: the current seat, and switching between seats.

use vstd::prelude::*;
use vstd::string::*;
use crate::dashboard::{SeatId, SeatInfo, SeatView};
use crate::strutil;

verus! {

/// How a seat shows in the selector.
pub open spec fn seat_label(seat: SeatView) -> Seq<char> {
    "@"@ + seat.nick + ":"@ + seat.instance + " • "@ + seat.context
}

fn label_of(seat: &SeatId) -> (label: String)
    ensures
        label@ == seat_label(seat@),
{
    let mut label = strutil::enclosed("@", seat.nick.as_str(), ":");
    label.append(seat.instance.as_str());
    label.append(" • ");
    label.append(seat.context.as_str());
    label
}

/// The text of the selector: the current seat, or that there is none.
pub fn current_seat_text(current: Option<&SeatInfo>) -> (text: String)
    ensures
        text@ == (match current {
            Some(seat) => seat_label(seat.id@),
            None => "No seat"@,
        }),
{
    match current {
        Some(seat) => label_of(&seat.id),
        None => "No seat".to_owned(),
    }
}

/// The badge that counts the seats; it shows only with more than one.
pub fn seat_count_badge(count: usize) -> (badge: Option<String>)
    ensures
        match badge {
            Some(text) => count > 1 && text@ == strutil::digits_of(count as nat),
            None => count <= 1,
        },
{
    if count > 1 {
        Some(strutil::decimal(count))
    } else {
        None
    }
}

/// Whether the dropdown is open.
#[derive(Debug, Clone, Copy, PartialEq, Eq, Structural)]
pub struct SeatDropdown {
    pub open: bool,
}

/// A request to take a seat, or to leave the current one.
#[derive(Debug)]
pub enum SeatCommand {
    TakeSeat { nick: String, instance: String, kernel: String, context: String },
    LeaveSeat,
}

impl SeatDropdown {
    /// A click on the selector opens the dropdown, or closes it.
    pub fn on_selector_click(&mut self)
        ensures
            final(self).open == !old(self).open,
    {
        self.open = !self.open;
    }

    /// A click on the way to the dashboard closes the dropdown, and leaves the current seat if
    /// there is one.
    pub fn on_dashboard_click(&mut self, seated: bool) -> (command: Option<SeatCommand>)
        ensures
            !final(self).open,
            command is Some <==> seated,
            command matches Some(c) ==> c is LeaveSeat,
    {
        self.open = false;
        if seated {
            Some(SeatCommand::LeaveSeat)
        } else {
            None
        }
    }

    /// A click on a seat takes it and closes the dropdown; where there is no such seat, nothing
    /// happens.
    pub fn on_option_click(&mut self, seats: &Vec<SeatInfo>, index: usize) -> (command: Option<
        SeatCommand,
    >)
        ensures
            match command {
                Some(SeatCommand::TakeSeat { nick, instance, kernel, context }) => {
                    &&& index < seats@.len()
                    &&& seats@[index as int].id@ == (SeatView {
                        nick: nick@,
                        instance: instance@,
                        kernel: kernel@,
                        context: context@,
                    })
                    &&& !final(self).open
                },
                Some(SeatCommand::LeaveSeat) => false,
                None => index >= seats@.len() && *final(self) == *old(self),
            },
    {
        if index >= seats.len() {
            return None;
        }
        let id = &seats[index].id;
        self.open = false;
        Some(
            SeatCommand::TakeSeat {
                nick: id.nick.clone(),
                instance: id.instance.clone(),
                kernel: id.kernel.clone(),
                context: id.context.clone(),
            },
        )
    }

    /// A click elsewhere closes the dropdown.
    pub fn on_click(&mut self, on_selector: bool, on_dropdown: bool)
        ensures
            final(self).open == (old(self).open && (on_selector || on_dropdown)),
    {
        if !on_selector && !on_dropdown {
            self.open = false;
        }
    }
}

/// A seat to switch to: its place in the list, and its label.
#[derive(Debug)]
pub struct SeatOption {
    pub index: usize,
    pub label: String,
}

/// The seats to switch to: all but the current one, in order, by place and label.
pub open spec fn options_of(seats: Seq<SeatInfo>, current: Option<SeatView>) -> Seq<
    (int, Seq<char>),
>
    decreases seats.len(),
{
    if seats.len() == 0 {
        Seq::empty()
    } else {
        let front = options_of(seats.drop_last(), current);
        let last = seats.last().id@;
        if current == Some(last) {
            front
        } else {
            front.push((seats.len() - 1, seat_label(last)))
        }
    }
}

/// Options as mathematical values.
pub open spec fn option_views(options: Seq<SeatOption>) -> Seq<(int, Seq<char>)> {
    options.map_values(|o: SeatOption| (o.index as int, o.label@))
}

fn same_seat(a: &SeatId, b: &SeatId) -> (same: bool)
    ensures
        same == (a@ == b@),
{
    strutil::same(a.nick.as_str(), b.nick.as_str()) && strutil::same(
        a.instance.as_str(),
        b.instance.as_str(),
    ) && strutil::same(a.kernel.as_str(), b.kernel.as_str()) && strutil::same(
        a.context.as_str(),
        b.context.as_str(),
    )
}

/// The seats to switch to: all but the current one, in order.
pub fn seat_options(seats: &Vec<SeatInfo>, current: Option<&SeatInfo>) -> (options: Vec<SeatOption>)
    ensures
        option_views(options@) == options_of(
            seats@,
            match current {
                Some(seat) => Some(seat.id@),
                None => None,
            },
        ),
{
    let ghost cur = match current {
        Some(seat) => Some(seat.id@),
        None => None,
    };
    let mut options: Vec<SeatOption> = Vec::new();
    let mut i: usize = 0;
    assert(option_views(options@) =~= Seq::empty());
    while i < seats.len()
        invariant
            i <= seats.len(),
            cur == (match current {
                Some(seat) => Some(seat.id@),
                None => None,
            }),
            option_views(options@) == options_of(seats@.take(i as int), cur),
        decreases seats.len() - i,
    {
        let ghost before = option_views(options@);
        assert(seats@.take(i + 1).drop_last() =~= seats@.take(i as int));
        let seat = &seats[i].id;
        let is_current = match current {
            Some(c) => same_seat(seat, &c.id),
            None => false,
        };
        if !is_current {
            let option = SeatOption { index: i, label: label_of(seat) };
            options.push(option);
            assert(option_views(options@) =~= before.push((i as int, seat_label(seat@))));
        }
        i = i + 1;
    }
    assert(seats@.take(i as int) =~= seats@);
    options
}

/// The current seat is never offered.
pub proof fn law_the_current_seat_is_not_offered(
    seats: Seq<SeatInfo>,
    current: SeatView,
    i: int,
)
    requires
        0 <= i < options_of(seats, Some(current)).len(),
    ensures
        ({
            let place = options_of(seats, Some(current))[i].0;
            0 <= place < seats.len() && seats[place].id@ != current
        }),
    decreases seats.len(),
{
    let front = options_of(seats.drop_last(), Some(current));
    if i < front.len() {
        law_the_current_seat_is_not_offered(seats.drop_last(), current, i);
    }
}

/// All seats but the current one are offered, each once, in their order, by place and label.
pub proof fn law_every_other_seat_is_offered(seats: Seq<SeatInfo>, current: Option<SeatView>)
    ensures
        options_of(seats, current) == places(seats).filter(
            |o: (int, SeatView)| current != Some(o.1),
        ).map_values(
            |o: (int, SeatView)|
                (
                    o.0,
                    seq!['@'] + o.1.nick + seq![':'] + o.1.instance + seq![' ', '•', ' ']
                        + o.1.context,
                ),
        ),
    decreases seats.len(),
{
    let other = |o: (int, SeatView)| current != Some(o.1);
    let shown = |o: (int, SeatView)|
        (
            o.0,
            seq!['@'] + o.1.nick + seq![':'] + o.1.instance + seq![' ', '•', ' '] + o.1.context,
        );
    reveal(Seq::filter);
    if seats.len() > 0 {
        let front = seats.drop_last();
        law_every_other_seat_is_offered(front, current);
        assert(places(seats).drop_last() =~= places(front));
        let last = places(seats).last();
        lemma_label(last.1);
        if other(last) {
            let kept = places(front).filter(other);
            assert(places(seats).filter(other) =~= kept.push(last));
            assert(kept.push(last).map_values(shown) =~= kept.map_values(shown).push(shown(last)));
        }
    } else {
        assert(places(seats).filter(other).map_values(shown) =~= Seq::empty());
    }
}

/// Seats with their places in the list.
pub open spec fn places(seats: Seq<SeatInfo>) -> Seq<(int, SeatView)> {
    Seq::new(seats.len(), |i: int| (i, seats[i].id@))
}

proof fn lemma_label(seat: SeatView)
    ensures
        seat_label(seat) == seq!['@'] + seat.nick + seq![':'] + seat.instance + seq![' ', '•', ' ']
            + seat.context,
{
    reveal_strlit("@");
    reveal_strlit(":");
    reveal_strlit(" • ");
    assert("@"@ =~= seq!['@']);
    assert(":"@ =~= seq![':']);
    assert(" • "@ =~= seq![' ', '•', ' ']);
}

} // verus!
