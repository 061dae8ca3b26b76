//! MIDI cue decisions: placing rendered phrases, routing device-addressed control cues, click
//! bytes, and the render port's auto-connect.

use vstd::prelude::*;
use vstd::string::*;
use vstd::utf8::*;
use crate::dj::clock::REF_STALE_MAX;
use crate::patch_graph::{EndpointInfo, WireInfo};
use crate::strutil;
use crate::textbuf;

verus! {

// ---------------------------------------------------------------------------
// Device-addressed control routing
// ---------------------------------------------------------------------------

/// A device and its matched ports' backend addresses, in match order.
#[derive(Debug)]
pub struct DeviceRoute {
    pub device: String,
    pub addresses: Vec<String>,
}

/// The routing picture: which device is at which addresses. No device is named twice.
#[derive(Debug)]
pub struct MidiRoutes {
    pub list: Vec<DeviceRoute>,
}

/// The place of a device in a list of routes, from `from` on.
pub open spec fn route_index(list: Seq<DeviceRoute>, device: Seq<char>, from: int) -> Option<int>
    decreases list.len() - from,
{
    if from >= list.len() || from < 0 {
        None
    } else if list[from].device@ == device {
        Some(from)
    } else {
        route_index(list, device, from + 1)
    }
}

proof fn lemma_route_index(list: Seq<DeviceRoute>, device: Seq<char>, from: int)
    requires
        0 <= from,
    ensures
        match route_index(list, device, from) {
            Some(i) => from <= i < list.len() && list[i].device@ == device,
            None => forall|i: int| from <= i < list.len() ==> list[i].device@ != device,
        },
    decreases list.len() - from,
{
    if from < list.len() && list[from].device@ != device {
        lemma_route_index(list, device, from + 1);
    }
}

impl MidiRoutes {
    /// No device is named twice.
    pub open spec fn wf(&self) -> bool {
        forall|i: int, j: int|
            0 <= i < j < self.list@.len() ==> (#[trigger] self.list@[i]).device@ != (
            #[trigger] self.list@[j]).device@
    }

    /// The addresses of each device.
    pub open spec fn view(&self) -> Map<Seq<char>, Seq<Seq<char>>> {
        Map::new(
            |d: Seq<char>| route_index(self.list@, d, 0) is Some,
            |d: Seq<char>|
                strutil::views(self.list@[route_index(self.list@, d, 0).unwrap()].addresses@),
        )
    }

    /// An empty routing picture.
    pub fn new() -> (routes: Self)
        ensures
            routes.wf(),
            routes@ == Map::<Seq<char>, Seq<Seq<char>>>::empty(),
    {
        let routes = MidiRoutes { list: Vec::new() };
        assert(routes@ =~= Map::empty());
        routes
    }

    /// Route a device to addresses, in place of what it was routed to before.
    pub fn insert(&mut self, device: String, addresses: Vec<String>)
        requires
            old(self).wf(),
        ensures
            final(self).wf(),
            final(self)@ == old(self)@.insert(device@, strutil::views(addresses@)),
    {
        let ghost before = self.list@;
        let mut i: usize = 0;
        while i < self.list.len()
            invariant
                i <= self.list.len(),
                self.list@ == before,
                self.list@ == old(self).list@,
                old(self).wf(),
                forall|k: int| 0 <= k < i ==> before[k].device@ != device@,
            decreases self.list.len() - i,
        {
            if strutil::same(self.list[i].device.as_str(), device.as_str()) {
                let ghost name = device@;
                let ghost views = strutil::views(addresses@);
                let route = DeviceRoute { device, addresses };
                self.list.set(i, route);
                proof {
                    lemma_replaced(before, i as int, route);
                    lemma_route_index(before, name, 0);
                    assert(route_index(before, name, 0) == Some(i as int));
                    assert forall|d: Seq<char>| route_index(self.list@, d, 0) == route_index(
                        before,
                        d,
                        0,
                    ) by {
                        lemma_same_names(before, self.list@, d, 0);
                    }
                    assert(self@ =~= old(self)@.insert(name, views)) by {
                        assert forall|d: Seq<char>| #[trigger] self@.dom().contains(d) && d
                            != name implies self@[d] == old(self)@[d] by {
                            lemma_route_index(before, d, 0);
                        }
                    }
                }
                return ;
            }
            i = i + 1;
        }
        let ghost name = device@;
        let ghost views = strutil::views(addresses@);
        let route = DeviceRoute { device, addresses };
        self.list.push(route);
        proof {
            assert forall|d: Seq<char>| route_index(self.list@, d, 0) == (if route_index(
                before,
                d,
                0,
            ) is Some {
                route_index(before, d, 0)
            } else if d == name {
                Some(before.len() as int)
            } else {
                None
            }) by {
                lemma_pushed(before, route, d, 0);
            }
            lemma_route_index(before, name, 0);
            assert(self@ =~= old(self)@.insert(name, views)) by {
                assert forall|d: Seq<char>| #[trigger] self@.dom().contains(d) && d
                    != name implies self@[d] == old(self)@[d] by {
                    lemma_route_index(before, d, 0);
                }
            }
        }
    }
}

proof fn lemma_replaced(before: Seq<DeviceRoute>, i: int, route: DeviceRoute)
    requires
        0 <= i < before.len(),
        before[i].device@ == route.device@,
    ensures
        forall|k: int|
            0 <= k < before.len() ==> (#[trigger] before.update(i, route)[k]).device@
                == before[k].device@,
{
}

proof fn lemma_same_names(a: Seq<DeviceRoute>, b: Seq<DeviceRoute>, d: Seq<char>, from: int)
    requires
        0 <= from,
        a.len() == b.len(),
        forall|k: int| 0 <= k < a.len() ==> (#[trigger] a[k]).device@ == b[k].device@,
    ensures
        route_index(a, d, from) == route_index(b, d, from),
    decreases a.len() - from,
{
    if from < a.len() {
        assert(a[from].device@ == b[from].device@);
        lemma_same_names(a, b, d, from + 1);
    }
}

proof fn lemma_pushed(a: Seq<DeviceRoute>, route: DeviceRoute, d: Seq<char>, from: int)
    requires
        0 <= from <= a.len(),
    ensures
        route_index(a.push(route), d, from) == (if route_index(a, d, from) is Some {
            route_index(a, d, from)
        } else if d == route.device@ {
            Some(a.len() as int)
        } else {
            None
        }),
    decreases a.len() - from,
{
    reveal_with_fuel(route_index, 3);
    if from < a.len() {
        lemma_pushed(a, route, d, from + 1);
    }
}

/// The address that cues for a device go to: its first matched port, or nothing. There is no
/// fallback.
pub open spec fn routed(routes: Map<Seq<char>, Seq<Seq<char>>>, device: Seq<char>) -> Option<
    Seq<char>,
> {
    if routes.dom().contains(device) && routes[device].len() > 0 {
        Some(routes[device][0])
    } else {
        None
    }
}

/// Which port a device-addressed cue goes out of, or `None` when it cannot be routed right now.
pub fn resolve_route<'a>(routes: &'a MidiRoutes, device: &str) -> (address: Option<&'a str>)
    ensures
        match address {
            Some(a) => routed(routes@, device@) == Some(a@),
            None => routed(routes@, device@) is None,
        },
{
    let mut i: usize = 0;
    proof {
        lemma_route_index(routes.list@, device@, 0);
    }
    while i < routes.list.len()
        invariant
            i <= routes.list.len(),
            route_index(routes.list@, device@, 0) == route_index(
                routes.list@,
                device@,
                i as int,
            ),
        decreases routes.list.len() - i,
    {
        let route = &routes.list[i];
        if strutil::same(route.device.as_str(), device) {
            if route.addresses.len() > 0 {
                return Some(route.addresses[0].as_str());
            }
            return None;
        }
        i = i + 1;
    }
    None
}

/// The client and port that an address of the form `client:port` names.
pub open spec fn alsa_addr(s: Seq<char>) -> Option<(i32, i32)> {
    match strutil::split_at_first(s, ':') {
        Some((client, port)) => match (
            strutil::signed_value(strutil::trimmed(client)),
            strutil::signed_value(strutil::trimmed(port)),
        ) {
            (Some(c), Some(p)) => if i32::MIN <= c <= i32::MAX && i32::MIN <= p <= i32::MAX {
                Some((c as i32, p as i32))
            } else {
                None
            },
            _ => None,
        },
        None => None,
    }
}

/// Parse a sequencer address (`"client:port"`); `None` for anything else.
pub fn parse_alsa_addr(address: &str) -> (addr: Option<(i32, i32)>)
    ensures
        addr == alsa_addr(address@),
{
    match strutil::split_once(address, ':') {
        Some((client, port)) => {
            let c = strutil::parse_i32(strutil::trim(client.as_str()).as_str());
            let p = strutil::parse_i32(strutil::trim(port.as_str()).as_str());
            match (c, p) {
                (Some(c), Some(p)) => Some((c, p)),
                _ => None,
            }
        },
        None => None,
    }
}

/// Some device's first matched port is at the address.
pub open spec fn address_wanted(routes: Map<Seq<char>, Seq<Seq<char>>>, dest: (i32, i32)) -> bool {
    exists|device: Seq<char>| #[trigger]
        routed(routes, device) is Some && alsa_addr(routed(routes, device).unwrap()) == Some(dest)
}

fn is_wanted(routes: &MidiRoutes, dest: (i32, i32)) -> (wanted: bool)
    requires
        routes.wf(),
    ensures
        wanted == address_wanted(routes@, dest),
{
    let mut i: usize = 0;
    while i < routes.list.len()
        invariant
            i <= routes.list.len(),
            routes.wf(),
            forall|k: int|
                0 <= k < i ==> {
                    let addresses = (#[trigger] routes.list@[k]).addresses@;
                    addresses.len() > 0 ==> alsa_addr(addresses[0]@) != Some(dest)
                },
        decreases routes.list.len() - i,
    {
        let addresses = &routes.list[i].addresses;
        if addresses.len() > 0 {
            if let Some((c, p)) = parse_alsa_addr(addresses[0].as_str()) {
                if c == dest.0 && p == dest.1 {
                    proof {
                        let device = routes.list@[i as int].device@;
                        lemma_route_index(routes.list@, device, 0);
                        assert(routed(routes@, device) == Some(addresses@[0]@));
                    }
                    return true;
                }
            }
        }
        i = i + 1;
    }
    proof {
        assert forall|device: Seq<char>| #[trigger] routed(routes@, device) is Some implies
            alsa_addr(routed(routes@, device).unwrap()) != Some(dest) by {
            lemma_route_index(routes.list@, device, 0);
            let k = route_index(routes.list@, device, 0).unwrap();
            assert(routed(routes@, device).unwrap() == routes.list@[k].addresses@[0]@);
        }
    }
    false
}

/// Which cached control-port addresses no device's first matched port names any more, in order.
pub fn stale_control_routes(cached: &Vec<(i32, i32)>, routes: &MidiRoutes) -> (stale: Vec<
    (i32, i32),
>)
    requires
        routes.wf(),
    ensures
        stale@ == cached@.filter(|dest: (i32, i32)| !address_wanted(routes@, dest)),
{
    let ghost keep = |dest: (i32, i32)| !address_wanted(routes@, dest);
    let mut stale: Vec<(i32, i32)> = Vec::new();
    let mut i: usize = 0;
    proof {
        reveal(Seq::filter);
    }
    while i < cached.len()
        invariant
            i <= cached.len(),
            routes.wf(),
            keep == (|dest: (i32, i32)| !address_wanted(routes@, dest)),
            stale@ == cached@.take(i as int).filter(keep),
        decreases cached.len() - i,
    {
        proof {
            reveal(Seq::filter);
            assert(cached@.take(i + 1).drop_last() =~= cached@.take(i as int));
        }
        if !is_wanted(routes, cached[i]) {
            stale.push(cached[i]);
        }
        i = i + 1;
    }
    assert(cached@.take(i as int) =~= cached@);
    stale
}

// ---------------------------------------------------------------------------
// Placing a rendered phrase
// ---------------------------------------------------------------------------

/// A MIDI message and when it sounds: nanoseconds from the start of its phrase, and its bytes.
pub type TimedEvent = (u128, Vec<u8>);

/// Timed messages as mathematical values.
pub open spec fn event_views(events: Seq<TimedEvent>) -> Seq<(u128, Seq<u8>)> {
    events.map_values(|e: TimedEvent| (e.0, e.1@))
}

/// A cue that is further behind than this (in nanoseconds) is rejected outright.
pub const CUE_STALE_MAX: u64 = REF_STALE_MAX;

/// The messages that are still to come when the phrase is `behind` nanoseconds late.
pub open spec fn survivors(events: Seq<(u128, Seq<u8>)>, behind: int) -> Seq<(u128, Seq<u8>)> {
    events.filter(|e: (u128, Seq<u8>)| e.0 >= behind).map_values(
        |e: (u128, Seq<u8>)| ((e.0 - behind) as u128, e.1),
    )
}

/// A phrase re-anchored by its age. Without a stamp it stays as it is; a lead that is long
/// enough absorbs the age; otherwise what is already in the past is dropped, the rest shifts,
/// and a phrase that is too far behind is rejected.
pub open spec fn backdated(events: Seq<(u128, Seq<u8>)>, lead: u128, age: Option<u64>) -> Option<
    (Seq<(u128, Seq<u8>)>, u128),
> {
    match age {
        None => Some((events, lead)),
        Some(age) => if age <= lead {
            Some((events, (lead - age) as u128))
        } else if age - lead > CUE_STALE_MAX {
            None
        } else {
            Some((survivors(events, age - lead), 0))
        },
    }
}

/// A copy of bytes.
pub fn copy_bytes(bytes: &Vec<u8>) -> (out: Vec<u8>)
    ensures
        out@ == bytes@,
{
    let mut out: Vec<u8> = Vec::new();
    let mut i: usize = 0;
    while i < bytes.len()
        invariant
            i <= bytes.len(),
            out@ == bytes@.take(i as int),
        decreases bytes.len() - i,
    {
        out.push(bytes[i]);
        assert(bytes@.take(i + 1) =~= bytes@.take(i as int).push(bytes@[i as int]));
        i = i + 1;
    }
    assert(bytes@.take(i as int) =~= bytes@);
    out
}

/// Re-anchor a phrase by how old it is on receipt; `None` where it is too stale.
pub fn backdate_events(events: Vec<TimedEvent>, lead: u128, age: Option<u64>) -> (placed: Option<
    (Vec<TimedEvent>, u128),
>)
    ensures
        match placed {
            Some((out, left)) => backdated(event_views(events@), lead, age) == Some(
                (event_views(out@), left),
            ),
            None => backdated(event_views(events@), lead, age) is None,
        },
{
    let age = match age {
        Some(age) => age,
        None => {
            return Some((events, lead));
        },
    };
    let age: u128 = age as u128;
    if age <= lead {
        return Some((events, lead - age));
    }
    let behind: u128 = age - lead;
    if behind > CUE_STALE_MAX as u128 {
        return None;
    }
    let ghost all = event_views(events@);
    let ghost kept = |e: (u128, Seq<u8>)| e.0 >= behind as int;
    let ghost shift = |e: (u128, Seq<u8>)| ((e.0 - behind as int) as u128, e.1);
    let mut out: Vec<TimedEvent> = Vec::new();
    let mut i: usize = 0;
    proof {
        reveal(Seq::filter);
        assert(event_views(out@) =~= all.take(0).filter(kept).map_values(shift));
    }
    while i < events.len()
        invariant
            i <= events.len(),
            all == event_views(events@),
            kept == (|e: (u128, Seq<u8>)| e.0 >= behind as int),
            shift == (|e: (u128, Seq<u8>)| ((e.0 - behind as int) as u128, e.1)),
            event_views(out@) == all.take(i as int).filter(kept).map_values(shift),
        decreases events.len() - i,
    {
        let ghost before = all.take(i as int).filter(kept);
        proof {
            reveal(Seq::filter);
            assert(all.take(i + 1).drop_last() =~= all.take(i as int));
        }
        let event = &events[i];
        if event.0 >= behind {
            let shifted: TimedEvent = (event.0 - behind, copy_bytes(&event.1));
            out.push(shifted);
            proof {
                assert(before.push(all[i as int]).map_values(shift) =~= before.map_values(
                    shift,
                ).push(shift(all[i as int])));
                assert(event_views(out@) =~= all.take(i + 1).filter(kept).map_values(shift));
            }
        }
        i = i + 1;
    }
    assert(all.take(i as int) =~= all);
    Some((out, 0))
}

/// Re-anchoring moves nothing in absolute time: each message left sounds exactly when it should
/// have by the stamp, and none before now.
pub proof fn law_backdating_keeps_the_sounding_moment(
    events: Seq<(u128, Seq<u8>)>,
    lead: u128,
    age: u64,
    i: int,
)
    requires
        backdated(events, lead, Some(age)) is Some,
        0 <= i < backdated(events, lead, Some(age)).unwrap().0.len(),
    ensures
        ({
            let (left, new_lead) = backdated(events, lead, Some(age)).unwrap();
            exists|j: int|
                0 <= j < events.len() && (#[trigger] events[j]).1 == left[i].1 && new_lead
                    + left[i].0 == lead + events[j].0 - age
        }),
{
    let (left, new_lead) = backdated(events, lead, Some(age)).unwrap();
    if age <= lead {
        assert(events[i].1 == left[i].1);
    } else {
        let behind = age - lead;
        let kept = |e: (u128, Seq<u8>)| e.0 >= behind;
        let filtered = events.filter(kept);
        events.lemma_filter_pred(kept, i);
        assert(filtered.contains(filtered[i]));
        events.lemma_filter_contains_rev(kept, filtered[i]);
        let j = choose|j: int| 0 <= j < events.len() && events[j] == filtered[i];
        assert(events[j].1 == left[i].1);
    }
}

/// Nothing that could still sound in time is lost: each message of a phrase that is not rejected
/// is left if its moment has not passed. So a note that is left keeps its note-off, which comes
/// later.
pub proof fn law_messages_in_time_are_kept(
    events: Seq<(u128, Seq<u8>)>,
    lead: u128,
    age: u64,
    j: int,
)
    requires
        backdated(events, lead, Some(age)) is Some,
        0 <= j < events.len(),
        lead + events[j].0 >= age,
    ensures
        ({
            let (left, new_lead) = backdated(events, lead, Some(age)).unwrap();
            exists|i: int|
                0 <= i < left.len() && (#[trigger] left[i]).1 == events[j].1 && new_lead
                    + left[i].0 == lead + events[j].0 - age
        }),
{
    let (left, new_lead) = backdated(events, lead, Some(age)).unwrap();
    if age <= lead {
        assert(left[j].1 == events[j].1);
    } else {
        let behind = age - lead;
        let kept = |e: (u128, Seq<u8>)| e.0 >= behind;
        let filtered = events.filter(kept);
        assert(kept(events[j]));
        events.lemma_filter_contains(kept, j);
        let i = choose|i: int| 0 <= i < filtered.len() && filtered[i] == events[j];
        assert(left[i].1 == events[j].1);
    }
}

/// A message on a channel: its status byte is below the system messages.
pub open spec fn is_channel_voice(data: Seq<u8>) -> bool {
    data.len() > 0 && data[0] < 0xF0
}

/// The channel messages of a rendered tune; meta and system messages never go to the queue.
pub fn channel_voice_events(events: Vec<TimedEvent>) -> (voice: Vec<TimedEvent>)
    ensures
        event_views(voice@) == event_views(events@).filter(
            |e: (u128, Seq<u8>)| is_channel_voice(e.1),
        ),
{
    let ghost all = event_views(events@);
    let ghost kept = |e: (u128, Seq<u8>)| is_channel_voice(e.1);
    let mut voice: Vec<TimedEvent> = Vec::new();
    let mut i: usize = 0;
    proof {
        reveal(Seq::filter);
        assert(event_views(voice@) =~= all.take(0).filter(kept));
    }
    while i < events.len()
        invariant
            i <= events.len(),
            all == event_views(events@),
            kept == (|e: (u128, Seq<u8>)| is_channel_voice(e.1)),
            event_views(voice@) == all.take(i as int).filter(kept),
        decreases events.len() - i,
    {
        let ghost before = event_views(voice@);
        proof {
            reveal(Seq::filter);
            assert(all.take(i + 1).drop_last() =~= all.take(i as int));
        }
        let event = &events[i];
        if event.1.len() > 0 && event.1[0] < 0xF0 {
            let copy: TimedEvent = (event.0, copy_bytes(&event.1));
            voice.push(copy);
            assert(event_views(voice@) =~= before.push(all[i as int]));
        }
        i = i + 1;
    }
    assert(all.take(i as int) =~= all);
    voice
}

// ---------------------------------------------------------------------------
// Cues
// ---------------------------------------------------------------------------

/// What a cue is for, by its media type.
#[derive(Debug, Clone, Copy, PartialEq, Eq, Structural)]
pub enum CueKind {
    /// Transport stop or pause: drop what is pending.
    Flush,
    /// Device-addressed control messages.
    Control,
    /// A score in ABC notation.
    Abc,
    /// A placed clip.
    Clip,
    /// Announces a clip, so that its media can be fetched ahead.
    Prepare,
    /// A sound (a media type that begins with `audio/`).
    Audio,
    /// Anything else.
    Other,
}

/// The media types that cues are told apart by.
#[derive(Debug)]
pub struct CueMimes {
    pub flush: String,
    pub prepare: String,
    pub clip: String,
    pub control: String,
    pub abc: String,
}

/// What a cue with a media type is for.
pub open spec fn cue_kind(mime: Seq<char>, mimes: CueMimes) -> CueKind {
    if mime == mimes.flush@ {
        CueKind::Flush
    } else if mime == mimes.prepare@ {
        CueKind::Prepare
    } else if mime == mimes.clip@ {
        CueKind::Clip
    } else if mime == mimes.control@ {
        CueKind::Control
    } else if mime == mimes.abc@ {
        CueKind::Abc
    } else if strutil::begins_with(mime, "audio/"@) {
        CueKind::Audio
    } else {
        CueKind::Other
    }
}

/// What a cue with a media type is for.
pub fn classify_mime(mime: &str, mimes: &CueMimes) -> (kind: CueKind)
    ensures
        kind == cue_kind(mime@, *mimes),
{
    if strutil::same(mime, mimes.flush.as_str()) {
        CueKind::Flush
    } else if strutil::same(mime, mimes.prepare.as_str()) {
        CueKind::Prepare
    } else if strutil::same(mime, mimes.clip.as_str()) {
        CueKind::Clip
    } else if strutil::same(mime, mimes.control.as_str()) {
        CueKind::Control
    } else if strutil::same(mime, mimes.abc.as_str()) {
        CueKind::Abc
    } else if strutil::starts_with(mime, "audio/") {
        CueKind::Audio
    } else {
        CueKind::Other
    }
}

/// Where the data of a cue is.
#[derive(Debug)]
pub enum CuePayload {
    /// In the cue itself.
    Inline(Vec<u8>),
    /// In the content store, under a hash.
    Cas(String),
}

/// A cue to render something.
#[derive(Debug)]
pub struct RenderCue {
    pub mime: String,
    pub kind: CueKind,
    pub payload: CuePayload,
    /// Nanoseconds from emission to when it should sound.
    pub lead: u128,
    /// When it was emitted, in nanoseconds of the epoch; 0 is no stamp.
    pub epoch_ns: u64,
}

impl RenderCue {
    /// The cue is for what its media type says.
    pub open spec fn wf(&self, mimes: CueMimes) -> bool {
        self.kind == cue_kind(self.mime@, mimes)
    }

    /// A cue, for what its media type says.
    pub fn new(mime: String, payload: CuePayload, lead: u128, epoch_ns: u64, mimes: &CueMimes) -> (cue:
        Self)
        ensures
            cue.wf(*mimes),
            cue.mime == mime,
            cue.payload == payload,
            cue.lead == lead,
            cue.epoch_ns == epoch_ns,
    {
        let kind = classify_mime(mime.as_str(), mimes);
        RenderCue { mime, kind, payload, lead, epoch_ns }
    }
}

/// Why a cue is refused.
#[derive(Debug, Clone, Copy, PartialEq, Eq, Structural)]
pub enum CueRefusal {
    /// The data is in the content store, which this path does not read.
    StoredPayload,
    /// The data is no text.
    NotText,
}

/// What the MIDI sink has to do about a cue.
#[derive(Debug)]
pub enum MidiStep {
    /// Nothing: the cue is for another sink.
    Ignore,
    /// Drop what is scheduled, and silence what sounds.
    Flush,
    /// Decode the control envelope, then route it.
    DecodeControl(String),
    /// Render the score, then place it.
    RenderAbc(String),
    /// Nothing: the cue is refused.
    Refuse(CueRefusal),
}

/// Decide what the MIDI sink does about a cue.
pub fn dispatch_midi_cue(cue: &RenderCue) -> (step: MidiStep)
    ensures
        match cue.kind {
            CueKind::Flush => step is Flush,
            CueKind::Control => match cue.payload {
                CuePayload::Cas(_) => step == MidiStep::Refuse(CueRefusal::StoredPayload),
                CuePayload::Inline(bytes) => if valid_utf8(bytes@) {
                    step matches MidiStep::DecodeControl(s) && encode_utf8(s@) == bytes@
                } else {
                    step == MidiStep::Refuse(CueRefusal::NotText)
                },
            },
            CueKind::Abc => match cue.payload {
                CuePayload::Cas(_) => step == MidiStep::Refuse(CueRefusal::StoredPayload),
                CuePayload::Inline(bytes) => if valid_utf8(bytes@) {
                    step matches MidiStep::RenderAbc(s) && encode_utf8(s@) == bytes@
                } else {
                    step == MidiStep::Refuse(CueRefusal::NotText)
                },
            },
            _ => step is Ignore,
        },
{
    match cue.kind {
        CueKind::Flush => MidiStep::Flush,
        CueKind::Control => match payload_text(&cue.payload) {
            Ok(json) => MidiStep::DecodeControl(json),
            Err(refusal) => MidiStep::Refuse(refusal),
        },
        CueKind::Abc => match payload_text(&cue.payload) {
            Ok(abc) => MidiStep::RenderAbc(abc),
            Err(refusal) => MidiStep::Refuse(refusal),
        },
        _ => MidiStep::Ignore,
    }
}

fn payload_text(payload: &CuePayload) -> (text: Result<String, CueRefusal>)
    ensures
        match payload {
            CuePayload::Cas(_) => text == Err::<String, CueRefusal>(CueRefusal::StoredPayload),
            CuePayload::Inline(bytes) => if valid_utf8(bytes@) {
                text matches Ok(s) && encode_utf8(s@) == bytes@
            } else {
                text == Err::<String, CueRefusal>(CueRefusal::NotText)
            },
        },
{
    match payload {
        CuePayload::Cas(_) => Err(CueRefusal::StoredPayload),
        CuePayload::Inline(bytes) => match textbuf::utf8_text(bytes) {
            Some(text) => {
                proof {
                    encode_utf8_valid_utf8(text@);
                }
                Ok(text)
            },
            None => Err(CueRefusal::NotText),
        },
    }
}

/// How old a cue is on receipt; nothing without a stamp.
pub open spec fn cue_age(epoch_ns: u64, now_epoch_ns: u64) -> Option<u64> {
    if epoch_ns == 0 {
        None
    } else if now_epoch_ns >= epoch_ns {
        Some((now_epoch_ns - epoch_ns) as u64)
    } else {
        Some(0)
    }
}

/// How old a cue is on receipt; nothing without a stamp.
pub fn age_of(epoch_ns: u64, now_epoch_ns: u64) -> (age: Option<u64>)
    ensures
        age == cue_age(epoch_ns, now_epoch_ns),
{
    if epoch_ns == 0 {
        None
    } else if now_epoch_ns >= epoch_ns {
        Some(now_epoch_ns - epoch_ns)
    } else {
        Some(0)
    }
}

/// What becomes of a rendered score.
#[derive(Debug)]
pub enum AbcPlacement {
    /// Schedule the messages, so many nanoseconds from now.
    Schedule(Vec<TimedEvent>, u128),
    /// Nothing: the score has no messages.
    NoEvents,
    /// Nothing: the cue is too stale.
    Stale,
    /// Nothing: every message is in the past.
    AllPast,
}

/// Place the messages of a rendered score by the cue's lead and age.
pub fn place_abc(events: Vec<TimedEvent>, lead: u128, epoch_ns: u64, now_epoch_ns: u64) -> (
    placement: AbcPlacement)
    ensures
        ({
            let all = event_views(events@);
            if all.len() == 0 {
                placement is NoEvents
            } else {
                match backdated(all, lead, cue_age(epoch_ns, now_epoch_ns)) {
                    None => placement is Stale,
                    Some((left, new_lead)) => if left.len() == 0 {
                        placement is AllPast
                    } else {
                        placement matches AbcPlacement::Schedule(out, l) && event_views(out@)
                            == left && l == new_lead
                    },
                }
            }
        }),
{
    if events.len() == 0 {
        return AbcPlacement::NoEvents;
    }
    match backdate_events(events, lead, age_of(epoch_ns, now_epoch_ns)) {
        None => AbcPlacement::Stale,
        Some((left, new_lead)) => {
            assert(event_views(left@).len() == left@.len());
            if left.len() == 0 {
                AbcPlacement::AllPast
            } else {
                AbcPlacement::Schedule(left, new_lead)
            }
        },
    }
}

/// Device-addressed control messages: each with its offset in milliseconds.
#[derive(Debug)]
pub struct ControlEnvelope {
    pub device: String,
    pub events: Vec<(u64, Vec<u8>)>,
}

/// Control messages for a port: each with its offset in nanoseconds.
#[derive(Debug)]
pub struct ControlSend {
    pub device: String,
    pub address: String,
    pub events: Vec<TimedEvent>,
}

/// Messages with offsets in milliseconds, their offsets in nanoseconds.
pub open spec fn in_nanos(events: Seq<(u64, Vec<u8>)>) -> Seq<(u128, Seq<u8>)> {
    events.map_values(|e: (u64, Vec<u8>)| ((e.0 * 1_000_000) as u128, e.1@))
}

/// Route control messages to their device's port, or nowhere: a device without a port is a drop,
/// never a fallback, and no age is too old.
pub fn dispatch_control_cue(envelope: ControlEnvelope, routes: &MidiRoutes) -> (send: Option<
    ControlSend,
>)
    ensures
        match routed(routes@, envelope.device@) {
            Some(address) => send matches Some(s) && s.device@ == envelope.device@ && s.address@
                == address && event_views(s.events@) == in_nanos(envelope.events@),
            None => send is None,
        },
{
    let address = match resolve_route(routes, envelope.device.as_str()) {
        Some(address) => address.to_owned(),
        None => {
            return None;
        },
    };
    let mut events: Vec<TimedEvent> = Vec::new();
    let mut i: usize = 0;
    while i < envelope.events.len()
        invariant
            i <= envelope.events.len(),
            event_views(events@) == in_nanos(envelope.events@).take(i as int),
        decreases envelope.events.len() - i,
    {
        let event = &envelope.events[i];
        let nanos: u128 = event.0 as u128 * 1_000_000;
        let timed: TimedEvent = (nanos, copy_bytes(&event.1));
        let ghost before = event_views(events@);
        events.push(timed);
        assert(event_views(events@) =~= before.push((nanos, event.1@)));
        assert(in_nanos(envelope.events@).take(i + 1) =~= before.push((nanos, event.1@)));
        i = i + 1;
    }
    assert(in_nanos(envelope.events@).take(i as int) =~= in_nanos(envelope.events@));
    Some(ControlSend { device: envelope.device, address, events })
}

// ---------------------------------------------------------------------------
// Clicks
// ---------------------------------------------------------------------------

/// The note-on and note-off bytes for one click, each byte held to its range: a data byte of
/// 128 or more would be a status byte.
pub fn click_bytes(note: u8, channel: u8, velocity: u8) -> (bytes: (Vec<u8>, Vec<u8>))
    ensures
        bytes.0@ == seq![
            (144 + channel % 16) as u8,
            (note % 128) as u8,
            (velocity % 128) as u8,
        ],
        bytes.1@ == seq![(128 + channel % 16) as u8, (note % 128) as u8, 0u8],
{
    assert(0x90u8 | (channel & 0x0F) == 144 + channel % 16) by (bit_vector);
    assert(0x80u8 | (channel & 0x0F) == 128 + channel % 16) by (bit_vector);
    assert(note & 0x7F == note % 128) by (bit_vector);
    assert(velocity & 0x7F == velocity % 128) by (bit_vector);
    let ch: u8 = channel & 0x0F;
    let n: u8 = note & 0x7F;
    let v: u8 = velocity & 0x7F;
    let on: Vec<u8> = vec![0x90 | ch, n, v];
    let off: Vec<u8> = vec![0x80 | ch, n, 0];
    assert(on@ =~= seq![(144 + channel % 16) as u8, (note % 128) as u8, (velocity % 128) as u8]);
    assert(off@ =~= seq![(128 + channel % 16) as u8, (note % 128) as u8, 0u8]);
    (on, off)
}

/// The two messages of a click `offset` nanoseconds from now: on, and off `gate_ms` milliseconds
/// later.
pub fn click_events(note: u8, channel: u8, velocity: u8, gate_ms: u64, offset: u64) -> (events:
    Vec<TimedEvent>)
    ensures
        event_views(events@) == seq![
            (
                offset as u128,
                seq![
                    (144 + channel % 16) as u8,
                    (note % 128) as u8,
                    (velocity % 128) as u8,
                ],
            ),
            (
                (offset + gate_ms * 1_000_000) as u128,
                seq![(128 + channel % 16) as u8, (note % 128) as u8, 0u8],
            ),
        ],
{
    let (on, off) = click_bytes(note, channel, velocity);
    let mut events: Vec<TimedEvent> = Vec::new();
    let start: u128 = offset as u128;
    let over: u128 = start + gate_ms as u128 * 1_000_000;
    events.push((start, on));
    events.push((over, off));
    assert(event_views(events@) =~= seq![(start, on@), (over, off@)]);
    events
}

// ---------------------------------------------------------------------------
// Auto-connect
// ---------------------------------------------------------------------------

/// What the client name of a synthesizer may hold, in any case.
pub const SYNTH_PATTERNS: [&'static str; 2] = ["timidity", "fluidsynth"];

/// One of the sequencer clients of this program, which are never a target.
pub open spec fn own_client(name: Seq<char>) -> bool {
    name == "kaijutsu-app"@ || name == "kaijutsu-ear"@ || name == "kaijutsu-patchview"@
}

/// The render port feeds someone.
pub open spec fn wired_outbound(wires: Seq<WireInfo>, render: (i32, i32)) -> bool {
    exists|i: int| 0 <= i < wires.len() && (#[trigger] wires[i]).src == render
}

/// The name holds one of the patterns, whatever the case.
pub open spec fn name_matches(name: Seq<char>, patterns: Seq<&str>) -> bool {
    exists|i: int|
        0 <= i < patterns.len() && strutil::occurs_in(
            strutil::lower_case((#[trigger] patterns[i])@),
            strutil::lower_case(name),
        )
}

/// A port to connect to: one that takes input, of a synthesizer that is not our own client.
pub open spec fn is_target(e: EndpointInfo, patterns: Seq<&str>) -> bool {
    e.is_sink && !own_client(e.client_name@) && name_matches(e.client_name@, patterns)
}

/// True if the render port already feeds anyone.
pub fn render_has_outbound_wire(wires: &[WireInfo], render: (i32, i32)) -> (wired: bool)
    ensures
        wired == wired_outbound(wires@, render),
{
    let mut i: usize = 0;
    while i < wires.len()
        invariant
            i <= wires.len(),
            forall|k: int| 0 <= k < i ==> (#[trigger] wires@[k]).src != render,
        decreases wires.len() - i,
    {
        let src = wires[i].src;
        if src.0 == render.0 && src.1 == render.1 {
            assert(wires@[i as int].src == render);
            return true;
        }
        i = i + 1;
    }
    false
}

fn is_own_client(name: &str) -> (own: bool)
    ensures
        own == own_client(name@),
{
    strutil::same(name, "kaijutsu-app") || strutil::same(name, "kaijutsu-ear") || strutil::same(
        name,
        "kaijutsu-patchview",
    )
}

fn matches_a_pattern(name: &str, patterns: &[&str]) -> (found: bool)
    ensures
        found == name_matches(name@, patterns@),
{
    let lowered = name.to_lowercase();
    let mut i: usize = 0;
    while i < patterns.len()
        invariant
            i <= patterns.len(),
            lowered@ == strutil::lower_case(name@),
            forall|k: int|
                0 <= k < i ==> !strutil::occurs_in(
                    strutil::lower_case((#[trigger] patterns@[k])@),
                    strutil::lower_case(name@),
                ),
        decreases patterns.len() - i,
    {
        let pattern = patterns[i].to_lowercase();
        if strutil::contains(lowered.as_str(), pattern.as_str()) {
            assert(strutil::occurs_in(
                strutil::lower_case(patterns@[i as int]@),
                strutil::lower_case(name@),
            ));
            return true;
        }
        i = i + 1;
    }
    false
}

/// The port that the render port should connect to: the first target, where the render port
/// feeds no one yet. A wire that someone made is never fought.
pub fn decide_autoconnect(
    endpoints: &[EndpointInfo],
    wires: &[WireInfo],
    render: (i32, i32),
    patterns: &[&str],
) -> (target: Option<(i32, i32)>)
    ensures
        match target {
            Some((client, port)) => !wired_outbound(wires@, render) && exists|i: int|
                0 <= i < endpoints@.len() && is_target(#[trigger] endpoints@[i], patterns@)
                    && endpoints@[i].client_id == client && endpoints@[i].port_id == port && (
                forall|k: int| 0 <= k < i ==> !is_target(#[trigger] endpoints@[k], patterns@)),
            None => wired_outbound(wires@, render) || forall|i: int|
                0 <= i < endpoints@.len() ==> !is_target(#[trigger] endpoints@[i], patterns@),
        },
{
    if render_has_outbound_wire(wires, render) {
        return None;
    }
    match first_target(endpoints, patterns) {
        Some(i) => Some((endpoints[i].client_id, endpoints[i].port_id)),
        None => None,
    }
}

fn first_target(endpoints: &[EndpointInfo], patterns: &[&str]) -> (place: Option<usize>)
    ensures
        match place {
            Some(i) => i < endpoints@.len() && is_target(endpoints@[i as int], patterns@) && (
            forall|k: int| 0 <= k < i ==> !is_target(#[trigger] endpoints@[k], patterns@)),
            None => forall|k: int|
                0 <= k < endpoints@.len() ==> !is_target(#[trigger] endpoints@[k], patterns@),
        },
{
    let mut i: usize = 0;
    while i < endpoints.len()
        invariant
            i <= endpoints.len(),
            forall|k: int| 0 <= k < i ==> !is_target(#[trigger] endpoints@[k], patterns@),
        decreases endpoints.len() - i,
    {
        let e = &endpoints[i];
        if e.is_sink && !is_own_client(e.client_name.as_str()) && matches_a_pattern(
            e.client_name.as_str(),
            patterns,
        ) {
            return Some(i);
        }
        i = i + 1;
    }
    None
}

/// What an auto-connect attempt should do.
#[derive(Debug)]
pub enum ConnectPlan {
    /// Subscribe the render port to this port of the named client.
    Connect { name: String, client: i32, port: i32 },
    /// Nothing: someone wired the render port.
    AlreadyWired,
    /// Nothing: there is no synthesizer yet.
    NoSynth,
}

/// What an auto-connect attempt should do, by the graph that it sees.
pub fn plan_autoconnect(
    endpoints: &[EndpointInfo],
    wires: &[WireInfo],
    render: (i32, i32),
    patterns: &[&str],
) -> (plan: ConnectPlan)
    ensures
        plan is AlreadyWired <==> wired_outbound(wires@, render),
        plan is NoSynth <==> !wired_outbound(wires@, render) && forall|i: int|
            0 <= i < endpoints@.len() ==> !is_target(#[trigger] endpoints@[i], patterns@),
        plan matches ConnectPlan::Connect { name, client, port } ==> exists|i: int|
            0 <= i < endpoints@.len() && is_target(#[trigger] endpoints@[i], patterns@)
                && endpoints@[i].client_id == client && endpoints@[i].port_id == port
                && endpoints@[i].client_name@ == name@ && (forall|k: int|
                0 <= k < i ==> !is_target(#[trigger] endpoints@[k], patterns@)),
{
    if render_has_outbound_wire(wires, render) {
        return ConnectPlan::AlreadyWired;
    }
    match first_target(endpoints, patterns) {
        Some(i) => {
            let e = &endpoints[i];
            ConnectPlan::Connect {
                name: e.client_name.clone(),
                client: e.client_id,
                port: e.port_id,
            }
        },
        None => ConnectPlan::NoSynth,
    }
}

/// The outcome of one auto-connect attempt.
#[derive(Debug)]
pub enum AutoConnectOutcome {
    Connected { name: String, client: i32, port: i32 },
    AlreadyWired,
    NoSynth,
    Failed(String),
    Unavailable,
}

impl AutoConnectOutcome {
    /// Whether the outcome settles the matter for good; otherwise it is tried again.
    pub fn settles(&self) -> (settled: bool)
        ensures
            settled == !(self is NoSynth || self is Failed),
    {
        match self {
            AutoConnectOutcome::Connected { .. } => true,
            AutoConnectOutcome::AlreadyWired => true,
            AutoConnectOutcome::NoSynth => false,
            AutoConnectOutcome::Failed(_) => false,
            AutoConnectOutcome::Unavailable => true,
        }
    }
}

// ---------------------------------------------------------------------------
// The sink
// ---------------------------------------------------------------------------

/// Whether the sink is open, cannot be opened, and has sent anything since last asked.
#[derive(Debug, Clone, Copy, PartialEq, Eq, Structural)]
pub struct MidiSink {
    pub open: bool,
    pub failed: bool,
    pub traffic: bool,
}

/// What to do before a send.
#[derive(Debug, Clone, Copy, PartialEq, Eq, Structural)]
pub enum OpenStep {
    /// The sink is open.
    Ready,
    /// Try to open it.
    TryOpen,
    /// Drop the send: opening failed before.
    Unavailable,
}

impl Default for MidiSink {
    fn default() -> (sink: Self)
        ensures
            !sink.open && !sink.failed && !sink.traffic,
    {
        MidiSink { open: false, failed: false, traffic: false }
    }
}

impl MidiSink {
    /// What to do before a send: opening is tried until it fails once.
    pub fn ensure_open(&self) -> (step: OpenStep)
        ensures
            step == (if self.open {
                OpenStep::Ready
            } else if self.failed {
                OpenStep::Unavailable
            } else {
                OpenStep::TryOpen
            }),
    {
        if self.open {
            OpenStep::Ready
        } else if self.failed {
            OpenStep::Unavailable
        } else {
            OpenStep::TryOpen
        }
    }

    /// Note how an attempt to open went.
    pub fn opened(&mut self, success: bool)
        ensures
            *final(self) == (MidiSink {
                open: old(self).open || success,
                failed: old(self).failed || !success,
                traffic: old(self).traffic,
            }),
    {
        if success {
            self.open = true;
        } else {
            self.failed = true;
        }
    }

    /// Note that something left the render port.
    pub fn sent(&mut self)
        ensures
            *final(self) == (MidiSink { traffic: true, ..*old(self) }),
    {
        self.traffic = true;
    }

    /// Whether anything was sent since this was last asked.
    pub fn take_traffic(&mut self) -> (traffic: bool)
        ensures
            traffic == old(self).traffic,
            *final(self) == (MidiSink { traffic: false, ..*old(self) }),
    {
        let traffic = self.traffic;
        self.traffic = false;
        traffic
    }
}

/// The control ports that were made, one for each device address.
#[derive(Debug)]
pub struct ControlPorts {
    pub list: Vec<((i32, i32), i32)>,
}

impl ControlPorts {
    /// No address has two ports.
    pub open spec fn wf(&self) -> bool {
        forall|i: int, j: int|
            0 <= i < j < self.list@.len() ==> (#[trigger] self.list@[i]).0 != (
            #[trigger] self.list@[j]).0
    }

    /// An address has this port.
    pub open spec fn has(&self, dest: (i32, i32), port: i32) -> bool {
        self.list@.contains((dest, port))
    }

    /// No ports.
    pub fn new() -> (ports: Self)
        ensures
            ports.wf(),
            ports.list@.len() == 0,
    {
        ControlPorts { list: Vec::new() }
    }

    /// The port of an address.
    pub fn get(&self, dest: (i32, i32)) -> (port: Option<i32>)
        requires
            self.wf(),
        ensures
            match port {
                Some(p) => self.has(dest, p),
                None => forall|p: i32| !self.has(dest, p),
            },
    {
        let mut i: usize = 0;
        while i < self.list.len()
            invariant
                i <= self.list.len(),
                forall|k: int| 0 <= k < i ==> (#[trigger] self.list@[k]).0 != dest,
            decreases self.list.len() - i,
        {
            let entry = self.list[i];
            if entry.0.0 == dest.0 && entry.0.1 == dest.1 {
                assert(self.list@[i as int] == (dest, entry.1));
                return Some(entry.1);
            }
            i = i + 1;
        }
        None
    }

    /// Remember the port of an address that has none.
    pub fn insert(&mut self, dest: (i32, i32), port: i32)
        requires
            old(self).wf(),
            forall|p: i32| !old(self).has(dest, p),
        ensures
            final(self).wf(),
            final(self).list@ == old(self).list@.push((dest, port)),
    {
        proof {
            assert forall|k: int| 0 <= k < self.list@.len() implies (#[trigger] self.list@[k]).0
                != dest by {
                let entry = self.list@[k];
                if entry.0 == dest {
                    assert(self.has(dest, entry.1));
                }
            }
        }
        self.list.push((dest, port));
    }

    /// Drop the ports of addresses that no device's first matched port names any more, and say
    /// which they were.
    pub fn prune(&mut self, routes: &MidiRoutes) -> (dropped: Vec<i32>)
        requires
            old(self).wf(),
            routes.wf(),
        ensures
            final(self).wf(),
            final(self).list@ == old(self).list@.filter(
                |e: ((i32, i32), i32)| address_wanted(routes@, e.0),
            ),
            dropped@ == old(self).list@.filter(
                |e: ((i32, i32), i32)| !address_wanted(routes@, e.0),
            ).map_values(|e: ((i32, i32), i32)| e.1),
    {
        let ghost all = self.list@;
        let ghost wanted = |e: ((i32, i32), i32)| address_wanted(routes@, e.0);
        let ghost unwanted = |e: ((i32, i32), i32)| !address_wanted(routes@, e.0);
        let ghost port = |e: ((i32, i32), i32)| e.1;
        let mut kept: Vec<((i32, i32), i32)> = Vec::new();
        let mut dropped: Vec<i32> = Vec::new();
        let mut i: usize = 0;
        proof {
            reveal(Seq::filter);
            assert(dropped@ =~= all.take(0).filter(unwanted).map_values(port));
        }
        while i < self.list.len()
            invariant
                i <= self.list.len(),
                self.list@ == all,
                routes.wf(),
                wanted == (|e: ((i32, i32), i32)| address_wanted(routes@, e.0)),
                unwanted == (|e: ((i32, i32), i32)| !address_wanted(routes@, e.0)),
                port == (|e: ((i32, i32), i32)| e.1),
                kept@ == all.take(i as int).filter(wanted),
                dropped@ == all.take(i as int).filter(unwanted).map_values(port),
            decreases self.list.len() - i,
        {
            let ghost before = all.take(i as int).filter(unwanted);
            proof {
                reveal(Seq::filter);
                assert(all.take(i + 1).drop_last() =~= all.take(i as int));
                assert(before.push(all[i as int]).map_values(port) =~= before.map_values(
                    port,
                ).push(all[i as int].1));
            }
            let entry = self.list[i];
            if is_wanted(routes, entry.0) {
                kept.push(entry);
            } else {
                dropped.push(entry.1);
            }
            i = i + 1;
        }
        assert(all.take(i as int) =~= all);
        proof {
            lemma_filter_keeps_distinct(all, wanted);
        }
        self.list = kept;
        dropped
    }
}

proof fn lemma_filter_keeps_distinct(
    list: Seq<((i32, i32), i32)>,
    pred: spec_fn(((i32, i32), i32)) -> bool,
)
    requires
        forall|i: int, j: int|
            0 <= i < j < list.len() ==> (#[trigger] list[i]).0 != (#[trigger] list[j]).0,
    ensures
        forall|i: int, j: int|
            0 <= i < j < list.filter(pred).len() ==> (#[trigger] list.filter(pred)[i]).0 != (
            #[trigger] list.filter(pred)[j]).0,
        forall|i: int| 0 <= i < list.filter(pred).len() ==> list.contains(list.filter(pred)[i]),
    decreases list.len(),
{
    reveal(Seq::filter);
    if list.len() > 0 {
        let front = list.drop_last();
        let last = list.last();
        lemma_filter_keeps_distinct(front, pred);
        let rest = front.filter(pred);
        assert forall|i: int| 0 <= i < rest.len() implies (#[trigger] rest[i]).0 != last.0
            && list.contains(rest[i]) by {
            assert(front.contains(rest[i]));
            let k = choose|k: int| 0 <= k < front.len() && front[k] == rest[i];
            assert(list[k] == rest[i]);
        }
        assert(list[list.len() - 1] == last);
        assert(list.contains(last));
    }
}

/// A device-addressed cue goes out of the first port that its device matched, and of no other:
/// without one it goes nowhere.
pub proof fn law_a_device_has_its_first_port(
    routes: Map<Seq<char>, Seq<Seq<char>>>,
    device: Seq<char>,
    ports: Seq<Seq<char>>,
)
    ensures
        ports.len() > 0 ==> routed(routes.insert(device, ports), device) == Some(ports[0]),
        ports.len() == 0 ==> routed(routes.insert(device, ports), device) is None,
        routed(routes.remove(device), device) is None,
{
}

/// A sequencer address is a client number, a colon and a port number.
pub proof fn law_written_addresses_read_back(client: nat, port: nat)
    requires
        client <= i32::MAX,
        port <= i32::MAX,
    ensures
        alsa_addr(strutil::digits_of(client) + seq![':'] + strutil::digits_of(port)) == Some(
            (client as i32, port as i32),
        ),
        alsa_addr(strutil::digits_of(client)) is None,
{
    let c = strutil::digits_of(client);
    let p = strutil::digits_of(port);
    strutil::law_spelled_numbers_read_back(client);
    strutil::law_spelled_numbers_read_back(port);
    strutil::law_digits_spell_their_number(client);
    strutil::law_digits_spell_their_number(port);
    assert forall|i: int| 0 <= i < c.len() implies c[i] != ':' by {
        assert(strutil::is_digit(c[i]));
    }
    strutil::law_split_undoes_join(c, ':', p);
    strutil::law_a_text_splits_at_its_first_separator(c, ':');
    lemma_digits_stay(c);
    lemma_digits_stay(p);
}

proof fn lemma_digits_stay(s: Seq<char>)
    requires
        strutil::all_digits(s),
    ensures
        strutil::trimmed(s) == s,
{
    assert(strutil::is_digit(s[0]));
    assert(strutil::is_digit(s[s.len() - 1]));
}

/// What is left of a phrase is what is still to come of it, in its order: without a stamp all of
/// it as it is; otherwise everything that should sound now or later. A phrase that should have
/// begun more than five seconds ago is rejected whole, and no other is.
pub proof fn law_a_late_phrase_goes_on_where_it_is(
    events: Seq<(u128, Seq<u8>)>,
    lead: u128,
    age: u64,
)
    ensures
        backdated(events, lead, None) == Some((events, lead)),
        backdated(events, lead, Some(age)) is None <==> age > lead + 5_000_000_000,
        age <= lead ==> backdated(events, lead, Some(age)) == Some(
            (events, (lead - age) as u128),
        ),
        lead < age <= lead + 5_000_000_000 ==> backdated(events, lead, Some(age)) == Some(
            (
                events.filter(|e: (u128, Seq<u8>)| lead + e.0 >= age).map_values(
                    |e: (u128, Seq<u8>)| ((lead + e.0 - age) as u128, e.1),
                ),
                0u128,
            ),
        ),
{
    if lead < age <= lead + 5_000_000_000 {
        let behind = age - lead;
        let kept = |e: (u128, Seq<u8>)| e.0 >= behind;
        let due = |e: (u128, Seq<u8>)| lead + e.0 >= age;
        let shift = |e: (u128, Seq<u8>)| ((e.0 - behind) as u128, e.1);
        let moved = |e: (u128, Seq<u8>)| ((lead + e.0 - age) as u128, e.1);
        assert(kept =~= due);
        assert(events.filter(kept).map_values(shift) =~= events.filter(due).map_values(moved));
    }
}

/// Channel messages have a status byte from 0x80 to 0xEF; system and meta messages have a higher
/// one, and nothing at all is no message.
pub proof fn law_system_messages_are_no_channel_messages(data: Seq<u8>)
    ensures
        data.len() == 0 ==> !is_channel_voice(data),
        data.len() > 0 && 0x80 <= data[0] <= 0xEF ==> is_channel_voice(data),
        data.len() > 0 && data[0] >= 0xF0 ==> !is_channel_voice(data),
{
}

/// Each media type has its kind, as long as no two are the same; other media types are sounds if
/// they begin with `audio/`, and otherwise nothing that is known.
pub proof fn law_media_types_have_their_kinds(mime: Seq<char>, mimes: CueMimes)
    ensures
        cue_kind(mimes.flush@, mimes) == CueKind::Flush,
        mimes.prepare@ != mimes.flush@ ==> cue_kind(mimes.prepare@, mimes) == CueKind::Prepare,
        mimes.clip@ != mimes.flush@ && mimes.clip@ != mimes.prepare@ ==> cue_kind(
            mimes.clip@,
            mimes,
        ) == CueKind::Clip,
        mimes.control@ != mimes.flush@ && mimes.control@ != mimes.prepare@ && mimes.control@
            != mimes.clip@ ==> cue_kind(mimes.control@, mimes) == CueKind::Control,
        mimes.abc@ != mimes.flush@ && mimes.abc@ != mimes.prepare@ && mimes.abc@ != mimes.clip@
            && mimes.abc@ != mimes.control@ ==> cue_kind(mimes.abc@, mimes) == CueKind::Abc,
        mime != mimes.flush@ && mime != mimes.prepare@ && mime != mimes.clip@ && mime
            != mimes.control@ && mime != mimes.abc@ ==> cue_kind(mime, mimes) == (if mime.len() >= 6
            && mime.take(6) == seq!['a', 'u', 'd', 'i', 'o', '/'] {
            CueKind::Audio
        } else {
            CueKind::Other
        }),
{
    reveal_strlit("audio/");
    assert("audio/"@ =~= seq!['a', 'u', 'd', 'i', 'o', '/']);
}

/// The age of a cue is the time since its stamp, none where that lies ahead; without a stamp it
/// has none.
pub proof fn law_a_cue_ages_with_the_clock(epoch_ns: u64, now_epoch_ns: u64)
    ensures
        cue_age(0, now_epoch_ns) is None,
        0 < epoch_ns <= now_epoch_ns ==> (cue_age(epoch_ns, now_epoch_ns) matches Some(age)
            && epoch_ns + age == now_epoch_ns),
        epoch_ns > now_epoch_ns ==> cue_age(epoch_ns, now_epoch_ns) == Some(0u64),
{
}

/// Control messages keep their order and their bytes, and their offsets in milliseconds become
/// as many millions of nanoseconds.
pub proof fn law_control_offsets_become_nanoseconds(events: Seq<(u64, Vec<u8>)>, i: int)
    requires
        0 <= i < events.len(),
    ensures
        in_nanos(events).len() == events.len(),
        in_nanos(events)[i].0 == events[i].0 * 1_000_000,
        in_nanos(events)[i].1 == events[i].1@,
{
}

/// The render port is only ever connected to a port that takes input, of a client whose name holds
/// one of the patterns, and never to a client of this program.
pub proof fn law_targets_are_other_synthesizers(e: EndpointInfo, patterns: Seq<&str>, k: int)
    ensures
        is_target(e, patterns) ==> {
            &&& e.is_sink
            &&& e.client_name@ != "kaijutsu-app"@
            &&& e.client_name@ != "kaijutsu-ear"@
            &&& e.client_name@ != "kaijutsu-patchview"@
            &&& patterns.len() > 0
        },
        0 <= k < patterns.len() && e.is_sink && strutil::occurs_in(
            strutil::lower_case(patterns[k]@),
            strutil::lower_case(e.client_name@),
        ) && e.client_name@ != "kaijutsu-app"@ && e.client_name@ != "kaijutsu-ear"@
            && e.client_name@ != "kaijutsu-patchview"@ ==> is_target(e, patterns),
{
}

/// The render port feeds someone exactly if some wire starts at it; what feeds it counts for
/// nothing.
pub proof fn law_only_outgoing_wires_count(wires: Seq<WireInfo>, wire: WireInfo, render: (i32, i32))
    ensures
        wired_outbound(wires.push(wire), render) <==> wired_outbound(wires, render) || wire.src
            == render,
        !wired_outbound(Seq::empty(), render),
{
    let more = wires.push(wire);
    assert(more[wires.len() as int] == wire);
    if wired_outbound(wires, render) {
        let i = choose|i: int| 0 <= i < wires.len() && (#[trigger] wires[i]).src == render;
        assert(more[i].src == render);
    }
    if wired_outbound(more, render) && wire.src != render {
        let i = choose|i: int| 0 <= i < more.len() && (#[trigger] more[i]).src == render;
        assert(wires[i].src == render);
    }
}

} // verus!
