//! Audio cue decisions: what to play, when, what to fetch first, and what to drop.

use vstd::prelude::*;
use vstd::utf8::*;
use crate::dj::clock::REF_STALE_MAX;
use crate::dj::clock;
use crate::dj::midi::{CueKind, CuePayload, RenderCue};
use crate::dj::midi;
use crate::dj::prefetch::{Gain, PrefetchKind, PrefetchOutcome};
use crate::textbuf;
use crate::time::Moment;
use crate::time;

verus! {

// ---------------------------------------------------------------------------
// Deadlines
// ---------------------------------------------------------------------------

/// When a cue should sound: its lead after its emission, as far as its stamp tells; nothing
/// where that is further past than [`REF_STALE_MAX`].
pub open spec fn deadline_of(now: Moment, lead: u128, epoch_ns: u64, now_epoch_ns: u64) -> Option<
    Moment,
> {
    match midi::cue_age(epoch_ns, now_epoch_ns) {
        None => Some(clock::moment_after(now, lead as int)),
        Some(age) => if age <= lead {
            Some(clock::moment_after(now, lead - age))
        } else if age - lead > REF_STALE_MAX {
            None
        } else {
            Some(clock::moment_before(now, age - lead))
        },
    }
}

/// When a cue should sound: its lead after its emission, as far as its stamp tells; nothing
/// where that is further past than [`REF_STALE_MAX`].
pub fn effective_deadline(now: Moment, lead: u128, epoch_ns: u64, now_epoch_ns: u64) -> (deadline:
    Option<Moment>)
    ensures
        deadline == deadline_of(now, lead, epoch_ns, now_epoch_ns),
{
    match midi::age_of(epoch_ns, now_epoch_ns) {
        None => Some(moment_plus(now, lead)),
        Some(age) => {
            let age: u128 = age as u128;
            if age <= lead {
                return Some(moment_plus(now, lead - age));
            }
            let behind: u128 = age - lead;
            if behind > REF_STALE_MAX as u128 {
                return None;
            }
            let at: i128 = now.nanos as i128 - behind as i128;
            if at < i64::MIN as i128 {
                Some(Moment { nanos: i64::MIN })
            } else {
                Some(Moment { nanos: at as i64 })
            }
        },
    }
}

fn moment_plus(at: Moment, nanos: u128) -> (m: Moment)
    ensures
        m == clock::moment_after(at, nanos as int),
{
    let room: u128 = (i64::MAX as i128 - at.nanos as i128) as u128;
    if nanos > room {
        Moment { nanos: i64::MAX }
    } else {
        Moment { nanos: (at.nanos as i128 + nanos as i128) as i64 }
    }
}

/// Whether media that came for a deadline still plays.
#[derive(Debug, Clone, Copy, PartialEq, Eq, Structural)]
pub enum DeadlineDecision {
    /// Play it, at the deadline or at once.
    Fire,
    /// Drop it: it is late by so many nanoseconds.
    DropLate { late_by: u64 },
}

/// A cue that was placed in time is dropped when its media is later than `grace` nanoseconds;
/// one that was not plays however late it comes.
pub open spec fn deadline_decision(deadline: Moment, stamped: bool, now: Moment, grace: u64)
    -> DeadlineDecision {
    let late = time::nanos_between(now, deadline);
    if stamped && late > grace {
        DeadlineDecision::DropLate { late_by: late as u64 }
    } else {
        DeadlineDecision::Fire
    }
}

/// A cue that was placed in time is dropped when its media is later than `grace` nanoseconds;
/// one that was not plays however late it comes.
pub fn decide_deadline(deadline: Moment, stamped: bool, now: Moment, grace: u64) -> (decision:
    DeadlineDecision)
    ensures
        decision == deadline_decision(deadline, stamped, now, grace),
{
    let late = now.nanos_since(deadline);
    if stamped && late > grace {
        DeadlineDecision::DropLate { late_by: late }
    } else {
        DeadlineDecision::Fire
    }
}

// ---------------------------------------------------------------------------
// Decisions
// ---------------------------------------------------------------------------

/// Why nothing plays.
#[derive(Debug)]
pub enum AudioRefusal {
    /// The cue is stale.
    Stale,
    /// There is no connection to fetch over.
    NoConnection,
    /// A cue to fetch ahead names nothing to fetch.
    InlinePrepare,
    /// A clip record is no text.
    NotText,
    /// A stored object that no sink knows.
    UnknownStored,
    /// The media came too late, by so many nanoseconds.
    Late { late_by: u64 },
    /// The fetch failed.
    FetchFailed(String),
}

/// What the audio side has to do.
#[derive(Debug)]
pub enum AudioStep {
    /// Nothing.
    Nothing,
    /// Drop what is scheduled.
    Flush,
    /// Play at once.
    PlayNow { bytes: Vec<u8> },
    /// Play at a moment, trimmed (in nanoseconds) and amplified.
    PlayAt {
        bytes: Vec<u8>,
        deadline: Moment,
        src_offset: Option<u128>,
        src_len: Option<u128>,
        gain: Gain,
    },
    /// Fetch an object.
    Fetch { hash: String, mime: String, kind: PrefetchKind },
    /// Parse a clip record, then fetch its media.
    ParseClip { json: String, deadline: Moment, stamped: bool },
    /// The cache is warm: so many bytes.
    Warmed { len: usize, started: Moment },
    /// Nothing, for a reason that should be told.
    Refuse(AudioRefusal),
}

/// Why nothing plays, as mathematical values.
#[verifier::ext_equal]
pub enum RefusalView {
    Stale,
    NoConnection,
    InlinePrepare,
    NotText,
    UnknownStored,
    Late { late_by: u64 },
    FetchFailed(Seq<char>),
}

/// What to do, as mathematical values. A clip record is given by its bytes.
#[verifier::ext_equal]
pub enum StepView {
    Nothing,
    Flush,
    PlayNow { bytes: Seq<u8> },
    PlayAt {
        bytes: Seq<u8>,
        deadline: Moment,
        src_offset: Option<u128>,
        src_len: Option<u128>,
        gain: Gain,
    },
    Fetch { hash: Seq<char>, mime: Seq<char>, kind: PrefetchKind },
    ParseClip { json: Seq<u8>, deadline: Moment, stamped: bool },
    Warmed { len: nat, started: Moment },
    Refuse(RefusalView),
}

impl AudioRefusal {
    /// The reason as mathematical values.
    pub open spec fn view(&self) -> RefusalView {
        match self {
            AudioRefusal::Stale => RefusalView::Stale,
            AudioRefusal::NoConnection => RefusalView::NoConnection,
            AudioRefusal::InlinePrepare => RefusalView::InlinePrepare,
            AudioRefusal::NotText => RefusalView::NotText,
            AudioRefusal::UnknownStored => RefusalView::UnknownStored,
            AudioRefusal::Late { late_by } => RefusalView::Late { late_by: *late_by },
            AudioRefusal::FetchFailed(e) => RefusalView::FetchFailed(e@),
        }
    }
}

impl AudioStep {
    /// The step as mathematical values.
    pub open spec fn view(&self) -> StepView {
        match self {
            AudioStep::Nothing => StepView::Nothing,
            AudioStep::Flush => StepView::Flush,
            AudioStep::PlayNow { bytes } => StepView::PlayNow { bytes: bytes@ },
            AudioStep::PlayAt { bytes, deadline, src_offset, src_len, gain } => StepView::PlayAt {
                bytes: bytes@,
                deadline: *deadline,
                src_offset: *src_offset,
                src_len: *src_len,
                gain: *gain,
            },
            AudioStep::Fetch { hash, mime, kind } => StepView::Fetch {
                hash: hash@,
                mime: mime@,
                kind: *kind,
            },
            AudioStep::ParseClip { json, deadline, stamped } => StepView::ParseClip {
                json: encode_utf8(json@),
                deadline: *deadline,
                stamped: *stamped,
            },
            AudioStep::Warmed { len, started } => StepView::Warmed {
                len: *len as nat,
                started: *started,
            },
            AudioStep::Refuse(r) => StepView::Refuse(r@),
        }
    }
}

/// A fetch, where there is a connection.
pub open spec fn fetch_view(
    hash: Seq<char>,
    mime: Seq<char>,
    kind: PrefetchKind,
    connected: bool,
) -> StepView {
    if connected {
        StepView::Fetch { hash, mime, kind }
    } else {
        StepView::Refuse(RefusalView::NoConnection)
    }
}

/// A clip record to parse, where it is text.
pub open spec fn record_view(bytes: Seq<u8>, deadline: Moment, stamped: bool) -> StepView {
    if valid_utf8(bytes) {
        StepView::ParseClip { json: bytes, deadline, stamped }
    } else {
        StepView::Refuse(RefusalView::NotText)
    }
}

/// No gain.
pub open spec fn no_gain() -> Gain {
    Gain { bits: 0 }
}

/// What to do about a cue.
pub open spec fn cue_step(cue: RenderCue, now: Moment, now_epoch_ns: u64, connected: bool)
    -> StepView {
    let deadline = deadline_of(now, cue.lead, cue.epoch_ns, now_epoch_ns);
    let stamped = cue.epoch_ns != 0;
    match cue.kind {
        CueKind::Flush => StepView::Flush,
        CueKind::Prepare => match cue.payload {
            CuePayload::Cas(hash) => fetch_view(
                hash@,
                cue.mime@,
                PrefetchKind::Warm { started: now },
                connected,
            ),
            CuePayload::Inline(_) => StepView::Refuse(RefusalView::InlinePrepare),
        },
        CueKind::Clip => match deadline {
            None => StepView::Refuse(RefusalView::Stale),
            Some(deadline) => match cue.payload {
                CuePayload::Inline(bytes) => record_view(bytes@, deadline, stamped),
                CuePayload::Cas(hash) => fetch_view(
                    hash@,
                    cue.mime@,
                    PrefetchKind::ClipRecord { deadline, stamped },
                    connected,
                ),
            },
        },
        CueKind::Audio => match cue.payload {
            CuePayload::Inline(bytes) => if cue.lead == 0 && !stamped {
                StepView::PlayNow { bytes: bytes@ }
            } else {
                match deadline {
                    None => StepView::Refuse(RefusalView::Stale),
                    Some(deadline) => StepView::PlayAt {
                        bytes: bytes@,
                        deadline,
                        src_offset: None,
                        src_len: None,
                        gain: no_gain(),
                    },
                }
            },
            CuePayload::Cas(hash) => match deadline {
                None => StepView::Refuse(RefusalView::Stale),
                Some(deadline) => fetch_view(
                    hash@,
                    cue.mime@,
                    PrefetchKind::Audio { deadline, stamped },
                    connected,
                ),
            },
        },
        CueKind::Abc => StepView::Nothing,
        CueKind::Control | CueKind::Other => match cue.payload {
            CuePayload::Inline(_) => StepView::Nothing,
            CuePayload::Cas(_) => StepView::Refuse(RefusalView::UnknownStored),
        },
    }
}

fn fetch(hash: &String, mime: &String, kind: PrefetchKind, connected: bool) -> (step: AudioStep)
    ensures
        step@ == fetch_view(hash@, mime@, kind, connected),
{
    if connected {
        AudioStep::Fetch { hash: hash.clone(), mime: mime.clone(), kind }
    } else {
        AudioStep::Refuse(AudioRefusal::NoConnection)
    }
}

fn parse_record(bytes: &Vec<u8>, deadline: Moment, stamped: bool) -> (step: AudioStep)
    ensures
        step@ == record_view(bytes@, deadline, stamped),
{
    match textbuf::utf8_text(bytes) {
        Some(json) => {
            proof {
                encode_utf8_valid_utf8(json@);
            }
            AudioStep::ParseClip { json, deadline, stamped }
        },
        None => AudioStep::Refuse(AudioRefusal::NotText),
    }
}

/// Decide what to do about a cue. `connected` is whether objects can be fetched.
pub fn dispatch_render_cue(cue: &RenderCue, now: Moment, now_epoch_ns: u64, connected: bool) -> (
    step: AudioStep)
    ensures
        step@ == cue_step(*cue, now, now_epoch_ns, connected),
{
    let stamped = cue.epoch_ns != 0;
    match cue.kind {
        CueKind::Flush => AudioStep::Flush,
        CueKind::Prepare => match &cue.payload {
            CuePayload::Cas(hash) => fetch(
                hash,
                &cue.mime,
                PrefetchKind::Warm { started: now },
                connected,
            ),
            CuePayload::Inline(_) => AudioStep::Refuse(AudioRefusal::InlinePrepare),
        },
        CueKind::Clip => match effective_deadline(now, cue.lead, cue.epoch_ns, now_epoch_ns) {
            None => AudioStep::Refuse(AudioRefusal::Stale),
            Some(deadline) => match &cue.payload {
                CuePayload::Inline(bytes) => parse_record(bytes, deadline, stamped),
                CuePayload::Cas(hash) => fetch(
                    hash,
                    &cue.mime,
                    PrefetchKind::ClipRecord { deadline, stamped },
                    connected,
                ),
            },
        },
        CueKind::Audio => match &cue.payload {
            CuePayload::Inline(bytes) => {
                if cue.lead == 0 && !stamped {
                    return AudioStep::PlayNow { bytes: midi::copy_bytes(bytes) };
                }
                match effective_deadline(now, cue.lead, cue.epoch_ns, now_epoch_ns) {
                    None => AudioStep::Refuse(AudioRefusal::Stale),
                    Some(deadline) => AudioStep::PlayAt {
                        bytes: midi::copy_bytes(bytes),
                        deadline,
                        src_offset: None,
                        src_len: None,
                        gain: Gain { bits: 0 },
                    },
                }
            },
            CuePayload::Cas(hash) => match effective_deadline(
                now,
                cue.lead,
                cue.epoch_ns,
                now_epoch_ns,
            ) {
                None => AudioStep::Refuse(AudioRefusal::Stale),
                Some(deadline) => fetch(
                    hash,
                    &cue.mime,
                    PrefetchKind::Audio { deadline, stamped },
                    connected,
                ),
            },
        },
        CueKind::Abc => AudioStep::Nothing,
        CueKind::Control | CueKind::Other => match &cue.payload {
            CuePayload::Inline(_) => AudioStep::Nothing,
            CuePayload::Cas(_) => AudioStep::Refuse(AudioRefusal::UnknownStored),
        },
    }
}

// ---------------------------------------------------------------------------
// Clips
// ---------------------------------------------------------------------------

/// The fields of a clip record that matter to playing it.
#[derive(Debug)]
pub struct Clip {
    pub media: String,
    pub mime: String,
    pub src_offset_ms: u64,
    pub src_len_ms: Option<u64>,
    pub gain: Gain,
}

/// Milliseconds in nanoseconds.
pub open spec fn millis_in_nanos(ms: u64) -> u128 {
    (ms * 1_000_000) as u128
}

fn nanos_of_millis(ms: u64) -> (nanos: u128)
    ensures
        nanos == millis_in_nanos(ms),
{
    ms as u128 * 1_000_000
}

/// Where in its media a clip begins; nothing where it begins at the start.
pub fn clip_source_offset(clip: &Clip) -> (offset: Option<u128>)
    ensures
        offset == (if clip.src_offset_ms == 0 {
            None
        } else {
            Some(millis_in_nanos(clip.src_offset_ms))
        }),
{
    if clip.src_offset_ms == 0 {
        None
    } else {
        Some(nanos_of_millis(clip.src_offset_ms))
    }
}

/// What a clip's media is fetched for.
pub open spec fn clip_media(clip: Clip, deadline: Moment, stamped: bool) -> PrefetchKind {
    PrefetchKind::ClipMedia {
        deadline,
        stamped,
        src_offset: if clip.src_offset_ms == 0 {
            None
        } else {
            Some(millis_in_nanos(clip.src_offset_ms))
        },
        src_len: match clip.src_len_ms {
            Some(ms) => Some(millis_in_nanos(ms)),
            None => None,
        },
        gain: clip.gain,
    }
}

/// What a clip's media is fetched for.
pub fn clip_media_fetch(clip: &Clip, deadline: Moment, stamped: bool) -> (kind: PrefetchKind)
    ensures
        kind == clip_media(*clip, deadline, stamped),
{
    PrefetchKind::ClipMedia {
        deadline,
        stamped,
        src_offset: clip_source_offset(clip),
        src_len: match clip.src_len_ms {
            Some(ms) => Some(nanos_of_millis(ms)),
            None => None,
        },
        gain: clip.gain,
    }
}

/// What to do about a clip record that was parsed: fetch its media.
pub fn dispatch_clip_media(clip: &Clip, deadline: Moment, stamped: bool, connected: bool) -> (step:
    AudioStep)
    ensures
        step@ == fetch_view(clip.media@, clip.mime@, clip_media(*clip, deadline, stamped), connected),
{
    let kind = clip_media_fetch(clip, deadline, stamped);
    fetch(&clip.media, &clip.mime, kind, connected)
}

// ---------------------------------------------------------------------------
// Fetched objects
// ---------------------------------------------------------------------------

/// Play media for a deadline, or drop it.
pub open spec fn play_view(
    bytes: Seq<u8>,
    deadline: Moment,
    stamped: bool,
    now: Moment,
    grace: u64,
    src_offset: Option<u128>,
    src_len: Option<u128>,
    gain: Gain,
) -> StepView {
    match deadline_decision(deadline, stamped, now, grace) {
        DeadlineDecision::Fire => StepView::PlayAt { bytes, deadline, src_offset, src_len, gain },
        DeadlineDecision::DropLate { late_by } => StepView::Refuse(RefusalView::Late { late_by }),
    }
}

/// What to do about a fetched object.
pub open spec fn outcome_step(outcome: PrefetchOutcome, now: Moment, grace: u64) -> StepView {
    match outcome.result {
        Err(e) => StepView::Refuse(RefusalView::FetchFailed(e@)),
        Ok(bytes) => match outcome.kind {
            PrefetchKind::Audio { deadline, stamped } => play_view(
                bytes@,
                deadline,
                stamped,
                now,
                grace,
                None,
                None,
                no_gain(),
            ),
            PrefetchKind::ClipRecord { deadline, stamped } => record_view(
                bytes@,
                deadline,
                stamped,
            ),
            PrefetchKind::ClipMedia { deadline, stamped, src_offset, src_len, gain } => play_view(
                bytes@,
                deadline,
                stamped,
                now,
                grace,
                src_offset,
                src_len,
                gain,
            ),
            PrefetchKind::Warm { started } => StepView::Warmed { len: bytes@.len(), started },
        },
    }
}

/// Decide what to do about a fetched object; `grace` is how late (in nanoseconds) placed media
/// may come.
pub fn handle_prefetch_outcome(outcome: PrefetchOutcome, now: Moment, grace: u64) -> (step:
    AudioStep)
    ensures
        step@ == outcome_step(outcome, now, grace),
{
    let bytes = match outcome.result {
        Ok(bytes) => bytes,
        Err(e) => {
            return AudioStep::Refuse(AudioRefusal::FetchFailed(e));
        },
    };
    match outcome.kind {
        PrefetchKind::Audio { deadline, stamped } => match decide_deadline(
            deadline,
            stamped,
            now,
            grace,
        ) {
            DeadlineDecision::Fire => AudioStep::PlayAt {
                bytes,
                deadline,
                src_offset: None,
                src_len: None,
                gain: Gain { bits: 0 },
            },
            DeadlineDecision::DropLate { late_by } => AudioStep::Refuse(
                AudioRefusal::Late { late_by },
            ),
        },
        PrefetchKind::ClipRecord { deadline, stamped } => parse_record(&bytes, deadline, stamped),
        PrefetchKind::ClipMedia { deadline, stamped, src_offset, src_len, gain } => {
            match decide_deadline(deadline, stamped, now, grace) {
                DeadlineDecision::Fire => AudioStep::PlayAt {
                    bytes,
                    deadline,
                    src_offset,
                    src_len,
                    gain,
                },
                DeadlineDecision::DropLate { late_by } => AudioStep::Refuse(
                    AudioRefusal::Late { late_by },
                ),
            }
        },
        PrefetchKind::Warm { started } => AudioStep::Warmed { len: bytes.len(), started },
    }
}

/// The media of a cue plays against the deadline that was fixed when the cue came, however long
/// the fetch took: it plays then, or, placed and too late, not at all.
pub proof fn law_a_fetch_never_moves_the_deadline(
    cue: RenderCue,
    received: Moment,
    now_epoch_ns: u64,
    outcome: PrefetchOutcome,
    now: Moment,
    grace: u64,
)
    requires
        cue.kind == CueKind::Audio,
        cue.payload is Cas,
        cue_step(cue, received, now_epoch_ns, true) matches StepView::Fetch { kind, .. }
            && outcome.kind == kind,
    ensures
        outcome_step(outcome, now, grace) matches StepView::PlayAt { deadline, .. } ==> Some(
            deadline,
        ) == deadline_of(received, cue.lead, cue.epoch_ns, now_epoch_ns),
{
}

/// A cue without a stamp is never dropped for being late.
pub proof fn law_unplaced_media_always_plays(outcome: PrefetchOutcome, now: Moment, grace: u64)
    requires
        outcome.result is Ok,
        match outcome.kind {
            PrefetchKind::Audio { stamped, .. } => !stamped,
            PrefetchKind::ClipMedia { stamped, .. } => !stamped,
            _ => false,
        },
    ensures
        outcome_step(outcome, now, grace) is PlayAt,
{
}

/// A cue that only warms the cache plays nothing, and none is too stale for it.
pub proof fn law_warming_is_never_stale(
    cue: RenderCue,
    now: Moment,
    now_epoch_ns: u64,
    connected: bool,
)
    requires
        cue.kind == CueKind::Prepare,
    ensures
        cue_step(cue, now, now_epoch_ns, connected) != StepView::Refuse(RefusalView::Stale),
        !(cue_step(cue, now, now_epoch_ns, connected) is PlayNow),
        !(cue_step(cue, now, now_epoch_ns, connected) is PlayAt),
{
}

/// A clip that is stored comes to the same as one that is sent along: what its fetch brings is
/// taken as the clip record, for the deadline that was fixed when the cue came, and is never
/// played itself.
pub proof fn law_a_stored_clip_is_like_one_sent_along(
    stored: RenderCue,
    sent: RenderCue,
    received: Moment,
    now_epoch_ns: u64,
    outcome: PrefetchOutcome,
    now: Moment,
    grace: u64,
)
    requires
        stored.kind == CueKind::Clip,
        sent.kind == CueKind::Clip,
        stored.lead == sent.lead,
        stored.epoch_ns == sent.epoch_ns,
        stored.payload is Cas,
        outcome.result is Ok,
        sent.payload matches CuePayload::Inline(bytes) && bytes@ == outcome.result->Ok_0@,
        cue_step(stored, received, now_epoch_ns, true) matches StepView::Fetch { kind, .. }
            ==> outcome.kind == kind,
    ensures
        match deadline_of(received, stored.lead, stored.epoch_ns, now_epoch_ns) {
            None => cue_step(stored, received, now_epoch_ns, true) == StepView::Refuse(
                RefusalView::Stale,
            ),
            Some(deadline) => {
                let bytes = outcome.result->Ok_0@;
                let step = outcome_step(outcome, now, grace);
                &&& cue_step(stored, received, now_epoch_ns, true) is Fetch
                &&& step == cue_step(sent, received, now_epoch_ns, true)
                &&& valid_utf8(bytes) ==> step == (StepView::ParseClip {
                    json: bytes,
                    deadline,
                    stamped: stored.epoch_ns != 0,
                })
                &&& !valid_utf8(bytes) ==> step == StepView::Refuse(RefusalView::NotText)
                &&& !(step is PlayNow) && !(step is PlayAt)
            },
        },
{
}

/// A sound that is stored plays its fetched bytes as they are at the moment at which one sent
/// along would have played, unless it is placed in time and comes later than the grace.
pub proof fn law_a_stored_sound_is_like_one_sent_along(
    stored: RenderCue,
    sent: RenderCue,
    received: Moment,
    now_epoch_ns: u64,
    outcome: PrefetchOutcome,
    now: Moment,
    grace: u64,
)
    requires
        stored.kind == CueKind::Audio,
        sent.kind == CueKind::Audio,
        stored.lead == sent.lead,
        stored.epoch_ns == sent.epoch_ns,
        stored.lead > 0 || stored.epoch_ns != 0,
        stored.payload is Cas,
        outcome.result is Ok,
        sent.payload matches CuePayload::Inline(bytes) && bytes@ == outcome.result->Ok_0@,
        cue_step(stored, received, now_epoch_ns, true) matches StepView::Fetch { kind, .. }
            ==> outcome.kind == kind,
    ensures
        match deadline_of(received, stored.lead, stored.epoch_ns, now_epoch_ns) {
            None => {
                &&& cue_step(stored, received, now_epoch_ns, true) == StepView::Refuse(
                    RefusalView::Stale,
                )
                &&& cue_step(sent, received, now_epoch_ns, true) == StepView::Refuse(
                    RefusalView::Stale,
                )
            },
            Some(deadline) => {
                let late = now.nanos - deadline.nanos;
                let step = outcome_step(outcome, now, grace);
                &&& cue_step(stored, received, now_epoch_ns, true) is Fetch
                &&& cue_step(sent, received, now_epoch_ns, true) == (StepView::PlayAt {
                    bytes: outcome.result->Ok_0@,
                    deadline,
                    src_offset: None,
                    src_len: None,
                    gain: Gain { bits: 0 },
                })
                &&& stored.epoch_ns == 0 || late <= grace ==> step == cue_step(
                    sent,
                    received,
                    now_epoch_ns,
                    true,
                )
                &&& stored.epoch_ns != 0 && late > grace ==> step == StepView::Refuse(
                    RefusalView::Late { late_by: late as u64 },
                )
            },
        },
{
}

/// A cue with a stamp sounds at one moment, whenever it is received: its lead after its emission.
/// Receiving it later by some time changes nothing, as long as it is not stale.
pub proof fn law_the_deadline_does_not_depend_on_the_receipt(
    now: Moment,
    lead: u128,
    epoch_ns: u64,
    now_epoch_ns: u64,
    by: int,
)
    requires
        0 < epoch_ns <= now_epoch_ns,
        0 <= by,
        now.nanos + by <= i64::MAX,
        now_epoch_ns + by <= u64::MAX,
        now_epoch_ns + by - epoch_ns <= lead + 5_000_000_000,
        i64::MIN <= now.nanos - (now_epoch_ns - epoch_ns) + lead <= i64::MAX,
    ensures
        deadline_of(now, lead, epoch_ns, now_epoch_ns) == Some(
            Moment { nanos: (now.nanos - (now_epoch_ns - epoch_ns) + lead) as i64 },
        ),
        deadline_of(
            Moment { nanos: (now.nanos + by) as i64 },
            lead,
            epoch_ns,
            (now_epoch_ns + by) as u64,
        ) == deadline_of(now, lead, epoch_ns, now_epoch_ns),
{
}

/// Without a stamp a cue sounds its lead after it was received, and is never stale; a stamp that
/// lies ahead counts as now. With a stamp it is stale exactly if it should have sounded more than
/// five seconds ago.
pub proof fn law_stale_cues_are_five_seconds_late(
    now: Moment,
    lead: u128,
    epoch_ns: u64,
    now_epoch_ns: u64,
)
    ensures
        deadline_of(now, lead, epoch_ns, now_epoch_ns) is None <==> epoch_ns != 0 && now_epoch_ns
            - epoch_ns > lead + 5_000_000_000,
        epoch_ns == 0 || now_epoch_ns <= epoch_ns ==> (deadline_of(
            now,
            lead,
            epoch_ns,
            now_epoch_ns,
        ) matches Some(deadline) && deadline.nanos == (if now.nanos + lead <= i64::MAX {
            now.nanos + lead
        } else {
            i64::MAX as int
        })),
{
}

/// What is fetched for a cue is the object that it names, of its media type; without a connection
/// nothing is.
pub proof fn law_a_fetch_asks_for_the_cue_s_object(
    cue: RenderCue,
    now: Moment,
    now_epoch_ns: u64,
    connected: bool,
)
    ensures
        cue_step(cue, now, now_epoch_ns, connected) matches StepView::Fetch { hash, mime, kind }
            ==> {
            &&& connected
            &&& (cue.payload matches CuePayload::Cas(named) && hash == named@)
            &&& mime == cue.mime@
            &&& cue.kind == CueKind::Prepare ==> kind == (PrefetchKind::Warm { started: now })
            &&& cue.kind == CueKind::Prepare || cue.kind == CueKind::Clip || cue.kind
                == CueKind::Audio
        },
        cue.kind == CueKind::Prepare && cue.payload is Cas && connected ==> cue_step(
            cue,
            now,
            now_epoch_ns,
            connected,
        ) is Fetch,
        cue.kind == CueKind::Prepare && cue.payload is Cas && !connected ==> cue_step(
            cue,
            now,
            now_epoch_ns,
            connected,
        ) == StepView::Refuse(RefusalView::NoConnection),
{
}

/// A flush drops what is scheduled; scores are no sounds; what no sink knows is refused where it
/// would have to be fetched, and passed over where it is sent along.
pub proof fn law_cues_without_sound(cue: RenderCue, now: Moment, now_epoch_ns: u64, connected: bool)
    ensures
        cue.kind == CueKind::Flush ==> cue_step(cue, now, now_epoch_ns, connected)
            == StepView::Flush,
        cue.kind == CueKind::Abc ==> cue_step(cue, now, now_epoch_ns, connected)
            == StepView::Nothing,
        cue.kind == CueKind::Control || cue.kind == CueKind::Other ==> cue_step(
            cue,
            now,
            now_epoch_ns,
            connected,
        ) == (if cue.payload is Cas {
            StepView::Refuse(RefusalView::UnknownStored)
        } else {
            StepView::Nothing
        }),
        cue.kind == CueKind::Prepare && cue.payload is Inline ==> cue_step(
            cue,
            now,
            now_epoch_ns,
            connected,
        ) == StepView::Refuse(RefusalView::InlinePrepare),
{
}

/// A sound that is sent along without a lead and without a stamp plays at once.
pub proof fn law_an_unplaced_sound_plays_at_once(
    cue: RenderCue,
    now: Moment,
    now_epoch_ns: u64,
    connected: bool,
)
    requires
        cue.kind == CueKind::Audio,
        cue.lead == 0,
        cue.epoch_ns == 0,
        cue.payload is Inline,
    ensures
        cue_step(cue, now, now_epoch_ns, connected) == (StepView::PlayNow {
            bytes: cue.payload->Inline_0@,
        }),
{
}

/// The media of a clip plays at the clip's deadline, from its offset on, for its length and with
/// its gain, each in nanoseconds; placed in time, not where it comes later than the grace. A clip
/// without an offset plays from the start, one without a length to the end.
pub proof fn law_clip_media_plays_as_its_record_says(
    clip: Clip,
    deadline: Moment,
    stamped: bool,
    outcome: PrefetchOutcome,
    now: Moment,
    grace: u64,
)
    requires
        outcome.kind == clip_media(clip, deadline, stamped),
        outcome.result is Ok,
    ensures
        !stamped || now.nanos - deadline.nanos <= grace ==> (outcome_step(
            outcome,
            now,
            grace,
        ) matches StepView::PlayAt { bytes, deadline: at, src_offset, src_len, gain } && bytes
            == outcome.result->Ok_0@ && at == deadline && gain == clip.gain && (
        if clip.src_offset_ms == 0 {
            src_offset is None
        } else {
            src_offset matches Some(nanos) && nanos == clip.src_offset_ms * 1_000_000
        }) && match clip.src_len_ms {
            Some(ms) => src_len matches Some(nanos) && nanos == ms * 1_000_000,
            None => src_len is None,
        }),
        stamped && now.nanos - deadline.nanos > grace ==> outcome_step(outcome, now, grace)
            == StepView::Refuse(
            RefusalView::Late { late_by: (now.nanos - deadline.nanos) as u64 },
        ),
{
}

/// A fetch that failed plays nothing and says why; one that warms the cache reports its bytes.
pub proof fn law_other_fetches_play_nothing(outcome: PrefetchOutcome, now: Moment, grace: u64)
    ensures
        outcome.result matches Err(e) ==> outcome_step(outcome, now, grace) == StepView::Refuse(
            RefusalView::FetchFailed(e@),
        ),
        outcome.result is Ok && outcome.kind is Warm ==> outcome_step(outcome, now, grace) == (
        StepView::Warmed {
            len: outcome.result->Ok_0@.len(),
            started: outcome.kind->Warm_started,
        }),
{
}

} // verus!
