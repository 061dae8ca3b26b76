//! The DJ loop: what each message means to the clock and the sinks, and how long to sleep.

use vstd::prelude::*;
use crate::dj::clock::{
    BeatPhase, ClockTransition, DjCore, DueClicks, MetronomeConfig, PhasorStep,
};
use crate::dj::clock;
use crate::dj::midi::CueKind;
use crate::time::Moment;

verus! {

/// How far ahead (in nanoseconds) clicks are scheduled.
pub const SCHEDULE_HORIZON: u64 = 250_000_000;

/// How long (in nanoseconds) the click timer sleeps without a phasor.
pub const NO_PHASOR_SLEEP: u64 = 3_600_000_000_000;

/// Something to record.
#[derive(Debug, Clone, Copy, PartialEq, Eq, Structural)]
pub enum DjEffect {
    /// The clock mode changed.
    Transition(ClockTransition),
    /// The phasor was corrected.
    Slew,
    /// A click went out.
    Click,
}

/// What a server event means to the clock.
#[derive(Debug, Clone, Copy, PartialEq, Eq, Structural)]
pub enum DjEvent {
    /// A beat reference with its stamp (0 is no stamp).
    BeatSync { epoch_ns: u64 },
    /// A cue.
    RenderCue(CueKind),
    /// Anything else.
    Other,
}

/// What a server event makes of the clock: the state, the phasor's step, and the effects in
/// order.
pub open spec fn server_event(dj: DjCore, event: DjEvent, now: Moment, now_epoch_ns: u64) -> (
    DjCore,
    PhasorStep,
    Seq<DjEffect>,
) {
    match event {
        DjEvent::BeatSync { epoch_ns } => {
            let (state, obs) = dj.observed(clock::disposition_of(epoch_ns, now, now_epoch_ns), now);
            let slew = if obs.step is Correct {
                seq![DjEffect::Slew]
            } else {
                Seq::empty()
            };
            (state, obs.step, slew + transition_effects(obs.transition))
        },
        DjEvent::RenderCue(CueKind::Flush) => (
            dj.fallen_back(),
            PhasorStep::Leave,
            transition_effects(dj.fallback_report(clock::TransitionReason::Flush)),
        ),
        _ => (dj, PhasorStep::Leave, Seq::empty()),
    }
}

/// The effects of a transition, if there was one.
pub open spec fn transition_effects(transition: Option<ClockTransition>) -> Seq<DjEffect> {
    match transition {
        Some(t) => seq![DjEffect::Transition(t)],
        None => Seq::empty(),
    }
}

/// Take in one server event: a beat reference, or a flush; nothing else concerns the clock.
pub fn handle_server_event(core: &mut DjCore, event: &DjEvent, now: Moment, now_epoch_ns: u64) -> (
    report: (PhasorStep, Vec<DjEffect>))
    requires
        old(core).wf(),
    ensures
        (*final(core), report.0, report.1@) == server_event(*old(core), *event, now, now_epoch_ns),
        final(core).wf(),
{
    let ghost before = *core;
    let mut effects: Vec<DjEffect> = Vec::new();
    let mut step = PhasorStep::Leave;
    match event {
        DjEvent::BeatSync { epoch_ns } => {
            let disposition = clock::disposition(*epoch_ns, now, now_epoch_ns);
            let obs = core.observe_beat_sync(disposition, now);
            step = obs.step;
            if let PhasorStep::Correct(_) = obs.step {
                effects.push(DjEffect::Slew);
            }
            if let Some(t) = obs.transition {
                effects.push(DjEffect::Transition(t));
            }
        },
        DjEvent::RenderCue(kind) => {
            if *kind == CueKind::Flush {
                if let Some(t) = core.on_flush() {
                    effects.push(DjEffect::Transition(t));
                }
            }
        },
        DjEvent::Other => {},
    }
    assert(effects@ =~= server_event(before, *event, now, now_epoch_ns).2);
    (step, effects)
}

/// Take in the connection status: anything but connected halts the clock.
pub fn handle_status_change(core: &mut DjCore, connected: bool) -> (effect: Option<DjEffect>)
    requires
        old(core).wf(),
    ensures
        final(core).wf(),
        connected ==> *final(core) == *old(core) && effect is None,
        !connected ==> *final(core) == old(core).fallen_back(),
        !connected ==> effect == match old(core).fallback_report(
            clock::TransitionReason::Disconnect,
        ) {
            Some(t) => Some(DjEffect::Transition(t)),
            None => None,
        },
{
    if connected {
        return None;
    }
    match core.on_disconnect() {
        Some(t) => Some(DjEffect::Transition(t)),
        None => None,
    }
}

/// One click for the MIDI sink.
#[derive(Debug, Clone, Copy, PartialEq, Eq, Structural)]
pub struct ClickCommand {
    pub note: u8,
    pub channel: u8,
    pub velocity: u8,
    pub gate_ms: u64,
    /// Nanoseconds from now.
    pub offset: u64,
}

/// The click at an offset.
pub open spec fn click_at(metronome: MetronomeConfig, offset: u64) -> ClickCommand {
    ClickCommand {
        note: metronome.note,
        channel: metronome.channel,
        velocity: metronome.velocity,
        gate_ms: metronome.gate_ms,
        offset,
    }
}

/// The clicks to send: one for each due offset, where clicks are enabled and there is a sink.
pub open spec fn clicks_of(metronome: MetronomeConfig, has_sink: bool, offsets: Seq<u64>) -> Seq<
    ClickCommand,
> {
    if metronome.enabled && has_sink {
        offsets.map_values(|offset: u64| click_at(metronome, offset))
    } else {
        Seq::empty()
    }
}

/// Turn due clicks into commands for the sink, and say what to record: one click for each
/// command, then the transition, which is recorded with or without a sink.
pub fn handle_due_clicks(metronome: &MetronomeConfig, has_sink: bool, due: &DueClicks) -> (report: (
    Vec<ClickCommand>,
    Vec<DjEffect>,
))
    ensures
        report.0@ == clicks_of(*metronome, has_sink, due.offsets@),
        report.1@ == Seq::new(report.0@.len(), |i: int| DjEffect::Click) + transition_effects(
            due.transition,
        ),
{
    let mut clicks: Vec<ClickCommand> = Vec::new();
    let mut effects: Vec<DjEffect> = Vec::new();
    let ghost all = due.offsets@.map_values(|offset: u64| click_at(*metronome, offset));
    if metronome.enabled && has_sink {
        let mut i: usize = 0;
        while i < due.offsets.len()
            invariant
                i <= due.offsets.len(),
                all == due.offsets@.map_values(|offset: u64| click_at(*metronome, offset)),
                clicks@ == all.take(i as int),
                effects@ == Seq::new(i as nat, |k: int| DjEffect::Click),
            decreases due.offsets.len() - i,
        {
            let command = ClickCommand {
                note: metronome.note,
                channel: metronome.channel,
                velocity: metronome.velocity,
                gate_ms: metronome.gate_ms,
                offset: due.offsets[i],
            };
            clicks.push(command);
            effects.push(DjEffect::Click);
            assert(all.take(i + 1) =~= all.take(i as int).push(all[i as int]));
            assert(effects@ =~= Seq::new((i + 1) as nat, |k: int| DjEffect::Click));
            i = i + 1;
        }
        assert(all.take(i as int) =~= all);
    }
    let ghost sent = effects@;
    if let Some(t) = due.transition {
        effects.push(DjEffect::Transition(t));
    }
    assert(effects@ =~= sent + transition_effects(due.transition));
    assert(sent =~= Seq::new(clicks@.len(), |i: int| DjEffect::Click));
    (clicks, effects)
}

/// When the loop's timer should fire: as the next beat enters the horizon, an hour on without a
/// phasor, but never after the beat grid goes stale.
pub open spec fn sleep_target(dj: DjCore, now: Moment, phase: Option<BeatPhase>) -> Moment {
    let wake = match dj.wake(now, SCHEDULE_HORIZON, phase) {
        Some(wake) => wake,
        None => clock::moment_after(now, NO_PHASOR_SLEEP as int),
    };
    match dj.stale_deadline() {
        Some(deadline) => if deadline.nanos < wake.nanos {
            deadline
        } else {
            wake
        },
        None => wake,
    }
}

/// When the loop's timer should fire.
pub fn next_timer(core: &DjCore, now: Moment, phase: Option<BeatPhase>) -> (target: Moment)
    ensures
        target == sleep_target(*core, now, phase),
{
    let wake = match core.next_wake(now, SCHEDULE_HORIZON, phase) {
        Some(wake) => wake,
        None => if now.nanos > i64::MAX - 3_600_000_000_000 {
            Moment { nanos: i64::MAX }
        } else {
            Moment { nanos: now.nanos + 3_600_000_000_000 }
        },
    };
    match core.next_stale_deadline() {
        Some(deadline) => if deadline.nanos < wake.nanos {
            deadline
        } else {
            wake
        },
        None => wake,
    }
}

/// The loop never sleeps past the moment at which the beat grid stops being trusted.
pub proof fn law_the_loop_wakes_by_the_stale_deadline(
    dj: DjCore,
    now: Moment,
    phase: Option<BeatPhase>,
)
    requires
        dj.wf(),
        dj.mode == clock::ClockMode::BeatGrid,
    ensures
        sleep_target(dj, now, phase).nanos <= dj.stale_deadline().unwrap().nanos,
{
}

/// A control message to the loop.
#[derive(Debug, Clone, Copy, PartialEq, Eq, Structural)]
pub enum DjCtl {
    /// A fresh connection, and whether it is up already.
    ActorReady { connected: bool },
    /// A new click configuration.
    MetronomeConfig(MetronomeConfig),
    /// Stop.
    Shutdown,
}

/// What the loop keeps besides its channels.
#[derive(Debug, Clone, Copy, PartialEq, Eq, Structural)]
pub struct DjLoop {
    pub dj: DjCore,
    /// Whether objects can be fetched.
    pub connected: bool,
    /// The auto-connect has settled, and is not tried again.
    pub autoconnect_done: bool,
}

/// What to do about a control message.
#[derive(Debug, Clone, Copy, PartialEq, Eq, Structural)]
pub struct CtlReply {
    /// Drop the old subscriptions, and subscribe to the fresh connection.
    pub resubscribe: bool,
    /// Something to record.
    pub effect: Option<DjEffect>,
    /// Go on; otherwise the loop ends.
    pub running: bool,
}

impl Default for DjLoop {
    fn default() -> (state: Self)
        ensures
            state == (DjLoop {
                dj: clock::idle_core(),
                connected: false,
                autoconnect_done: false,
            }),
            state.wf(),
    {
        DjLoop { dj: DjCore::default(), connected: false, autoconnect_done: false }
    }
}

impl DjLoop {
    /// The clock is well-formed.
    pub open spec fn wf(&self) -> bool {
        self.dj.wf()
    }

    /// The state after a connection level was read.
    pub open spec fn with_level(self, connected: bool) -> DjLoop {
        DjLoop {
            dj: if connected {
                self.dj
            } else {
                self.dj.fallen_back()
            },
            connected,
            ..self
        }
    }

    /// The report on reading a connection level.
    pub open spec fn level_report(self, connected: bool) -> Option<DjEffect> {
        if connected {
            None
        } else {
            match self.dj.fallback_report(clock::TransitionReason::Disconnect) {
                Some(t) => Some(DjEffect::Transition(t)),
                None => None,
            }
        }
    }

    /// Read the connection level.
    pub fn on_status(&mut self, connected: bool) -> (effect: Option<DjEffect>)
        requires
            old(self).wf(),
        ensures
            *final(self) == old(self).with_level(connected),
            final(self).wf(),
            effect == old(self).level_report(connected),
    {
        self.connected = connected;
        handle_status_change(&mut self.dj, connected)
    }

    /// Take in a control message; a closed channel (`None`) ends the loop like a shutdown. A
    /// fresh connection is read at its level, since no change would announce it.
    pub fn on_ctl(&mut self, ctl: Option<DjCtl>) -> (reply: CtlReply)
        requires
            old(self).wf(),
        ensures
            final(self).wf(),
            match ctl {
                Some(DjCtl::ActorReady { connected }) => *final(self) == old(self).with_level(
                    connected,
                ) && reply == (CtlReply {
                    resubscribe: true,
                    effect: old(self).level_report(connected),
                    running: true,
                }),
                Some(DjCtl::MetronomeConfig(config)) => *final(self) == (DjLoop {
                    dj: DjCore { metronome: config, ..old(self).dj },
                    ..*old(self)
                }) && reply == (CtlReply { resubscribe: false, effect: None, running: true }),
                Some(DjCtl::Shutdown) | None => *final(self) == *old(self) && reply == (CtlReply {
                    resubscribe: false,
                    effect: None,
                    running: false,
                }),
            },
    {
        match ctl {
            Some(DjCtl::ActorReady { connected }) => {
                let effect = self.on_status(connected);
                CtlReply { resubscribe: true, effect, running: true }
            },
            Some(DjCtl::MetronomeConfig(config)) => {
                self.dj.metronome = config;
                CtlReply { resubscribe: false, effect: None, running: true }
            },
            Some(DjCtl::Shutdown) => CtlReply { resubscribe: false, effect: None, running: false },
            None => CtlReply { resubscribe: false, effect: None, running: false },
        }
    }

    /// Take in a server event: what it means to the clock.
    pub fn on_event(&mut self, event: &DjEvent, now: Moment, now_epoch_ns: u64) -> (report: (
        PhasorStep,
        Vec<DjEffect>,
    ))
        requires
            old(self).wf(),
        ensures
            final(self).wf(),
            (final(self).dj, report.0, report.1@) == server_event(
                old(self).dj,
                *event,
                now,
                now_epoch_ns,
            ),
            final(self).connected == old(self).connected,
            final(self).autoconnect_done == old(self).autoconnect_done,
    {
        handle_server_event(&mut self.dj, event, now, now_epoch_ns)
    }

    /// The timer fired: check for staleness and due clicks, and say what to send and to record.
    /// `phase` is the phasor's reading now.
    pub fn on_timer(&mut self, now: Moment, phase: Option<BeatPhase>, has_sink: bool) -> (report: (
        Vec<ClickCommand>,
        Vec<DjEffect>,
    ))
        requires
            old(self).wf(),
            phase matches Some(p) ==> p.wf(),
        ensures
            final(self).wf(),
            ({
                let (state, offsets, transition) = old(self).dj.clicked(
                    now,
                    SCHEDULE_HORIZON,
                    phase,
                );
                &&& *final(self) == (DjLoop { dj: state, ..*old(self) })
                &&& report.0@ == clicks_of(old(self).dj.metronome, has_sink, offsets)
                &&& report.1@ == Seq::new(report.0@.len(), |i: int| DjEffect::Click)
                    + transition_effects(transition)
            }),
    {
        let due = self.dj.due_clicks(now, SCHEDULE_HORIZON, phase);
        handle_due_clicks(&self.dj.metronome, has_sink, &due)
    }

    /// Note how an auto-connect attempt went; once settled it stays settled.
    pub fn on_autoconnect(&mut self, settled: bool)
        ensures
            *final(self) == (DjLoop {
                autoconnect_done: old(self).autoconnect_done || settled,
                ..*old(self)
            }),
    {
        if settled {
            self.autoconnect_done = true;
        }
    }
}

/// Whether the audio engine should be started anew: there is a connection with a context, and
/// the engine was not started for it yet. Connections are told apart by generation.
pub fn should_start_engine(
    actor: Option<u64>,
    connected: bool,
    has_context: bool,
    started_for: Option<u64>,
) -> (start: bool)
    ensures
        start == (actor is Some && connected && has_context && started_for != actor),
{
    match actor {
        None => false,
        Some(generation) => {
            let already = match started_for {
                Some(g) => g == generation,
                None => false,
            };
            connected && has_context && !already
        },
    }
}

/// A flush and a lost connection put the clock back on the wallclock, and are recorded once, where
/// it was on the beat grid; a connection that is up and any other event leave it alone.
pub proof fn law_what_ends_a_take(
    state: DjLoop,
    kind: CueKind,
    now: Moment,
    now_epoch_ns: u64,
)
    ensures
        ({
            let dj = state.dj;
            let ended = DjCore {
                mode: clock::ClockMode::Wallclock,
                next_beat: None,
                last_ref_at: None,
                last_fold_at: None,
                metronome: dj.metronome,
            };
            let report = |reason: clock::TransitionReason|
                DjEffect::Transition(
                    ClockTransition { to: clock::ClockMode::Wallclock, reason },
                );
            let flushed = server_event(dj, DjEvent::RenderCue(CueKind::Flush), now, now_epoch_ns);
            let lost = state.with_level(false);
            &&& flushed.0 == ended && flushed.1 == PhasorStep::Leave
            &&& dj.mode == clock::ClockMode::BeatGrid ==> flushed.2 == seq![
                report(clock::TransitionReason::Flush),
            ] && state.level_report(false) == Some(report(clock::TransitionReason::Disconnect))
            &&& dj.mode == clock::ClockMode::Wallclock ==> flushed.2.len() == 0
                && state.level_report(false) is None
            &&& lost.dj == ended && !lost.connected && lost.autoconnect_done
                == state.autoconnect_done
            &&& state.with_level(true) == (DjLoop { connected: true, ..state })
            &&& state.level_report(true) is None
            &&& kind != CueKind::Flush ==> server_event(
                dj,
                DjEvent::RenderCue(kind),
                now,
                now_epoch_ns,
            ) == (dj, PhasorStep::Leave, Seq::<DjEffect>::empty())
            &&& server_event(dj, DjEvent::Other, now, now_epoch_ns) == (
                dj,
                PhasorStep::Leave,
                Seq::<DjEffect>::empty(),
            )
        }),
{
    let dj = state.dj;
    let flushed = server_event(dj, DjEvent::RenderCue(CueKind::Flush), now, now_epoch_ns);
    assert(dj.mode == clock::ClockMode::BeatGrid ==> flushed.2 =~= seq![
        DjEffect::Transition(
            ClockTransition {
                to: clock::ClockMode::Wallclock,
                reason: clock::TransitionReason::Flush,
            },
        ),
    ]);
}

/// A beat reference is recorded as what it did: a correction as a slew, the entry to the beat grid
/// as a transition, one that is too old to correct as nothing.
pub proof fn law_references_are_recorded(dj: DjCore, epoch_ns: u64, now: Moment, now_epoch_ns: u64)
    ensures
        ({
            let event = DjEvent::BeatSync { epoch_ns };
            let (state, step, effects) = server_event(dj, event, now, now_epoch_ns);
            let fresh = epoch_ns == 0 || now_epoch_ns - epoch_ns <= 1_000_000_000;
            &&& fresh && dj.mode == clock::ClockMode::BeatGrid ==> step is Correct && effects
                == seq![DjEffect::Slew]
            &&& fresh && dj.mode == clock::ClockMode::Wallclock ==> step is Anchor && effects
                == seq![
                DjEffect::Transition(
                    ClockTransition {
                        to: clock::ClockMode::BeatGrid,
                        reason: clock::TransitionReason::Fold,
                    },
                ),
            ]
            &&& fresh ==> state.mode == clock::ClockMode::BeatGrid && state.last_ref_at == Some(now)
                && state.last_fold_at == Some(now)
            &&& !fresh ==> step == PhasorStep::Leave && effects.len() == 0 && state.mode == dj.mode
                && state.last_fold_at == dj.last_fold_at
            &&& !fresh && now_epoch_ns - epoch_ns <= 5_000_000_000 ==> state.last_ref_at == Some(
                now,
            )
            &&& !fresh && now_epoch_ns - epoch_ns > 5_000_000_000 ==> state == dj
        }),
{
    let event = DjEvent::BeatSync { epoch_ns };
    let effects = server_event(dj, event, now, now_epoch_ns).2;
    let fold = DjEffect::Transition(
        ClockTransition {
            to: clock::ClockMode::BeatGrid,
            reason: clock::TransitionReason::Fold,
        },
    );
    if epoch_ns == 0 || now_epoch_ns - epoch_ns <= 1_000_000_000 {
        if dj.mode == clock::ClockMode::BeatGrid {
            assert(effects =~= seq![DjEffect::Slew]);
        } else {
            assert(effects =~= seq![fold]);
        }
    } else {
        assert(effects =~= Seq::empty());
    }
}

/// There is one click for each due offset, with the sound that is set and at that offset; with the
/// click switched off or without a sink there is none.
pub proof fn law_each_due_offset_is_one_click(
    metronome: MetronomeConfig,
    offsets: Seq<u64>,
    i: int,
)
    requires
        0 <= i < offsets.len(),
    ensures
        clicks_of(metronome, false, offsets).len() == 0,
        !metronome.enabled ==> clicks_of(metronome, true, offsets).len() == 0,
        metronome.enabled ==> ({
            let clicks = clicks_of(metronome, true, offsets);
            &&& clicks.len() == offsets.len()
            &&& clicks[i].offset == offsets[i]
            &&& clicks[i].note == metronome.note
            &&& clicks[i].channel == metronome.channel
            &&& clicks[i].velocity == metronome.velocity
            &&& clicks[i].gate_ms == metronome.gate_ms
        }),
{
}

/// The loop's timer fires a quarter of a second before the next beat, and in an hour where there
/// is none to wait for; but never after the beat grid goes stale.
pub proof fn law_the_loop_sleeps_until_something_is_due(
    dj: DjCore,
    now: Moment,
    phase: Option<BeatPhase>,
)
    ensures
        ({
            let target = sleep_target(dj, now, phase);
            let wake = match dj.wake(now, 250_000_000, phase) {
                Some(wake) => wake.nanos as int,
                None => if now.nanos + 3_600_000_000_000 <= i64::MAX {
                    now.nanos + 3_600_000_000_000
                } else {
                    i64::MAX as int
                },
            };
            &&& dj.mode == clock::ClockMode::Wallclock ==> target.nanos == wake
            &&& target.nanos <= wake
            &&& target.nanos < wake ==> dj.stale_deadline() == Some(target)
            &&& dj.stale_deadline() matches Some(deadline) ==> target.nanos <= deadline.nanos
        }),
{
}

} // verus!
