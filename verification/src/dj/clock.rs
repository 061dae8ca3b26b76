//! `DjCore`: the DJ thread's pure clock and click decisions.
//!
//! Every entry point takes an explicit moment instead of reading a clock, and the phasor's
//! reading where it needs one, so the whole ladder (mode transitions and the click policy) is
//! a function of its arguments. The phasor runs outside, while and only while the mode is
//! [`ClockMode::BeatGrid`].

use vstd::prelude::*;
use vstd::arithmetic::div_mod::{
    lemma_div_is_ordered, lemma_fundamental_div_mod, lemma_fundamental_div_mod_converse,
    lemma_mod_bound,
};
use crate::time::Moment;
use crate::time;

verus! {

/// A reference up to this old (in nanoseconds) still corrects the phasor.
pub const REF_FOLD_MAX: u64 = 1_000_000_000;

/// A reference up to this old (in nanoseconds) still proves that the clock master is alive.
pub const REF_STALE_MAX: u64 = 5_000_000_000;

/// How long (in nanoseconds) the beat grid may run on liveness alone, without a correction.
pub const MAX_FREE_RUN: u64 = 10_000_000_000;

/// Which timebase the DJ currently places cues and clicks against.
#[derive(Debug, Clone, Copy, PartialEq, Eq, Structural)]
pub enum ClockMode {
    /// Anchor state: cue placement by the emission stamp; clicks silent.
    Wallclock,
    /// Dialed in: a phasor is running, and clicks fire at its predicted beat times.
    BeatGrid,
}

impl Default for ClockMode {
    fn default() -> (mode: Self)
        ensures
            mode == ClockMode::Wallclock,
    {
        ClockMode::Wallclock
    }
}

impl ClockMode {
    /// The telemetry value of a mode.
    pub open spec fn text(self) -> Seq<char> {
        match self {
            ClockMode::Wallclock => "wallclock"@,
            ClockMode::BeatGrid => "beat_grid"@,
        }
    }

    /// The telemetry value of a mode.
    pub fn as_str(self) -> (s: &'static str)
        ensures
            s@ == self.text(),
    {
        match self {
            ClockMode::Wallclock => "wallclock",
            ClockMode::BeatGrid => "beat_grid",
        }
    }
}

/// Why a [`ClockMode`] transition happened.
#[derive(Debug, Clone, Copy, PartialEq, Eq, Structural)]
pub enum TransitionReason {
    /// To the beat grid: a fresh reference anchored the phasor.
    Fold,
    /// To the wallclock: the last live reference aged past [`REF_STALE_MAX`].
    Stale,
    /// To the wallclock: a transport flush ended the take.
    Flush,
    /// To the wallclock: the connection dropped.
    Disconnect,
    /// To the wallclock: alive, but without a correction for longer than [`MAX_FREE_RUN`].
    FreeRunCap,
}

impl TransitionReason {
    /// The telemetry value of a reason.
    pub open spec fn text(self) -> Seq<char> {
        match self {
            TransitionReason::Fold => "fold"@,
            TransitionReason::Stale => "stale"@,
            TransitionReason::Flush => "flush"@,
            TransitionReason::Disconnect => "disconnect"@,
            TransitionReason::FreeRunCap => "free_run_cap"@,
        }
    }

    /// The telemetry value of a reason.
    pub fn as_str(self) -> (s: &'static str)
        ensures
            s@ == self.text(),
    {
        match self {
            TransitionReason::Fold => "fold",
            TransitionReason::Stale => "stale",
            TransitionReason::Flush => "flush",
            TransitionReason::Disconnect => "disconnect",
            TransitionReason::FreeRunCap => "free_run_cap",
        }
    }
}

/// A [`ClockMode`] change that the caller should record.
#[derive(Debug, Clone, Copy, PartialEq, Eq, Structural)]
pub struct ClockTransition {
    pub to: ClockMode,
    pub reason: TransitionReason,
}

/// Click sound and gate. The click is a pitched note on a dedicated channel.
#[derive(Debug, Clone, Copy, PartialEq, Eq, Structural)]
pub struct MetronomeConfig {
    /// Whether the click sounds at all.
    pub enabled: bool,
    /// MIDI note number for the click.
    pub note: u8,
    /// MIDI channel (0-15).
    pub channel: u8,
    /// Note-on velocity (1-127).
    pub velocity: u8,
    /// Milliseconds the note sounds before note-off.
    pub gate_ms: u64,
}

/// The shipped click.
pub open spec fn shipped_metronome() -> MetronomeConfig {
    MetronomeConfig { enabled: true, note: 84, channel: 15, velocity: 110, gate_ms: 60 }
}

impl Default for MetronomeConfig {
    fn default() -> (config: Self)
        ensures
            config == shipped_metronome(),
    {
        MetronomeConfig { enabled: true, note: 84, channel: 15, velocity: 110, gate_ms: 60 }
    }
}

// ---------------------------------------------------------------------------
// References
// ---------------------------------------------------------------------------

/// What a beat reference is good for, by its age.
#[derive(Debug, Clone, Copy, PartialEq, Eq, Structural)]
pub enum RefDisposition {
    /// Fresh, or without a stamp: correct the phasor, as of the moment of its emission.
    Fold(Moment),
    /// Older: the master is alive.
    Touch,
    /// Stale: good for nothing.
    Drop,
}

/// A moment `nanos` before another, or the earliest there is.
pub open spec fn moment_before(now: Moment, nanos: int) -> Moment {
    if now.nanos - nanos < i64::MIN {
        Moment { nanos: i64::MIN }
    } else {
        Moment { nanos: (now.nanos - nanos) as i64 }
    }
}

/// A moment `nanos` after another, or the latest there is.
pub open spec fn moment_after(now: Moment, nanos: int) -> Moment {
    if now.nanos + nanos > i64::MAX {
        Moment { nanos: i64::MAX }
    } else {
        Moment { nanos: (now.nanos + nanos) as i64 }
    }
}

/// What a reference stamped `epoch_ns` (0 is no stamp) is good for when it arrives.
pub open spec fn disposition_of(epoch_ns: u64, now: Moment, now_epoch_ns: u64) -> RefDisposition {
    let age = if now_epoch_ns >= epoch_ns {
        now_epoch_ns - epoch_ns
    } else {
        0
    };
    if epoch_ns == 0 {
        RefDisposition::Fold(now)
    } else if age <= REF_FOLD_MAX {
        RefDisposition::Fold(moment_before(now, age))
    } else if age <= REF_STALE_MAX {
        RefDisposition::Touch
    } else {
        RefDisposition::Drop
    }
}

/// What a reference stamped `epoch_ns` (0 is no stamp) is good for when it arrives.
pub fn disposition(epoch_ns: u64, now: Moment, now_epoch_ns: u64) -> (d: RefDisposition)
    ensures
        d == disposition_of(epoch_ns, now, now_epoch_ns),
{
    if epoch_ns == 0 {
        return RefDisposition::Fold(now);
    }
    let age: u64 = if now_epoch_ns >= epoch_ns {
        now_epoch_ns - epoch_ns
    } else {
        0
    };
    if age <= REF_FOLD_MAX {
        let at: i64 = if now.nanos < i64::MIN + age as i64 {
            i64::MIN
        } else {
            now.nanos - age as i64
        };
        RefDisposition::Fold(Moment { nanos: at })
    } else if age <= REF_STALE_MAX {
        RefDisposition::Touch
    } else {
        RefDisposition::Drop
    }
}

/// What the phasor has to do about a reference.
#[derive(Debug, Clone, Copy, PartialEq, Eq, Structural)]
pub enum PhasorStep {
    /// Start a phasor from the reference, as of a moment.
    Anchor(Moment),
    /// Correct the running phasor by the reference, as of a moment.
    Correct(Moment),
    /// Leave the phasor alone.
    Leave,
}

/// The report on one reference.
#[derive(Debug, Clone, Copy, PartialEq, Eq, Structural)]
pub struct BeatObservation {
    /// What the phasor has to do.
    pub step: PhasorStep,
    /// The mode change, on the one call that made it.
    pub transition: Option<ClockTransition>,
}

/// The report on one click check.
#[derive(Debug)]
pub struct DueClicks {
    /// Nanoseconds from now to each click.
    pub offsets: Vec<u64>,
    /// The fallback that the check made; there are no clicks with it.
    pub transition: Option<ClockTransition>,
}

// ---------------------------------------------------------------------------
// Clicks
// ---------------------------------------------------------------------------

/// The fastest tempo, in billionths of a beat per second.
pub const MAX_TEMPO: u64 = 1_000_000_000_000_000;

/// A reading of the phasor.
#[derive(Debug, Clone, Copy, PartialEq, Eq, Structural)]
pub struct BeatPhase {
    /// The position, in billionths of a beat.
    pub position: i64,
    /// The tempo, in billionths of a beat per second; 0 where the phasor does not run forward.
    pub tempo: u64,
}

impl BeatPhase {
    /// The tempo is one that a clock can have.
    pub open spec fn wf(&self) -> bool {
        self.tempo <= MAX_TEMPO
    }
}

/// The whole beats that have passed.
pub open spec fn whole_beats(phase: BeatPhase) -> int {
    phase.position as int / 1_000_000_000
}

/// How far away a beat is, in billionths of a billionth of a beat.
pub open spec fn distance(phase: BeatPhase, n: int) -> int {
    n * 1_000_000_000_000_000_000 - phase.position * 1_000_000_000
}

/// How far the phasor gets within `horizon` nanoseconds, in the same unit.
pub open spec fn reach(phase: BeatPhase, horizon: u64) -> int {
    horizon as int * phase.tempo as int
}

/// The nanoseconds until a beat, to the nearest one.
pub open spec fn offset_of(phase: BeatPhase, n: int) -> int {
    nearest(distance(phase, n), phase.tempo as int)
}

/// The whole number nearest to a quotient; halfway, the larger one.
pub open spec fn nearest(d: int, t: int) -> int {
    (2 * d + t) / (2 * t)
}

/// A quotient that is no more than a whole number is nearest to none larger.
proof fn lemma_nearest(d: int, t: int, h: int)
    requires
        t > 0,
        d <= h * t,
    ensures
        nearest(d, t) <= h,
        d >= 0 ==> nearest(d, t) >= 0,
{
    assert(2 * t * h + t == 2 * (h * t) + t) by (nonlinear_arith);
    assert(h * (2 * t) == 2 * t * h) by (nonlinear_arith);
    lemma_fundamental_div_mod_converse(2 * t * h + t, 2 * t, h, t);
    lemma_div_is_ordered(2 * d + t, 2 * t * h + t, 2 * t);
    if d >= 0 {
        lemma_div_is_ordered(0, 2 * d + t, 2 * t);
        lemma_fundamental_div_mod_converse(0, 2 * t, 0, 0);
    }
}

/// The next beat to schedule, before looking at the phase: the remembered one, or the next
/// whole beat.
pub open spec fn wanted_beat(phase: BeatPhase, next: Option<i64>) -> int {
    match next {
        Some(n) => n as int,
        None => whole_beats(phase) + 1,
    }
}

/// The next beat to schedule has already passed.
pub open spec fn overdue(phase: BeatPhase, next: Option<i64>) -> bool {
    wanted_beat(phase, next) <= whole_beats(phase)
}

/// The next beat to schedule is more than two beats beyond the horizon.
pub open spec fn stranded(phase: BeatPhase, next: Option<i64>, horizon: u64) -> bool {
    distance(phase, wanted_beat(phase, next)) > reach(phase, horizon) + 2_000_000_000_000_000_000
}

/// The first beat to look at: the wanted one, or the next whole beat where the wanted one is
/// overdue or stranded.
pub open spec fn first_beat(phase: BeatPhase, next: Option<i64>, horizon: u64) -> int {
    if overdue(phase, next) || stranded(phase, next, horizon) {
        whole_beats(phase) + 1
    } else {
        wanted_beat(phase, next)
    }
}

/// The last beat that comes within the horizon.
pub open spec fn last_in_reach(phase: BeatPhase, horizon: u64) -> int {
    (reach(phase, horizon) + phase.position * 1_000_000_000) / 1_000_000_000_000_000_000
}

/// The beat to remember: the first from `first_beat` on that is beyond the horizon.
pub open spec fn next_beat_after(phase: BeatPhase, next: Option<i64>, horizon: u64) -> int {
    let first = first_beat(phase, next, horizon);
    if last_in_reach(phase, horizon) + 1 > first {
        last_in_reach(phase, horizon) + 1
    } else {
        first
    }
}

/// The clicks of one check: at once for a whole backlog of overdue beats, and one for each beat
/// within the horizon.
pub open spec fn click_offsets(phase: BeatPhase, next: Option<i64>, horizon: u64) -> Seq<u64> {
    let first = first_beat(phase, next, horizon);
    let backlog = if overdue(phase, next) {
        seq![0u64]
    } else {
        Seq::empty()
    };
    backlog + Seq::new(
        (next_beat_after(phase, next, horizon) - first) as nat,
        |i: int| offset_of(phase, first + i) as u64,
    )
}

proof fn lemma_reach_bound(phase: BeatPhase, horizon: u64)
    requires
        phase.wf(),
    ensures
        0 <= reach(phase, horizon) <= 18_446_744_073_709_551_615 * 1_000_000_000_000_000,
{
    assert(0 <= horizon as int * phase.tempo as int <= 18_446_744_073_709_551_615
        * 1_000_000_000_000_000) by (nonlinear_arith)
        requires
            0 <= horizon <= 18_446_744_073_709_551_615,
            0 <= phase.tempo <= 1_000_000_000_000_000,
    ;
}

/// A beat within the horizon comes no later than the horizon.
proof fn lemma_offset_within_horizon(phase: BeatPhase, n: int, horizon: u64)
    requires
        phase.tempo > 0,
        n > whole_beats(phase),
        distance(phase, n) <= reach(phase, horizon),
    ensures
        0 <= offset_of(phase, n) <= horizon,
{
    lemma_nearest(distance(phase, n), phase.tempo as int, horizon as int);
}

/// Each beat is scheduled once across checks, whatever the phasor was corrected to in between: a
/// check that does not find the remembered beat stranded schedules none from before it; and where
/// that beat has not passed either, it leaves none out.
pub proof fn law_each_beat_is_scheduled_at_most_once(
    earlier: BeatPhase,
    later: BeatPhase,
    next: Option<i64>,
    remembered: i64,
    horizon: u64,
)
    requires
        remembered == next_beat_after(earlier, next, horizon),
        !stranded(later, Some(remembered), horizon),
    ensures
        first_beat(later, Some(remembered), horizon) >= remembered,
        !overdue(later, Some(remembered)) ==> first_beat(later, Some(remembered), horizon)
            == remembered,
{
}

/// While the phasor runs forward at one tempo, no remembered beat is ever stranded: a later check
/// starts where the last one stopped, or later.
pub proof fn law_a_steady_phasor_strands_no_beat(
    earlier: BeatPhase,
    later: BeatPhase,
    next: Option<i64>,
    remembered: i64,
    horizon: u64,
)
    requires
        earlier.wf(),
        later.tempo == earlier.tempo,
        later.position >= earlier.position,
        remembered == next_beat_after(earlier, next, horizon),
    ensures
        !stranded(later, Some(remembered), horizon),
        first_beat(later, Some(remembered), horizon) >= remembered,
{
    lemma_reach_bound(earlier, horizon);
    assert(!stranded(later, Some(remembered), horizon));
    law_each_beat_is_scheduled_at_most_once(earlier, later, next, remembered, horizon);
}

/// A check that follows at once finds nothing more to schedule.
pub proof fn law_a_repeated_check_is_silent(
    phase: BeatPhase,
    next: Option<i64>,
    remembered: i64,
    horizon: u64,
)
    requires
        phase.wf(),
        remembered == next_beat_after(phase, next, horizon),
    ensures
        click_offsets(phase, Some(remembered), horizon) == Seq::<u64>::empty(),
        next_beat_after(phase, Some(remembered), horizon) == remembered,
{
    lemma_reach_bound(phase, horizon);
    law_a_steady_phasor_strands_no_beat(phase, phase, next, remembered, horizon);
    assert(!overdue(phase, Some(remembered)));
    assert(click_offsets(phase, Some(remembered), horizon) =~= Seq::<u64>::empty());
}

/// However many beats were missed, they make one click, at once; every other click is for a
/// beat that is still to come, within the horizon.
pub proof fn law_a_backlog_makes_one_click(phase: BeatPhase, next: Option<i64>, horizon: u64)
    requires
        phase.wf(),
        phase.tempo > 0,
    ensures
        ({
            let offsets = click_offsets(phase, next, horizon);
            let first = first_beat(phase, next, horizon);
            let backlog: int = if overdue(phase, next) {
                1
            } else {
                0
            };
            &&& first > whole_beats(phase)
            &&& backlog == 1 ==> offsets.len() >= 1 && offsets[0] == 0
            &&& forall|i: int|
                backlog <= i < offsets.len() ==> #[trigger] offsets[i] == offset_of(
                    phase,
                    first + i - backlog,
                ) && offsets[i] <= horizon
        }),
{
    let offsets = click_offsets(phase, next, horizon);
    let first = first_beat(phase, next, horizon);
    let backlog: int = if overdue(phase, next) {
        1
    } else {
        0
    };
    lemma_reach_bound(phase, horizon);
    assert forall|i: int| backlog <= i < offsets.len() implies #[trigger] offsets[i] == offset_of(
        phase,
        first + i - backlog,
    ) && offsets[i] <= horizon by {
        let n = first + i - backlog;
        assert(n <= last_in_reach(phase, horizon));
        lemma_offset_within_horizon(phase, n, horizon);
        assert(offsets[i] == offset_of(phase, n) as u64);
    }
}

// ---------------------------------------------------------------------------
// The core
// ---------------------------------------------------------------------------

/// The DJ's clock and click state machine.
#[derive(Debug, Clone, Copy, PartialEq, Eq, Structural)]
pub struct DjCore {
    /// The clock mode; a phasor runs exactly in [`ClockMode::BeatGrid`].
    pub mode: ClockMode,
    /// The next whole beat that is not scheduled yet.
    pub next_beat: Option<i64>,
    /// When the last live reference came (one that corrected, or one that touched).
    pub last_ref_at: Option<Moment>,
    /// When the phasor was last corrected.
    pub last_fold_at: Option<Moment>,
    /// Click sound and gate.
    pub metronome: MetronomeConfig,
}

/// The silent start.
pub open spec fn idle_core() -> DjCore {
    DjCore {
        mode: ClockMode::Wallclock,
        next_beat: None,
        last_ref_at: None,
        last_fold_at: None,
        metronome: shipped_metronome(),
    }
}

impl Default for DjCore {
    fn default() -> (dj: Self)
        ensures
            dj == idle_core(),
            dj.wf(),
    {
        DjCore {
            mode: ClockMode::Wallclock,
            next_beat: None,
            last_ref_at: None,
            last_fold_at: None,
            metronome: MetronomeConfig::default(),
        }
    }
}

impl DjCore {
    /// On the beat grid the clock has been corrected and is known to live; on the wallclock
    /// nothing of a phasor is left.
    pub open spec fn wf(&self) -> bool {
        match self.mode {
            ClockMode::BeatGrid => self.last_ref_at is Some && self.last_fold_at is Some,
            ClockMode::Wallclock => self.next_beat is None && self.last_fold_at is None,
        }
    }

    /// The state without a phasor, on the wallclock.
    pub open spec fn fallen_back(self) -> DjCore {
        DjCore {
            mode: ClockMode::Wallclock,
            next_beat: None,
            last_ref_at: None,
            last_fold_at: None,
            metronome: self.metronome,
        }
    }

    /// The report on falling back: only where the mode changes.
    pub open spec fn fallback_report(self, reason: TransitionReason) -> Option<ClockTransition> {
        if self.mode == ClockMode::BeatGrid {
            Some(ClockTransition { to: ClockMode::Wallclock, reason })
        } else {
            None
        }
    }

    /// The state after a reference, and the report on it.
    pub open spec fn observed(self, disposition: RefDisposition, now: Moment) -> (
        DjCore,
        BeatObservation,
    ) {
        match disposition {
            RefDisposition::Fold(at) => {
                let state = DjCore {
                    mode: ClockMode::BeatGrid,
                    last_ref_at: Some(now),
                    last_fold_at: Some(now),
                    ..self
                };
                if self.mode == ClockMode::BeatGrid {
                    (state, BeatObservation { step: PhasorStep::Correct(at), transition: None })
                } else {
                    (
                        state,
                        BeatObservation {
                            step: PhasorStep::Anchor(at),
                            transition: Some(
                                ClockTransition {
                                    to: ClockMode::BeatGrid,
                                    reason: TransitionReason::Fold,
                                },
                            ),
                        },
                    )
                }
            },
            RefDisposition::Touch => (
                DjCore { last_ref_at: Some(now), ..self },
                BeatObservation { step: PhasorStep::Leave, transition: None },
            ),
            RefDisposition::Drop => (
                self,
                BeatObservation { step: PhasorStep::Leave, transition: None },
            ),
        }
    }

    /// Why the beat grid is not to be trusted any more, if so: silence first, then a correction
    /// that is too old.
    pub open spec fn distrust(self, now: Moment) -> Option<TransitionReason> {
        if self.mode != ClockMode::BeatGrid {
            None
        } else if self.last_ref_at matches Some(last) && time::nanos_between(now, last)
            > REF_STALE_MAX {
            Some(TransitionReason::Stale)
        } else if self.last_fold_at matches Some(folded) && time::nanos_between(now, folded)
            > MAX_FREE_RUN {
            Some(TransitionReason::FreeRunCap)
        } else {
            None
        }
    }

    /// The state after a click check, its clicks and its fallback.
    pub open spec fn clicked(self, now: Moment, horizon: u64, phase: Option<BeatPhase>) -> (
        DjCore,
        Seq<u64>,
        Option<ClockTransition>,
    ) {
        match self.distrust(now) {
            Some(reason) => (
                self.fallen_back(),
                Seq::empty(),
                Some(ClockTransition { to: ClockMode::Wallclock, reason }),
            ),
            None => if self.mode == ClockMode::BeatGrid && phase is Some && phase.unwrap().tempo
                > 0 {
                (
                    DjCore {
                        next_beat: Some(
                            next_beat_after(phase.unwrap(), self.next_beat, horizon) as i64,
                        ),
                        ..self
                    },
                    click_offsets(phase.unwrap(), self.next_beat, horizon),
                    None,
                )
            } else {
                (self, Seq::empty(), None)
            },
        }
    }

    /// The current clock mode.
    pub fn mode(&self) -> (mode: ClockMode)
        ensures
            mode == self.mode,
    {
        self.mode
    }

    /// Whether a phasor runs: from the reference that anchors it until the clock falls back.
    pub fn phasor_runs(&self) -> (runs: bool)
        ensures
            runs == (self.mode == ClockMode::BeatGrid),
    {
        self.mode == ClockMode::BeatGrid
    }

    fn exit_beat_grid(&mut self, reason: TransitionReason) -> (transition: Option<ClockTransition>)
        ensures
            *final(self) == old(self).fallen_back(),
            transition == old(self).fallback_report(reason),
    {
        let was = self.mode;
        self.next_beat = None;
        self.last_ref_at = None;
        self.last_fold_at = None;
        self.mode = ClockMode::Wallclock;
        if was == ClockMode::Wallclock {
            None
        } else {
            Some(ClockTransition { to: ClockMode::Wallclock, reason })
        }
    }

    /// Take in one reference. A fresh one corrects the phasor, or anchors it and enters the beat
    /// grid; an older one marks liveness only; a stale one does nothing.
    pub fn observe_beat_sync(&mut self, disposition: RefDisposition, now: Moment) -> (obs:
        BeatObservation)
        requires
            old(self).wf(),
        ensures
            (*final(self), obs) == old(self).observed(disposition, now),
            final(self).wf(),
    {
        match disposition {
            RefDisposition::Fold(at) => {
                self.last_ref_at = Some(now);
                self.last_fold_at = Some(now);
                if self.mode == ClockMode::BeatGrid {
                    BeatObservation { step: PhasorStep::Correct(at), transition: None }
                } else {
                    self.mode = ClockMode::BeatGrid;
                    BeatObservation {
                        step: PhasorStep::Anchor(at),
                        transition: Some(
                            ClockTransition {
                                to: ClockMode::BeatGrid,
                                reason: TransitionReason::Fold,
                            },
                        ),
                    }
                }
            },
            RefDisposition::Touch => {
                self.last_ref_at = Some(now);
                BeatObservation { step: PhasorStep::Leave, transition: None }
            },
            RefDisposition::Drop => BeatObservation { step: PhasorStep::Leave, transition: None },
        }
    }

    /// A transport flush: the take ended, so phasor, click cursor and liveness reset.
    pub fn on_flush(&mut self) -> (transition: Option<ClockTransition>)
        ensures
            *final(self) == old(self).fallen_back(),
            final(self).wf(),
            transition == old(self).fallback_report(TransitionReason::Flush),
    {
        self.exit_beat_grid(TransitionReason::Flush)
    }

    /// The connection dropped: no flush can come any more, so everything resets.
    pub fn on_disconnect(&mut self) -> (transition: Option<ClockTransition>)
        ensures
            *final(self) == old(self).fallen_back(),
            final(self).wf(),
            transition == old(self).fallback_report(TransitionReason::Disconnect),
    {
        self.exit_beat_grid(TransitionReason::Disconnect)
    }

    /// The clicks due within `horizon` nanoseconds, and the check that can fall back to the
    /// wallclock. `phase` is the phasor's reading now.
    pub fn due_clicks(&mut self, now: Moment, horizon: u64, phase: Option<BeatPhase>) -> (due:
        DueClicks)
        requires
            old(self).wf(),
            phase matches Some(p) ==> p.wf(),
        ensures
            (*final(self), due.offsets@, due.transition) == old(self).clicked(now, horizon, phase),
            final(self).wf(),
    {
        if self.mode == ClockMode::BeatGrid {
            if let Some(last) = self.last_ref_at {
                if now.nanos_since(last) > REF_STALE_MAX {
                    let transition = self.exit_beat_grid(TransitionReason::Stale);
                    return DueClicks { offsets: Vec::new(), transition };
                }
            }
            if let Some(folded) = self.last_fold_at {
                if now.nanos_since(folded) > MAX_FREE_RUN {
                    let transition = self.exit_beat_grid(TransitionReason::FreeRunCap);
                    return DueClicks { offsets: Vec::new(), transition };
                }
            }
            if let Some(p) = phase {
                if p.tempo > 0 {
                    let offsets = self.schedule_due(p, horizon);
                    return DueClicks { offsets, transition: None };
                }
            }
        }
        DueClicks { offsets: Vec::new(), transition: None }
    }

    /// The clicks for every beat within `horizon`, each returned exactly once across calls.
    fn schedule_due(&mut self, phase: BeatPhase, horizon: u64) -> (offsets: Vec<u64>)
        requires
            phase.wf(),
            phase.tempo > 0,
        ensures
            offsets@ == click_offsets(phase, old(self).next_beat, horizon),
            *final(self) == (DjCore {
                next_beat: Some(next_beat_after(phase, old(self).next_beat, horizon) as i64),
                ..*old(self)
            }),
    {
        let ghost wanted = self.next_beat;
        let ghost first = first_beat(phase, wanted, horizon);
        let ghost end = next_beat_after(phase, wanted, horizon);
        let ghost expected = click_offsets(phase, wanted, horizon);
        proof {
            lemma_reach_bound(phase, horizon);
        }
        let tempo: i128 = phase.tempo as i128;
        let position: i128 = phase.position as i128 * 1_000_000_000;
        assert(0 <= horizon as int * phase.tempo as int == reach(phase, horizon));
        let reachable: i128 = horizon as i128 * tempo;
        let past: i64 = floor_beats(phase.position);
        let mut next: i64 = match self.next_beat {
            Some(n) => n,
            None => past + 1,
        };
        let mut offsets: Vec<u64> = Vec::new();
        let ghost mut backlog: int = 0;
        if next <= past {
            offsets.push(0);
            next = past + 1;
            proof {
                backlog = 1;
            }
        } else if next as i128 * 1_000_000_000_000_000_000 - position > reachable
            + 2_000_000_000_000_000_000 {
            next = past + 1;
        }
        proof {
            law_a_backlog_makes_one_click(phase, wanted, horizon);
        }
        assert(next == first);
        assert(offsets@ =~= expected.take(backlog));
        loop
            invariant
                phase.wf(),
                phase.tempo > 0,
                tempo == phase.tempo,
                position == phase.position * 1_000_000_000,
                reachable == reach(phase, horizon),
                0 <= reachable <= 18_446_744_073_709_551_615 * 1_000_000_000_000_000,
                first == first_beat(phase, wanted, horizon),
                end == next_beat_after(phase, wanted, horizon),
                expected == click_offsets(phase, wanted, horizon),
                backlog == (if overdue(phase, wanted) {
                    1int
                } else {
                    0
                }),
                first > whole_beats(phase),
                first <= next <= end,
                offsets@ == expected.take(backlog + next - first),
            ensures
                next == end,
                offsets@ == expected.take(backlog + end - first),
            decreases end - next,
        {
            let away: i128 = next as i128 * 1_000_000_000_000_000_000 - position;
            if away > reachable {
                break;
            }
            proof {
                lemma_offset_within_horizon(phase, next as int, horizon);
                assert(expected[backlog + next - first] == offset_of(phase, next as int) as u64);
                assert(expected.take(backlog + next + 1 - first) =~= expected.take(
                    backlog + next - first,
                ).push(expected[backlog + next - first]));
            }
            let offset: i128 = (2 * away + tempo) / (2 * tempo);
            offsets.push(offset as u64);
            next = next + 1;
        }
        assert(expected.take(backlog + end - first) =~= expected);
        self.next_beat = Some(next);
        offsets
    }

    /// The last moment at which the beat grid is still trusted if no further reference comes.
    pub open spec fn stale_deadline(self) -> Option<Moment> {
        if self.mode != ClockMode::BeatGrid {
            None
        } else {
            match (self.last_ref_at, self.last_fold_at) {
                (Some(last), Some(folded)) => {
                    let stale = moment_after(last, REF_STALE_MAX as int);
                    let capped = moment_after(folded, MAX_FREE_RUN as int);
                    Some(
                        if stale.nanos <= capped.nanos {
                            stale
                        } else {
                            capped
                        },
                    )
                },
                (Some(last), None) => Some(moment_after(last, REF_STALE_MAX as int)),
                (None, Some(folded)) => Some(moment_after(folded, MAX_FREE_RUN as int)),
                (None, None) => None,
            }
        }
    }

    /// The last moment at which the beat grid is still trusted if no further reference comes;
    /// nothing on the wallclock.
    pub fn next_stale_deadline(&self) -> (deadline: Option<Moment>)
        ensures
            deadline == self.stale_deadline(),
    {
        if self.mode != ClockMode::BeatGrid {
            return None;
        }
        let stale = match self.last_ref_at {
            Some(last) => Some(later(last, REF_STALE_MAX)),
            None => None,
        };
        let capped = match self.last_fold_at {
            Some(folded) => Some(later(folded, MAX_FREE_RUN)),
            None => None,
        };
        match (stale, capped) {
            (Some(a), Some(b)) => Some(
                if a.nanos <= b.nanos {
                    a
                } else {
                    b
                },
            ),
            (Some(a), None) => Some(a),
            (None, b) => b,
        }
    }

    /// When the click timer should next wake: as the next beat enters the horizon, or at once.
    pub open spec fn wake(self, now: Moment, horizon: u64, phase: Option<BeatPhase>) -> Option<
        Moment,
    > {
        if self.mode == ClockMode::BeatGrid && phase is Some && phase.unwrap().tempo > 0 {
            let ahead = offset_of(phase.unwrap(), wanted_beat(phase.unwrap(), self.next_beat))
                - horizon;
            Some(
                if ahead > 0 {
                    moment_after(now, ahead)
                } else {
                    now
                },
            )
        } else {
            None
        }
    }

    /// When the click timer should next wake: as the next beat enters the horizon, or at once
    /// where it already has; nothing without a running phasor.
    pub fn next_wake(&self, now: Moment, horizon: u64, phase: Option<BeatPhase>) -> (wake: Option<
        Moment,
    >)
        ensures
            wake == self.wake(now, horizon, phase),
    {
        if self.mode != ClockMode::BeatGrid {
            return None;
        }
        match phase {
            None => None,
            Some(p) => {
                if p.tempo == 0 {
                    return None;
                }
                let next: i64 = match self.next_beat {
                    Some(n) => n,
                    None => floor_beats(p.position) + 1,
                };
                let away: i128 = next as i128 * 1_000_000_000_000_000_000 - p.position as i128
                    * 1_000_000_000;
                let tempo: i128 = p.tempo as i128;
                let ghost t = p.tempo as int;
                let ghost d = distance(p, next as int);
                if away <= 0 {
                    proof {
                        lemma_nearest(d, t, 0);
                    }
                    return Some(now);
                }
                proof {
                    assert(d <= d * t) by (nonlinear_arith)
                        requires
                            d > 0,
                            t > 0,
                    ;
                    lemma_nearest(d, t, d);
                }
                let offset: i128 = (2 * away + tempo) / (2 * tempo);
                if offset <= horizon as i128 {
                    return Some(now);
                }
                let ahead: i128 = offset - horizon as i128;
                if ahead > i64::MAX as i128 - now.nanos as i128 {
                    Some(Moment { nanos: i64::MAX })
                } else {
                    Some(Moment { nanos: (now.nanos as i128 + ahead) as i64 })
                }
            },
        }
    }
}

/// The whole beats at a position in billionths of a beat, rounded down.
fn floor_beats(position: i64) -> (beats: i64)
    ensures
        beats == position as int / 1_000_000_000,
{
    if position >= 0 {
        position / 1_000_000_000
    } else {
        -((999_999_999 - position as i128) / 1_000_000_000) as i64
    }
}

fn later(at: Moment, nanos: u64) -> (m: Moment)
    requires
        nanos <= 10_000_000_000,
    ensures
        m == moment_after(at, nanos as int),
{
    if at.nanos > i64::MAX - nanos as i64 {
        Moment { nanos: i64::MAX }
    } else {
        Moment { nanos: at.nanos + nanos as i64 }
    }
}

/// A transition is reported exactly where the mode changes, and names the new mode.
pub proof fn law_transitions_report_mode_changes(
    dj: DjCore,
    disposition: RefDisposition,
    reason: TransitionReason,
    now: Moment,
    horizon: u64,
    phase: Option<BeatPhase>,
)
    ensures
        ({
            let (state, obs) = dj.observed(disposition, now);
            &&& obs.transition is Some <==> state.mode != dj.mode
            &&& obs.transition is Some ==> obs.transition.unwrap().to == state.mode
        }),
        ({
            let (state, offsets, transition) = dj.clicked(now, horizon, phase);
            &&& transition is Some <==> state.mode != dj.mode
            &&& transition is Some ==> transition.unwrap().to == state.mode && offsets.len() == 0
        }),
        dj.fallback_report(reason) is Some <==> dj.fallen_back().mode != dj.mode,
        dj.fallback_report(reason) is Some ==> dj.fallback_report(reason).unwrap().to
            == dj.fallen_back().mode,
{
}

/// Without a fresh reference a click check falls back exactly after the stale deadline.
pub proof fn law_fallback_comes_after_the_deadline(dj: DjCore, now: Moment)
    requires
        dj.wf(),
        dj.mode == ClockMode::BeatGrid,
    ensures
        dj.distrust(now) is Some <==> now.nanos > dj.stale_deadline().unwrap().nanos,
{
}

/// A reference that only touches never moves the phasor, the click cursor or the mode, and puts
/// off no correction deadline; a stale one changes nothing at all.
pub proof fn law_old_references_never_correct(dj: DjCore, now: Moment)
    ensures
        ({
            let (touched, obs) = dj.observed(RefDisposition::Touch, now);
            &&& obs.step == PhasorStep::Leave
            &&& touched == DjCore { last_ref_at: Some(now), ..dj }
        }),
        dj.observed(RefDisposition::Drop, now).0 == dj,
{
}

/// Clicks come only on the beat grid.
pub proof fn law_the_wallclock_is_silent(
    dj: DjCore,
    now: Moment,
    horizon: u64,
    phase: Option<BeatPhase>,
)
    requires
        dj.mode == ClockMode::Wallclock,
    ensures
        dj.clicked(now, horizon, phase) == (dj, Seq::<u64>::empty(), None::<ClockTransition>),
{
}

/// A reference without a stamp corrects as of now. With one, it corrects as of the moment of its
/// emission if it is up to a second old, proves that the master is alive if it is up to five, and
/// is good for nothing beyond that; a stamp that lies ahead counts as now.
pub proof fn law_references_age(epoch_ns: u64, now: Moment, now_epoch_ns: u64)
    requires
        now.nanos >= i64::MIN + 1_000_000_000,
    ensures
        disposition_of(0, now, now_epoch_ns) == RefDisposition::Fold(now),
        epoch_ns > now_epoch_ns ==> disposition_of(epoch_ns, now, now_epoch_ns)
            == RefDisposition::Fold(now),
        0 < epoch_ns <= now_epoch_ns ==> ({
            let age = now_epoch_ns - epoch_ns;
            let d = disposition_of(epoch_ns, now, now_epoch_ns);
            &&& age <= 1_000_000_000 ==> (d matches RefDisposition::Fold(at) && at.nanos
                == now.nanos - age)
            &&& 1_000_000_000 < age <= 5_000_000_000 ==> d == RefDisposition::Touch
            &&& age > 5_000_000_000 ==> d == RefDisposition::Drop
        }),
{
}

/// A fresh reference puts the clock on the beat grid and proves it alive and corrected now; it
/// starts the phasor where none ran and corrects it where one did, and leaves the clicks that are
/// already scheduled alone.
pub proof fn law_a_fresh_reference_sets_the_grid(dj: DjCore, at: Moment, now: Moment)
    ensures
        ({
            let (state, obs) = dj.observed(RefDisposition::Fold(at), now);
            &&& state.mode == ClockMode::BeatGrid
            &&& state.last_ref_at == Some(now)
            &&& state.last_fold_at == Some(now)
            &&& state.next_beat == dj.next_beat
            &&& state.metronome == dj.metronome
            &&& dj.mode == ClockMode::Wallclock ==> obs.step == PhasorStep::Anchor(at)
                && obs.transition == Some(
                ClockTransition { to: ClockMode::BeatGrid, reason: TransitionReason::Fold },
            )
            &&& dj.mode == ClockMode::BeatGrid ==> obs.step == PhasorStep::Correct(at)
                && obs.transition is None
        }),
{
}

/// On the beat grid, more than five seconds of silence end it as stale, and more than ten without
/// a correction as run free; until then it is trusted. What ends it leaves nothing of the phasor,
/// and the click settings as they are.
pub proof fn law_the_grid_is_trusted_for_so_long(dj: DjCore, now: Moment, last: Moment, folded: Moment)
    requires
        dj.mode == ClockMode::BeatGrid,
        dj.last_ref_at == Some(last),
        dj.last_fold_at == Some(folded),
    ensures
        now.nanos - last.nanos > 5_000_000_000 ==> dj.distrust(now) == Some(
            TransitionReason::Stale,
        ),
        now.nanos - last.nanos <= 5_000_000_000 && now.nanos - folded.nanos > 10_000_000_000
            ==> dj.distrust(now) == Some(TransitionReason::FreeRunCap),
        now.nanos - last.nanos <= 5_000_000_000 && now.nanos - folded.nanos <= 10_000_000_000
            ==> dj.distrust(now) is None,
        dj.fallen_back() == (DjCore {
            mode: ClockMode::Wallclock,
            next_beat: None,
            last_ref_at: None,
            last_fold_at: None,
            metronome: dj.metronome,
        }),
{
}

/// A click for a beat comes at the nanosecond nearest to the one at which the phasor, at its
/// tempo, reaches that beat.
pub proof fn law_a_click_comes_with_its_beat(phase: BeatPhase, n: int)
    requires
        phase.tempo > 0,
    ensures
        ({
            let away = n * 1_000_000_000_000_000_000 - phase.position * 1_000_000_000;
            let gone = offset_of(phase, n) * phase.tempo;
            -(phase.tempo as int) < 2 * (gone - away) <= phase.tempo
        }),
        whole_beats(phase) * 1_000_000_000 <= phase.position < (whole_beats(phase) + 1)
            * 1_000_000_000,
{
    let t = phase.tempo as int;
    let d = distance(phase, n);
    let q = nearest(d, t);
    lemma_fundamental_div_mod(2 * d + t, 2 * t);
    lemma_mod_bound(2 * d + t, 2 * t);
    let r = (2 * d + t) % (2 * t);
    assert((2 * t) * q == 2 * (q * t)) by (nonlinear_arith);
    lemma_fundamental_div_mod(phase.position as int, 1_000_000_000);
}

/// A check schedules exactly the beats from its first one on that the phasor reaches within the
/// horizon, in their order, each at its own moment, after a click at once where beats were missed.
/// It starts with the beat that was remembered, or the next whole one where none was, and remembers
/// the first beat beyond the horizon.
pub proof fn law_every_beat_in_the_horizon_has_its_click(
    phase: BeatPhase,
    next: Option<i64>,
    horizon: u64,
    n: int,
)
    requires
        phase.wf(),
        phase.tempo > 0,
    ensures
        ({
            let offsets = click_offsets(phase, next, horizon);
            let first = first_beat(phase, next, horizon);
            let after = next_beat_after(phase, next, horizon);
            let missed: int = if next matches Some(b) && b <= whole_beats(phase) {
                1
            } else {
                0
            };
            let away = n * 1_000_000_000_000_000_000 - phase.position * 1_000_000_000;
            let within = away <= horizon * phase.tempo;
            &&& offsets.len() == missed + (after - first)
            &&& missed == 1 ==> offsets[0] == 0
            &&& n >= first ==> (within <==> n < after)
            &&& first <= n < after ==> offsets[missed + (n - first)] == offset_of(phase, n)
            &&& next is None ==> first == whole_beats(phase) + 1
            &&& missed == 1 ==> first == whole_beats(phase) + 1
            &&& (next matches Some(b) && n == b && n > whole_beats(phase) && away <= horizon
                * phase.tempo + 2_000_000_000_000_000_000) ==> first == n
            &&& (next matches Some(b) && n == b && away > horizon * phase.tempo
                + 2_000_000_000_000_000_000) ==> first == whole_beats(phase) + 1
        }),
{
    let first = first_beat(phase, next, horizon);
    let after = next_beat_after(phase, next, horizon);
    lemma_reach_bound(phase, horizon);
    law_a_backlog_makes_one_click(phase, next, horizon);
    let beat: int = 1_000_000_000_000_000_000;
    let top = reach(phase, horizon) + phase.position * 1_000_000_000;
    lemma_fundamental_div_mod(top, beat);
    lemma_mod_bound(top, beat);
    if first <= n < after {
        lemma_offset_within_horizon(phase, n, horizon);
    }
}

/// Nothing else ends a check: it makes clicks only on a trusted beat grid with a phasor that runs
/// forward, and then it is the phasor's clicks that it makes, and its next beat that is remembered.
pub proof fn law_a_trusted_check_makes_the_clicks(
    dj: DjCore,
    now: Moment,
    horizon: u64,
    phase: BeatPhase,
)
    requires
        dj.mode == ClockMode::BeatGrid,
        dj.distrust(now) is None,
    ensures
        phase.tempo > 0 ==> dj.clicked(now, horizon, Some(phase)).1 == click_offsets(
            phase,
            dj.next_beat,
            horizon,
        ) && dj.clicked(now, horizon, Some(phase)).0 == (DjCore {
            next_beat: Some(next_beat_after(phase, dj.next_beat, horizon) as i64),
            ..dj
        }),
        phase.tempo == 0 ==> dj.clicked(now, horizon, Some(phase)) == (
            dj,
            Seq::<u64>::empty(),
            None::<ClockTransition>,
        ),
        dj.clicked(now, horizon, None) == (dj, Seq::<u64>::empty(), None::<ClockTransition>),
{
}

/// The click timer wakes as the next beat enters the horizon: so long before the beat as the
/// horizon is, or at once where it is closer. Without a phasor that runs forward it does not wake.
pub proof fn law_the_timer_wakes_for_the_next_beat(
    dj: DjCore,
    now: Moment,
    horizon: u64,
    phase: BeatPhase,
    beat: i64,
)
    ensures
        dj.mode == ClockMode::Wallclock ==> dj.wake(now, horizon, Some(phase)) is None,
        dj.wake(now, horizon, None) is None,
        phase.tempo == 0 ==> dj.wake(now, horizon, Some(phase)) is None,
        dj.mode == ClockMode::BeatGrid && phase.tempo > 0 && dj.next_beat == Some(beat) ==> (
        dj.wake(now, horizon, Some(phase)) matches Some(wake) && ({
            let click = now.nanos + offset_of(phase, beat as int);
            wake.nanos == (if click <= now.nanos + horizon {
                now.nanos as int
            } else if click - horizon <= i64::MAX {
                click - horizon
            } else {
                i64::MAX as int
            })
        })),
        dj.mode == ClockMode::BeatGrid && phase.tempo > 0 && dj.next_beat is None ==> dj.wake(
            now,
            horizon,
            Some(phase),
        ) == (DjCore { next_beat: Some((whole_beats(phase) + 1) as i64), ..dj }).wake(
            now,
            horizon,
            Some(phase),
        ),
{
}

/// The beat grid is trusted to the last until five seconds after the last reference or ten after
/// the last correction, whichever comes first.
pub proof fn law_the_stale_deadline(dj: DjCore, last: Moment, folded: Moment)
    requires
        dj.mode == ClockMode::BeatGrid,
        dj.last_ref_at == Some(last),
        dj.last_fold_at == Some(folded),
        last.nanos + 5_000_000_000 <= i64::MAX,
        folded.nanos + 10_000_000_000 <= i64::MAX,
    ensures
        dj.stale_deadline() matches Some(deadline) && deadline.nanos == (if last.nanos
            + 5_000_000_000 <= folded.nanos + 10_000_000_000 {
            last.nanos + 5_000_000_000
        } else {
            folded.nanos + 10_000_000_000
        }),
{
}

/// What the click sounds like unless it is set otherwise: a short high note on the last channel.
pub proof fn law_the_shipped_click()
    ensures
        shipped_metronome().enabled,
        shipped_metronome().note == 84,
        shipped_metronome().channel == 15,
        shipped_metronome().velocity == 110,
        shipped_metronome().gate_ms == 60,
        idle_core().metronome == shipped_metronome(),
        idle_core().mode == ClockMode::Wallclock,
        idle_core().next_beat is None && idle_core().last_ref_at is None
            && idle_core().last_fold_at is None,
{
}

} // verus!
