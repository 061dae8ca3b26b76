use kaijutsu_app::dj::clock::{
    disposition, BeatObservation, BeatPhase, ClockMode, ClockTransition, DjCore, DueClicks,
    MetronomeConfig, PhasorStep, RefDisposition, TransitionReason, MAX_FREE_RUN, REF_FOLD_MAX,
    REF_STALE_MAX,
};
use kaijutsu_app::time::Moment;

/// The horizon of the click checks.
const H: u64 = 250_000_000;

fn ms(n: u64) -> u64 {
    n * 1_000_000
}

fn after(at: Moment, nanos: u64) -> Moment {
    Moment { nanos: at.nanos + nanos as i64 }
}

fn near(nanos: u64, b_ms: f64) -> bool {
    (nanos as f64 / 1e6 - b_ms).abs() < 1.0
}

/// A beat reference: a position, a tempo, and when it was emitted (0 is no stamp).
struct BeatRef {
    beat: f64,
    tempo_bps: f64,
    epoch_ns: u64,
}

impl BeatRef {
    fn new(beat: f64, tempo_bps: f64) -> Self {
        BeatRef { beat, tempo_bps, epoch_ns: 0 }
    }
}

/// The clock with a phasor beside it that takes each correction whole.
#[derive(Default)]
struct Rig {
    core: DjCore,
    phasor: Option<(f64, f64, i64)>,
}

impl Rig {
    fn mode(&self) -> ClockMode {
        self.core.mode()
    }

    fn observe_beat_sync(
        &mut self,
        beat_ref: BeatRef,
        now: Moment,
        now_epoch_ns: u64,
    ) -> BeatObservation {
        let d = disposition(beat_ref.epoch_ns, now, now_epoch_ns);
        let obs = self.core.observe_beat_sync(d, now);
        match obs.step {
            PhasorStep::Anchor(at) | PhasorStep::Correct(at) => {
                self.phasor = Some((beat_ref.beat, beat_ref.tempo_bps, at.nanos));
            }
            PhasorStep::Leave => {}
        }
        self.settle();
        obs
    }

    fn settle(&mut self) {
        if !self.core.phasor_runs() {
            self.phasor = None;
        }
    }

    fn on_flush(&mut self) -> Option<ClockTransition> {
        let transition = self.core.on_flush();
        self.settle();
        transition
    }

    fn on_disconnect(&mut self) -> Option<ClockTransition> {
        let transition = self.core.on_disconnect();
        self.settle();
        transition
    }

    fn beat_position(&self, now: Moment) -> Option<f64> {
        self.phasor.map(|(beat, tempo, at)| beat + tempo * (now.nanos - at) as f64 / 1e9)
    }

    fn phase(&self, now: Moment) -> Option<BeatPhase> {
        let position = self.beat_position(now)?;
        let (_, tempo, _) = self.phasor?;
        Some(BeatPhase { position: (position * 1e9) as i64, tempo: (tempo * 1e9) as u64 })
    }

    fn due_clicks(&mut self, now: Moment, horizon: u64) -> DueClicks {
        let phase = self.phase(now);
        let due = self.core.due_clicks(now, horizon, phase);
        self.settle();
        due
    }

    fn next_wake(&self, now: Moment, horizon: u64) -> Option<Moment> {
        self.core.next_wake(now, horizon, self.phase(now))
    }

    fn next_stale_deadline(&self) -> Option<Moment> {
        self.core.next_stale_deadline()
    }
}

// ── Mode machine ─────────────────────────────────────────────────────

#[test]
fn starts_in_wallclock_mode() {
    let dj = Rig::default();
    assert_eq!(dj.mode(), ClockMode::Wallclock);
}

#[test]
fn a_fold_fresh_ref_enters_beat_grid_reported_once_not_every_fold() {
    let mut dj = Rig::default();
    let t0 = Moment { nanos: 7_000_000_000 };

    let obs = dj.observe_beat_sync(BeatRef::new(0.0, 2.0), t0, 0);
    assert_eq!(dj.mode(), ClockMode::BeatGrid);
    assert_eq!(
        obs.transition,
        Some(ClockTransition { to: ClockMode::BeatGrid, reason: TransitionReason::Fold }),
        "the anchoring fold reports the transition"
    );

    // A second, agreeing Fold while already dialed in must NOT report a
    // transition again — telemetry sees one row per anchoring.
    let t1 = after(t0, ms(1 * 1000));
    let obs2 = dj.observe_beat_sync(BeatRef::new(2.0, 2.0), t1, 0);
    assert_eq!(dj.mode(), ClockMode::BeatGrid);
    assert_eq!(obs2.transition, None, "no repeat transition on an ordinary fold");
}

#[test]
fn a_touch_aged_ref_holds_beat_grid_and_never_moves_the_phasor() {
    let mut dj = Rig::default();
    let now_epoch_ns: u64 = 10_000_000_000;

    // Anchor with a fresh, stamped ref (age 0 -> Fold).
    let t0 = Moment { nanos: 7_000_000_000 };
    dj.observe_beat_sync(BeatRef { beat: 0.0, tempo_bps: 2.0, epoch_ns: now_epoch_ns }, t0, now_epoch_ns);
    assert_eq!(dj.mode(), ClockMode::BeatGrid);
    let anchored_pos = dj.beat_position(t0).unwrap();

    // A ref 2s old (past REF_FOLD_MAX=1s, within REF_STALE_MAX=5s) with a
    // wildly different beat value: if it folded, position would jump
    // toward 999.0.
    let touch_epoch_ns = now_epoch_ns + 2_000_000_000; // "later" wallclock, ref itself is 2s stale relative to it
    let obs = dj.observe_beat_sync(
        BeatRef { beat: 999.0, tempo_bps: 2.0, epoch_ns: now_epoch_ns },
        t0,
        touch_epoch_ns,
    );
    assert_eq!(obs.step, PhasorStep::Leave, "Touch never folds — no Slew report");
    assert_eq!(obs.transition, None, "Touch never changes mode");
    assert_eq!(dj.mode(), ClockMode::BeatGrid, "still dialed in");
    let after_pos = dj.beat_position(t0).unwrap();
    assert!(
        (after_pos - anchored_pos).abs() < 1.0,
        "a Touch-band ref must not step the phasor toward its beat: {anchored_pos} -> {after_pos}"
    );
}

#[test]
fn stale_at_a_click_check_falls_back_to_wallclock_reason_stale() {
    let mut dj = Rig::default();
    let t0 = Moment { nanos: 7_000_000_000 };
    dj.observe_beat_sync(BeatRef::new(0.0, 2.0), t0, 0);
    assert_eq!(dj.mode(), ClockMode::BeatGrid);

    // No further reference arrives; a click-check well past REF_STALE_MAX
    // after the last live signal must fall back on its own (nothing ever
    // "arrives" to report Drop — the check has to be proactive).
    let due = dj.due_clicks(after(t0, REF_STALE_MAX + ms(1)), H);
    assert_eq!(dj.mode(), ClockMode::Wallclock);
    assert_eq!(
        due.transition,
        Some(ClockTransition { to: ClockMode::Wallclock, reason: TransitionReason::Stale })
    );
    assert!(due.offsets.is_empty(), "a click-check that falls back schedules nothing");
}

#[test]
fn exactly_at_the_stale_boundary_still_holds_beat_grid() {
    // Mirrors the inclusive-boundary convention the rest of the ladder
    // uses (REF_STALE_MAX itself is still trusted; only PAST it drops).
    let mut dj = Rig::default();
    let t0 = Moment { nanos: 7_000_000_000 };
    dj.observe_beat_sync(BeatRef::new(0.0, 2.0), t0, 0);

    let due = dj.due_clicks(after(t0, REF_STALE_MAX), H);
    assert_eq!(dj.mode(), ClockMode::BeatGrid, "exactly REF_STALE_MAX old is still accepted");
    assert!(due.transition.is_none());
}

#[test]
fn a_touch_extends_liveness_past_what_a_single_fold_would_cover() {
    // A Touch-band ref (age > REF_FOLD_MAX) still refreshes last_ref_at,
    // pushing the staleness deadline out even though it never folds the
    // phasor — this is what makes Touch a genuine liveness signal rather
    // than a no-op.
    let mut dj = Rig::default();
    let now_epoch_ns: u64 = 10_000_000_000;
    let t0 = Moment { nanos: 7_000_000_000 };
    dj.observe_beat_sync(BeatRef { beat: 0.0, tempo_bps: 2.0, epoch_ns: now_epoch_ns }, t0, now_epoch_ns);

    // At t0 + 3s, touch with a ref stamped 2s old relative to THIS receipt
    // (still within REF_STALE_MAX of the anchor too, so this alone
    // wouldn't prove much) — refresh liveness here.
    let t1 = after(t0, ms(3 * 1000));
    let touch_now_epoch_ns = now_epoch_ns + 3_000_000_000;
    let touch_epoch_ns = touch_now_epoch_ns - 2_000_000_000; // 2s old -> Touch band
    dj.observe_beat_sync(
        BeatRef { beat: 6.0, tempo_bps: 2.0, epoch_ns: touch_epoch_ns },
        t1,
        touch_now_epoch_ns,
    );
    assert_eq!(dj.mode(), ClockMode::BeatGrid);

    // At t0 + 4.5s (1.5s after the touch) a click-check must still hold —
    // without the touch's liveness refresh, t0+4.5s would be only 4.5s
    // past the ORIGINAL anchor, still under REF_STALE_MAX anyway, so
    // push further: t0 + 3s + REF_STALE_MAX - epsilon must still hold,
    // proving the deadline moved with the touch, not just the anchor.
    let checkpoint = after(t1, REF_STALE_MAX - ms(1));
    let due = dj.due_clicks(checkpoint, H);
    assert_eq!(dj.mode(), ClockMode::BeatGrid, "the touch pushed the staleness deadline out");
    assert!(due.transition.is_none());
}

#[test]
fn a_flush_falls_back_to_wallclock_reason_flush_and_resets_the_cursor() {
    let mut dj = Rig::default();
    let t0 = Moment { nanos: 7_000_000_000 };
    dj.observe_beat_sync(BeatRef::new(0.0, 2.0), t0, 0);
    dj.due_clicks(t0, H); // seed next_beat
    assert_eq!(dj.mode(), ClockMode::BeatGrid);

    let transition = dj.on_flush();
    assert_eq!(
        transition,
        Some(ClockTransition { to: ClockMode::Wallclock, reason: TransitionReason::Flush })
    );
    assert_eq!(dj.mode(), ClockMode::Wallclock);
    assert!(dj.beat_position(t0).is_none(), "phasor dropped");
    assert!(dj.due_clicks(t0, H).offsets.is_empty(), "cursor reset — nothing pending");
}

#[test]
fn a_second_flush_while_already_wallclock_is_a_silent_no_op() {
    let mut dj = Rig::default();
    assert_eq!(dj.on_flush(), None, "flushing an already-silent DJ reports nothing");
    assert_eq!(dj.mode(), ClockMode::Wallclock);
}

#[test]
fn a_disconnect_falls_back_to_wallclock_reason_disconnect_and_resets_the_cursor() {
    let mut dj = Rig::default();
    let t0 = Moment { nanos: 7_000_000_000 };
    dj.observe_beat_sync(BeatRef::new(0.0, 2.0), t0, 0);
    dj.due_clicks(t0, H);
    assert_eq!(dj.mode(), ClockMode::BeatGrid);

    let transition = dj.on_disconnect();
    assert_eq!(
        transition,
        Some(ClockTransition {
            to: ClockMode::Wallclock,
            reason: TransitionReason::Disconnect
        })
    );
    assert_eq!(dj.mode(), ClockMode::Wallclock);
    assert!(dj.beat_position(t0).is_none());
}

#[test]
fn re_anchoring_after_a_fallback_returns_to_beat_grid() {
    let mut dj = Rig::default();
    let t0 = Moment { nanos: 7_000_000_000 };
    dj.observe_beat_sync(BeatRef::new(0.0, 2.0), t0, 0);
    dj.on_flush();
    assert_eq!(dj.mode(), ClockMode::Wallclock);

    // The next `play` re-anchors it — a fresh Fold from Wallclock reports
    // the transition again (it's a genuinely new anchoring, not a repeat).
    let t1 = after(t0, ms(5 * 1000));
    let obs = dj.observe_beat_sync(BeatRef::new(10.0, 2.0), t1, 0);
    assert_eq!(dj.mode(), ClockMode::BeatGrid);
    assert_eq!(
        obs.transition,
        Some(ClockTransition { to: ClockMode::BeatGrid, reason: TransitionReason::Fold })
    );
}

#[test]
fn a_drop_disposition_ref_neither_folds_nor_extends_liveness() {
    // An already-ancient-by-its-own-stamp ref (age > REF_STALE_MAX) must
    // not reset the staleness clock either — otherwise a flood of junk
    // packets could keep BeatGrid alive forever with no real signal.
    let mut dj = Rig::default();
    let now_epoch_ns: u64 = 10_000_000_000;
    let t0 = Moment { nanos: 7_000_000_000 };
    dj.observe_beat_sync(BeatRef { beat: 0.0, tempo_bps: 2.0, epoch_ns: now_epoch_ns }, t0, now_epoch_ns);

    // At t0 + 4.9s (just under REF_STALE_MAX), an ancient ref arrives
    // (dropped) — it must not refresh liveness.
    let t1 = after(t0, REF_STALE_MAX - ms(100));
    let ancient_epoch_ns = now_epoch_ns; // stamped at anchor time, but "now" has moved far past REF_STALE_MAX
    let far_now_epoch_ns = now_epoch_ns + REF_STALE_MAX * 10;
    let obs = dj.observe_beat_sync(
        BeatRef { beat: 5.0, tempo_bps: 2.0, epoch_ns: ancient_epoch_ns },
        t1,
        far_now_epoch_ns,
    );
    assert_eq!(obs.transition, None);

    // A click-check just past the ORIGINAL anchor's staleness deadline
    // must still fall back — the dropped ref bought nothing.
    let due = dj.due_clicks(after(t0, REF_STALE_MAX + ms(1)), H);
    assert_eq!(dj.mode(), ClockMode::Wallclock);
    assert_eq!(due.transition.map(|t| t.reason), Some(TransitionReason::Stale));
}

// ── Click policy ──

#[test]
fn a_fresh_dj_schedules_nothing() {
    let mut dj = Rig::default();
    assert!(dj.due_clicks(Moment { nanos: 7_000_000_000 }, H).offsets.is_empty(), "no reference yet");
}

#[test]
fn the_first_reference_does_not_retro_schedule() {
    let mut dj = Rig::default();
    let t0 = Moment { nanos: 7_000_000_000 };
    dj.observe_beat_sync(BeatRef::new(100.0, 2.0), t0, 0);
    assert!(dj.due_clicks(t0, H).offsets.is_empty(), "anchoring queues nothing");
}

#[test]
fn beats_are_scheduled_once_at_their_predicted_offset() {
    let mut dj = Rig::default();
    let t0 = Moment { nanos: 7_000_000_000 };
    dj.observe_beat_sync(BeatRef::new(0.0, 2.0), t0, 0); // 120 BPM
    assert!(dj.due_clicks(t0, H).offsets.is_empty());

    let due = dj.due_clicks(after(t0, ms(300)), H);
    assert_eq!(due.offsets.len(), 1);
    assert!(near(due.offsets[0], 200.0), "beat 1 lands 200 ms out, got {:?}", due.offsets[0]);

    assert!(dj.due_clicks(after(t0, ms(350)), H).offsets.is_empty());

    let due2 = dj.due_clicks(after(t0, ms(800)), H);
    assert_eq!(due2.offsets.len(), 1, "beat 2 scheduled exactly once");
    assert!(near(due2.offsets[0], 200.0));
}

#[test]
fn a_stalled_check_clicks_at_most_once_never_a_burst() {
    let mut dj = Rig::default();
    let t0 = Moment { nanos: 7_000_000_000 };
    dj.observe_beat_sync(BeatRef::new(0.0, 2.0), t0, 0);
    dj.due_clicks(t0, H); // seeds next_beat = 1

    let due = dj.due_clicks(after(t0, ms(1600)), H);
    assert_eq!(due.offsets.len(), 1, "the whole missed backlog collapses to one click: {due:?}");
    assert!(due.offsets[0] == 0, "clamped to now, not scheduled into the past");
    assert!(due.transition.is_none(), "well within REF_STALE_MAX — no mode change");

    assert!(dj.due_clicks(after(t0, ms(1600)), H).offsets.is_empty(), "no replay");

    let resumed = dj.due_clicks(after(t0, ms(1750)), H);
    assert_eq!(resumed.offsets.len(), 1, "cadence resumed on the grid, not still catching up");
    assert!(near(resumed.offsets[0], 250.0));
}

/// A BIGGER backlog must STILL collapse to exactly one click.
#[test]
fn a_large_forward_jump_still_clicks_at_most_once() {
    let mut dj = Rig::default();
    let t0 = Moment { nanos: 7_000_000_000 };
    dj.observe_beat_sync(BeatRef::new(0.0, 2.0), t0, 0);
    dj.due_clicks(t0, H); // seeds next_beat = 1

    let due = dj.due_clicks(after(t0, ms(2000)), H); // cur = 4.0
    assert_eq!(due.offsets.len(), 1, "still exactly one click regardless of backlog size: {due:?}");
    assert!(due.offsets[0] == 0);
}

#[test]
fn a_stranded_next_beat_recovers_within_bounded_slack() {
    let mut dj = Rig::default();
    let t0 = Moment { nanos: 7_000_000_000 };
    dj.observe_beat_sync(BeatRef::new(0.0, 2.0), t0, 0);
    dj.due_clicks(t0, H); // seeds next_beat = 1

    // Directly strand next_beat: what a multi-beat backward phase walk
    // would leave behind.
    dj.core.next_beat = Some(9);

    let due = dj.due_clicks(t0, H); // cur is still ~0.0
    assert!(due.offsets.is_empty(), "detecting + re-seeding a strand is silent");

    let recovered = dj.due_clicks(after(t0, ms(300)), H);
    assert_eq!(recovered.offsets.len(), 1, "recovered near cur, not still waiting for beat 9");
    assert!(near(recovered.offsets[0], 200.0));
}

#[test]
fn a_legitimate_backward_phase_step_does_not_reseed() {
    let mut dj = Rig::default();
    let t0 = Moment { nanos: 7_000_000_000 };
    dj.observe_beat_sync(BeatRef::new(10.0, 2.0), t0, 0);
    let seeded = dj.due_clicks(t0, H); // seeds next_beat = 11
    assert!(seeded.offsets.is_empty());

    let t1 = after(t0, ms(100)); // free-run would read 10.2
    dj.observe_beat_sync(BeatRef::new(9.0, 2.0), t1, 0); // steps back <= 1 beat

    let due = dj.due_clicks(t1, H);
    assert!(due.offsets.is_empty(), "no un-strand click from a legitimate <=1-beat step");
    assert_eq!(dj.core.next_beat, Some(11), "next_beat must not be reseeded by a legitimate step");
}

// ── next_wake ───────────────────────────────────────────────────────

#[test]
fn next_wake_is_none_without_a_phasor() {
    let dj = Rig::default();
    assert_eq!(dj.next_wake(Moment { nanos: 7_000_000_000 }, H), None);
}

/// The horizon lead: waking AT the
/// beat would schedule the click with ~zero ALSA lead — the wake must
/// come as the beat ENTERS the horizon so `due_clicks` hands the sink a
/// full-lead offset.
#[test]
fn next_wake_leads_the_next_beat_by_the_horizon() {
    let mut dj = Rig::default();
    let t0 = Moment { nanos: 7_000_000_000 };
    dj.observe_beat_sync(BeatRef::new(0.0, 2.0), t0, 0); // 120 BPM: 0.5s/beat
    let wake = dj.next_wake(t0, H).expect("phasor is running");
    // Beat 1 sounds at t0+500ms; the wake aims at t0+500ms−250ms.
    assert!(near(wake.nanos_since(t0), 250.0), "wakes as beat 1 enters the horizon");
    // And the offset a due-click check AT that wake would hand the sink
    // is the full horizon — the lead pre-scheduling exists to provide.
    let due = dj.due_clicks(wake, H);
    assert_eq!(due.offsets.len(), 1);
    assert!(near(due.offsets[0], 250.0), "the click is scheduled a full horizon ahead");
}

/// An overdue target clamps to `now` (never a past instant for
/// `sleep_until` to spin on) — and the overdue-collapse policy then owns
/// "now" at the next click-check.
#[test]
fn next_wake_clamps_an_overdue_beat_to_now() {
    let mut dj = Rig::default();
    let t0 = Moment { nanos: 7_000_000_000 };
    dj.observe_beat_sync(BeatRef::new(0.0, 2.0), t0, 0);
    // Well past beat 1 with nothing ever scheduled.
    let t1 = after(t0, ms(900));
    let wake = dj.next_wake(t1, H).expect("still running");
    assert_eq!(wake, t1, "an already-due beat wakes immediately, never in the past");
}

#[test]
fn next_wake_advances_after_a_click_check_seeds_the_cursor() {
    let mut dj = Rig::default();
    let t0 = Moment { nanos: 7_000_000_000 };
    dj.observe_beat_sync(BeatRef::new(0.0, 2.0), t0, 0);
    dj.due_clicks(after(t0, ms(300)), H); // schedules beat 1

    // After the point beat 1 has fired, the next wake should target beat
    // 2's horizon entry: beat 2 sounds at t0+1s, wake at t0+750ms.
    let t1 = after(t0, ms(600));
    let wake = dj.next_wake(t1, H).expect("still running");
    assert!(near(wake.nanos_since(t0), 750.0), "targets beat 2's horizon entry, got {:?}", wake);
}

// ── The free-run cap + the stale deadline ──

/// Sustained `Touch` keeps liveness fresh forever while the phasor never
/// corrects — without the cap, BeatGrid would trust an uncorrected,
/// drifting phasor indefinitely (`MAX_FREE_RUN`'s doc).
#[test]
fn sustained_touch_past_the_free_run_cap_falls_back_even_with_fresh_liveness() {
    let mut dj = Rig::default();
    let t0 = Moment { nanos: 7_000_000_000 };
    dj.observe_beat_sync(BeatRef::new(0.0, 2.0), t0, 0); // anchoring Fold
    assert_eq!(dj.mode(), ClockMode::BeatGrid);

    // Touch-aged refs (2s stale by their own stamp) arriving at t0+6s and
    // t0+9s: liveness stays fresh, the phasor is never corrected again.
    let base: u64 = 100_000_000_000;
    for at_secs in [6u64, 9] {
        let obs = dj.observe_beat_sync(
            BeatRef { beat: 0.0, tempo_bps: 2.0, epoch_ns: base },
            after(t0, ms(at_secs * 1000)),
            base + 2_000_000_000, // ref is 2s old → Touch
        );
        assert_eq!(obs.transition, None, "Touch holds BeatGrid");
    }
    assert_eq!(dj.mode(), ClockMode::BeatGrid);

    // A click-check at t0+10.5s: liveness is 1.5s fresh (well within
    // REF_STALE_MAX) but the last FOLD is 10.5s old — past MAX_FREE_RUN.
    let due = dj.due_clicks(after(t0, ms(10_500)), H);
    assert_eq!(dj.mode(), ClockMode::Wallclock);
    assert_eq!(
        due.transition,
        Some(ClockTransition {
            to: ClockMode::Wallclock,
            reason: TransitionReason::FreeRunCap
        }),
        "fresh liveness must not outlive an uncorrected phasor"
    );
    assert!(due.offsets.is_empty(), "no clicks from a phasor just declared untrusted");
}

#[test]
fn next_stale_deadline_is_none_in_wallclock_and_the_binding_ladder_in_beat_grid() {
    let mut dj = Rig::default();
    assert_eq!(dj.next_stale_deadline(), None, "nothing to fall back from in Wallclock");

    let t0 = Moment { nanos: 7_000_000_000 };
    dj.observe_beat_sync(BeatRef::new(0.0, 2.0), t0, 0);
    // Freshly anchored: stale (t0+5s) binds before the cap (t0+10s).
    assert_eq!(dj.next_stale_deadline(), Some(after(t0, REF_STALE_MAX)));

    // A Touch at t0+7s pushes the stale deadline to t0+12s — now the
    // free-run cap (t0+10s) is the binding rung.
    let base: u64 = 100_000_000_000;
    dj.observe_beat_sync(
        BeatRef { beat: 0.0, tempo_bps: 2.0, epoch_ns: base },
        after(t0, ms(7 * 1000)),
        base + 2_000_000_000,
    );
    assert_eq!(
        dj.next_stale_deadline(),
        Some(after(t0, MAX_FREE_RUN)),
        "sustained Touch hands the deadline to the free-run cap"
    );
}

#[test]
fn ref_fold_max_is_tighter_than_stale_max_boundary_sanity() {
    // If this ever inverted, the Touch band would be empty or negative.
    assert!(REF_FOLD_MAX < REF_STALE_MAX);
}

// ── Ages, names and defaults ──

#[test]
fn a_reference_folds_touches_or_drops_by_its_age() {
    let now = Moment { nanos: 20_000_000_000 };
    let epoch = 50_000_000_000;
    assert_eq!(disposition(0, now, epoch), RefDisposition::Fold(now), "no stamp: as of now");
    assert_eq!(
        disposition(epoch - REF_FOLD_MAX, now, epoch),
        RefDisposition::Fold(Moment { nanos: now.nanos - REF_FOLD_MAX as i64 }),
        "a fold is as of the moment of emission"
    );
    assert_eq!(disposition(epoch - REF_FOLD_MAX - 1, now, epoch), RefDisposition::Touch);
    assert_eq!(disposition(epoch - REF_STALE_MAX, now, epoch), RefDisposition::Touch);
    assert_eq!(disposition(epoch - REF_STALE_MAX - 1, now, epoch), RefDisposition::Drop);
}

#[test]
fn modes_and_reasons_have_names() {
    assert_eq!(ClockMode::default(), ClockMode::Wallclock);
    assert_eq!(ClockMode::Wallclock.as_str(), "wallclock");
    assert_eq!(ClockMode::BeatGrid.as_str(), "beat_grid");
    assert_eq!(TransitionReason::Fold.as_str(), "fold");
    assert_eq!(TransitionReason::FreeRunCap.as_str(), "free_run_cap");
}

#[test]
fn the_default_click() {
    assert_eq!(
        MetronomeConfig::default(),
        MetronomeConfig { enabled: true, note: 84, channel: 15, velocity: 110, gate_ms: 60 }
    );
}

/// A check at one moment, made twice, schedules nothing the second time.
#[test]
fn a_repeated_check_is_silent() {
    let mut dj = Rig::default();
    let t0 = Moment { nanos: 7_000_000_000 };
    dj.observe_beat_sync(BeatRef::new(0.0, 2.0), t0, 0);
    dj.due_clicks(t0, H);
    let t1 = after(t0, ms(300));
    assert_eq!(dj.due_clicks(t1, H).offsets.len(), 1);
    assert!(dj.due_clicks(t1, H).offsets.is_empty());
}

/// At one and a half beats per second the first beat is two thirds of a second away, to the
/// nearest nanosecond.
#[test]
fn a_click_comes_at_the_nearest_nanosecond() {
    let mut dj = Rig::default();
    let t0 = Moment { nanos: 7_000_000_000 };
    dj.observe_beat_sync(BeatRef::new(0.0, 1.5), t0, 0);
    let phase = BeatPhase { position: 0, tempo: 1_500_000_000 };
    let wake = dj.core.next_wake(t0, 0, Some(phase));
    assert_eq!(wake, Some(after(t0, 666_666_667)));
    let due = dj.core.due_clicks(t0, ms(700), Some(phase));
    assert_eq!(due.offsets, vec![666_666_667]);
}

/// A correction of the tempo between two checks neither repeats a beat nor leaves one out.
#[test]
fn a_correction_repeats_no_beat() {
    let mut dj = Rig::default();
    let t0 = Moment { nanos: 7_000_000_000 };
    dj.observe_beat_sync(BeatRef::new(0.0, 2.0), t0, 0);
    let slow = BeatPhase { position: 0, tempo: 2_000_000_000 };
    let fast = BeatPhase { position: 500_000_000, tempo: 2_500_000_000 };
    let due = dj.core.due_clicks(t0, ms(1100), Some(slow));
    assert_eq!(due.offsets, vec![500_000_000, 1_000_000_000], "beats 1 and 2");
    let due = dj.core.due_clicks(after(t0, ms(250)), ms(1100), Some(fast));
    assert_eq!(due.offsets, vec![1_000_000_000], "beat 3 alone");
}
