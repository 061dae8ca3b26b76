use kaijutsu_app::dj::audio::{dispatch_render_cue, AudioStep};
use kaijutsu_app::dj::clock::{
    BeatPhase, ClockMode, ClockTransition, DjCore, DueClicks, MetronomeConfig, PhasorStep,
    TransitionReason, REF_STALE_MAX,
};
use kaijutsu_app::dj::midi::{CueKind, CuePayload, RenderCue};
use kaijutsu_app::dj::thread::{
    handle_due_clicks, handle_server_event, handle_status_change, next_timer, should_start_engine,
    ClickCommand, DjCtl, DjEffect, DjEvent, DjLoop, NO_PHASOR_SLEEP, SCHEDULE_HORIZON,
};
use kaijutsu_app::time::Moment;

const T0: Moment = Moment { nanos: 5_000_000_000 };
const BEAT_SYNC: DjEvent = DjEvent::BeatSync { epoch_ns: 0 };
const FLUSH_CUE: DjEvent = DjEvent::RenderCue(CueKind::Flush);
const FOLDED: DjEffect = DjEffect::Transition(ClockTransition {
    to: ClockMode::BeatGrid,
    reason: TransitionReason::Fold,
});
const DISCONNECTED: DjEffect = DjEffect::Transition(ClockTransition {
    to: ClockMode::Wallclock,
    reason: TransitionReason::Disconnect,
});

fn ms(n: u64) -> u64 {
    n * 1_000_000
}

fn after(at: Moment, nanos: u64) -> Moment {
    Moment { nanos: at.nanos + nanos as i64 }
}

// ── Server events ──

#[test]
fn a_beat_sync_event_folds_and_reports_the_anchoring_transition() {
    let mut core = DjCore::default();
    let (step, effects) = handle_server_event(&mut core, &BEAT_SYNC, T0, 0);
    assert_eq!(core.mode(), ClockMode::BeatGrid);
    assert_eq!(step, PhasorStep::Anchor(T0));
    assert_eq!(
        effects,
        vec![FOLDED],
        "the anchoring fold has no slew to report (first-ever fold), only the transition"
    );
}

#[test]
fn a_second_beat_sync_while_already_dialed_in_reports_a_slew_not_a_repeat_transition() {
    let mut core = DjCore::default();
    handle_server_event(&mut core, &BEAT_SYNC, T0, 0);

    let t1 = after(T0, ms(1000));
    let (step, effects) = handle_server_event(&mut core, &BEAT_SYNC, t1, 0);
    assert_eq!(step, PhasorStep::Correct(t1));
    assert_eq!(effects.len(), 1, "no repeat transition on an ordinary fold: {effects:?}");
    assert!(matches!(effects[0], DjEffect::Slew), "an ongoing fold reports a Slew: {effects:?}");
}

#[test]
fn a_render_flush_cue_calls_on_flush_and_reports_the_transition() {
    let mut core = DjCore::default();
    handle_server_event(&mut core, &BEAT_SYNC, T0, 0);
    assert_eq!(core.mode(), ClockMode::BeatGrid);

    let (_, effects) = handle_server_event(&mut core, &FLUSH_CUE, T0, 0);
    assert_eq!(core.mode(), ClockMode::Wallclock);
    assert_eq!(
        effects,
        vec![DjEffect::Transition(ClockTransition {
            to: ClockMode::Wallclock,
            reason: TransitionReason::Flush
        })]
    );
}

#[test]
fn a_non_flush_render_cue_is_ignored_this_task() {
    let mut core = DjCore::default();
    let event = DjEvent::RenderCue(CueKind::Abc);
    let (step, effects) = handle_server_event(&mut core, &event, T0, 0);
    assert_eq!(step, PhasorStep::Leave);
    assert!(effects.is_empty(), "a cue is for the sinks, not the clock");
    assert_eq!(core.mode(), ClockMode::Wallclock, "an ignored event must not touch the clock");
}

#[test]
fn an_unrelated_server_event_is_ignored() {
    let mut core = DjCore::default();
    let (_, effects) = handle_server_event(&mut core, &DjEvent::Other, T0, 0);
    assert!(effects.is_empty());
}

// ── Connection status ──

#[test]
fn a_non_connected_status_triggers_on_disconnect() {
    let mut core = DjCore::default();
    handle_server_event(&mut core, &BEAT_SYNC, T0, 0);
    assert_eq!(core.mode(), ClockMode::BeatGrid);

    let effect = handle_status_change(&mut core, false);
    assert_eq!(effect, Some(DISCONNECTED));
    assert_eq!(core.mode(), ClockMode::Wallclock);
}

#[test]
fn a_connected_status_is_a_no_op() {
    let mut core = DjCore::default();
    handle_server_event(&mut core, &BEAT_SYNC, T0, 0);

    let effect = handle_status_change(&mut core, true);
    assert_eq!(effect, None);
    assert_eq!(
        core.mode(),
        ClockMode::BeatGrid,
        "a healthy status must not disturb a running phasor"
    );
}

// ── Clicks ──

#[test]
fn due_clicks_dispatch_to_the_sink_when_enabled() {
    let cfg =
        MetronomeConfig { enabled: true, note: 84, channel: 15, velocity: 110, gate_ms: 60 };
    let due = DueClicks { offsets: vec![ms(200)], transition: None };

    let (clicks, effects) = handle_due_clicks(&cfg, true, &due);
    assert_eq!(effects, vec![DjEffect::Click], "one Click effect per dispatched offset");
    assert_eq!(
        clicks,
        vec![ClickCommand { note: 84, channel: 15, velocity: 110, gate_ms: 60, offset: ms(200) }],
        "exactly one dispatch"
    );
}

#[test]
fn due_clicks_skip_the_sink_when_disabled() {
    let cfg =
        MetronomeConfig { enabled: false, note: 84, channel: 15, velocity: 110, gate_ms: 60 };
    let due = DueClicks { offsets: vec![ms(200)], transition: None };

    let (clicks, effects) = handle_due_clicks(&cfg, true, &due);
    assert!(effects.is_empty(), "disabled config dispatches nothing, no Click effects either");
    assert!(clicks.is_empty(), "disabled config must not dispatch, even with a sink present");
}

#[test]
fn due_clicks_with_no_sink_still_report_transitions_headless_correctness() {
    let cfg = MetronomeConfig::default();
    let stale = ClockTransition { to: ClockMode::Wallclock, reason: TransitionReason::Stale };
    let due = DueClicks { offsets: vec![0], transition: Some(stale) };
    let (clicks, effects) = handle_due_clicks(&cfg, false, &due);
    assert_eq!(
        effects,
        vec![DjEffect::Transition(stale)],
        "a headless DJ (no click sink) still reports clock transitions correctly"
    );
    assert!(clicks.is_empty());
}

// ── The loop ──

/// Each connection seeds the clock from its level: one that is not up halts
/// it, with no change of status ever sent.
#[test]
fn thread_swaps_subscriptions_for_real_and_shuts_down_cleanly() {
    let mut dj = DjLoop::default();

    let ready = dj.on_ctl(Some(DjCtl::ActorReady { connected: false }));
    assert!(ready.resubscribe && ready.running);
    assert_eq!(ready.effect, None, "nothing to halt yet");
    let (_, anchored) = dj.on_event(&BEAT_SYNC, T0, 0);
    assert_eq!(anchored, vec![FOLDED]);

    let swapped = dj.on_ctl(Some(DjCtl::ActorReady { connected: false }));
    assert!(swapped.resubscribe, "the old subscription is dropped");
    assert_eq!(swapped.effect, Some(DISCONNECTED));
    let (_, reanchored) = dj.on_event(&BEAT_SYNC, T0, 0);
    assert_eq!(reanchored, vec![FOLDED]);

    let shutdown = dj.on_ctl(Some(DjCtl::Shutdown));
    assert!(!shutdown.running && !shutdown.resubscribe);
}

#[test]
fn thread_exits_cleanly_when_the_ctl_channel_simply_closes() {
    let mut dj = DjLoop::default();
    assert!(!dj.on_ctl(None).running);
}

/// A cue passes the clock by and goes on to the scheduler.
#[test]
fn thread_dispatches_a_render_cue_to_the_scheduler() {
    let mut dj = DjLoop::default();
    dj.on_ctl(Some(DjCtl::ActorReady { connected: false }));
    let cue = RenderCue {
        mime: "audio/wav".to_string(),
        kind: CueKind::Audio,
        payload: CuePayload::Inline(vec![1, 2, 3, 4]),
        lead: 0,
        epoch_ns: 0,
    };
    let (_, effects) = dj.on_event(&DjEvent::RenderCue(cue.kind), T0, 0);
    assert!(effects.is_empty());
    match dispatch_render_cue(&cue, T0, 0, dj.connected) {
        AudioStep::PlayNow { bytes } => assert_eq!(bytes, vec![1, 2, 3, 4]),
        other => panic!("expected PlayNow, got {other:?}"),
    }
}

#[test]
fn a_new_click_configuration_takes_effect() {
    let mut dj = DjLoop::default();
    let cfg =
        MetronomeConfig { enabled: false, note: 72, channel: 9, velocity: 40, gate_ms: 30 };
    let reply = dj.on_ctl(Some(DjCtl::MetronomeConfig(cfg)));
    assert!(reply.running && !reply.resubscribe && reply.effect.is_none());
    assert_eq!(dj.dj.metronome, cfg);
}

#[test]
fn a_timer_clicks_on_the_beat() {
    let mut dj = DjLoop::default();
    dj.on_event(&BEAT_SYNC, T0, 0);
    let beat = |nanos: i64| Some(BeatPhase { position: nanos * 2, tempo: 2_000_000_000 });
    let (clicks, _) = dj.on_timer(T0, beat(0), true);
    assert!(clicks.is_empty());
    let (clicks, effects) = dj.on_timer(after(T0, ms(300)), beat(300_000_000), true);
    assert_eq!(clicks.len(), 1);
    assert_eq!(clicks[0].offset, ms(200));
    assert_eq!(effects, vec![DjEffect::Click]);
}

#[test]
fn the_timer_wakes_for_beats_and_for_staleness() {
    let mut dj = DjLoop::default();
    assert_eq!(next_timer(&dj.dj, T0, None), after(T0, NO_PHASOR_SLEEP));
    dj.on_event(&BEAT_SYNC, T0, 0);
    // A slow beat: the fallback comes first.
    let slow = BeatPhase { position: 0, tempo: 1_000_000 };
    assert_eq!(next_timer(&dj.dj, T0, Some(slow)), after(T0, REF_STALE_MAX));
    // Two beats a second: the wake leads the beat by the horizon.
    let brisk = BeatPhase { position: 0, tempo: 2_000_000_000 };
    assert_eq!(next_timer(&dj.dj, T0, Some(brisk)), after(T0, ms(500) - SCHEDULE_HORIZON));
}

#[test]
fn a_settled_autoconnect_is_not_tried_again() {
    let mut dj = DjLoop::default();
    dj.on_autoconnect(false);
    assert!(!dj.autoconnect_done);
    dj.on_autoconnect(true);
    assert!(dj.autoconnect_done);
    dj.on_autoconnect(false);
    assert!(dj.autoconnect_done);
}

#[test]
fn a_status_says_whether_objects_can_be_fetched() {
    let mut dj = DjLoop::default();
    assert!(!dj.connected);
    assert_eq!(dj.on_status(true), None);
    assert!(dj.connected);
    dj.on_event(&BEAT_SYNC, T0, 0);
    assert_eq!(dj.on_status(false), Some(DISCONNECTED));
    assert!(!dj.connected);
}

#[test]
fn an_engine_starts_once_for_each_connection() {
    assert!(should_start_engine(Some(1), true, true, None));
    assert!(!should_start_engine(Some(1), true, true, Some(1)), "already started for it");
    assert!(should_start_engine(Some(2), true, true, Some(1)));
    assert!(!should_start_engine(None, true, true, None));
    assert!(!should_start_engine(Some(1), false, true, None));
    assert!(!should_start_engine(Some(1), true, false, None));
}
