use kaijutsu_app::dj::audio::{
    clip_media_fetch, clip_source_offset, decide_deadline, dispatch_clip_media,
    dispatch_render_cue, effective_deadline, handle_prefetch_outcome, AudioRefusal, AudioStep, Clip,
    DeadlineDecision,
};
use kaijutsu_app::dj::clock::REF_STALE_MAX;
use kaijutsu_app::dj::midi::{CueKind, CuePayload, RenderCue};
use kaijutsu_app::dj::prefetch::{Gain, PrefetchKind, PrefetchOutcome};
use kaijutsu_app::time::Moment;

const NOW: Moment = Moment { nanos: 60_000_000_000 };
const NOW_EPOCH_NS: u64 = 1_700_000_000_000_000_000;
/// How late a placed sound may be.
const GRACE: u64 = 100_000_000;
const UNITY: Gain = Gain { bits: 0 };

fn ms(n: u64) -> u64 {
    n * 1_000_000
}

fn span(n: u64) -> u128 {
    u128::from(n) * 1_000_000
}

fn after(at: Moment, nanos: u64) -> Moment {
    Moment { nanos: at.nanos + nanos as i64 }
}

fn before(at: Moment, nanos: u64) -> Moment {
    Moment { nanos: at.nanos - nanos as i64 }
}

fn decibels(db: f64) -> Gain {
    Gain { bits: db.to_bits() }
}

fn wav() -> Vec<u8> {
    b"RIFF\x24\x00\x00\x00WAVE".to_vec()
}

fn now_inline(mime: &str, kind: CueKind, bytes: Vec<u8>) -> RenderCue {
    RenderCue {
        mime: mime.to_string(),
        kind,
        payload: CuePayload::Inline(bytes),
        lead: 0,
        epoch_ns: 0,
    }
}

fn now_stored(mime: &str, kind: CueKind, hash: &str) -> RenderCue {
    RenderCue { payload: CuePayload::Cas(hash.to_string()), ..now_inline(mime, kind, Vec::new()) }
}

fn stale_epoch_ns() -> u64 {
    NOW_EPOCH_NS.saturating_sub(REF_STALE_MAX + ms(2000))
}

fn fetched(mime: &str, kind: PrefetchKind, result: Result<Vec<u8>, String>) -> PrefetchOutcome {
    PrefetchOutcome { mime: mime.to_string(), hash: "test-object".to_string(), kind, result }
}

fn play_at(step: AudioStep) -> (Vec<u8>, Moment, Option<u128>, Option<u128>, Gain) {
    match step {
        AudioStep::PlayAt { bytes, deadline, src_offset, src_len, gain } => {
            (bytes, deadline, src_offset, src_len, gain)
        }
        other => panic!("expected PlayAt, got {other:?}"),
    }
}

fn refusal(step: AudioStep) -> AudioRefusal {
    match step {
        AudioStep::Refuse(refusal) => refusal,
        other => panic!("expected a refusal, got {other:?}"),
    }
}

// ── Cues ──

/// A zero-lead, unstamped inline cue is the play-now fast path: the untouched
/// bytes.
#[test]
fn inline_audio_cue_zero_lead_sends_one_play_now() {
    let cue = now_inline("audio/wav", CueKind::Audio, wav());
    match dispatch_render_cue(&cue, NOW, 0, false) {
        AudioStep::PlayNow { bytes } => assert_eq!(bytes, wav()),
        other => panic!("expected PlayNow, got {other:?}"),
    }
}

/// An unstamped cue with a lead of 500 ms plays 500 ms out.
#[test]
fn inline_audio_cue_with_lead_sends_a_scheduled_play_at() {
    let cue = RenderCue { lead: span(500), ..now_inline("audio/wav", CueKind::Audio, wav()) };
    let (sent, deadline, src_offset, src_len, gain) =
        play_at(dispatch_render_cue(&cue, NOW, 0, false));
    assert_eq!(sent, wav());
    assert!(src_offset.is_none() && src_len.is_none() && gain == UNITY);
    assert_eq!(deadline, after(NOW, ms(500)));
}

/// A cue stamped stale beyond `REF_STALE_MAX` is rejected outright.
#[test]
fn a_stale_audio_cue_is_rejected_outright() {
    let cue = RenderCue {
        lead: span(50),
        epoch_ns: stale_epoch_ns(),
        ..now_inline("audio/wav", CueKind::Audio, wav())
    };
    let step = dispatch_render_cue(&cue, NOW, NOW_EPOCH_NS, false);
    assert!(matches!(refusal(step), AudioRefusal::Stale));
}

/// A stored sound without a connection cannot be fetched.
#[test]
fn cas_audio_cue_without_connection_produces_nothing() {
    let cue = now_stored("audio/wav", CueKind::Audio, "00000000000000000000000000000000");
    let step = dispatch_render_cue(&cue, NOW, 0, false);
    assert!(matches!(refusal(step), AudioRefusal::NoConnection));
}

#[test]
fn a_stored_sound_is_fetched_for_the_deadline_of_its_receipt() {
    let cue = RenderCue {
        lead: span(300),
        epoch_ns: NOW_EPOCH_NS - ms(100),
        ..now_stored("audio/wav", CueKind::Audio, "beef")
    };
    match dispatch_render_cue(&cue, NOW, NOW_EPOCH_NS, true) {
        AudioStep::Fetch { hash, mime, kind } => {
            assert_eq!(hash, "beef");
            assert_eq!(mime, "audio/wav");
            assert_eq!(
                kind,
                PrefetchKind::Audio { deadline: after(NOW, ms(200)), stamped: true }
            );
        }
        other => panic!("expected a fetch, got {other:?}"),
    }
}

/// A transport flush reaches the scheduler as a flush.
#[test]
fn a_flush_cue_sends_flush_to_the_scheduler() {
    let cue = now_inline("application/x-flush", CueKind::Flush, Vec::new());
    assert!(matches!(dispatch_render_cue(&cue, NOW, 0, false), AudioStep::Flush));
}

#[test]
fn what_no_sink_plays_is_left_alone_or_refused() {
    let score = now_inline("text/vnd.abc", CueKind::Abc, b"X:1".to_vec());
    assert!(matches!(dispatch_render_cue(&score, NOW, 0, true), AudioStep::Nothing));
    let text = now_inline("text/plain", CueKind::Other, b"hello".to_vec());
    assert!(matches!(dispatch_render_cue(&text, NOW, 0, true), AudioStep::Nothing));
    let stored = now_stored("text/plain", CueKind::Other, "beef");
    let step = dispatch_render_cue(&stored, NOW, 0, true);
    assert!(matches!(refusal(step), AudioRefusal::UnknownStored));
}

// ── Fetched objects ──

/// A resolved sound plays at the deadline of its receipt.
#[test]
fn a_resolved_audio_object_is_scheduled() {
    let outcome = fetched(
        "audio/wav",
        PrefetchKind::Audio { deadline: NOW, stamped: true },
        Ok(vec![1, 2, 3, 4]),
    );
    let (bytes, deadline, src_offset, src_len, gain) =
        play_at(handle_prefetch_outcome(outcome, NOW, GRACE));
    assert_eq!(bytes, vec![1, 2, 3, 4]);
    assert_eq!(deadline, NOW);
    assert!(src_offset.is_none() && src_len.is_none() && gain == UNITY);
}

/// A failed fetch plays nothing, and says why.
#[test]
fn a_failed_audio_prefetch_schedules_nothing() {
    let outcome = fetched(
        "audio/wav",
        PrefetchKind::Audio { deadline: NOW, stamped: true },
        Err("no such path".to_string()),
    );
    match refusal(handle_prefetch_outcome(outcome, NOW, GRACE)) {
        AudioRefusal::FetchFailed(why) => assert_eq!(why, "no such path"),
        other => panic!("expected a failed fetch, got {other:?}"),
    }
}

/// A stamped sound that lands past its grace is dropped.
#[test]
fn a_stamped_audio_object_landing_past_grace_is_dropped_not_scheduled() {
    let outcome = fetched(
        "audio/wav",
        PrefetchKind::Audio { deadline: before(NOW, GRACE + ms(50)), stamped: true },
        Ok(vec![1, 2, 3, 4]),
    );
    match refusal(handle_prefetch_outcome(outcome, NOW, GRACE)) {
        AudioRefusal::Late { late_by } => assert_eq!(late_by, GRACE + ms(50)),
        other => panic!("expected a late drop, got {other:?}"),
    }
}

/// An unstamped sound plays however late it lands.
#[test]
fn an_unstamped_audio_object_landing_late_still_schedules() {
    let outcome = fetched(
        "audio/wav",
        PrefetchKind::Audio { deadline: before(NOW, ms(5000)), stamped: false },
        Ok(vec![1, 2, 3, 4]),
    );
    let (bytes, ..) = play_at(handle_prefetch_outcome(outcome, NOW, GRACE));
    assert_eq!(bytes, vec![1, 2, 3, 4]);
}

/// The same holds of a clip's media.
#[test]
fn a_stamped_clip_media_object_landing_past_grace_is_dropped_not_scheduled() {
    let outcome = fetched(
        "audio/wav",
        PrefetchKind::ClipMedia {
            deadline: before(NOW, GRACE + ms(50)),
            stamped: true,
            src_offset: None,
            src_len: None,
            gain: UNITY,
        },
        Ok(vec![9, 9, 9]),
    );
    let step = handle_prefetch_outcome(outcome, NOW, GRACE);
    assert!(matches!(refusal(step), AudioRefusal::Late { .. }));
}

#[test]
fn a_deadline_is_kept_to_within_its_grace() {
    assert_eq!(decide_deadline(NOW, true, after(NOW, GRACE), GRACE), DeadlineDecision::Fire);
    assert_eq!(
        decide_deadline(NOW, true, after(NOW, GRACE + 1), GRACE),
        DeadlineDecision::DropLate { late_by: GRACE + 1 }
    );
    assert_eq!(decide_deadline(NOW, true, before(NOW, ms(700)), GRACE), DeadlineDecision::Fire);
    assert_eq!(decide_deadline(NOW, false, after(NOW, ms(9000)), GRACE), DeadlineDecision::Fire);
}

#[test]
fn a_deadline_counts_from_the_emission() {
    let epoch = NOW_EPOCH_NS;
    assert_eq!(effective_deadline(NOW, span(300), 0, epoch), Some(after(NOW, ms(300))));
    assert_eq!(
        effective_deadline(NOW, span(300), epoch - ms(120), epoch),
        Some(after(NOW, ms(180)))
    );
    assert_eq!(
        effective_deadline(NOW, span(100), epoch - ms(350), epoch),
        Some(before(NOW, ms(250)))
    );
    assert_eq!(
        effective_deadline(NOW, span(100), epoch - ms(100) - REF_STALE_MAX, epoch),
        Some(before(NOW, REF_STALE_MAX)),
        "exactly stale is still placed"
    );
    assert_eq!(effective_deadline(NOW, span(100), epoch - ms(101) - REF_STALE_MAX, epoch), None);
}

// ── Warming the cache ──

#[test]
fn prepare_cue_with_no_connection_warns_and_dispatches_nothing() {
    let cue = now_stored("application/x-prepare", CueKind::Prepare, "warm-me");
    let step = dispatch_render_cue(&cue, NOW, 0, false);
    assert!(matches!(refusal(step), AudioRefusal::NoConnection));
}

#[test]
fn a_prepare_cue_with_a_connection_fetches_and_is_never_stale() {
    let cue = RenderCue {
        epoch_ns: stale_epoch_ns(),
        ..now_stored("application/x-prepare", CueKind::Prepare, "warm-me")
    };
    match dispatch_render_cue(&cue, NOW, NOW_EPOCH_NS, true) {
        AudioStep::Fetch { hash, kind, .. } => {
            assert_eq!(hash, "warm-me");
            assert_eq!(kind, PrefetchKind::Warm { started: NOW });
        }
        other => panic!("expected a fetch, got {other:?}"),
    }
}

#[test]
fn inline_prepare_cue_is_a_protocol_misuse_and_dispatches_nothing() {
    let cue = now_inline("application/x-prepare", CueKind::Prepare, vec![1, 2, 3]);
    let step = dispatch_render_cue(&cue, NOW, 0, false);
    assert!(matches!(refusal(step), AudioRefusal::InlinePrepare));
}

#[test]
fn a_resolved_warm_prefetch_schedules_nothing() {
    let outcome = fetched(
        "application/x-prepare",
        PrefetchKind::Warm { started: NOW },
        Ok(vec![1, 2, 3, 4]),
    );
    match handle_prefetch_outcome(outcome, NOW, GRACE) {
        AudioStep::Warmed { len, started } => assert_eq!((len, started), (4, NOW)),
        other => panic!("expected a warm cache, got {other:?}"),
    }
}

#[test]
fn a_failed_warm_prefetch_schedules_nothing() {
    let outcome = fetched(
        "application/x-prepare",
        PrefetchKind::Warm { started: NOW },
        Err("transport died mid-warm".to_string()),
    );
    let step = handle_prefetch_outcome(outcome, NOW, GRACE);
    assert!(matches!(refusal(step), AudioRefusal::FetchFailed(_)));
}

// ── Clips ──

fn clip(src_offset_ms: u64, src_len_ms: Option<u64>, gain: Gain) -> Clip {
    Clip {
        media: "rimshot".to_string(),
        mime: "audio/wav".to_string(),
        src_offset_ms,
        src_len_ms,
        gain,
    }
}

/// A clip without a connection is read, but its media cannot be fetched.
#[test]
fn inline_clip_cue_without_connection_warns_and_schedules_nothing() {
    let record = r#"{"v":1,"media":"rimshot","mime":"audio/wav","label":"rimshot"}"#;
    let cue = now_inline("application/x-clip", CueKind::Clip, record.as_bytes().to_vec());
    match dispatch_render_cue(&cue, NOW, 0, false) {
        AudioStep::ParseClip { json, deadline, stamped } => {
            assert_eq!(json, record);
            assert_eq!((deadline, stamped), (NOW, false));
            let step = dispatch_clip_media(&clip(0, None, UNITY), deadline, stamped, false);
            assert!(matches!(refusal(step), AudioRefusal::NoConnection));
        }
        other => panic!("expected a record to parse, got {other:?}"),
    }
}

#[test]
fn a_clip_record_that_is_no_text_is_refused() {
    let cue = now_inline("application/x-clip", CueKind::Clip, vec![0xFF, 0xFE]);
    let step = dispatch_render_cue(&cue, NOW, 0, true);
    assert!(matches!(refusal(step), AudioRefusal::NotText));
}

#[test]
fn a_fetched_clip_record_is_parsed_next() {
    let outcome = fetched(
        "application/x-clip",
        PrefetchKind::ClipRecord { deadline: NOW, stamped: true },
        Ok(b"{}".to_vec()),
    );
    match handle_prefetch_outcome(outcome, NOW, GRACE) {
        AudioStep::ParseClip { json, deadline, stamped } => {
            assert_eq!((json.as_str(), deadline, stamped), ("{}", NOW, true));
        }
        other => panic!("expected a record to parse, got {other:?}"),
    }
}

/// A clip's media plays with the record's trim and gain.
#[test]
fn a_resolved_clip_media_object_is_scheduled_with_trim_and_gain() {
    let outcome = fetched(
        "audio/wav",
        PrefetchKind::ClipMedia {
            deadline: NOW,
            stamped: true,
            src_offset: Some(span(100)),
            src_len: Some(span(500)),
            gain: decibels(-6.0),
        },
        Ok(vec![9, 9, 9]),
    );
    let (bytes, deadline, src_offset, src_len, gain) =
        play_at(handle_prefetch_outcome(outcome, NOW, GRACE));
    assert_eq!(bytes, vec![9, 9, 9]);
    assert_eq!(deadline, NOW);
    assert_eq!(src_offset, Some(span(100)));
    assert_eq!(src_len, Some(span(500)));
    assert_eq!(gain, decibels(-6.0));
}

#[test]
fn a_stale_clip_cue_is_rejected_outright() {
    let cue = RenderCue {
        lead: span(50),
        epoch_ns: stale_epoch_ns(),
        ..now_inline("application/x-clip", CueKind::Clip, b"{}".to_vec())
    };
    let step = dispatch_render_cue(&cue, NOW, NOW_EPOCH_NS, false);
    assert!(matches!(refusal(step), AudioRefusal::Stale));
}

#[test]
fn clip_media_fetch_maps_the_record_fields_into_a_clip_media_prefetch() {
    let deadline = after(NOW, ms(50));
    let record = clip(100, Some(500), decibels(-6.0));
    match dispatch_clip_media(&record, deadline, true, true) {
        AudioStep::Fetch { hash, mime, kind } => {
            assert_eq!(hash, "rimshot");
            assert_eq!(mime, "audio/wav");
            assert_eq!(kind, clip_media_fetch(&record, deadline, true));
            assert_eq!(
                kind,
                PrefetchKind::ClipMedia {
                    deadline,
                    stamped: true,
                    src_offset: Some(span(100)),
                    src_len: Some(span(500)),
                    gain: decibels(-6.0),
                }
            );
        }
        other => panic!("expected a fetch, got {other:?}"),
    }
}

#[test]
fn clip_media_fetch_defaults_zero_offset_to_none() {
    let record = clip(0, None, decibels(0.0));
    assert_eq!(clip_source_offset(&record), None);
    assert_eq!(
        clip_media_fetch(&record, NOW, false),
        PrefetchKind::ClipMedia {
            deadline: NOW,
            stamped: false,
            src_offset: None,
            src_len: None,
            gain: decibels(0.0),
        }
    );
}

/// A fetch never moves the deadline of the cue that asked for it.
#[test]
fn a_fetched_sound_keeps_its_deadline() {
    let cue = RenderCue { lead: span(800), ..now_stored("audio/wav", CueKind::Audio, "beef") };
    let kind = match dispatch_render_cue(&cue, NOW, 0, true) {
        AudioStep::Fetch { kind, .. } => kind,
        other => panic!("expected a fetch, got {other:?}"),
    };
    let outcome = fetched("audio/wav", kind, Ok(wav()));
    let landed = after(NOW, ms(400));
    let (_, deadline, ..) = play_at(handle_prefetch_outcome(outcome, landed, GRACE));
    assert_eq!(deadline, after(NOW, ms(800)));
}
