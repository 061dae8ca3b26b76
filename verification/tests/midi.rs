use kaijutsu_app::dj::midi::{
    backdate_events, channel_voice_events, classify_mime, click_bytes, click_events,
    decide_autoconnect, dispatch_control_cue, dispatch_midi_cue, parse_alsa_addr, place_abc,
    plan_autoconnect, render_has_outbound_wire, resolve_route, stale_control_routes, AbcPlacement,
    AutoConnectOutcome, ConnectPlan, ControlEnvelope, ControlPorts, CueKind, CueMimes, CuePayload,
    CueRefusal, MidiRoutes, MidiSink, MidiStep, OpenStep, RenderCue, TimedEvent, CUE_STALE_MAX,
    SYNTH_PATTERNS,
};
use kaijutsu_app::patch_graph::{EndpointInfo, WireInfo};

fn ms(n: u64) -> u64 {
    n * 1_000_000
}

fn span(n: u64) -> u128 {
    u128::from(n) * 1_000_000
}

// ── Placing a late cue ──

/// A synthetic 3-event cue: NoteOn/NoteOff at offset 0 (the note that's
/// most at risk of landing in the past), and a lone later NoteOn at offset
/// 400ms — enough spread to exercise "some survive, some don't".
fn synthetic_events() -> Vec<TimedEvent> {
    vec![
        (0, vec![0x90, 60, 100]),                    // NoteOn, t=0
        (span(200), vec![0x80, 60, 0]),          // NoteOff, t=200ms
        (span(400), vec![0x90, 64, 100]),        // NoteOn, t=400ms
    ]
}

#[test]
fn fresh_cue_shrinks_lead_by_its_age_events_untouched() {
    let events = synthetic_events();
    let lead = span(300);
    let age = Some(ms(120)); // age <= lead
    let (out_events, out_lead) = backdate_events(events.clone(), lead, age).expect("not stale");
    assert_eq!(out_lead, span(180), "lead shrinks by exactly the age");
    assert_eq!(out_events, events, "events are untouched when the lead absorbs the age");
}

#[test]
fn age_equal_to_lead_is_the_fresh_boundary_not_the_late_one() {
    // age == lead is the `age <= lead` branch (fresh), not `age > lead`.
    let events = synthetic_events();
    let lead = span(200);
    let age = Some(ms(200));
    let (out_events, out_lead) = backdate_events(events.clone(), lead, age).expect("not stale");
    assert_eq!(out_lead, 0, "lead fully consumed, but not the late branch");
    assert_eq!(out_events, events, "still untouched — the boundary is inclusive on the fresh side");
}

#[test]
fn late_cue_drops_past_notes_and_shifts_survivors() {
    // lead=100ms, age=350ms → deficit d=250ms. Offset 0 (<250ms) and
    // offset 200ms (<250ms) are dropped; offset 400ms (>=250ms) survives,
    // shifted to 400ms-250ms=150ms.
    let events = synthetic_events();
    let lead = span(100);
    let age = Some(ms(350));
    let (out_events, out_lead) = backdate_events(events, lead, age).expect("within stale window");
    assert_eq!(out_lead, 0, "no lead left to spend once behind");
    assert_eq!(out_events.len(), 1, "only the offset-400ms event survives: {out_events:?}");
    assert_eq!(out_events[0].0, span(150), "survivor shifted by -d");
    assert_eq!(out_events[0].1, vec![0x90, 64, 100], "survivor is the second NoteOn");
}

#[test]
fn a_dropped_noteon_orphans_its_later_noteoff_harmlessly() {
    // The NoteOn at offset 0 is dropped (< d), but its NoteOff at 200ms
    // survives when d <= 200ms — an orphaned NoteOff (no matching On) rides
    // through. That's fine: a NoteOff for a note that was never turned on
    // is a no-op at the synth, never a stuck note.
    let events = synthetic_events();
    let lead = span(50);
    let age = ms(200 + 50); // d = 200ms exactly
    let (out_events, _lead) =
        backdate_events(events, lead, Some(age)).expect("within stale window");
    // Offset-0 NoteOn dropped (0 < 200); offset-200ms NoteOff survives at
    // the boundary (200 >= 200) shifted to 0; offset-400ms NoteOn survives
    // shifted to 200ms.
    assert_eq!(out_events.len(), 2, "the orphaned off + the later on survive: {out_events:?}");
    assert_eq!(out_events[0].1, vec![0x80, 60, 0], "the orphaned NoteOff rides through");
    assert_eq!(out_events[0].0, 0, "shifted to now");
    assert!(
        !out_events.iter().any(|(_, d)| d == &vec![0x90, 60, 100]),
        "the dropped NoteOn must not appear: {out_events:?}"
    );
}

#[test]
fn a_cue_stale_beyond_the_max_is_rejected_outright() {
    let events = synthetic_events();
    let lead = span(50);
    // deficit = age - lead must exceed CUE_STALE_MAX (5s).
    let age = Some(CUE_STALE_MAX + ms(1 + 50));
    assert_eq!(
        backdate_events(events, lead, age),
        None,
        "a cue this stale is rejected whole, not partially salvaged"
    );
}

#[test]
fn a_cue_exactly_at_the_stale_boundary_is_still_accepted() {
    let events = synthetic_events();
    let lead = span(50);
    let age = Some(CUE_STALE_MAX + ms(50)); // deficit == CUE_STALE_MAX exactly
    assert!(
        backdate_events(events, lead, age).is_some(),
        "exactly CUE_STALE_MAX deficit is still accepted (boundary is inclusive)"
    );
}

#[test]
fn an_unstamped_cue_passes_through_verbatim() {
    let events = synthetic_events();
    let lead = span(300);
    let (out_events, out_lead) =
        backdate_events(events.clone(), lead, None).expect("unstamped never rejects");
    assert_eq!(out_lead, lead, "no age to backdate against — lead untouched");
    assert_eq!(out_events, events, "events untouched too");
}

// ── Dispatching a cue ──

/// A brisk four-note ascending phrase, one note per beat.
const CDEF: &str = "X:1\nT:t\nM:4/4\nL:1/4\nQ:1/4=120\nK:C\nCDEF|\n";

/// The phrase as messages: each note sounds for half a second.
fn cdef_events() -> Vec<TimedEvent> {
    let mut events = Vec::new();
    for (i, note) in [60u8, 62, 64, 65].into_iter().enumerate() {
        events.push((span(500 * i as u64), vec![0x90, note, 80]));
        events.push((span(500 * (i as u64 + 1)), vec![0x80, note, 0]));
    }
    events
}

/// The media types that the cues of these tests carry.
fn mimes() -> CueMimes {
    CueMimes {
        flush: "application/x-flush".to_string(),
        prepare: "application/x-prepare".to_string(),
        clip: "application/x-clip".to_string(),
        control: "application/x-control".to_string(),
        abc: "text/vnd.abc".to_string(),
    }
}

fn now_inline(mime: &str, bytes: Vec<u8>) -> RenderCue {
    RenderCue::new(mime.to_string(), CuePayload::Inline(bytes), 0, 0, &mimes())
}

fn now_stored(mime: &str, hash: &str) -> RenderCue {
    RenderCue { payload: CuePayload::Cas(hash.to_string()), ..now_inline(mime, Vec::new()) }
}

/// What a cue came to.
#[derive(Default)]
struct RecordingSink {
    scheduled: Option<(Vec<TimedEvent>, u128)>,
    /// Every device-addressed send, in order: address and messages.
    controls: Vec<(String, Vec<TimedEvent>)>,
    flushed: bool,
}

impl RecordingSink {
    /// Dispatch a cue. A score renders to [`cdef_events`], and a control record to `control`.
    fn dispatch(
        &mut self,
        cue: &RenderCue,
        control: Option<ControlEnvelope>,
        now_epoch_ns: u64,
        routes: &MidiRoutes,
    ) {
        match dispatch_midi_cue(cue) {
            MidiStep::Ignore | MidiStep::Refuse(_) => {}
            MidiStep::Flush => self.flushed = true,
            MidiStep::RenderAbc(text) => {
                assert_eq!(text, CDEF, "the score reaches the renderer as it came");
                match place_abc(cdef_events(), cue.lead, cue.epoch_ns, now_epoch_ns) {
                    AbcPlacement::Schedule(events, lead) => self.scheduled = Some((events, lead)),
                    AbcPlacement::NoEvents | AbcPlacement::Stale | AbcPlacement::AllPast => {}
                }
            }
            MidiStep::DecodeControl(_) => {
                if let Some(envelope) = control {
                    if let Some(send) = dispatch_control_cue(envelope, routes) {
                        self.controls.push((send.address, send.events));
                    }
                }
            }
        }
    }
}

fn routes(pairs: &[(&str, &[&str])]) -> MidiRoutes {
    let mut routes = MidiRoutes::new();
    for (device, addresses) in pairs {
        routes.insert(device.to_string(), addresses.iter().map(|a| a.to_string()).collect());
    }
    routes
}

fn control(device: &str, events: Vec<(u64, Vec<u8>)>) -> Option<ControlEnvelope> {
    Some(ControlEnvelope { device: device.to_string(), events })
}

fn control_cue() -> RenderCue {
    now_inline("application/x-control", b"a control record".to_vec())
}

#[test]
fn a_flush_cue_flushes_the_sink_and_schedules_nothing() {
    let mut sink = RecordingSink::default();
    let cue = now_inline("application/x-flush", Vec::new());
    sink.dispatch(&cue, None, 0, &MidiRoutes::new());
    assert!(sink.flushed);
    assert!(sink.scheduled.is_none());
}

#[test]
fn a_non_abc_mime_is_ignored() {
    let mut sink = RecordingSink::default();
    let cue = now_inline("audio/wav", vec![1, 2, 3]);
    sink.dispatch(&cue, None, 0, &MidiRoutes::new());
    assert!(!sink.flushed);
    assert!(sink.scheduled.is_none());
}

#[test]
fn an_unstamped_zero_lead_abc_cue_schedules_events_untouched() {
    let mut sink = RecordingSink::default();
    let cue = now_inline("text/vnd.abc", CDEF.as_bytes().to_vec());
    sink.dispatch(&cue, None, 0, &MidiRoutes::new());
    let (events, lead) = sink.scheduled.expect("ABC cue must schedule");
    assert_eq!(events, cdef_events());
    assert_eq!(lead, 0, "unstamped, zero-lead cue: lead untouched");
}

/// A stored score is refused: nothing is scheduled, and nothing panics.
#[test]
fn a_cas_payload_abc_cue_warns_and_schedules_nothing() {
    let mut sink = RecordingSink::default();
    let cue = now_stored("text/vnd.abc", "a-score");
    sink.dispatch(&cue, None, 0, &MidiRoutes::new());
    assert!(sink.scheduled.is_none());
    assert!(!sink.flushed);
    assert!(matches!(dispatch_midi_cue(&cue), MidiStep::Refuse(CueRefusal::StoredPayload)));
}

#[test]
fn a_stale_abc_cue_is_rejected_and_schedules_nothing() {
    let mut sink = RecordingSink::default();
    let now_epoch_ns: u64 = 100_000_000_000;
    let cue = RenderCue {
        lead: span(50),
        epoch_ns: now_epoch_ns.saturating_sub(CUE_STALE_MAX + ms(2000)),
        ..now_inline("text/vnd.abc", CDEF.as_bytes().to_vec())
    };
    sink.dispatch(&cue, None, now_epoch_ns, &MidiRoutes::new());
    assert!(sink.scheduled.is_none(), "a too-stale cue must not schedule");
}

/// A control cue naming a device this sink has matched goes out THAT device's
/// port, with its offsets preserved.
#[test]
fn a_control_cue_for_a_matched_device_emits_at_its_port() {
    let mut sink = RecordingSink::default();
    let envelope = control("minibrute", vec![(0, vec![0x90, 60, 100]), (250, vec![0x80, 60, 0])]);
    sink.dispatch(&control_cue(), envelope, 0, &routes(&[("minibrute", &["26:0"])]));

    assert_eq!(sink.controls.len(), 1, "exactly one emit: {:?}", sink.controls);
    let (address, events) = &sink.controls[0];
    assert_eq!(address, "26:0", "routed to the device's own port");
    assert_eq!(events, &vec![(0, vec![0x90, 60, 100]), (span(250), vec![0x80, 60, 0])]);
    assert!(sink.scheduled.is_none(), "the score path is untouched");
    assert!(!sink.flushed);
}

/// A device this sink can't route is a DROP — never a fallback to the
/// auto-connected render port.
#[test]
fn a_control_cue_for_an_unmatched_device_is_dropped_never_rerouted() {
    let mut sink = RecordingSink::default();
    let envelope = control("subharmonicon", vec![(0, vec![0xB0, 74, 64])]);
    sink.dispatch(&control_cue(), envelope, 0, &routes(&[("minibrute", &["26:0"])]));
    assert!(sink.controls.is_empty(), "unroutable = dropped: {:?}", sink.controls);
    assert!(sink.scheduled.is_none(), "and NEVER onto the render port");
}

/// A sink that has matched nothing at all drops every control cue.
#[test]
fn a_sink_with_no_routes_drops_every_control_cue() {
    let mut sink = RecordingSink::default();
    let envelope = control("minibrute", vec![(0, vec![0xB0, 74, 64])]);
    sink.dispatch(&control_cue(), envelope, 0, &MidiRoutes::new());
    assert!(sink.controls.is_empty());
}

/// The device's FIRST matched port is its route (the MIDI port of a
/// two-port device, not its DAW port).
#[test]
fn a_multi_port_device_routes_to_its_first_matched_port() {
    assert_eq!(
        resolve_route(&routes(&[("keylab-88-mkii", &["28:0", "28:1"])]), "keylab-88-mkii"),
        Some("28:0")
    );
    assert_eq!(resolve_route(&routes(&[("d", &[])]), "d"), None, "matched, but no ports");
    assert_eq!(resolve_route(&MidiRoutes::new(), "d"), None);
}

/// A control cue is NEVER dropped for staleness: a late all-notes-off is still
/// exactly the right message.
#[test]
fn a_stale_control_cue_still_emits() {
    let mut sink = RecordingSink::default();
    let now_epoch_ns: u64 = 100_000_000_000;
    let mut cue = control_cue();
    cue.epoch_ns = now_epoch_ns.saturating_sub(CUE_STALE_MAX + ms(60_000));
    let envelope = control("minibrute", vec![(0, vec![0xB0, 123, 0])]);
    sink.dispatch(&cue, envelope, now_epoch_ns, &routes(&[("minibrute", &["26:0"])]));
    assert_eq!(sink.controls.len(), 1, "a panic must never be dropped for age");
}

/// A stored control record is refused.
#[test]
fn a_cas_payload_control_cue_is_refused() {
    let mut sink = RecordingSink::default();
    let cue = now_stored("application/x-control", "nope");
    let envelope = control("minibrute", vec![(0, vec![0xB0, 123, 0])]);
    sink.dispatch(&cue, envelope, 0, &routes(&[("minibrute", &["26:0"])]));
    assert!(sink.controls.is_empty());
    assert!(matches!(dispatch_midi_cue(&cue), MidiStep::Refuse(CueRefusal::StoredPayload)));
}

/// A score schedules just the same with a full routing table in hand.
#[test]
fn the_score_path_is_unchanged_by_the_routing_table() {
    let mut sink = RecordingSink::default();
    let cue = now_inline("text/vnd.abc", CDEF.as_bytes().to_vec());
    sink.dispatch(&cue, None, 0, &routes(&[("minibrute", &["26:0"])]));
    let (events, lead) = sink.scheduled.expect("ABC still schedules");
    assert_eq!(events.len(), cdef_events().len());
    assert_eq!(lead, 0);
    assert!(sink.controls.is_empty(), "and never through the control path");
}

/// A whole 32-message panic envelope reaches one port in one emit.
#[test]
fn a_panic_envelope_reaches_the_device_as_thirty_two_messages() {
    let mut sink = RecordingSink::default();
    let events: Vec<(u64, Vec<u8>)> = (0..16u8)
        .flat_map(|ch| [(0, vec![0xB0 | ch, 123, 0]), (0, vec![0xB0 | ch, 120, 0])])
        .collect();
    let envelope = control("keystep-pro", events);
    sink.dispatch(&control_cue(), envelope, 0, &routes(&[("keystep-pro", &["24:0"])]));
    assert_eq!(sink.controls.len(), 1);
    assert_eq!(sink.controls[0].1.len(), 32);
    assert_eq!(sink.controls[0].1[0], (0, vec![0xB0, 123, 0]));
}

#[test]
fn a_payload_that_is_no_text_is_refused() {
    let score = now_inline("text/vnd.abc", vec![0x58, 0xFF, 0xFE]);
    assert!(matches!(dispatch_midi_cue(&score), MidiStep::Refuse(CueRefusal::NotText)));
    let record = now_inline("application/x-control", vec![0xC0]);
    assert!(matches!(dispatch_midi_cue(&record), MidiStep::Refuse(CueRefusal::NotText)));
    let accents = now_inline("text/vnd.abc", "T:caf\u{e9}".as_bytes().to_vec());
    match dispatch_midi_cue(&accents) {
        MidiStep::RenderAbc(text) => assert_eq!(text, "T:caf\u{e9}"),
        other => panic!("expected a score, got {other:?}"),
    }
}

#[test]
fn media_types_name_their_kinds() {
    let mimes = mimes();
    assert_eq!(classify_mime("application/x-flush", &mimes), CueKind::Flush);
    assert_eq!(classify_mime("application/x-prepare", &mimes), CueKind::Prepare);
    assert_eq!(classify_mime("application/x-clip", &mimes), CueKind::Clip);
    assert_eq!(classify_mime("application/x-control", &mimes), CueKind::Control);
    assert_eq!(classify_mime("text/vnd.abc", &mimes), CueKind::Abc);
    assert_eq!(classify_mime("audio/ogg", &mimes), CueKind::Audio);
    assert_eq!(classify_mime("audio", &mimes), CueKind::Other);
    assert_eq!(classify_mime("text/plain", &mimes), CueKind::Other);
}

#[test]
fn placing_a_score_says_why_it_is_dropped() {
    let meta = vec![(0, vec![0xFF, 0x51, 0x03])];
    assert!(matches!(place_abc(channel_voice_events(meta), 0, 0, 0), AbcPlacement::NoEvents));
    assert!(matches!(place_abc(Vec::new(), 0, 0, 0), AbcPlacement::NoEvents));
    let now = 100_000_000_000;
    let note = vec![(0, vec![0x90, 60, 100])];
    assert!(matches!(place_abc(note.clone(), 0, now - ms(400), now), AbcPlacement::AllPast));
    assert!(matches!(place_abc(note.clone(), 0, now - ms(9000), now), AbcPlacement::Stale));
    match place_abc(note.clone(), span(500), now - ms(400), now) {
        AbcPlacement::Schedule(events, lead) => {
            assert_eq!(events, note);
            assert_eq!(lead, span(100));
        }
        other => panic!("expected a schedule, got {other:?}"),
    }
}

/// What is kept of a late cue still sounds at the moment it was meant for.
#[test]
fn backdating_keeps_the_sounding_moment() {
    let (lead, age) = (span(100), ms(350));
    let (placed, left) = backdate_events(synthetic_events(), lead, Some(age)).expect("not stale");
    // From emission the message was due at lead + 400 ms; from now, age less.
    assert_eq!(left + placed[0].0 + u128::from(age), lead + span(400));
}

// ── address parsing ────────────────────────────────────────────

#[test]
fn an_alsa_address_parses_to_its_client_port_pair() {
    assert_eq!(parse_alsa_addr("24:0"), Some((24, 0)));
    assert_eq!(parse_alsa_addr("128:12"), Some((128, 12)));
}

/// A handle this backend can't address (a CoreMIDI id reaching the ALSA
/// sink) refuses rather than guessing — a wrong guess is a send to
/// somebody else's port.
#[test]
fn a_non_alsa_address_refuses_rather_than_guessing() {
    assert_eq!(parse_alsa_addr("IOService:1234"), None);
    assert_eq!(parse_alsa_addr("24"), None);
    assert_eq!(parse_alsa_addr(""), None);
    assert_eq!(parse_alsa_addr("a:b"), None);
}

// ── control-port prune ─────────────

/// A cached control wire survives exactly while some device's FIRST
/// matched port still names its address (messages go to the first port, so
/// a second-slot address is stale even though the routes still mention it).
#[test]
fn a_control_wire_survives_only_while_a_first_matched_port_names_it() {
    let r = routes(&[("keystep-pro", &["20:0"]), ("keylab-88-mkii", &["16:0", "16:1"])]);
    let cached = [(20, 0), (16, 0), (16, 1), (48, 0)];
    assert_eq!(
        stale_control_routes(&cached.to_vec(), &r),
        vec![(16, 1), (48, 0)],
        "the DAW slot (16:1) and the unplugged Brute (48:0) are stale"
    );
}

#[test]
fn an_empty_routing_picture_prunes_every_control_wire() {
    let cached = [(20, 0), (16, 0)];
    assert_eq!(
        stale_control_routes(&cached.to_vec(), &MidiRoutes::new()),
        vec![(20, 0), (16, 0)]
    );
}

#[test]
fn a_non_alsa_first_port_pins_nothing() {
    // A CoreMIDI-shaped first port parses to no ALSA address, so it keeps
    // no wire alive — same refusal as `parse_alsa_addr`, same reason.
    let r = routes(&[("mac-device", &["IOService:1234"])]);
    assert_eq!(stale_control_routes(&vec![(20, 0)], &r), vec![(20, 0)]);
}

// ── The auto-connect decision ──

/// The app's render port address for these tests (a plausible app client id).
const RENDER: (i32, i32) = (129, 0);

fn sink(client_id: i32, port_id: i32, client_name: &str) -> EndpointInfo {
    EndpointInfo {
        client_id,
        port_id,
        client_name: client_name.into(),
        port_name: "port".into(),
        is_source: false,
        is_sink: true,
    }
}

fn source(client_id: i32, port_id: i32, client_name: &str) -> EndpointInfo {
    EndpointInfo {
        is_source: true,
        is_sink: false,
        ..sink(client_id, port_id, client_name)
    }
}

fn wire(src: (i32, i32), dst: (i32, i32)) -> WireInfo {
    WireInfo { src, dst }
}

#[test]
fn picks_the_first_synth_sink_port_when_render_is_unwired() {
    let endpoints = vec![sink(128, 0, "TiMidity"), sink(128, 1, "TiMidity")];
    assert_eq!(
        decide_autoconnect(&endpoints, &[], RENDER, &["timidity"]),
        Some((128, 0)),
        "TiMidity's port 0 is the target"
    );
}

#[test]
fn picks_the_lowest_numbered_of_several_matching_synths() {
    // Sorted as `observe` delivers them: the lowest client wins.
    let endpoints = vec![sink(128, 0, "TiMidity"), sink(140, 0, "FluidSynth")];
    assert_eq!(
        decide_autoconnect(&endpoints, &[], RENDER, &SYNTH_PATTERNS),
        Some((128, 0))
    );
}

#[test]
fn skips_when_the_render_port_already_has_an_outbound_wire() {
    let endpoints = vec![sink(128, 0, "TiMidity")];
    let wires = vec![wire(RENDER, (128, 0))];
    assert_eq!(
        decide_autoconnect(&endpoints, &wires, RENDER, &["timidity"]),
        None,
        "a hand-patch on render → defer, do nothing"
    );
}

#[test]
fn an_unrelated_wire_does_not_block_the_autoconnect() {
    // A wire that doesn't originate at the render port is none of our business.
    let endpoints = vec![sink(128, 0, "TiMidity")];
    let wires = vec![wire((14, 0), (128, 0))];
    assert_eq!(
        decide_autoconnect(&endpoints, &wires, RENDER, &["timidity"]),
        Some((128, 0))
    );
}

#[test]
fn never_returns_an_own_client_port_even_when_a_pattern_matches_it() {
    // The ear is a sink; a pattern that matches our own name must not win.
    let endpoints = vec![sink(200, 0, "kaijutsu-ear")];
    assert_eq!(
        decide_autoconnect(&endpoints, &[], RENDER, &["kaijutsu"]),
        None
    );
}

#[test]
fn matches_the_synth_name_case_insensitively() {
    let endpoints = vec![sink(140, 0, "FLUIDSynth")];
    assert_eq!(
        decide_autoconnect(&endpoints, &[], RENDER, &["fluidsynth"]),
        Some((140, 0))
    );
}

#[test]
fn ignores_a_synths_source_only_port_and_wires_to_none() {
    // A read-only source port is not something to feed MIDI into.
    let endpoints = vec![source(128, 0, "TiMidity")];
    assert_eq!(
        decide_autoconnect(&endpoints, &[], RENDER, &["timidity"]),
        None
    );
}

#[test]
fn returns_none_on_an_empty_graph() {
    assert_eq!(decide_autoconnect(&[], &[], RENDER, &SYNTH_PATTERNS), None);
}

#[test]
fn returns_none_when_no_client_matches_a_pattern() {
    let endpoints = vec![sink(64, 0, "Midi Through"), sink(80, 0, "Some DAW")];
    assert_eq!(
        decide_autoconnect(&endpoints, &[], RENDER, &SYNTH_PATTERNS),
        None
    );
}

#[test]
fn render_has_outbound_wire_is_true_only_for_a_render_sender() {
    assert!(render_has_outbound_wire(&[wire(RENDER, (128, 0))], RENDER));
    assert!(!render_has_outbound_wire(&[wire((14, 0), (128, 0))], RENDER));
    assert!(!render_has_outbound_wire(&[], RENDER));
}

// ── click bytes ──

#[test]
fn click_bytes_masks_channel_to_the_low_nibble() {
    let (on, off) = click_bytes(60, 0xFF, 100);
    assert_eq!(on[0], 0x9F, "status byte keeps NoteOn nibble + masked channel");
    assert_eq!(off[0], 0x8F, "status byte keeps NoteOff nibble + masked channel");
}

#[test]
fn click_bytes_masks_note_and_velocity_to_seven_bits() {
    // A config typo like velocity=200 (0xC8) must never ride through as a
    // stray status byte (0xC8 & 0xF0 == 0xC0, Program Change).
    let (on, off) = click_bytes(0xFF, 0, 200);
    assert_eq!(on, vec![0x90, 0x7F, 0x48], "note clamped to 7 bits, 200 & 0x7F == 0x48");
    assert_eq!(off, vec![0x80, 0x7F, 0x00], "note-off pitch clamped the same way");
}

#[test]
fn a_click_is_a_note_on_and_a_note_off_one_gate_apart() {
    assert_eq!(
        click_events(84, 15, 110, 60, ms(200)),
        vec![(span(200), vec![0x9F, 84, 110]), (span(260), vec![0x8F, 84, 0])]
    );
}

/// Offsets are exact, however long.
#[test]
fn no_offset_is_too_long() {
    let events = click_events(84, 15, 110, u64::MAX, ms(200));
    assert_eq!((events[0].0, events[1].0), (span(200), span(u64::MAX) + span(200)));
    let routes = routes(&[("minibrute", &["26:0"])]);
    let envelope = control("minibrute", vec![(u64::MAX, vec![0xB0, 74, 64])]).expect("one");
    let send = dispatch_control_cue(envelope, &routes).expect("a port");
    assert_eq!(send.events[0].0, span(u64::MAX));
}

// ── Plans and sinks ──

#[test]
fn the_plan_says_what_stands_in_the_way() {
    let endpoints = vec![sink(128, 0, "TiMidity")];
    match plan_autoconnect(&endpoints, &[], RENDER, &["timidity"]) {
        ConnectPlan::Connect { name, client, port } => {
            assert_eq!((name.as_str(), client, port), ("TiMidity", 128, 0));
        }
        other => panic!("expected a connection, got {other:?}"),
    }
    let wires = vec![wire(RENDER, (20, 0))];
    assert!(matches!(
        plan_autoconnect(&endpoints, &wires, RENDER, &["timidity"]),
        ConnectPlan::AlreadyWired
    ));
    assert!(matches!(
        plan_autoconnect(&[], &[], RENDER, &["timidity"]),
        ConnectPlan::NoSynth
    ));
}

#[test]
fn only_a_missing_synth_keeps_the_autoconnect_going() {
    let connected = AutoConnectOutcome::Connected { name: "TiMidity".into(), client: 128, port: 0 };
    assert!(connected.settles());
    assert!(AutoConnectOutcome::AlreadyWired.settles());
    assert!(!AutoConnectOutcome::NoSynth.settles());
}

#[test]
fn a_sink_opens_once_and_gives_up_once() {
    let mut sink = MidiSink::default();
    assert_eq!(sink.ensure_open(), OpenStep::TryOpen);
    sink.opened(true);
    assert_eq!(sink.ensure_open(), OpenStep::Ready);
    assert!(!sink.take_traffic());
    sink.sent();
    assert!(sink.take_traffic());
    assert!(!sink.take_traffic(), "traffic is reported once");

    let mut broken = MidiSink::default();
    broken.opened(false);
    assert_eq!(broken.ensure_open(), OpenStep::Unavailable);
}

#[test]
fn pruned_control_ports_are_handed_back() {
    let mut ports = ControlPorts::new();
    ports.insert((20, 0), 1);
    ports.insert((48, 0), 2);
    assert_eq!(ports.get((48, 0)), Some(2));
    assert_eq!(ports.prune(&routes(&[("keystep-pro", &["20:0"])])), vec![2]);
    assert_eq!(ports.get((48, 0)), None);
    assert_eq!(ports.get((20, 0)), Some(1));
}

#[test]
fn a_device_routed_again_keeps_its_latest_ports() {
    let mut table = routes(&[("d", &["20:0"])]);
    table.insert("d".to_string(), vec!["21:0".to_string()]);
    assert_eq!(resolve_route(&table, "d"), Some("21:0"));
}
