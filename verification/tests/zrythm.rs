use maestro::engine::midi::{self, MidiQueue, TimedMidi};
use maestro::engine::mock::MockEngine;
use maestro::engine::zrythm::{
    advance, check_tempo, default_one, default_zero, initial_tempo, timebase_position,
    zrythm_map_path, MapFile, StartupEvent, StartupPhase, StartupStep, ZrythmEngine,
    ZrythmParamConfig,
};
use maestro::engine::{
    Command, EngineAdapter, EngineError, ErrorKind, MidiMessage, Notification, Operation,
};
use maestro::number::Single;
use std::path::PathBuf;

fn single(x: f32) -> Single {
    Single::from_bits(x.to_bits())
}

fn connected(params: Vec<ZrythmParamConfig>) -> ZrythmEngine {
    let mut engine = ZrythmEngine::new(MapFile::Parsed(params));
    assert_eq!(engine.on_startup(StartupEvent::ClientOpened), StartupStep::RegisterPort);
    assert_eq!(engine.on_startup(StartupEvent::PortRegistered), StartupStep::Activate);
    assert_eq!(engine.on_startup(StartupEvent::Activated), StartupStep::ClaimTimebase);
    assert_eq!(
        engine.on_startup(StartupEvent::TimebaseAnswer { rc: 0 }),
        StartupStep::Announce(true)
    );
    engine
}

fn param(id: &str, cc: u8, channel: u8, min: Option<f32>, max: Option<f32>) -> ZrythmParamConfig {
    ZrythmParamConfig::new(
        id.to_string(),
        id.to_uppercase(),
        cc,
        channel,
        min.map(single),
        max.map(single),
    )
}

fn queued(status: u8, controller: u8, value: u8) -> Result<Command, EngineError> {
    Ok(Command::QueueMidi(MidiMessage { status, controller, value }))
}

/// Reads a map file for these tests, over the table form that the `toml`
/// crate parses a text to: the `params` tables become parameters, and a range
/// end that is left out is left to the library. The host has a reader of its
/// own; what is under test here is what the library makes of the parameters.
fn read_map(raw: &str) -> MapFile {
    let table = match raw.parse::<toml::Table>() {
        Ok(t) => t,
        Err(_) => return MapFile::Malformed,
    };
    let entries = match table.get("params") {
        None => return MapFile::Parsed(vec![]),
        Some(toml::Value::Array(a)) => a,
        Some(_) => return MapFile::Malformed,
    };
    let mut params = vec![];
    for entry in entries {
        let number = |key: &str| match entry.get(key) {
            Some(toml::Value::Float(x)) => Some(Single::from_bits((*x as f32).to_bits())),
            Some(toml::Value::Integer(i)) => Some(Single::from_bits((*i as f32).to_bits())),
            _ => None,
        };
        let id = entry.get("id").and_then(|v| v.as_str());
        let label = entry.get("label").and_then(|v| v.as_str());
        let cc = entry.get("cc").and_then(|v| v.as_integer());
        let channel = entry.get("channel").and_then(|v| v.as_integer());
        match (id, label, cc, channel) {
            (Some(id), Some(label), Some(cc), Some(channel)) => params.push(ZrythmParamConfig::new(
                id.to_string(),
                label.to_string(),
                cc as u8,
                channel as u8,
                number("min"),
                number("max"),
            )),
            _ => return MapFile::Malformed,
        }
    }
    MapFile::Parsed(params)
}

#[test]
fn parse_valid_params() {
    let raw = r#"
[[params]]
id      = "reverb"
label   = "Reverb Wet"
cc      = 20
channel = 0
min     = 0.0
max     = 1.0

[[params]]
id      = "gain"
label   = "Input Gain"
cc      = 21
channel = 2
"#;
    let file = read_map(raw);
    assert!(matches!(file, MapFile::Parsed(_)), "parse failed");
    let params = ZrythmEngine::load_params(file);
    assert_eq!(params.len(), 2);

    let r = &params[0];
    assert_eq!(r.id, "reverb");
    assert_eq!(r.label, "Reverb Wet");
    assert_eq!(r.cc, 20);
    assert_eq!(r.channel, 0);
    assert_eq!(f32::from_bits(r.min.to_bits()), 0.0);
    assert_eq!(f32::from_bits(r.max.to_bits()), 1.0);

    let g = &params[1];
    assert_eq!(f32::from_bits(g.min.to_bits()), 0.0);
    assert_eq!(f32::from_bits(g.max.to_bits()), 1.0);
}

#[test]
fn parse_empty_file_is_ok() {
    let file = read_map("");
    assert!(matches!(file, MapFile::Parsed(_)), "empty file should parse");
    assert!(ZrythmEngine::load_params(file).is_empty());
}

#[test]
fn parse_file_without_params_table() {
    let file = read_map("[other]\nkey = 1");
    assert!(matches!(file, MapFile::Parsed(_)), "file without params should parse");
    assert!(ZrythmEngine::load_params(file).is_empty());
}

#[test]
fn parse_invalid_toml_errors() {
    let file = read_map("[[params]\n");
    assert_eq!(file, MapFile::Malformed);
    assert!(ZrythmEngine::load_params(file).is_empty());
}

#[test]
fn missing_map_gives_no_params() {
    assert!(ZrythmEngine::load_params(MapFile::Absent).is_empty());
    assert!(ZrythmEngine::new(MapFile::Absent).custom_params().is_empty());
    assert!(ZrythmEngine::new(MapFile::Malformed).custom_params().is_empty());
}

#[test]
fn defaults_are_zero_and_one() {
    assert_eq!(f32::from_bits(default_zero().to_bits()), 0.0);
    assert_eq!(f32::from_bits(default_one().to_bits()), 1.0);
    assert_eq!(f32::from_bits(Single::minus_one().to_bits()), -1.0);
}

#[test]
fn path_uses_env_override() {
    let parts = zrythm_map_path(Some("/tmp/my-map.toml"), Some("/tmp/cfg"), Some("/home/me"));
    let path: PathBuf = parts.iter().collect();
    assert_eq!(path.to_str().unwrap(), "/tmp/my-map.toml");
}

#[test]
fn path_defaults_under_xdg_config() {
    let parts = zrythm_map_path(None, Some("/tmp/cfg"), Some("/home/me"));
    let path: PathBuf = parts.iter().collect();
    assert_eq!(path.to_str().unwrap(), "/tmp/cfg/maestro/zrythm-map.toml");
}

#[test]
fn path_falls_back_to_home() {
    let parts = zrythm_map_path(None, None, Some("/home/me"));
    assert_eq!(parts, vec!["/home/me", ".config", "maestro", "zrythm-map.toml"]);
    let path: PathBuf = parts.iter().collect();
    assert_eq!(path.to_str().unwrap(), "/home/me/.config/maestro/zrythm-map.toml");
    let parts = zrythm_map_path(None, None, None);
    assert_eq!(parts, vec!["", ".config", "maestro", "zrythm-map.toml"]);
    let path: PathBuf = parts.iter().collect();
    assert_eq!(path, PathBuf::from("").join(".config").join("maestro").join("zrythm-map.toml"));
}

#[test]
fn track_index_outside_channels_fails_for_every_track_operation() {
    let engine = connected(vec![]);
    for index in [i32::MIN, -1, 16, 17, i32::MAX] {
        let expected = Err(EngineError::TrackOutOfRange { index });
        assert_eq!(engine.set_track_volume(index, single(0.5)), expected);
        assert_eq!(engine.set_track_pan(index, single(0.0)), expected);
        assert_eq!(engine.set_track_mute(index, true), expected);
        assert_eq!(engine.set_track_solo(index, false), expected);
        assert_eq!(ZrythmEngine::check_track(index), Err(EngineError::TrackOutOfRange { index }));
    }
    let fresh = ZrythmEngine::new(MapFile::Absent);
    assert_eq!(
        fresh.set_track_volume(16, single(0.5)),
        Err(EngineError::TrackOutOfRange { index: 16 })
    );
}

#[test]
fn track_index_in_range_succeeds_when_connected() {
    let engine = connected(vec![]);
    for index in 0..16 {
        let status = 0xB0 + index as u8;
        assert_eq!(ZrythmEngine::check_track(index), Ok(index as u8));
        assert_eq!(engine.set_track_volume(index, single(1.0)), queued(status, 7, 127));
        assert_eq!(engine.set_track_pan(index, single(0.0)), queued(status, 10, 64));
        assert_eq!(engine.set_track_mute(index, true), queued(status, 119, 127));
        assert_eq!(engine.set_track_mute(index, false), queued(status, 119, 0));
        assert_eq!(engine.set_track_solo(index, true), queued(status, 118, 127));
        assert_eq!(engine.set_track_solo(index, false), queued(status, 118, 0));
    }
}

#[test]
fn volume_and_pan_values() {
    let engine = connected(vec![]);
    assert_eq!(engine.set_track_volume(2, single(0.75)), queued(0xB2, 7, 95));
    assert_eq!(engine.set_track_volume(2, single(-3.0)), queued(0xB2, 7, 0));
    assert_eq!(engine.set_track_volume(2, single(3.0)), queued(0xB2, 7, 127));
    assert_eq!(engine.set_track_volume(2, single(f32::NAN)), queued(0xB2, 7, 0));
    assert_eq!(engine.set_track_pan(2, single(-1.0)), queued(0xB2, 10, 0));
    assert_eq!(engine.set_track_pan(2, single(-0.0)), queued(0xB2, 10, 64));
    assert_eq!(engine.set_track_pan(2, single(1.0)), queued(0xB2, 10, 127));
    assert_eq!(engine.set_track_pan(2, single(0.5)), queued(0xB2, 10, 95));
    assert_eq!(engine.set_track_pan(2, single(-7.0)), queued(0xB2, 10, 0));
    assert_eq!(midi::volume_cc(single(0.5)), 64);
    assert_eq!(midi::pan_cc(single(0.0)), 64);
    assert_eq!(midi::switch_cc(true), 127);
    assert_eq!(midi::switch_cc(false), 0);
    assert_eq!(
        midi::control_change(3, 7, 100),
        MidiMessage { status: 0xB3, controller: 7, value: 100 }
    );
    assert_eq!(
        midi::control_change(0x4F, 1, 2),
        MidiMessage { status: 0xFF, controller: 1, value: 2 }
    );
}

#[test]
fn track_operation_before_start_is_not_connected() {
    let engine = ZrythmEngine::new(MapFile::Absent);
    assert!(!engine.is_connected());
    let err = engine.set_track_volume(0, single(0.5)).unwrap_err();
    assert_eq!(err, EngineError::NotConnected);
    assert_eq!(err.kind(), ErrorKind::NotConnected);
    assert_eq!(
        err.message(""),
        "Zrythm JACK connection not established. Ensure jackd/pipewire-jack is running and MAESTRO_ENGINE=zrythm."
    );
    assert_eq!(engine.set_track_pan(15, single(0.0)), Err(EngineError::NotConnected));
    assert_eq!(engine.set_track_mute(3, true), Err(EngineError::NotConnected));
    assert_eq!(engine.set_track_solo(3, true), Err(EngineError::NotConnected));
    assert_eq!(engine.play(), Err(EngineError::NotConnected));
    assert_eq!(engine.stop(), Err(EngineError::NotConnected));
    assert_eq!(engine.with_handle(), Err(EngineError::NotConnected));
    assert_eq!(
        engine.queue_midi(MidiMessage { status: 0xB0, controller: 7, value: 1 }),
        Err(EngineError::NotConnected)
    );
}

#[test]
fn transport_when_connected() {
    let engine = connected(vec![]);
    assert_eq!(engine.name(), "Zrythm");
    assert_eq!(engine.start(), vec![Command::ConnectAudioServer]);
    assert_eq!(engine.play(), Ok(Command::StartTransport));
    assert_eq!(engine.stop(), Ok(Command::StopTransport));
    assert_eq!(engine.with_handle(), Ok(()));
}

#[test]
fn unsupported_operations_are_refused() {
    for engine in [ZrythmEngine::new(MapFile::Absent), connected(vec![])] {
        let record = engine.toggle_record().unwrap_err();
        assert_eq!(record, EngineError::Unsupported(Operation::ToggleRecord));
        assert_eq!(record.kind(), ErrorKind::UnsupportedOperation);
        assert_eq!(
            record.message(""),
            "Record toggle is not standardised in JACK transport. Bind Zrythm's record button to a MIDI CC via MIDI learn."
        );
        let looped = engine.set_loop_enabled(true).unwrap_err();
        assert_eq!(looped, EngineError::Unsupported(Operation::LoopEnable));
        assert_eq!(
            looped.message(""),
            "Loop enable is not standardised in JACK transport. Bind Zrythm's loop button to a MIDI CC via MIDI learn."
        );
        assert_eq!(engine.set_loop_enabled(false), Err(EngineError::Unsupported(Operation::LoopEnable)));
        let sample = engine.load_sample(0, 0, "/a.wav").unwrap_err();
        assert_eq!(sample, EngineError::Unsupported(Operation::LoadSample));
        assert_eq!(
            sample.message(""),
            "Sample loading is not supported via JACK MIDI. Drag audio files directly onto Zrythm's timeline."
        );
    }
}

#[test]
fn tempo_range() {
    let engine = connected(vec![]);
    for ok in [20.0f32, 20.000002, 120.0, 998.99994, 999.0] {
        assert!(check_tempo(single(ok)), "{ok}");
        assert_eq!(engine.set_tempo(single(ok)), Ok(Command::PublishTempo(single(ok))));
    }
    for bad in [
        19.999998f32,
        0.0,
        -120.0,
        999.00006,
        1.0e9,
        f32::INFINITY,
        f32::NEG_INFINITY,
        f32::NAN,
        f32::MIN_POSITIVE,
    ] {
        assert!(!check_tempo(single(bad)), "{bad}");
        let err = engine.set_tempo(single(bad)).unwrap_err();
        assert_eq!(err, EngineError::TempoOutOfRange { bpm: single(bad) });
        assert_eq!(err.kind(), ErrorKind::OutOfRange);
    }
    assert_eq!(
        EngineError::TempoOutOfRange { bpm: single(5.0) }.message("5"),
        "BPM 5 out of valid range (20–999)"
    );
    let fresh = ZrythmEngine::new(MapFile::Absent);
    assert_eq!(fresh.set_tempo(single(120.0)), Err(EngineError::NotConnected));
    assert_eq!(
        fresh.set_tempo(single(5.0)),
        Err(EngineError::TempoOutOfRange { bpm: single(5.0) })
    );
}

#[test]
fn tempo_check_agrees_with_float_comparison() {
    let mut bits: u32 = 0;
    loop {
        let x = f32::from_bits(bits);
        assert_eq!(check_tempo(Single::from_bits(bits)), (20.0..=999.0).contains(&x), "{bits:#x}");
        match bits.checked_add(0x0003_1415) {
            Some(next) => bits = next,
            None => break,
        }
    }
}

#[test]
fn out_of_range_message_names_the_index() {
    assert_eq!(
        EngineError::TrackOutOfRange { index: 16 }.message(""),
        "Track index 16 out of MIDI channel range (0–15)"
    );
    assert_eq!(
        EngineError::TrackOutOfRange { index: -1 }.message(""),
        "Track index -1 out of MIDI channel range (0–15)"
    );
    assert_eq!(
        EngineError::TrackOutOfRange { index: i32::MIN }.message(""),
        "Track index -2147483648 out of MIDI channel range (0–15)"
    );
    assert_eq!(
        EngineError::TrackOutOfRange { index: i32::MAX }.message(""),
        format!("Track index {} out of MIDI channel range (0–15)", i32::MAX)
    );
    assert_eq!(EngineError::TrackOutOfRange { index: 0 }.kind(), ErrorKind::OutOfRange);
    let transport = EngineError::Transport { detail: "socket closed".to_string() };
    assert_eq!(transport.message(""), "socket closed");
    assert_eq!(transport.kind(), ErrorKind::TransportIo);
}

#[test]
fn custom_params_are_listed_in_file_order() {
    let engine = ZrythmEngine::new(MapFile::Parsed(vec![
        param("reverb", 20, 0, Some(0.0), Some(1.0)),
        param("gain", 21, 2, Some(-20.0), Some(0.0)),
        param("plain", 22, 3, None, None),
    ]));
    let defs = engine.custom_params();
    assert_eq!(defs.len(), 3);
    assert_eq!(defs[0].id, "reverb");
    assert_eq!(defs[0].label, "REVERB");
    assert_eq!(defs[1].id, "gain");
    assert_eq!(f32::from_bits(defs[1].min.to_bits()), -20.0);
    assert_eq!(f32::from_bits(defs[1].max.to_bits()), 0.0);
    assert_eq!(f32::from_bits(defs[2].min.to_bits()), 0.0);
    assert_eq!(f32::from_bits(defs[2].max.to_bits()), 1.0);
}

#[test]
fn custom_param_is_mapped_and_queued() {
    let engine = connected(vec![
        param("reverb", 20, 0, Some(0.0), Some(1.0)),
        param("gain", 21, 2, Some(-20.0), Some(0.0)),
        param("gain", 99, 9, Some(0.0), Some(1.0)),
    ]);
    assert_eq!(engine.set_custom_param("reverb", single(0.5)), queued(0xB0, 20, 64));
    assert_eq!(engine.set_custom_param("gain", single(-10.0)), queued(0xB2, 21, 64));
    assert_eq!(engine.set_custom_param("gain", single(5.0)), queued(0xB2, 21, 127));
    assert_eq!(engine.set_custom_param("gain", single(-50.0)), queued(0xB2, 21, 0));
}

#[test]
fn unknown_custom_param_is_refused() {
    let engine = connected(vec![param("reverb", 20, 0, None, None)]);
    let err = engine.set_custom_param("delay", single(0.5)).unwrap_err();
    assert_eq!(err, EngineError::UnknownParam { id: "delay".to_string() });
    assert_eq!(err.kind(), ErrorKind::UnknownIdentifier);
    assert_eq!(err.message(""), "Unknown custom param id: 'delay'");
    let fresh = ZrythmEngine::new(MapFile::Parsed(vec![param("reverb", 20, 0, None, None)]));
    assert_eq!(
        fresh.set_custom_param("delay", single(0.5)),
        Err(EngineError::UnknownParam { id: "delay".to_string() })
    );
    assert_eq!(fresh.set_custom_param("reverb", single(0.5)), Err(EngineError::NotConnected));
}

#[test]
fn startup_failures_report_disconnected() {
    assert_eq!(
        advance(StartupPhase::AwaitingClient, StartupEvent::ClientFailed),
        (StartupPhase::Failed, StartupStep::Announce(false))
    );
    assert_eq!(
        advance(StartupPhase::AwaitingPort, StartupEvent::PortFailed),
        (StartupPhase::Failed, StartupStep::Announce(false))
    );
    assert_eq!(
        advance(StartupPhase::AwaitingActivation, StartupEvent::ActivationFailed),
        (StartupPhase::Failed, StartupStep::Announce(false))
    );
    let mut engine = ZrythmEngine::new(MapFile::Absent);
    assert_eq!(engine.on_startup(StartupEvent::ClientOpened), StartupStep::RegisterPort);
    assert_eq!(engine.on_startup(StartupEvent::PortFailed), StartupStep::Announce(false));
    assert!(!engine.is_connected());
    assert_eq!(engine.on_startup(StartupEvent::PortRegistered), StartupStep::Ignore);
    assert_eq!(engine.phase, StartupPhase::Failed);
    assert_eq!(engine.play(), Err(EngineError::NotConnected));
}

#[test]
fn timebase_refusal_is_not_fatal() {
    let mut engine = ZrythmEngine::new(MapFile::Absent);
    engine.on_startup(StartupEvent::ClientOpened);
    engine.on_startup(StartupEvent::PortRegistered);
    engine.on_startup(StartupEvent::Activated);
    assert_eq!(engine.on_startup(StartupEvent::TimebaseAnswer { rc: -1 }), StartupStep::Announce(true));
    assert_eq!(engine.phase, StartupPhase::Ready { timebase_master: false });
    assert!(engine.is_connected());
    assert_eq!(engine.play(), Ok(Command::StartTransport));
    assert_eq!(engine.on_startup(StartupEvent::ClientFailed), StartupStep::Ignore);
    assert!(engine.is_connected());
}

#[test]
fn startup_ignores_events_out_of_turn() {
    assert_eq!(
        advance(StartupPhase::AwaitingClient, StartupEvent::Activated),
        (StartupPhase::AwaitingClient, StartupStep::Ignore)
    );
    assert_eq!(
        advance(StartupPhase::AwaitingTimebase, StartupEvent::ClientOpened),
        (StartupPhase::AwaitingTimebase, StartupStep::Ignore)
    );
    assert_eq!(
        advance(StartupPhase::Ready { timebase_master: true }, StartupEvent::TimebaseAnswer { rc: 3 }),
        (StartupPhase::Ready { timebase_master: true }, StartupStep::Ignore)
    );
}

#[test]
fn timebase_publishes_tempo_in_four_four() {
    let position = timebase_position(initial_tempo());
    assert_eq!(f32::from_bits(initial_tempo().to_bits()), 120.0);
    assert_eq!(f64::from_bits(position.beats_per_minute.to_bits()), 120.0);
    assert_eq!(f32::from_bits(position.beats_per_bar.to_bits()), 4.0);
    assert_eq!(f32::from_bits(position.beat_type.to_bits()), 4.0);
    assert_eq!(f64::from_bits(position.ticks_per_beat.to_bits()), 1920.0);
    let position = timebase_position(single(93.3));
    assert_eq!(f64::from_bits(position.beats_per_minute.to_bits()), 93.3f32 as f64);
}

#[test]
fn queue_offers_in_order_of_arrival() {
    let mut queue = MidiQueue::new();
    assert_eq!(queue.len(), 0);
    let mut out = Vec::new();
    queue.offer_into(&mut out);
    assert!(out.is_empty());
    let a = MidiMessage { status: 0xB0, controller: 7, value: 1 };
    let b = MidiMessage { status: 0xB1, controller: 10, value: 2 };
    let c = MidiMessage { status: 0xB2, controller: 119, value: 3 };
    queue.push(a);
    queue.push(b);
    assert_eq!(queue.len(), 2);
    queue.push(c);
    queue.offer_into(&mut out);
    assert_eq!(
        out,
        vec![
            TimedMidi { time: 0, message: a },
            TimedMidi { time: 1, message: b },
            TimedMidi { time: 2, message: c },
        ]
    );
    assert_eq!(queue.len(), 3);
    queue.confirm(3);
    assert_eq!(queue.len(), 0);
    queue.push(c);
    out.clear();
    queue.offer_into(&mut out);
    assert_eq!(out, vec![TimedMidi { time: 0, message: c }]);
}

#[test]
fn refused_messages_wait_for_the_next_cycle() {
    let mut queue = MidiQueue::new();
    let a = MidiMessage { status: 0xB0, controller: 7, value: 1 };
    let b = MidiMessage { status: 0xB1, controller: 10, value: 2 };
    let c = MidiMessage { status: 0xB2, controller: 118, value: 3 };
    let d = MidiMessage { status: 0xB3, controller: 119, value: 4 };
    queue.push(a);
    queue.push(b);
    queue.push(c);
    let mut out = Vec::new();
    midi::process_cycle(Some(&queue), &mut out);
    assert_eq!(out.len(), 3);
    // The port took the first message and refused the second.
    queue.confirm(1);
    assert_eq!(queue.len(), 2);
    queue.push(d);
    out.clear();
    midi::process_cycle(Some(&queue), &mut out);
    assert_eq!(
        out,
        vec![
            TimedMidi { time: 0, message: b },
            TimedMidi { time: 1, message: c },
            TimedMidi { time: 2, message: d },
        ]
    );
    // Nothing written: nothing leaves.
    queue.confirm(0);
    assert_eq!(queue.len(), 3);
    // More confirmed than waits: the queue is empty, and no more.
    queue.confirm(7);
    assert_eq!(queue.len(), 0);
    queue.confirm(1);
    assert_eq!(queue.len(), 0);
}

#[test]
fn contended_cycle_writes_nothing_and_loses_nothing() {
    let mut queue = MidiQueue::new();
    let a = MidiMessage { status: 0xB0, controller: 7, value: 1 };
    let b = MidiMessage { status: 0xB1, controller: 10, value: 2 };
    let c = MidiMessage { status: 0xB2, controller: 118, value: 3 };
    queue.push(a);
    queue.push(b);
    let mut out = Vec::new();
    midi::process_cycle(None, &mut out);
    assert!(out.is_empty());
    assert_eq!(queue.len(), 2);
    queue.push(c);
    midi::process_cycle(Some(&queue), &mut out);
    assert_eq!(
        out,
        vec![
            TimedMidi { time: 0, message: a },
            TimedMidi { time: 1, message: b },
            TimedMidi { time: 2, message: c },
        ]
    );
    queue.confirm(out.len());
    assert_eq!(queue.len(), 0);
    out.clear();
    midi::process_cycle(Some(&queue), &mut out);
    assert!(out.is_empty());
}

#[test]
fn mock_engine_succeeds_without_traffic() {
    let engine = MockEngine;
    assert_eq!(engine.name(), "Mock");
    assert_eq!(engine.start(), vec![Command::Emit(Notification::ConnectionChanged(true))]);
    assert_eq!(
        Notification::ConnectionChanged(true).event_name(),
        "engine-connection-changed"
    );
    for _ in 0..3 {
        assert_eq!(engine.play(), Ok(Command::Nothing));
    }
    assert_eq!(engine.stop(), Ok(Command::Nothing));
    assert_eq!(engine.toggle_record(), Ok(Command::Nothing));
    assert_eq!(engine.set_tempo(single(1.0e9)), Ok(Command::Nothing));
    assert_eq!(engine.set_loop_enabled(true), Ok(Command::Nothing));
    assert_eq!(engine.set_track_volume(99, single(0.5)), Ok(Command::Nothing));
    assert_eq!(engine.set_track_mute(-4, true), Ok(Command::Nothing));
    assert_eq!(engine.set_track_solo(0, false), Ok(Command::Nothing));
    assert_eq!(engine.set_track_pan(0, single(0.0)), Ok(Command::Nothing));
    assert_eq!(engine.load_sample(0, 0, "/a.wav"), Ok(Command::Nothing));
    assert!(engine.custom_params().is_empty());
    assert_eq!(engine.set_custom_param("x", single(0.0)), Ok(Command::Nothing));
}
