//! The Zrythm backend, driven through the JACK audio server.
//!
//! Zrythm has no control protocol of its own. The transport is the audio
//! server's transport; the tempo reaches the DAW because the host is the
//! server's timebase master; track parameters travel as MIDI control changes
//! on one output port, on the channel of the track's index:
//!
//! | Parameter | Controller | Channel     |
//! |-----------|------------|-------------|
//! | Volume    | 7          | track index |
//! | Pan       | 10         | track index |
//! | Mute      | 119        | track index |
//! | Solo      | 118        | track index |
//!
//! The backend only sends. Record toggle, loop enable and sample loading have
//! no equivalent on it and are refused.

use vstd::prelude::*;
use vstd::arithmetic::power2::*;
use vstd::string::*;
use crate::engine::midi::{
    control_change,
    lemma_status_byte_of_channel,
    midi_cc,
    midi_value,
    pan_cc,
    pan_value,
    status_byte,
    switch_cc,
    switch_value,
    volume_cc,
    volume_value,
    CC_MUTE,
    CC_PAN,
    CC_SOLO,
    CC_VOLUME,
};
use crate::engine::{
    Command,
    EngineAdapter,
    EngineError,
    MidiMessage,
    Operation,
    ParamDef,
    ParamView,
    MAX_BPM,
    MAX_MIDI_CH,
    MIN_BPM,
};
use crate::number::{exact_sign, Double, Single};

verus! {

/// The name under which the host registers with the audio server.
pub const CLIENT_NAME: &'static str = "maestro";

/// The name of the MIDI output port.
pub const PORT_NAME: &'static str = "control_out";

/// One custom parameter of the MIDI map: a named control bound to a
/// controller on a channel, over the range from `min` to `max`.
#[derive(Debug, Clone, PartialEq, Eq)]
pub struct ZrythmParamConfig {
    pub id: String,
    pub label: String,
    /// MIDI controller number.
    pub cc: u8,
    /// MIDI channel.
    pub channel: u8,
    pub min: Single,
    pub max: Single,
}

/// What a custom parameter holds.
pub struct ParamConfigView {
    pub id: Seq<char>,
    pub label: Seq<char>,
    pub cc: u8,
    pub channel: u8,
    pub min: Single,
    pub max: Single,
}

impl View for ZrythmParamConfig {
    type V = ParamConfigView;

    open spec fn view(&self) -> ParamConfigView {
        ParamConfigView {
            id: self.id@,
            label: self.label@,
            cc: self.cc,
            channel: self.channel,
            min: self.min,
            max: self.max,
        }
    }
}

/// The views of a parameter list, in order.
pub open spec fn config_views(params: Seq<ZrythmParamConfig>) -> Seq<ParamConfigView> {
    Seq::new(params.len(), |i: int| params[i]@)
}

impl ZrythmParamConfig {
    /// A parameter as the map file declares it. A range end that the file
    /// leaves out is 0 for `min` and 1 for `max`.
    pub fn new(
        id: String,
        label: String,
        cc: u8,
        channel: u8,
        min: Option<Single>,
        max: Option<Single>,
    ) -> (param: ZrythmParamConfig)
        ensures
            param@ == (ParamConfigView {
                id: id@,
                label: label@,
                cc: cc,
                channel: channel,
                min: match min {
                    Some(x) => x,
                    None => Single { bits: 0 },
                },
                max: match max {
                    Some(x) => x,
                    None => Single { bits: 0x3F80_0000 },
                },
            }),
    {
        ZrythmParamConfig {
            id,
            label,
            cc,
            channel,
            min: match min {
                Some(x) => x,
                None => default_zero(),
            },
            max: match max {
                Some(x) => x,
                None => default_one(),
            },
        }
    }

    /// A copy of this parameter.
    pub fn snapshot(&self) -> (copy: ZrythmParamConfig)
        ensures
            copy@ == self@,
    {
        ZrythmParamConfig {
            id: self.id.clone(),
            label: self.label.clone(),
            cc: self.cc,
            channel: self.channel,
            min: self.min,
            max: self.max,
        }
    }

    /// The parameter as the user interface sees it.
    pub fn definition(&self) -> (def: ParamDef)
        ensures
            def@ == definition_of(self@),
    {
        ParamDef {
            id: self.id.clone(),
            label: self.label.clone(),
            min: self.min,
            max: self.max,
        }
    }
}

/// The start of a range that the map file does not give.
pub fn default_zero() -> (x: Single)
    ensures
        x.bits == 0,
{
    Single::zero()
}

/// The end of a range that the map file does not give.
pub fn default_one() -> (x: Single)
    ensures
        x.bits == 0x3F80_0000,
{
    Single::one()
}

/// What the user interface sees of a custom parameter.
pub open spec fn definition_of(p: ParamConfigView) -> ParamView {
    ParamView { id: p.id, label: p.label, min: p.min, max: p.max }
}

/// What the host found where the MIDI map should be.
#[derive(Debug, Clone, PartialEq, Eq)]
pub enum MapFile {
    /// There is no file, or it cannot be read. The map is optional.
    Absent,
    /// The file is not a valid map.
    Malformed,
    /// The parameters that the file declares, in the order of the file.
    Parsed(Vec<ZrythmParamConfig>),
}

/// The parameters that a map file yields: those that it declares, and none
/// where it is absent or malformed.
pub open spec fn loaded_params(file: MapFile) -> Seq<ParamConfigView> {
    match file {
        MapFile::Parsed(params) => config_views(params@),
        _ => Seq::empty(),
    }
}

/// The texts of a list of strings, in order.
pub open spec fn texts(parts: Seq<String>) -> Seq<Seq<char>> {
    Seq::new(parts.len(), |i: int| parts[i]@)
}

/// The components of the path of the MIDI map: the override alone where it is
/// set; else `maestro/zrythm-map.toml` under the configuration home; else the
/// same under `.config` in the home directory, which is empty where unset.
pub open spec fn map_path_parts(
    map_override: Option<Seq<char>>,
    config_home: Option<Seq<char>>,
    home: Option<Seq<char>>,
) -> Seq<Seq<char>> {
    match map_override {
        Some(p) => seq![p],
        None => match config_home {
            Some(base) => seq![base, "maestro"@, "zrythm-map.toml"@],
            None => seq![
                match home {
                    Some(h) => h,
                    None => Seq::empty(),
                },
                ".config"@,
                "maestro"@,
                "zrythm-map.toml"@,
            ],
        },
    }
}

/// Resolves the path of the MIDI map from the values of `MAESTRO_MIDI_MAP`,
/// `XDG_CONFIG_HOME` and `HOME`. The result lists the components that the host
/// joins to one path, the base first.
pub fn zrythm_map_path(
    map_override: Option<&str>,
    config_home: Option<&str>,
    home: Option<&str>,
) -> (parts: Vec<String>)
    ensures
        texts(parts@) == map_path_parts(
            match map_override {
                Some(s) => Some(s@),
                None => None,
            },
            match config_home {
                Some(s) => Some(s@),
                None => None,
            },
            match home {
                Some(s) => Some(s@),
                None => None,
            },
        ),
{
    let mut parts: Vec<String> = Vec::new();
    match map_override {
        Some(p) => {
            parts.push(String::from_str(p));
            assert(texts(parts@) =~= seq![p@]);
        },
        None => {
            match config_home {
                Some(base) => {
                    parts.push(String::from_str(base));
                    parts.push(String::from_str("maestro"));
                    parts.push(String::from_str("zrythm-map.toml"));
                    assert(texts(parts@) =~= seq![base@, "maestro"@, "zrythm-map.toml"@]);
                },
                None => {
                    let base = match home {
                        Some(h) => String::from_str(h),
                        None => String::new(),
                    };
                    let ghost b = base@;
                    parts.push(base);
                    parts.push(String::from_str(".config"));
                    parts.push(String::from_str("maestro"));
                    parts.push(String::from_str("zrythm-map.toml"));
                    assert(texts(parts@) =~= seq![b, ".config"@, "maestro"@, "zrythm-map.toml"@]);
                },
            }
        },
    }
    parts
}

/// How far the startup on the audio server has come.
#[derive(Debug, Clone, Copy, PartialEq, Eq, Structural)]
pub enum StartupPhase {
    /// The client is not open yet.
    AwaitingClient,
    /// The client is open; the MIDI output port is not registered yet.
    AwaitingPort,
    /// The port is registered; the client is not active yet.
    AwaitingActivation,
    /// The client is active; the server has not answered the claim for
    /// timebase mastery yet.
    AwaitingTimebase,
    /// The engine is connected. Tempo changes reach the DAW only where the
    /// host is timebase master.
    Ready { timebase_master: bool },
    /// A step failed; the engine stays disconnected.
    Failed,
}

/// What the audio server answered to one step of the startup.
#[derive(Debug, Clone, Copy, PartialEq, Eq, Structural)]
pub enum StartupEvent {
    ClientOpened,
    ClientFailed,
    PortRegistered,
    PortFailed,
    Activated,
    ActivationFailed,
    /// The return code of the claim for timebase mastery: 0 for success.
    TimebaseAnswer { rc: i32 },
}

/// What the host does next in the startup.
#[derive(Debug, Clone, Copy, PartialEq, Eq, Structural)]
pub enum StartupStep {
    /// Register the MIDI output port.
    RegisterPort,
    /// Activate the client with the processing callback.
    Activate,
    /// Claim timebase mastery, unconditionally.
    ClaimTimebase,
    /// Report the connection to the event sink; the startup is over.
    Announce(bool),
    /// The event does not belong to this phase; nothing is done.
    Ignore,
}

/// The phase after an event.
pub open spec fn next_phase(phase: StartupPhase, event: StartupEvent) -> StartupPhase {
    match (phase, event) {
        (StartupPhase::AwaitingClient, StartupEvent::ClientOpened) => StartupPhase::AwaitingPort,
        (StartupPhase::AwaitingClient, StartupEvent::ClientFailed) => StartupPhase::Failed,
        (StartupPhase::AwaitingPort, StartupEvent::PortRegistered) => StartupPhase::AwaitingActivation,
        (StartupPhase::AwaitingPort, StartupEvent::PortFailed) => StartupPhase::Failed,
        (StartupPhase::AwaitingActivation, StartupEvent::Activated) => StartupPhase::AwaitingTimebase,
        (StartupPhase::AwaitingActivation, StartupEvent::ActivationFailed) => StartupPhase::Failed,
        (StartupPhase::AwaitingTimebase, StartupEvent::TimebaseAnswer { rc }) => StartupPhase::Ready {
            timebase_master: rc == 0,
        },
        _ => phase,
    }
}

/// The step that an event asks for.
pub open spec fn step_for(phase: StartupPhase, event: StartupEvent) -> StartupStep {
    match (phase, event) {
        (StartupPhase::AwaitingClient, StartupEvent::ClientOpened) => StartupStep::RegisterPort,
        (StartupPhase::AwaitingClient, StartupEvent::ClientFailed) => StartupStep::Announce(false),
        (StartupPhase::AwaitingPort, StartupEvent::PortRegistered) => StartupStep::Activate,
        (StartupPhase::AwaitingPort, StartupEvent::PortFailed) => StartupStep::Announce(false),
        (StartupPhase::AwaitingActivation, StartupEvent::Activated) => StartupStep::ClaimTimebase,
        (StartupPhase::AwaitingActivation, StartupEvent::ActivationFailed) => StartupStep::Announce(
            false,
        ),
        (StartupPhase::AwaitingTimebase, StartupEvent::TimebaseAnswer { .. }) => StartupStep::Announce(
            true,
        ),
        _ => StartupStep::Ignore,
    }
}

/// The phase after a run of events.
pub open spec fn phase_after(phase: StartupPhase, events: Seq<StartupEvent>) -> StartupPhase
    decreases events.len(),
{
    if events.len() == 0 {
        phase
    } else {
        next_phase(phase_after(phase, events.drop_last()), events.last())
    }
}

/// Whether the startup has ended in this phase.
pub open spec fn settled(phase: StartupPhase) -> bool {
    phase is Ready || phase is Failed
}

/// One step of the startup: the phase after `event`, and what the host does next.
pub fn advance(phase: StartupPhase, event: StartupEvent) -> (r: (StartupPhase, StartupStep))
    ensures
        r.0 == next_phase(phase, event),
        r.1 == step_for(phase, event),
{
    match phase {
        StartupPhase::AwaitingClient => match event {
            StartupEvent::ClientOpened => (StartupPhase::AwaitingPort, StartupStep::RegisterPort),
            StartupEvent::ClientFailed => (StartupPhase::Failed, StartupStep::Announce(false)),
            _ => (phase, StartupStep::Ignore),
        },
        StartupPhase::AwaitingPort => match event {
            StartupEvent::PortRegistered => (StartupPhase::AwaitingActivation, StartupStep::Activate),
            StartupEvent::PortFailed => (StartupPhase::Failed, StartupStep::Announce(false)),
            _ => (phase, StartupStep::Ignore),
        },
        StartupPhase::AwaitingActivation => match event {
            StartupEvent::Activated => (StartupPhase::AwaitingTimebase, StartupStep::ClaimTimebase),
            StartupEvent::ActivationFailed => (StartupPhase::Failed, StartupStep::Announce(false)),
            _ => (phase, StartupStep::Ignore),
        },
        StartupPhase::AwaitingTimebase => match event {
            StartupEvent::TimebaseAnswer { rc } => (
                StartupPhase::Ready { timebase_master: rc == 0 },
                StartupStep::Announce(true),
            ),
            _ => (phase, StartupStep::Ignore),
        },
        _ => (phase, StartupStep::Ignore),
    }
}

/// A startup announces its outcome once: the step that settles it announces,
/// and a settled startup ignores every event and stays as it is.
pub proof fn lemma_startup_settles_once(phase: StartupPhase, event: StartupEvent)
    ensures
        settled(phase) ==> next_phase(phase, event) == phase && step_for(phase, event)
            == StartupStep::Ignore,
        !settled(phase) && settled(next_phase(phase, event)) ==> step_for(phase, event)
            == StartupStep::Announce(next_phase(phase, event) is Ready),
        step_for(phase, event) is Announce ==> !settled(phase) && settled(next_phase(phase, event)),
{
}

/// A refused claim for timebase mastery is not fatal: whatever the server
/// answers, the engine is connected and says so.
pub proof fn lemma_timebase_refusal_is_not_fatal(rc: i32)
    ensures
        next_phase(StartupPhase::AwaitingTimebase, StartupEvent::TimebaseAnswer { rc }) is Ready,
        step_for(StartupPhase::AwaitingTimebase, StartupEvent::TimebaseAnswer { rc })
            == StartupStep::Announce(true),
{
}

/// The engine is connected after a run of events only if the client was
/// opened, the port registered and the client activated, in this order, and
/// the server answered the claim for timebase mastery.
pub proof fn lemma_ready_needs_every_step(events: Seq<StartupEvent>)
    requires
        phase_after(StartupPhase::AwaitingClient, events) is Ready,
    ensures
        exists|i: int, j: int, k: int, l: int|
            0 <= i < j < k < l < events.len() && events[i] == StartupEvent::ClientOpened
                && events[j] == StartupEvent::PortRegistered && events[k]
                == StartupEvent::Activated && events[l] is TimebaseAnswer,
{
    lemma_phase_history(events);
}

/// What a phase tells about the events that led to it.
pub open spec fn history_shows(events: Seq<StartupEvent>, phase: StartupPhase) -> bool {
    match phase {
        StartupPhase::AwaitingClient => true,
        StartupPhase::Failed => true,
        StartupPhase::AwaitingPort => exists|i: int|
            0 <= i < events.len() && events[i] == StartupEvent::ClientOpened,
        StartupPhase::AwaitingActivation => exists|i: int, j: int|
            0 <= i < j < events.len() && events[i] == StartupEvent::ClientOpened && events[j]
                == StartupEvent::PortRegistered,
        StartupPhase::AwaitingTimebase => exists|i: int, j: int, k: int|
            0 <= i < j < k < events.len() && events[i] == StartupEvent::ClientOpened && events[j]
                == StartupEvent::PortRegistered && events[k] == StartupEvent::Activated,
        StartupPhase::Ready { .. } => exists|i: int, j: int, k: int, l: int|
            0 <= i < j < k < l < events.len() && events[i] == StartupEvent::ClientOpened
                && events[j] == StartupEvent::PortRegistered && events[k]
                == StartupEvent::Activated && events[l] is TimebaseAnswer,
    }
}

proof fn lemma_phase_history(events: Seq<StartupEvent>)
    ensures
        history_shows(events, phase_after(StartupPhase::AwaitingClient, events)),
    decreases events.len(),
{
    if events.len() > 0 {
        let before = events.drop_last();
        let n = before.len() as int;
        lemma_phase_history(before);
        let p = phase_after(StartupPhase::AwaitingClient, before);
        let q = phase_after(StartupPhase::AwaitingClient, events);
        assert(q == next_phase(p, events.last()));
        assert(forall|i: int| 0 <= i < n ==> before[i] == events[i]);
        match p {
            StartupPhase::AwaitingClient => {
                if q is AwaitingPort {
                    assert(events[n] == StartupEvent::ClientOpened);
                }
            },
            StartupPhase::AwaitingPort => {
                let i = choose|i: int| 0 <= i < n && before[i] == StartupEvent::ClientOpened;
                assert(events[i] == StartupEvent::ClientOpened);
                if q is AwaitingActivation {
                    assert(events[n] == StartupEvent::PortRegistered);
                }
            },
            StartupPhase::AwaitingActivation => {
                let (i, j) = choose|i: int, j: int|
                    0 <= i < j < n && before[i] == StartupEvent::ClientOpened && before[j]
                        == StartupEvent::PortRegistered;
                assert(events[i] == StartupEvent::ClientOpened && events[j]
                    == StartupEvent::PortRegistered);
                if q is AwaitingTimebase {
                    assert(events[n] == StartupEvent::Activated);
                }
            },
            StartupPhase::AwaitingTimebase => {
                let (i, j, k) = choose|i: int, j: int, k: int|
                    0 <= i < j < k < n && before[i] == StartupEvent::ClientOpened && before[j]
                        == StartupEvent::PortRegistered && before[k] == StartupEvent::Activated;
                assert(events[i] == StartupEvent::ClientOpened && events[j]
                    == StartupEvent::PortRegistered && events[k] == StartupEvent::Activated);
                if q is Ready {
                    assert(events[n] is TimebaseAnswer);
                }
            },
            StartupPhase::Ready { .. } => {
                let (i, j, k, l) = choose|i: int, j: int, k: int, l: int|
                    0 <= i < j < k < l < n && before[i] == StartupEvent::ClientOpened && before[j]
                        == StartupEvent::PortRegistered && before[k] == StartupEvent::Activated
                        && before[l] is TimebaseAnswer;
                assert(events[i] == StartupEvent::ClientOpened && events[j]
                    == StartupEvent::PortRegistered && events[k] == StartupEvent::Activated
                    && events[l] is TimebaseAnswer);
            },
            StartupPhase::Failed => {},
        }
    }
}

/// Whether a tempo is a number from 20 to 999 beats per minute. A whole
/// number `n` is `n * 2^149` steps of binary32.
pub open spec fn tempo_in_range(bpm: Single) -> bool {
    bpm.is_finite() && MIN_BPM * pow2(149) <= bpm.scaled() <= MAX_BPM * pow2(149)
}

/// The number 20, the lowest tempo.
fn lowest_tempo() -> (x: Single)
    ensures
        x.is_finite(),
        x.scaled() == MIN_BPM * pow2(149),
{
    let x = Single::from_bits(0x41A0_0000);
    proof {
        lemma2_to64();
        lemma_pow2_adds(2, 149);
        lemma_pow2_adds(21, 130);
        assert(x.significand() == 5 * pow2(21));
        assert(x.shift() == 130);
        assert((5 * pow2(21)) * pow2(130) == 5 * (pow2(21) * pow2(130))) by (nonlinear_arith);
        assert(pow2(151) == pow2(2) * pow2(149));
        assert(5 * (pow2(2) * pow2(149)) == 20 * pow2(149)) by (nonlinear_arith)
            requires
                pow2(2) == 4,
        ;
    }
    x
}

/// The number 999, the highest tempo.
fn highest_tempo() -> (x: Single)
    ensures
        x.is_finite(),
        x.scaled() == MAX_BPM * pow2(149),
{
    let x = Single::from_bits(0x4479_C000);
    proof {
        lemma2_to64();
        lemma_pow2_adds(14, 135);
        assert(x.significand() == 999 * pow2(14));
        assert(x.shift() == 135);
        assert((999 * pow2(14)) * pow2(135) == 999 * (pow2(14) * pow2(135))) by (nonlinear_arith);
    }
    x
}

/// Checks a tempo against the range from 20 to 999 beats per minute.
pub fn check_tempo(bpm: Single) -> (ok: bool)
    ensures
        ok == tempo_in_range(bpm),
{
    if !bpm.finite() {
        return false;
    }
    let low = lowest_tempo();
    let high = highest_tempo();
    let above = exact_sign(1, bpm, -1, low, 0, low);
    let below = exact_sign(1, bpm, -1, high, 0, high);
    above >= 0 && below <= 0
}

/// What the timebase callback writes into the audio server's position in
/// every cycle: the tempo, in four-four time at 1920 ticks per beat.
#[derive(Debug, Clone, Copy, PartialEq, Eq, Structural)]
pub struct TimebasePosition {
    pub beats_per_minute: Double,
    pub beats_per_bar: Single,
    pub beat_type: Single,
    pub ticks_per_beat: Double,
}

/// The position that publishes the tempo `bpm`.
pub fn timebase_position(bpm: Single) -> (position: TimebasePosition)
    ensures
        position == (TimebasePosition {
            beats_per_minute: bpm.widened(),
            beats_per_bar: Single { bits: 0x4080_0000 },
            beat_type: Single { bits: 0x4080_0000 },
            ticks_per_beat: Double { bits: 0x409E_0000_0000_0000 },
        }),
{
    TimebasePosition {
        beats_per_minute: bpm.widen(),
        beats_per_bar: Single::from_bits(0x4080_0000),
        beat_type: Single::from_bits(0x4080_0000),
        ticks_per_beat: Double::from_bits(0x409E_0000_0000_0000),
    }
}

/// The tempo that the host publishes until a command sets another: 120.
pub fn initial_tempo() -> (bpm: Single)
    ensures
        bpm.bits == 0x42F0_0000,
        tempo_in_range(bpm),
{
    let x = Single::from_bits(0x42F0_0000);
    proof {
        lemma2_to64();
        lemma_pow2_adds(20, 132);
        lemma_pow2_adds(3, 149);
        assert(x.significand() == 15 * pow2(20));
        assert(x.shift() == 132);
        assert((15 * pow2(20)) * pow2(132) == 15 * (pow2(20) * pow2(132))) by (nonlinear_arith);
        assert(pow2(152) == pow2(3) * pow2(149));
        assert(15 * (pow2(3) * pow2(149)) == 120 * pow2(149)) by (nonlinear_arith)
            requires
                pow2(3) == 8,
        ;
        lemma_pow2_pos(149);
        assert(20 * pow2(149) <= 120 * pow2(149) <= 999 * pow2(149)) by (nonlinear_arith)
            requires
                pow2(149) > 0,
        ;
    }
    x
}

/// The index of the first parameter at or after `start` with this id.
pub open spec fn find_from(params: Seq<ParamConfigView>, id: Seq<char>, start: int) -> Option<int>
    decreases params.len() - start,
{
    if start < 0 || start >= params.len() {
        None
    } else if params[start].id == id {
        Some(start)
    } else {
        find_from(params, id, start + 1)
    }
}

/// The first parameter with this id, if there is one.
pub open spec fn find_param(params: Seq<ParamConfigView>, id: Seq<char>) -> Option<ParamConfigView> {
    match find_from(params, id, 0) {
        Some(i) => Some(params[i]),
        None => None,
    }
}

/// The control change that drives a custom parameter to `value`.
pub open spec fn param_message(p: ParamConfigView, value: Single) -> MidiMessage {
    MidiMessage {
        status: status_byte(p.channel),
        controller: p.cc,
        value: midi_value(p.min, p.max, value) as u8,
    }
}

/// What the engine answers to a control change on a track: the channel check
/// comes first, the connection second.
pub open spec fn track_answer(connected: bool, track_index: int, controller: u8, value: int) -> Result<
    Command,
    EngineError,
> {
    if !(0 <= track_index < MAX_MIDI_CH) {
        Err(EngineError::TrackOutOfRange { index: track_index as i32 })
    } else if !connected {
        Err(EngineError::NotConnected)
    } else {
        Ok(
            Command::QueueMidi(
                MidiMessage {
                    status: status_byte(track_index as u8),
                    controller: controller,
                    value: value as u8,
                },
            ),
        )
    }
}

/// Track-index validation: an index that is not a MIDI channel fails for
/// every controller and value, connected or not; an index that is one always
/// succeeds on a connected engine, and queues a message on the channel of the index.
pub proof fn lemma_track_index_validation(
    connected: bool,
    track_index: int,
    controller: u8,
    value: int,
)
    requires
        i32::MIN <= track_index <= i32::MAX,
    ensures
        !(0 <= track_index < MAX_MIDI_CH) ==> track_answer(connected, track_index, controller, value)
            == Err::<Command, EngineError>(
            EngineError::TrackOutOfRange { index: track_index as i32 },
        ),
        0 <= track_index < MAX_MIDI_CH && connected ==> track_answer(
            connected,
            track_index,
            controller,
            value,
        ) == Ok::<Command, EngineError>(
            Command::QueueMidi(
                MidiMessage {
                    status: (0xB0 + track_index) as u8,
                    controller: controller,
                    value: value as u8,
                },
            ),
        ),
        0 <= track_index < MAX_MIDI_CH && !connected ==> track_answer(
            connected,
            track_index,
            controller,
            value,
        ) == Err::<Command, EngineError>(EngineError::NotConnected),
{
    if 0 <= track_index < MAX_MIDI_CH {
        lemma_status_byte_of_channel(track_index as u8);
    }
}

/// The Zrythm engine adapter.
pub struct ZrythmEngine {
    /// How far the startup has come; the engine is connected once it is ready.
    pub phase: StartupPhase,
    /// The custom parameters of the MIDI map, loaded once.
    pub params: Vec<ZrythmParamConfig>,
}

impl ZrythmEngine {
    /// An engine that is not connected yet, with the custom parameters of the map file.
    pub fn new(file: MapFile) -> (engine: ZrythmEngine)
        ensures
            engine.phase == StartupPhase::AwaitingClient,
            !engine.connected(),
            config_views(engine.params@) == loaded_params(file),
    {
        ZrythmEngine { phase: StartupPhase::AwaitingClient, params: ZrythmEngine::load_params(file) }
    }

    /// The custom parameters that a map file yields. A missing file and a
    /// malformed file both yield none.
    pub fn load_params(file: MapFile) -> (params: Vec<ZrythmParamConfig>)
        ensures
            config_views(params@) == loaded_params(file),
    {
        match file {
            MapFile::Parsed(declared) => declared,
            _ => {
                let none: Vec<ZrythmParamConfig> = Vec::new();
                assert(config_views(none@) =~= Seq::<ParamConfigView>::empty());
                none
            },
        }
    }

    /// Whether the audio-server connection is established.
    pub open spec fn connected(&self) -> bool {
        self.phase is Ready
    }

    /// Whether the audio-server connection is established.
    pub fn is_connected(&self) -> (b: bool)
        ensures
            b == self.connected(),
    {
        match self.phase {
            StartupPhase::Ready { .. } => true,
            _ => false,
        }
    }

    /// Takes one answer of the audio server during startup, and says what the
    /// host does next.
    pub fn on_startup(&mut self, event: StartupEvent) -> (step: StartupStep)
        ensures
            final(self).phase == next_phase(old(self).phase, event),
            final(self).params == old(self).params,
            step == step_for(old(self).phase, event),
    {
        let (phase, step) = advance(self.phase, event);
        self.phase = phase;
        step
    }

    /// Fails unless the connection is established.
    pub fn with_handle(&self) -> (r: Result<(), EngineError>)
        ensures
            self.connected() ==> r == Ok::<(), EngineError>(()),
            !self.connected() ==> r == Err::<(), EngineError>(EngineError::NotConnected),
    {
        if self.is_connected() {
            Ok(())
        } else {
            Err(EngineError::NotConnected)
        }
    }

    /// Hands a MIDI message to the queue of the audio callback.
    pub fn queue_midi(&self, message: MidiMessage) -> (r: Result<Command, EngineError>)
        ensures
            self.connected() ==> r == Ok::<Command, EngineError>(Command::QueueMidi(message)),
            !self.connected() ==> r == Err::<Command, EngineError>(EngineError::NotConnected),
    {
        match self.with_handle() {
            Ok(_) => Ok(Command::QueueMidi(message)),
            Err(e) => Err(e),
        }
    }

    /// Checks that a track index is a MIDI channel, and gives the channel.
    pub fn check_track(track_index: i32) -> (r: Result<u8, EngineError>)
        ensures
            0 <= track_index < MAX_MIDI_CH ==> r == Ok::<u8, EngineError>(track_index as u8),
            !(0 <= track_index < MAX_MIDI_CH) ==> r == Err::<u8, EngineError>(
                EngineError::TrackOutOfRange { index: track_index },
            ),
    {
        if track_index < 0 || track_index >= MAX_MIDI_CH {
            Err(EngineError::TrackOutOfRange { index: track_index })
        } else {
            Ok(track_index as u8)
        }
    }

    /// A control change on the channel of a track.
    fn track_control(&self, track_index: i32, controller: u8, value: u8) -> (r: Result<
        Command,
        EngineError,
    >)
        ensures
            r == track_answer(self.connected(), track_index as int, controller, value as int),
    {
        match ZrythmEngine::check_track(track_index) {
            Ok(channel) => self.queue_midi(control_change(channel, controller, value)),
            Err(e) => Err(e),
        }
    }

    /// The index of the first custom parameter with this id.
    fn find(&self, id: &str) -> (found: Option<usize>)
        ensures
            match found {
                Some(i) => find_from(config_views(self.params@), id@, 0) == Some(i as int) && i
                    < self.params@.len(),
                None => find_from(config_views(self.params@), id@, 0).is_none(),
            },
    {
        let wanted = String::from_str(id);
        let ghost views = config_views(self.params@);
        let mut i: usize = 0;
        while i < self.params.len()
            invariant
                i <= self.params@.len(),
                views == config_views(self.params@),
                wanted@ == id@,
                find_from(views, id@, 0) == find_from(views, id@, i as int),
            decreases self.params@.len() - i,
        {
            if self.params[i].id == wanted {
                return Some(i);
            }
            i = i + 1;
        }
        None
    }
}

impl EngineAdapter for ZrythmEngine {
    fn name(&self) -> (name: &'static str)
        ensures
            name@ == "Zrythm"@,
    {
        "Zrythm"
    }

    /// The startup begins with a client on the audio server; `on_startup`
    /// leads the host through the rest.
    fn start(&self) -> (plan: Vec<Command>)
        ensures
            plan@ == seq![Command::ConnectAudioServer],
    {
        let mut plan = Vec::new();
        plan.push(Command::ConnectAudioServer);
        plan
    }

    fn play(&self) -> (r: Result<Command, EngineError>)
        ensures
            self.connected() ==> r == Ok::<Command, EngineError>(Command::StartTransport),
            !self.connected() ==> r == Err::<Command, EngineError>(EngineError::NotConnected),
    {
        match self.with_handle() {
            Ok(_) => Ok(Command::StartTransport),
            Err(e) => Err(e),
        }
    }

    fn stop(&self) -> (r: Result<Command, EngineError>)
        ensures
            self.connected() ==> r == Ok::<Command, EngineError>(Command::StopTransport),
            !self.connected() ==> r == Err::<Command, EngineError>(EngineError::NotConnected),
    {
        match self.with_handle() {
            Ok(_) => Ok(Command::StopTransport),
            Err(e) => Err(e),
        }
    }

    /// The audio server's transport has no record-arm message.
    fn toggle_record(&self) -> (r: Result<Command, EngineError>)
        ensures
            r == Err::<Command, EngineError>(EngineError::Unsupported(Operation::ToggleRecord)),
    {
        Err(EngineError::Unsupported(Operation::ToggleRecord))
    }

    /// The range check comes first, the connection second.
    fn set_tempo(&self, bpm: Single) -> (r: Result<Command, EngineError>)
        ensures
            !tempo_in_range(bpm) ==> r == Err::<Command, EngineError>(
                EngineError::TempoOutOfRange { bpm: bpm },
            ),
            tempo_in_range(bpm) && !self.connected() ==> r == Err::<Command, EngineError>(
                EngineError::NotConnected,
            ),
            tempo_in_range(bpm) && self.connected() ==> r == Ok::<Command, EngineError>(
                Command::PublishTempo(bpm),
            ),
    {
        if !check_tempo(bpm) {
            return Err(EngineError::TempoOutOfRange { bpm });
        }
        match self.with_handle() {
            Ok(_) => Ok(Command::PublishTempo(bpm)),
            Err(e) => Err(e),
        }
    }

    /// The audio server's transport has no loop-enable message; the DAW keeps
    /// its own loop region.
    fn set_loop_enabled(&self, enabled: bool) -> (r: Result<Command, EngineError>)
        ensures
            r == Err::<Command, EngineError>(EngineError::Unsupported(Operation::LoopEnable)),
    {
        Err(EngineError::Unsupported(Operation::LoopEnable))
    }

    fn set_track_volume(&self, track_index: i32, volume: Single) -> (r: Result<
        Command,
        EngineError,
    >)
        ensures
            r == track_answer(
                self.connected(),
                track_index as int,
                CC_VOLUME,
                volume_value(volume),
            ),
    {
        self.track_control(track_index, CC_VOLUME, volume_cc(volume))
    }

    fn set_track_mute(&self, track_index: i32, mute: bool) -> (r: Result<Command, EngineError>)
        ensures
            r == track_answer(self.connected(), track_index as int, CC_MUTE, switch_value(mute)),
    {
        self.track_control(track_index, CC_MUTE, switch_cc(mute))
    }

    fn set_track_solo(&self, track_index: i32, solo: bool) -> (r: Result<Command, EngineError>)
        ensures
            r == track_answer(self.connected(), track_index as int, CC_SOLO, switch_value(solo)),
    {
        self.track_control(track_index, CC_SOLO, switch_cc(solo))
    }

    fn set_track_pan(&self, track_index: i32, pan: Single) -> (r: Result<Command, EngineError>)
        ensures
            r == track_answer(self.connected(), track_index as int, CC_PAN, pan_value(pan)),
    {
        self.track_control(track_index, CC_PAN, pan_cc(pan))
    }

    /// Samples cannot be loaded over MIDI; the operator drags them into the DAW.
    fn load_sample(&self, track_index: i32, scene_index: i32, file_path: &str) -> (r: Result<
        Command,
        EngineError,
    >)
        ensures
            r == Err::<Command, EngineError>(EngineError::Unsupported(Operation::LoadSample)),
    {
        Err(EngineError::Unsupported(Operation::LoadSample))
    }

    /// The custom parameters of the MIDI map, in the order of the file.
    fn custom_params(&self) -> (defs: Vec<ParamDef>)
        ensures
            defs@.len() == self.params@.len(),
            forall|i: int| 0 <= i < defs@.len() ==> defs@[i]@ == definition_of(self.params@[i]@),
    {
        let mut defs: Vec<ParamDef> = Vec::new();
        let mut i: usize = 0;
        while i < self.params.len()
            invariant
                i <= self.params@.len(),
                defs@.len() == i,
                forall|j: int| 0 <= j < i ==> defs@[j]@ == definition_of(self.params@[j]@),
            decreases self.params@.len() - i,
        {
            defs.push(self.params[i].definition());
            i = i + 1;
        }
        defs
    }

    /// Drives the first custom parameter with this id to `value`: the value is
    /// mapped from the parameter's range to a controller value and sent on the
    /// parameter's channel. The id is looked up first, the connection second.
    fn set_custom_param(&self, id: &str, value: Single) -> (r: Result<Command, EngineError>)
        ensures
            match find_param(config_views(self.params@), id@) {
                None => r matches Err(EngineError::UnknownParam { id: unknown }) && unknown@ == id@,
                Some(p) => if self.connected() {
                    r == Ok::<Command, EngineError>(Command::QueueMidi(param_message(p, value)))
                } else {
                    r == Err::<Command, EngineError>(EngineError::NotConnected)
                },
            },
    {
        match self.find(id) {
            None => Err(EngineError::UnknownParam { id: String::from_str(id) }),
            Some(i) => {
                let param = &self.params[i];
                let cc = midi_cc(param.min, param.max, value);
                self.queue_midi(control_change(param.channel, param.cc, cc))
            },
        }
    }
}

} // verus!
