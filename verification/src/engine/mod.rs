//! The backend abstraction: which engines exist, how one is selected, and what
//! every engine answers to a command.

pub mod midi;
pub mod mock;
pub mod state;
pub mod zrythm;

use vstd::prelude::*;
use vstd::string::*;
use crate::number::{Double, Single};
use crate::osc::messages::{values, OscArg, OscValue};
use crate::text::{integer_text, push_integer};

verus! {

/// The lowercase form of a string, as `str::to_lowercase` computes it.
pub uninterp spec fn lowercase(s: Seq<char>) -> Seq<char>;

/// `str::to_lowercase`: the result is the Unicode lowercase form of the whole
/// string, a function of the characters alone.
pub assume_specification[ str::to_lowercase ](s: &str) -> (r: String)
    ensures
        r@ == lowercase(s@),
;

/// Which audio engine backend to connect to.
#[derive(Debug, Clone, Copy, PartialEq, Eq, Structural)]
pub enum EngineKind {
    /// Ableton Live through the AbletonOSC control surface: the default.
    AbletonOsc,
    /// Zrythm through the audio server's transport and MIDI ports.
    Zrythm,
    /// No-op adapter for offline use and testing.
    Mock,
}

/// The backend that a lowercased setting names; every other word names the default.
pub open spec fn kind_named(lowered: Seq<char>) -> EngineKind {
    if lowered == "zrythm"@ {
        EngineKind::Zrythm
    } else if lowered == "mock"@ {
        EngineKind::Mock
    } else {
        EngineKind::AbletonOsc
    }
}

impl EngineKind {
    /// Selects the backend for a setting that is already in lowercase.
    pub fn from_lowercase(lowered: &str) -> (kind: EngineKind)
        ensures
            kind == kind_named(lowered@),
    {
        let word = String::from_str(lowered);
        if word == String::from_str("zrythm") {
            EngineKind::Zrythm
        } else if word == String::from_str("mock") {
            EngineKind::Mock
        } else {
            EngineKind::AbletonOsc
        }
    }

    /// Selects the backend for a setting, whatever its letter case.
    pub fn from_str(s: &str) -> (kind: EngineKind)
        ensures
            kind == kind_named(lowercase(s@)),
    {
        let lowered = s.to_lowercase();
        EngineKind::from_lowercase(lowered.as_str())
    }

    /// Selects the backend for the selection variable: the default where the
    /// variable is absent.
    pub fn from_env(setting: Option<&str>) -> (kind: EngineKind)
        ensures
            kind == match setting {
                Some(s) => kind_named(lowercase(s@)),
                None => EngineKind::AbletonOsc,
            },
    {
        match setting {
            Some(s) => EngineKind::from_str(s),
            None => EngineKind::AbletonOsc,
        }
    }
}

/// Selection looks at the lowercase form alone: two settings with the same
/// lowercase form select the same backend.
pub proof fn lemma_selection_ignores_case(a: Seq<char>, b: Seq<char>)
    requires
        lowercase(a) == lowercase(b),
    ensures
        kind_named(lowercase(a)) == kind_named(lowercase(b)),
{
}

/// A user-defined engine parameter, shown to the operator as a labeled slider
/// over the range from `min` to `max`.
#[derive(Debug, Clone, PartialEq, Eq)]
pub struct ParamDef {
    pub id: String,
    pub label: String,
    pub min: Single,
    pub max: Single,
}

/// What a parameter definition holds.
pub struct ParamView {
    pub id: Seq<char>,
    pub label: Seq<char>,
    pub min: Single,
    pub max: Single,
}

impl View for ParamDef {
    type V = ParamView;

    open spec fn view(&self) -> ParamView {
        ParamView { id: self.id@, label: self.label@, min: self.min, max: self.max }
    }
}

/// A MIDI continuous-controller message: status byte, controller number, value.
#[derive(Debug, Clone, Copy, PartialEq, Eq, Structural)]
pub struct MidiMessage {
    pub status: u8,
    pub controller: u8,
    pub value: u8,
}

impl MidiMessage {
    /// The three bytes of the message, as they go to the MIDI port.
    pub fn bytes(&self) -> (raw: [u8; 3])
        ensures
            raw@ == seq![self.status, self.controller, self.value],
    {
        let raw = [self.status, self.controller, self.value];
        assert(raw@ =~= seq![self.status, self.controller, self.value]);
        raw
    }
}

/// A named notification for the user interface.
#[derive(Debug, Clone, Copy, PartialEq, Eq, Structural)]
pub enum Notification {
    /// `engine-connection-changed`, with whether the engine is reachable.
    /// Every backend reports its connection under this name.
    ConnectionChanged(bool),
    /// `transport-state`, with the playing flag.
    TransportState { is_playing: bool },
    /// `tempo-changed`, with the tempo in beats per minute.
    TempoChanged(Double),
    /// `song-time`, with the playhead position.
    SongTime(Double),
    /// `sidecar-connection-changed`, with whether the search process answers.
    SidecarConnectionChanged(bool),
}

impl Notification {
    /// The event name under which the user interface receives the notification.
    pub fn event_name(&self) -> (name: &'static str)
        ensures
            name@ == match *self {
                Notification::ConnectionChanged(_) => "engine-connection-changed"@,
                Notification::TransportState { .. } => "transport-state"@,
                Notification::TempoChanged(_) => "tempo-changed"@,
                Notification::SongTime(_) => "song-time"@,
                Notification::SidecarConnectionChanged(_) => "sidecar-connection-changed"@,
            },
    {
        match self {
            Notification::ConnectionChanged(_) => "engine-connection-changed",
            Notification::TransportState { .. } => "transport-state",
            Notification::TempoChanged(_) => "tempo-changed",
            Notification::SongTime(_) => "song-time",
            Notification::SidecarConnectionChanged(_) => "sidecar-connection-changed",
        }
    }
}

/// What the host performs for an engine. An engine decides; the host owns the
/// sockets, the audio-server client and the event sink.
#[derive(Debug, Clone, PartialEq, Eq)]
pub enum Command {
    /// Nothing leaves the process.
    Nothing,
    /// Hand a notification to the event sink.
    Emit(Notification),
    /// Bind the inbound UDP port and feed each datagram to the listener.
    Listen { port: u16 },
    /// Send one protocol message to the DAW, once, without waiting for an answer.
    SendOsc { address: &'static str, args: Vec<OscArg> },
    /// Open a client on the audio server and report each step of the startup.
    ConnectAudioServer,
    /// Start the audio server's transport.
    StartTransport,
    /// Stop the audio server's transport.
    StopTransport,
    /// Publish this tempo to the audio server from the next cycle on.
    PublishTempo(Single),
    /// Queue a MIDI message for the next processing cycle.
    QueueMidi(MidiMessage),
}

/// What a command holds, with text as sequences of characters.
pub enum CommandView {
    Nothing,
    Emit(Notification),
    Listen { port: u16 },
    SendOsc { address: Seq<char>, args: Seq<OscValue> },
    ConnectAudioServer,
    StartTransport,
    StopTransport,
    PublishTempo(Single),
    QueueMidi(MidiMessage),
}

impl View for Command {
    type V = CommandView;

    open spec fn view(&self) -> CommandView {
        match *self {
            Command::Nothing => CommandView::Nothing,
            Command::Emit(n) => CommandView::Emit(n),
            Command::Listen { port } => CommandView::Listen { port: port },
            Command::SendOsc { address, args } => CommandView::SendOsc {
                address: address@,
                args: values(args@),
            },
            Command::ConnectAudioServer => CommandView::ConnectAudioServer,
            Command::StartTransport => CommandView::StartTransport,
            Command::StopTransport => CommandView::StopTransport,
            Command::PublishTempo(bpm) => CommandView::PublishTempo(bpm),
            Command::QueueMidi(m) => CommandView::QueueMidi(m),
        }
    }
}

/// The operations that a backend may lack.
#[derive(Debug, Clone, Copy, PartialEq, Eq, Structural)]
pub enum Operation {
    ToggleRecord,
    LoopEnable,
    LoadSample,
}

/// The kinds of failure that a command can meet.
#[derive(Debug, Clone, Copy, PartialEq, Eq, Structural)]
pub enum ErrorKind {
    NotConnected,
    UnsupportedOperation,
    OutOfRange,
    UnknownIdentifier,
    TransportIo,
}

/// Why an engine refused a command.
#[derive(Debug, Clone, PartialEq, Eq)]
pub enum EngineError {
    /// The audio-server connection is not established.
    NotConnected,
    /// The operation has no equivalent on this backend.
    Unsupported(Operation),
    /// The track index is not a MIDI channel.
    TrackOutOfRange { index: i32 },
    /// The tempo is not a number from 20 to 999.
    TempoOutOfRange { bpm: Single },
    /// No custom parameter is configured under this id.
    UnknownParam { id: String },
    /// The host could not send, bind or register; `detail` is its report.
    Transport { detail: String },
}

/// One more than the highest track index that a MIDI channel can address.
pub const MAX_MIDI_CH: i32 = 16;

/// The lowest tempo that the audio-server backend accepts, in beats per minute.
pub const MIN_BPM: u32 = 20;

/// The highest tempo that the audio-server backend accepts, in beats per minute.
pub const MAX_BPM: u32 = 999;

pub open spec fn not_connected_text() -> Seq<char> {
    "Zrythm JACK connection not established. Ensure jackd/pipewire-jack is running and MAESTRO_ENGINE=zrythm."@
}

pub open spec fn unsupported_text(op: Operation) -> Seq<char> {
    match op {
        Operation::ToggleRecord =>
            "Record toggle is not standardised in JACK transport. Bind Zrythm's record button to a MIDI CC via MIDI learn."@,
        Operation::LoopEnable =>
            "Loop enable is not standardised in JACK transport. Bind Zrythm's loop button to a MIDI CC via MIDI learn."@,
        Operation::LoadSample =>
            "Sample loading is not supported via JACK MIDI. Drag audio files directly onto Zrythm's timeline."@,
    }
}

/// The text of an error. `shown` stands where the text quotes a tempo: it is the
/// decimal form of the refused number, which the host prints.
pub open spec fn error_text(e: EngineError, shown: Seq<char>) -> Seq<char> {
    match e {
        EngineError::NotConnected => not_connected_text(),
        EngineError::Unsupported(op) => unsupported_text(op),
        EngineError::TrackOutOfRange { index } => "Track index "@ + integer_text(index as int)
            + " out of MIDI channel range (0–"@ + integer_text(MAX_MIDI_CH - 1) + ")"@,
        EngineError::TempoOutOfRange { .. } => "BPM "@ + shown + " out of valid range (20–999)"@,
        EngineError::UnknownParam { id } => "Unknown custom param id: '"@ + id@ + "'"@,
        EngineError::Transport { detail } => detail@,
    }
}

impl EngineError {
    /// The kind of failure.
    pub fn kind(&self) -> (k: ErrorKind)
        ensures
            k == match *self {
                EngineError::NotConnected => ErrorKind::NotConnected,
                EngineError::Unsupported(_) => ErrorKind::UnsupportedOperation,
                EngineError::TrackOutOfRange { .. } => ErrorKind::OutOfRange,
                EngineError::TempoOutOfRange { .. } => ErrorKind::OutOfRange,
                EngineError::UnknownParam { .. } => ErrorKind::UnknownIdentifier,
                EngineError::Transport { .. } => ErrorKind::TransportIo,
            },
    {
        match self {
            EngineError::NotConnected => ErrorKind::NotConnected,
            EngineError::Unsupported(_) => ErrorKind::UnsupportedOperation,
            EngineError::TrackOutOfRange { .. } => ErrorKind::OutOfRange,
            EngineError::TempoOutOfRange { .. } => ErrorKind::OutOfRange,
            EngineError::UnknownParam { .. } => ErrorKind::UnknownIdentifier,
            EngineError::Transport { .. } => ErrorKind::TransportIo,
        }
    }

    /// The message for the operator. `shown` is the decimal form of the refused
    /// tempo; the other errors do not read it.
    pub fn message(&self, shown: &str) -> (text: String)
        ensures
            text@ == error_text(*self, shown@),
    {
        match self {
            EngineError::NotConnected => String::from_str(
                "Zrythm JACK connection not established. Ensure jackd/pipewire-jack is running and MAESTRO_ENGINE=zrythm.",
            ),
            EngineError::Unsupported(op) => match op {
                Operation::ToggleRecord => String::from_str(
                    "Record toggle is not standardised in JACK transport. Bind Zrythm's record button to a MIDI CC via MIDI learn.",
                ),
                Operation::LoopEnable => String::from_str(
                    "Loop enable is not standardised in JACK transport. Bind Zrythm's loop button to a MIDI CC via MIDI learn.",
                ),
                Operation::LoadSample => String::from_str(
                    "Sample loading is not supported via JACK MIDI. Drag audio files directly onto Zrythm's timeline.",
                ),
            },
            EngineError::TrackOutOfRange { index } => {
                let mut text = String::from_str("Track index ");
                push_integer(&mut text, *index);
                text.append(" out of MIDI channel range (0–");
                push_integer(&mut text, MAX_MIDI_CH - 1);
                text.append(")");
                text
            },
            EngineError::TempoOutOfRange { .. } => {
                let mut text = String::from_str("BPM ");
                text.append(shown);
                text.append(" out of valid range (20–999)");
                text
            },
            EngineError::UnknownParam { id } => {
                let mut text = String::from_str("Unknown custom param id: '");
                text.append(id.as_str());
                text.append("'");
                text
            },
            EngineError::Transport { detail } => detail.clone(),
        }
    }
}

/// The command surface that every backend answers. An answer is the command
/// for the host to perform, or the reason why the backend refuses.
pub trait EngineAdapter {
    /// The engine name shown in the status bar.
    fn name(&self) -> &'static str;

    /// What the host performs once, at startup, to bring the engine up.
    fn start(&self) -> Vec<Command>;

    fn play(&self) -> Result<Command, EngineError>;

    fn stop(&self) -> Result<Command, EngineError>;

    fn toggle_record(&self) -> Result<Command, EngineError>;

    fn set_tempo(&self, bpm: Single) -> Result<Command, EngineError>;

    /// Switches the loop region on or off.
    fn set_loop_enabled(&self, enabled: bool) -> Result<Command, EngineError>;

    fn set_track_volume(&self, track_index: i32, volume: Single) -> Result<Command, EngineError>;

    fn set_track_mute(&self, track_index: i32, mute: bool) -> Result<Command, EngineError>;

    fn set_track_solo(&self, track_index: i32, solo: bool) -> Result<Command, EngineError>;

    fn set_track_pan(&self, track_index: i32, pan: Single) -> Result<Command, EngineError>;

    /// Loads an audio file into the given track and scene slot.
    fn load_sample(&self, track_index: i32, scene_index: i32, file_path: &str) -> Result<
        Command,
        EngineError,
    >;

    /// The user-defined parameters of this engine: none, unless the engine says otherwise.
    fn custom_params(&self) -> (params: Vec<ParamDef>)
        default_ensures
            params@.len() == 0,
    {
        Vec::new()
    }

    /// Drives a user-defined parameter to `value`, a number in the parameter's
    /// range. An engine without such parameters has nothing to do: whatever
    /// the id and the value, it succeeds and nothing leaves the process.
    fn set_custom_param(&self, id: &str, value: Single) -> (r: Result<Command, EngineError>)
        default_ensures
            r == Ok::<Command, EngineError>(Command::Nothing),
    {
        Ok(Command::Nothing)
    }
}

} // verus!
