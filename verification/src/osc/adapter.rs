//! The Ableton Live backend: every command becomes one message of the
//! AbletonOSC protocol, sent to the control script over UDP.
//!
//! At startup the host binds the listener and pings the control script. The
//! answer to a ping reports the connection as live; the probe here says how
//! long the host waits for it, and when it reports the DAW as unreachable.

use vstd::prelude::*;
use crate::engine::{Command, CommandView, EngineAdapter, EngineError, Notification, ParamDef};
use crate::number::Single;
use crate::osc::client::OscClient;
use crate::osc::listener::LISTEN_PORT;
use crate::osc::messages::{flag, OscMessages, OscValue};

verus! {

/// Ableton Live engine adapter over the AbletonOSC control surface.
pub struct AbletonOscEngine {
    client: OscClient,
}

/// The answer that sends one message.
pub open spec fn sends(r: Result<Command, EngineError>, address: Seq<char>, args: Seq<OscValue>) -> bool {
    r matches Ok(command) && command@ == (CommandView::SendOsc { address: address, args: args })
}

impl AbletonOscEngine {
    pub fn new(client: OscClient) -> (engine: AbletonOscEngine)
        ensures
            engine.client() == client,
    {
        AbletonOscEngine { client }
    }

    /// The client that the engine sends through.
    pub closed spec fn client(&self) -> OscClient {
        self.client
    }

    /// The target address of the engine's messages.
    pub fn target(&self) -> (text: &str)
        ensures
            text@ == self.client().target_text(),
    {
        self.client.target()
    }
}

impl EngineAdapter for AbletonOscEngine {
    fn name(&self) -> (name: &'static str)
        ensures
            name@ == "AbletonOSC"@,
    {
        "AbletonOSC"
    }

    /// The host starts the listener, pings the control script, and subscribes
    /// to tempo and playing state. The listener reports the connection when
    /// the ping is answered; `probe_advance` says how long the host waits,
    /// and when it reports the DAW as unreachable.
    fn start(&self) -> (plan: Vec<Command>)
        ensures
            plan@.len() == 4,
            plan@[0]@ == (CommandView::Listen { port: LISTEN_PORT }),
            plan@[1]@ == (CommandView::SendOsc { address: "/live/test"@, args: Seq::empty() }),
            plan@[2]@ == (CommandView::SendOsc {
                address: "/live/song/start_listen/tempo"@,
                args: Seq::empty(),
            }),
            plan@[3]@ == (CommandView::SendOsc {
                address: "/live/song/start_listen/is_playing"@,
                args: Seq::empty(),
            }),
    {
        let mut plan = Vec::new();
        plan.push(Command::Listen { port: LISTEN_PORT });
        let (addr, args) = OscMessages::test();
        plan.push(self.client.send(addr, args));
        let (addr, args) = OscMessages::start_listen_tempo();
        plan.push(self.client.send(addr, args));
        let (addr, args) = OscMessages::start_listen_is_playing();
        plan.push(self.client.send(addr, args));
        plan
    }

    fn play(&self) -> (r: Result<Command, EngineError>)
        ensures
            sends(r, "/live/song/start_playing"@, Seq::empty()),
    {
        let (addr, args) = OscMessages::play();
        Ok(self.client.send(addr, args))
    }

    fn stop(&self) -> (r: Result<Command, EngineError>)
        ensures
            sends(r, "/live/song/stop_playing"@, Seq::empty()),
    {
        let (addr, args) = OscMessages::stop();
        Ok(self.client.send(addr, args))
    }

    fn toggle_record(&self) -> (r: Result<Command, EngineError>)
        ensures
            sends(r, "/live/song/set/record_mode"@, Seq::empty()),
    {
        let (addr, args) = OscMessages::toggle_record();
        Ok(self.client.send(addr, args))
    }

    fn set_tempo(&self, bpm: Single) -> (r: Result<Command, EngineError>)
        ensures
            sends(r, "/live/song/set/tempo"@, seq![OscValue::Float(bpm)]),
    {
        let (addr, args) = OscMessages::set_tempo(bpm);
        Ok(self.client.send(addr, args))
    }

    fn set_loop_enabled(&self, enabled: bool) -> (r: Result<Command, EngineError>)
        ensures
            sends(r, "/live/song/set/loop"@, seq![OscValue::Int(flag(enabled))]),
    {
        let (addr, args) = OscMessages::set_loop_enabled(enabled);
        Ok(self.client.send(addr, args))
    }

    fn set_track_volume(&self, track_index: i32, volume: Single) -> (r: Result<
        Command,
        EngineError,
    >)
        ensures
            sends(
                r,
                "/live/track/set/volume"@,
                seq![OscValue::Int(track_index), OscValue::Float(volume)],
            ),
    {
        let (addr, args) = OscMessages::set_track_volume(track_index, volume);
        Ok(self.client.send(addr, args))
    }

    fn set_track_mute(&self, track_index: i32, mute: bool) -> (r: Result<Command, EngineError>)
        ensures
            sends(
                r,
                "/live/track/set/mute"@,
                seq![OscValue::Int(track_index), OscValue::Int(flag(mute))],
            ),
    {
        let (addr, args) = OscMessages::set_track_mute(track_index, mute);
        Ok(self.client.send(addr, args))
    }

    fn set_track_solo(&self, track_index: i32, solo: bool) -> (r: Result<Command, EngineError>)
        ensures
            sends(
                r,
                "/live/track/set/solo"@,
                seq![OscValue::Int(track_index), OscValue::Int(flag(solo))],
            ),
    {
        let (addr, args) = OscMessages::set_track_solo(track_index, solo);
        Ok(self.client.send(addr, args))
    }

    fn set_track_pan(&self, track_index: i32, pan: Single) -> (r: Result<Command, EngineError>)
        ensures
            sends(
                r,
                "/live/track/set/panning"@,
                seq![OscValue::Int(track_index), OscValue::Float(pan)],
            ),
    {
        let (addr, args) = OscMessages::set_track_pan(track_index, pan);
        Ok(self.client.send(addr, args))
    }

    fn load_sample(&self, track_index: i32, scene_index: i32, file_path: &str) -> (r: Result<
        Command,
        EngineError,
    >)
        ensures
            sends(
                r,
                "/live/clip_slot/load_sample"@,
                seq![
                    OscValue::Int(track_index),
                    OscValue::Int(scene_index),
                    OscValue::Str(file_path@),
                ],
            ),
    {
        let (addr, args) = OscMessages::load_sample(track_index, scene_index, file_path);
        Ok(self.client.send(addr, args))
    }

    fn custom_params(&self) -> (params: Vec<ParamDef>)
        ensures
            params@.len() == 0,
    {
        Vec::new()
    }

    fn set_custom_param(&self, id: &str, value: Single) -> (r: Result<Command, EngineError>)
        ensures
            r == Ok::<Command, EngineError>(Command::Nothing),
    {
        Ok(Command::Nothing)
    }
}

/// The number of pings that the host sends before it reports the DAW as
/// unreachable.
pub const PROBE_ATTEMPTS: u32 = 5;

/// The seconds that the host waits for the answer to one ping.
pub const PROBE_SECONDS: u64 = 1;

/// How far the connectivity probe has come.
#[derive(Debug, Clone, Copy, PartialEq, Eq, Structural)]
pub enum ProbePhase {
    /// The listener is not bound yet.
    AwaitingListener,
    /// The ping with this number, counted from 1, is out and not answered yet.
    AwaitingAnswer { attempt: u32 },
    /// The control script has answered a ping.
    Live,
    /// The listener could not be bound, or no ping was answered in time.
    Unreachable,
}

/// What happened during the probe.
#[derive(Debug, Clone, Copy, PartialEq, Eq, Structural)]
pub enum ProbeEvent {
    /// The listener is bound to its port.
    ListenerBound,
    /// The listener could not be bound.
    ListenerFailed,
    /// The listener has taken the answer to a ping, and has reported the
    /// connection as live.
    Answered,
    /// The wait for an answer is over, and none has come.
    WaitOver,
}

/// What the host does next in the probe.
#[derive(Debug, Clone, Copy, PartialEq, Eq, Structural)]
pub enum ProbeStep {
    /// Wait `seconds` for the answer to the ping that is out.
    Wait { seconds: u64 },
    /// Send the ping once more, then wait `seconds` for its answer.
    Ping { seconds: u64 },
    /// Report the connection to the event sink; the probe is over.
    Announce(Notification),
    /// The probe is over and there is nothing to report: the listener has
    /// reported the connection when it took the answer.
    Finish,
    /// The event does not belong to this phase; nothing is done.
    Ignore,
}

/// The phase after an event.
pub open spec fn probe_after(phase: ProbePhase, event: ProbeEvent) -> ProbePhase {
    match (phase, event) {
        (ProbePhase::AwaitingListener, ProbeEvent::ListenerBound) => ProbePhase::AwaitingAnswer {
            attempt: 1,
        },
        (ProbePhase::AwaitingListener, ProbeEvent::ListenerFailed) => ProbePhase::Unreachable,
        (ProbePhase::AwaitingAnswer { .. }, ProbeEvent::Answered) => ProbePhase::Live,
        (ProbePhase::AwaitingAnswer { attempt }, ProbeEvent::WaitOver) => if attempt
            < PROBE_ATTEMPTS {
            ProbePhase::AwaitingAnswer { attempt: (attempt + 1) as u32 }
        } else {
            ProbePhase::Unreachable
        },
        (ProbePhase::Unreachable, ProbeEvent::Answered) => ProbePhase::Live,
        _ => phase,
    }
}

/// The step that an event asks for.
pub open spec fn probe_step(phase: ProbePhase, event: ProbeEvent) -> ProbeStep {
    match (phase, event) {
        (ProbePhase::AwaitingListener, ProbeEvent::ListenerBound) => ProbeStep::Wait {
            seconds: PROBE_SECONDS,
        },
        (ProbePhase::AwaitingListener, ProbeEvent::ListenerFailed) => ProbeStep::Announce(
            Notification::ConnectionChanged(false),
        ),
        (ProbePhase::AwaitingAnswer { .. }, ProbeEvent::Answered) => ProbeStep::Finish,
        (ProbePhase::AwaitingAnswer { attempt }, ProbeEvent::WaitOver) => if attempt
            < PROBE_ATTEMPTS {
            ProbeStep::Ping { seconds: PROBE_SECONDS }
        } else {
            ProbeStep::Announce(Notification::ConnectionChanged(false))
        },
        (ProbePhase::Unreachable, ProbeEvent::Answered) => ProbeStep::Finish,
        _ => ProbeStep::Ignore,
    }
}

/// One step of the connectivity probe: the phase after `event`, and what the
/// host does next. The probe begins in `AwaitingListener`, with the first
/// ping of the startup plan. It reports `false` where the listener cannot be
/// bound and where the last ping stays without an answer; `true` is reported
/// by the listener, which takes the answer. An answer that comes after the
/// host gave up still makes the connection live.
pub fn probe_advance(phase: ProbePhase, event: ProbeEvent) -> (r: (ProbePhase, ProbeStep))
    ensures
        r.0 == probe_after(phase, event),
        r.1 == probe_step(phase, event),
{
    match phase {
        ProbePhase::AwaitingListener => match event {
            ProbeEvent::ListenerBound => (
                ProbePhase::AwaitingAnswer { attempt: 1 },
                ProbeStep::Wait { seconds: PROBE_SECONDS },
            ),
            ProbeEvent::ListenerFailed => (
                ProbePhase::Unreachable,
                ProbeStep::Announce(Notification::ConnectionChanged(false)),
            ),
            _ => (phase, ProbeStep::Ignore),
        },
        ProbePhase::AwaitingAnswer { attempt } => match event {
            ProbeEvent::Answered => (ProbePhase::Live, ProbeStep::Finish),
            ProbeEvent::WaitOver => {
                if attempt < PROBE_ATTEMPTS {
                    (
                        ProbePhase::AwaitingAnswer { attempt: attempt + 1 },
                        ProbeStep::Ping { seconds: PROBE_SECONDS },
                    )
                } else {
                    (
                        ProbePhase::Unreachable,
                        ProbeStep::Announce(Notification::ConnectionChanged(false)),
                    )
                }
            },
            _ => (phase, ProbeStep::Ignore),
        },
        ProbePhase::Unreachable => match event {
            ProbeEvent::Answered => (ProbePhase::Live, ProbeStep::Finish),
            _ => (phase, ProbeStep::Ignore),
        },
        ProbePhase::Live => (phase, ProbeStep::Ignore),
    }
}

/// The phase after the listener was bound and `silent` waits ended without
/// an answer.
pub open spec fn after_silence(silent: nat) -> ProbePhase
    decreases silent,
{
    if silent == 0 {
        probe_after(ProbePhase::AwaitingListener, ProbeEvent::ListenerBound)
    } else {
        probe_after(after_silence((silent - 1) as nat), ProbeEvent::WaitOver)
    }
}

/// The probe is bounded: while fewer waits than the maximum have ended
/// without an answer a ping is out, and when the last one ends the host
/// reports the DAW as unreachable.
pub proof fn lemma_probe_is_bounded(silent: nat)
    requires
        silent <= PROBE_ATTEMPTS,
    ensures
        silent < PROBE_ATTEMPTS ==> after_silence(silent) == (ProbePhase::AwaitingAnswer {
            attempt: (silent + 1) as u32,
        }),
        silent == PROBE_ATTEMPTS ==> after_silence(silent) == ProbePhase::Unreachable,
        0 < silent == PROBE_ATTEMPTS ==> probe_step(
            after_silence((silent - 1) as nat),
            ProbeEvent::WaitOver,
        ) == ProbeStep::Announce(Notification::ConnectionChanged(false)),
    decreases silent,
{
    if silent > 0 {
        lemma_probe_is_bounded((silent - 1) as nat);
    }
}

/// The probe reports failure and nothing else: whatever it announces is
/// `engine-connection-changed` with `false`, and it announces only as it
/// gives up. A listener that cannot be bound is reported at once.
pub proof fn lemma_probe_reports_failure(phase: ProbePhase, event: ProbeEvent)
    ensures
        probe_step(phase, event) is Announce ==> probe_step(phase, event) == ProbeStep::Announce(
            Notification::ConnectionChanged(false),
        ) && probe_after(phase, event) == ProbePhase::Unreachable && phase
            != ProbePhase::Unreachable,
        probe_step(ProbePhase::AwaitingListener, ProbeEvent::ListenerFailed) == ProbeStep::Announce(
            Notification::ConnectionChanged(false),
        ),
        phase == ProbePhase::Live ==> probe_after(phase, event) == ProbePhase::Live && probe_step(
            phase,
            event,
        ) == ProbeStep::Ignore,
{
}

} // verus!
