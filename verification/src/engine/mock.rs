//! The no-op backend for offline use and automated testing.

use vstd::prelude::*;
use crate::engine::{Command, EngineAdapter, EngineError, Notification, ParamDef};
use crate::number::Single;

verus! {

/// No-op engine adapter: every command succeeds at once and nothing leaves the
/// process. At startup it reports the engine as connected.
pub struct MockEngine;

impl EngineAdapter for MockEngine {
    fn name(&self) -> (name: &'static str)
        ensures
            name@ == "Mock"@,
    {
        "Mock"
    }

    fn start(&self) -> (plan: Vec<Command>)
        ensures
            plan@.len() == 1,
            plan@[0] == Command::Emit(Notification::ConnectionChanged(true)),
    {
        let mut plan = Vec::new();
        plan.push(Command::Emit(Notification::ConnectionChanged(true)));
        plan
    }

    fn play(&self) -> (r: Result<Command, EngineError>)
        ensures
            r == Ok::<Command, EngineError>(Command::Nothing),
    {
        Ok(Command::Nothing)
    }

    fn stop(&self) -> (r: Result<Command, EngineError>)
        ensures
            r == Ok::<Command, EngineError>(Command::Nothing),
    {
        Ok(Command::Nothing)
    }

    fn toggle_record(&self) -> (r: Result<Command, EngineError>)
        ensures
            r == Ok::<Command, EngineError>(Command::Nothing),
    {
        Ok(Command::Nothing)
    }

    fn set_tempo(&self, bpm: Single) -> (r: Result<Command, EngineError>)
        ensures
            r == Ok::<Command, EngineError>(Command::Nothing),
    {
        Ok(Command::Nothing)
    }

    fn set_loop_enabled(&self, enabled: bool) -> (r: Result<Command, EngineError>)
        ensures
            r == Ok::<Command, EngineError>(Command::Nothing),
    {
        Ok(Command::Nothing)
    }

    fn set_track_volume(&self, track_index: i32, volume: Single) -> (r: Result<
        Command,
        EngineError,
    >)
        ensures
            r == Ok::<Command, EngineError>(Command::Nothing),
    {
        Ok(Command::Nothing)
    }

    fn set_track_mute(&self, track_index: i32, mute: bool) -> (r: Result<Command, EngineError>)
        ensures
            r == Ok::<Command, EngineError>(Command::Nothing),
    {
        Ok(Command::Nothing)
    }

    fn set_track_solo(&self, track_index: i32, solo: bool) -> (r: Result<Command, EngineError>)
        ensures
            r == Ok::<Command, EngineError>(Command::Nothing),
    {
        Ok(Command::Nothing)
    }

    fn set_track_pan(&self, track_index: i32, pan: Single) -> (r: Result<Command, EngineError>)
        ensures
            r == Ok::<Command, EngineError>(Command::Nothing),
    {
        Ok(Command::Nothing)
    }

    fn load_sample(&self, track_index: i32, scene_index: i32, file_path: &str) -> (r: Result<
        Command,
        EngineError,
    >)
        ensures
            r == Ok::<Command, EngineError>(Command::Nothing),
    {
        Ok(Command::Nothing)
    }

    fn custom_params(&self) -> (params: Vec<ParamDef>)
        ensures
            params@.len() == 0,
    {
        Vec::new()
    }

    fn set_custom_param(&self, id: &str, value: Single) -> (r: Result<Command, EngineError>)
        ensures
            r == Ok::<Command, EngineError>(Command::Nothing),
    {
        Ok(Command::Nothing)
    }
}

} // verus!
