//! The state cache under the names of the AbletonOSC protocol.

use vstd::prelude::*;

pub use crate::engine::state::{ClipState, StateManager, TrackState};

verus! {

/// The state of Ableton Live: the engine state that every backend shares.
pub type AbletonState = crate::engine::state::EngineState;

} // verus!
