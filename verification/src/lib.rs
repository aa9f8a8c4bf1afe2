//! Remote control of a digital audio workstation through one command surface.
//!
//! The crate holds the decisions of the engine adaptation layer: which backend a
//! setting selects, which wire message a command becomes, how an inbound packet
//! changes the cached engine state, and how control values map onto MIDI. The
//! host program performs the I/O that these decisions ask for: it owns the
//! sockets, the audio-server client, the locks and the event sink.
//!
//! Numbers that the host holds as floats travel through the library as IEEE-754
//! bit patterns (see `number`), and are compared by their exact values.

pub mod engine;
pub mod number;
pub mod osc;
pub mod sidecar;
pub mod text;
