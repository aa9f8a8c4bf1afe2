//! The UDP control protocol: message catalog, inbound dispatch, adapter.

pub mod adapter;
pub mod client;
pub mod listener;
pub mod messages;
pub mod state;
