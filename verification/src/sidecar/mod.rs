//! The content-search process: the requests that the host sends to it, and the
//! wait for it at startup.

pub mod api;
pub mod manager;
