//! The packets of the status state.

pub mod client;
pub mod server;
