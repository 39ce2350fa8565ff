//! The packets of the play state.

pub mod client;
pub mod server;
