//! The packets of the login state.

pub mod client;
pub mod server;
