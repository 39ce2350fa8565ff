//! The protocol of game version 1.13.

pub mod login;
