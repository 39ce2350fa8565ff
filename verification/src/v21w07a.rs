//! The protocol of the snapshot 21w07a.

pub mod status;
