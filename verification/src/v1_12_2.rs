//! The protocol of game version 1.12.2.

use vstd::prelude::*;

pub mod play;

verus! {

pub const GAME_VERSION: &'static str = "1.12.2";

pub const MAJOR_GAME_VERSION: &'static str = "1.12";

pub const PROTOCOL_VERSION: u32 = 340;

} // verus!
