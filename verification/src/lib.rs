//! Session and world-state core of a game server that speaks a fixed binary
//! client protocol: the per-connection stream cipher, packet framing and
//! field codecs, the spatial index, the registry of connected players, and
//! the game components built on them.

use vstd::prelude::*;

pub mod clock;
pub mod config;
pub mod data;
pub mod db;
pub mod ecs;
pub mod network;
pub mod protocol;
pub mod text;
pub mod world;

verus! {

/// Default character slots per account.
pub const DEFAULT_CHARACTER_SLOT: i32 = 6;

} // verus!
