//! Bit flags of a tile in the one-byte-per-tile format.

use vstd::prelude::*;

verus! {

pub const PASSABLE_EAST: u8 = 0x01;
pub const PASSABLE_NORTH: u8 = 0x02;
pub const ARROW_PASSABLE_EAST: u8 = 0x04;
pub const ARROW_PASSABLE_NORTH: u8 = 0x08;
pub const ZONE_SAFETY: u8 = 0x10;
pub const ZONE_COMBAT: u8 = 0x20;
pub const IMPASSABLE: u8 = 0x80;

} // verus!
