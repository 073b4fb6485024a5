//! Equipment slot indices as the client numbers them.

use vstd::prelude::*;

verus! {

pub const WEAPON: usize = 8;
pub const HELM: usize = 1;
pub const TSHIRT: usize = 2;
pub const ARMOR: usize = 3;
pub const CLOAK: usize = 4;
pub const BOOTS: usize = 5;
pub const GLOVE: usize = 6;
pub const SHIELD: usize = 7;
pub const AMULET: usize = 10;
pub const BELT: usize = 11;
pub const EARRING: usize = 12;
pub const RING_LEFT: usize = 18;
pub const RING_RIGHT: usize = 19;

} // verus!
