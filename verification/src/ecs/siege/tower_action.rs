//! Tower crack states, by remaining share of hit points.

use vstd::prelude::*;

verus! {

/// more than 75% of the hit points left
pub const TOWER_NORMAL: i32 = 0;
/// more than 50% left
pub const TOWER_CRACK1: i32 = 1;
/// more than 25% left
pub const TOWER_CRACK2: i32 = 2;
/// at most 25% left
pub const TOWER_CRACK3: i32 = 3;
pub const TOWER_DIE: i32 = 4;

} // verus!
