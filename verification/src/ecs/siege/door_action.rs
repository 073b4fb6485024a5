//! Door damage states, by remaining share of hit points.

use vstd::prelude::*;

verus! {

pub const DOOR_OPEN: i32 = 0;
/// more than 5/6 of the hit points left
pub const DOOR_CLOSE: i32 = 1;
/// more than 4/6 left
pub const DOOR_ACTION1: i32 = 2;
/// more than 3/6 left
pub const DOOR_ACTION2: i32 = 3;
/// more than 2/6 left
pub const DOOR_ACTION3: i32 = 4;
/// more than 1/6 left
pub const DOOR_ACTION4: i32 = 5;
/// at most 1/6 left
pub const DOOR_ACTION5: i32 = 6;
pub const DOOR_DIE: i32 = 7;

} // verus!
