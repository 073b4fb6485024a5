//! War message types.

use vstd::prelude::*;

verus! {

pub const DECLARE: i32 = 1;
pub const SURRENDER: i32 = 2;
pub const CEASE: i32 = 3;
pub const VICTORY: i32 = 4;
pub const ALLIANCE: i32 = 6;
pub const ALLIANCE_BREAK: i32 = 7;
pub const AT_WAR: i32 = 8;

} // verus!
