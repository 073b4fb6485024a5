//! Clan rank constants.

use vstd::prelude::*;

verus! {

pub const CLAN_RANK_LEAGUE_PUBLIC: i32 = 2;
pub const CLAN_RANK_LEAGUE_VICEPRINCE: i32 = 3;
pub const CLAN_RANK_LEAGUE_PRINCE: i32 = 4;
pub const CLAN_RANK_LEAGUE_PROBATION: i32 = 5;
pub const CLAN_RANK_LEAGUE_GUARDIAN: i32 = 6;
pub const CLAN_RANK_PUBLIC: i32 = 7;
pub const CLAN_RANK_PROBATION: i32 = 8;
pub const CLAN_RANK_GUARDIAN: i32 = 9;
pub const CLAN_RANK_PRINCE: i32 = 10;

} // verus!
