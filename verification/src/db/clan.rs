//! Clan records.

use vstd::prelude::*;

verus! {

/// Clan data.
#[derive(Debug, Clone)]
pub struct ClanRow {
    pub clan_id: i32,
    pub clan_name: String,
    pub leader_id: i32,
    pub leader_name: String,
    pub has_castle: i32,
    pub has_house: i32,
    pub announcement: String,
    pub emblem_id: i32,
    pub emblem_status: i32,
}

/// Clan member row.
#[derive(Debug, Clone)]
pub struct ClanMemberRow {
    pub clan_id: i32,
    pub index_id: i32,
    pub char_id: i32,
    pub char_name: String,
    pub notes: String,
}

} // verus!
