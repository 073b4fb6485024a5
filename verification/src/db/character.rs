//! Character records.

use vstd::prelude::*;

verus! {

/// Character data with the fields needed for the character list screen.
#[derive(Debug, Clone)]
pub struct CharacterListData {
    pub objid: i32,
    pub char_name: String,
    pub clanname: String,
    pub char_type: i32,
    pub sex: i32,
    pub lawful: i32,
    pub cur_hp: i32,
    pub cur_mp: i32,
    pub ac: i32,
    pub level: i32,
    pub str_stat: i32,
    pub dex_stat: i32,
    pub con_stat: i32,
    pub wis_stat: i32,
    pub cha_stat: i32,
    pub int_stat: i32,
    pub access_level: i32,
    pub birthday: i32,
}

/// Character data loaded for entering the game world.
#[derive(Debug, Clone)]
pub struct CharacterFullData {
    pub objid: i32,
    pub char_name: String,
    pub account_name: String,
    pub clanname: String,
    pub clanid: i32,
    pub char_type: i32,
    pub sex: i32,
    pub lawful: i32,
    pub cur_hp: i32,
    pub max_hp: i32,
    pub cur_mp: i32,
    pub max_mp: i32,
    pub ac: i32,
    pub level: i32,
    pub exp: i32,
    pub str_stat: i32,
    pub dex_stat: i32,
    pub con_stat: i32,
    pub wis_stat: i32,
    pub cha_stat: i32,
    pub int_stat: i32,
    pub loc_x: i32,
    pub loc_y: i32,
    pub map_id: i32,
    pub heading: i32,
    pub access_level: i32,
    pub gfxid: i32,
    pub food: i32,
    pub mons_kill: i32,
}

} // verus!
