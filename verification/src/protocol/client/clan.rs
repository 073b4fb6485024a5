//! Clan requests.

use crate::protocol::encoding::MAX_TEXT_LEN;
use crate::protocol::packet::{after_c, after_s, peek_c, peek_s, PacketReader};
use vstd::prelude::*;

verus! {

/// Parsed C_CREATECLAN packet.
pub struct CreateClan {
    pub clan_name: String,
}

pub fn parse_create_clan(data: &[u8]) -> (request: CreateClan)
    requires
        data@.len() <= MAX_TEXT_LEN,
    ensures
        request.clan_name@ == peek_s(data@, 1),
{
    let mut r = PacketReader::after_opcode(data);
    let clan_name = r.read_s();
    CreateClan { clan_name }
}

/// Parsed C_LEAVECLAN packet.
pub struct LeaveClan {
    pub clan_name: String,
}

pub fn parse_leave_clan(data: &[u8]) -> (request: LeaveClan)
    requires
        data@.len() <= MAX_TEXT_LEN,
    ensures
        request.clan_name@ == peek_s(data@, 1),
{
    let mut r = PacketReader::after_opcode(data);
    let clan_name = r.read_s();
    LeaveClan { clan_name }
}

/// Parsed C_BANCLAN packet (kick member).
pub struct BanClan {
    pub member_name: String,
}

pub fn parse_ban_clan(data: &[u8]) -> (request: BanClan)
    requires
        data@.len() <= MAX_TEXT_LEN,
    ensures
        request.member_name@ == peek_s(data@, 1),
{
    let mut r = PacketReader::after_opcode(data);
    let member_name = r.read_s();
    BanClan { member_name }
}

/// Parsed C_WAR packet.
pub struct War {
    /// 0=declare, 2=surrender, 3=cease
    pub war_type: u8,
    pub enemy_clan_name: String,
}

/// Parse C_WAR: the war type (8 bits), then the enemy clan's name.
pub fn parse_war(data: &[u8]) -> (request: War)
    requires
        data@.len() <= MAX_TEXT_LEN,
    ensures
        request.war_type == peek_c(data@, 1),
        request.enemy_clan_name@ == peek_s(data@, after_c(data@, 1)),
{
    let mut r = PacketReader::after_opcode(data);
    let war_type = r.read_c();
    let enemy_clan_name = r.read_s();
    War { war_type, enemy_clan_name }
}

/// Parsed C_RANK packet (set member rank).
pub struct Rank {
    pub member_name: String,
    pub rank: u8,
}

/// Parse C_RANK: the member's name, then the rank (8 bits).
pub fn parse_rank(data: &[u8]) -> (request: Rank)
    requires
        data@.len() <= MAX_TEXT_LEN,
    ensures
        request.member_name@ == peek_s(data@, 1),
        request.rank == peek_c(data@, after_s(data@, 1)),
{
    let mut r = PacketReader::after_opcode(data);
    let member_name = r.read_s();
    let rank = r.read_c();
    Rank { member_name, rank }
}

} // verus!
