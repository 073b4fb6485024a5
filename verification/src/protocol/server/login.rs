//! Login packets.

use crate::clock::unix_seconds;
use crate::protocol::opcodes::server;
use crate::protocol::packet::{cut32, cut_to_32, field_c, field_d, field_h, PacketBuilder};
use vstd::prelude::*;

verus! {

/// Login result codes.
pub const REASON_LOGIN_OK: u8 = 0x00;
pub const REASON_ACCOUNT_IN_USE: u8 = 0x16;
pub const REASON_ACCESS_FAILED: u8 = 0x08;

/// The bytes of the packet that `build_server_version_at` builds.
pub open spec fn server_version_packet(server_start_time: i32, seconds: u64) -> Seq<u8> {
    seq![server::S_OPCODE_SERVERVERSION] + field_c(0x00) + field_c(0x01) + field_d(0x07cbf4dd) + field_d(0x07cbf4dd) + field_d(0x77fc692d) + field_d(0x07cbf4d9) + field_d(server_start_time) + field_c(0x00) + field_c(0x00) + field_c(0x03) + field_d(0x087f7dc2) + field_d(cut32(seconds - server_start_time)) + field_h(0x01)
}

/// Build S_SERVERVERSION for a clock reading: the version constants of the
/// server, its start time, and its uptime in seconds, cut to 32 bits.
pub fn build_server_version_at(server_start_time: i32, seconds: u64) -> (bytes: Vec<u8>)
    ensures
        bytes@ == server_version_packet(server_start_time, seconds),
{
    PacketBuilder::new(server::S_OPCODE_SERVERVERSION)
        .write_c(0x00)
        .write_c(0x01)
        .write_d(0x07cbf4dd)
        .write_d(0x07cbf4dd)
        .write_d(0x77fc692d)
        .write_d(0x07cbf4d9)
        .write_d(server_start_time)
        .write_c(0x00)
        .write_c(0x00)
        .write_c(0x03)
        .write_d(0x087f7dc2)
        .write_d(cut_to_32(seconds as i128 - server_start_time as i128))
        .write_h(0x01)
        .build()
}

/// Build S_SERVERVERSION with the uptime by the system clock.
pub fn build_server_version(server_start_time: i32) -> (bytes: Vec<u8>)
    ensures
        exists|seconds: u64| bytes@ == #[trigger] server_version_packet(server_start_time, seconds),
{
    build_server_version_at(server_start_time, unix_seconds())
}

/// The bytes of the packet that `build_login_result` builds.
pub open spec fn login_result_packet(reason: u8) -> Seq<u8> {
    seq![server::S_OPCODE_LOGINRESULT] + field_c(reason as i32) + field_d(0x00000000) + field_d(0x00000000) + field_d(0x00000000) + field_d(0x00000000) + field_h(0x8c)
}

/// Build S_LOGINRESULT: sent after an account authentication attempt.
pub fn build_login_result(reason: u8) -> (bytes: Vec<u8>)
    ensures
        bytes@ == login_result_packet(reason),
{
    PacketBuilder::new(server::S_OPCODE_LOGINRESULT)
        .write_c(reason as i32)
        .write_d(0x00000000)
        .write_d(0x00000000)
        .write_d(0x00000000)
        .write_d(0x00000000)
        .write_h(0x8c)
        .build()
}

/// The bytes of the packet that `build_login_to_game` builds: for a clan
/// member the member id is sent, for anyone else a fixed filler.
pub open spec fn login_to_game_packet(clanid: i32, clan_member_id: i32) -> Seq<u8> {
    if clanid > 0 {
        seq![server::S_OPCODE_LOGINTOGAME] + field_c(0x03) + field_d(clan_member_id) + field_c(0x9c)
            + field_c(0x1f)
    } else {
        seq![server::S_OPCODE_LOGINTOGAME] + field_c(0x03) + field_c(0x53) + field_c(0x01)
            + field_c(0x00) + field_c(0x8b) + field_c(0x9c) + field_c(0x1f)
    }
}

/// Build S_LOGINTOGAME: sent when the player selects a character and enters
/// the game world.
pub fn build_login_to_game(clanid: i32, clan_member_id: i32) -> (bytes: Vec<u8>)
    ensures
        bytes@ == login_to_game_packet(clanid, clan_member_id),
{
    if clanid > 0 {
        PacketBuilder::new(server::S_OPCODE_LOGINTOGAME).write_c(0x03).write_d(
            clan_member_id,
        ).write_c(0x9c).write_c(0x1f).build()
    } else {
        PacketBuilder::new(server::S_OPCODE_LOGINTOGAME).write_c(0x03).write_c(0x53).write_c(
            0x01,
        ).write_c(0x00).write_c(0x8b).write_c(0x9c).write_c(0x1f).build()
    }
}

} // verus!
