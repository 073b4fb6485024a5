//! Character list and own-character packets.

use crate::clock::unix_seconds;
use crate::db::character::{CharacterFullData, CharacterListData};
use crate::protocol::encoding::MAX_TEXT_LEN;
use crate::protocol::server::char_create::{checksum_of, stat_checksum};
use crate::protocol::opcodes::server;
use crate::protocol::packet::{clamp_to, clamped, cut32, cut_to_32, field_c, field_d, field_h, field_s, PacketBuilder};
use vstd::prelude::*;

verus! {

/// The bytes of the packet that `build_char_amount` builds.
pub open spec fn char_amount_packet(count: i32, max_slots: i32) -> Seq<u8> {
    seq![server::S_OPCODE_CHARAMOUNT] + field_c(count) + field_c(max_slots)
}

/// Build S_CHARAMOUNT: how many characters the account has and how many
/// slots.
pub fn build_char_amount(count: i32, max_slots: i32) -> (bytes: Vec<u8>)
    ensures
        bytes@ == char_amount_packet(count, max_slots),
{
    PacketBuilder::new(server::S_OPCODE_CHARAMOUNT)
        .write_c(count)
        .write_c(max_slots)
        .build()
}

/// The bytes of the packet that `build_char_syn` builds.
pub open spec fn char_syn_packet() -> Seq<u8> {
    seq![server::S_OPCODE_CHARSYNACK] + field_c(0x0a) + field_c(0x02) + field_c(0x00) + field_c(0x00) + field_c(0x00) + field_c(0x08) + field_c(0x00)
}

/// Build S_CHARSYNACK (SYN) - marks the start of the character list.
pub fn build_char_syn() -> (bytes: Vec<u8>)
    ensures
        bytes@ == char_syn_packet(),
{
    PacketBuilder::new(server::S_OPCODE_CHARSYNACK)
        .write_c(0x0a)
        .write_c(0x02)
        .write_c(0x00)
        .write_c(0x00)
        .write_c(0x00)
        .write_c(0x08)
        .write_c(0x00)
        .build()
}

/// The bytes of the packet that `build_char_ack` builds.
pub open spec fn char_ack_packet() -> Seq<u8> {
    seq![server::S_OPCODE_CHARSYNACK] + field_c(0x40) + field_d(0x00000000) + field_h(0x0000)
}

/// Build S_CHARSYNACK (ACK) - marks the end of the character list.
pub fn build_char_ack() -> (bytes: Vec<u8>)
    ensures
        bytes@ == char_ack_packet(),
{
    PacketBuilder::new(server::S_OPCODE_CHARSYNACK)
        .write_c(0x40)
        .write_d(0x00000000)
        .write_h(0x0000)
        .build()
}

/// The bytes of the packet that `build_char_pack` builds.
pub open spec fn char_pack_packet(ch: CharacterListData) -> Seq<u8> {
    seq![server::S_OPCODE_CHARLIST] + field_s(ch.char_name@) + field_s(ch.clanname@) + field_c(ch.char_type) + field_c(ch.sex) + field_h(ch.lawful) + field_h(ch.cur_hp) + field_h(ch.cur_mp) + field_c(ch.ac) + field_c(ch.level) + field_c(ch.str_stat) + field_c(ch.dex_stat) + field_c(ch.con_stat) + field_c(ch.wis_stat) + field_c(ch.cha_stat) + field_c(ch.int_stat) + field_c(0) + field_d(ch.birthday) + field_c(stat_checksum(ch.level, ch.str_stat, ch.dex_stat, ch.con_stat, ch.wis_stat, ch.cha_stat, ch.int_stat))
}

/// Build S_CHARLIST for a single character. One of these is sent per
/// character in the account's character list.
pub fn build_char_pack(ch: &CharacterListData) -> (bytes: Vec<u8>)
    requires
        ch.char_name@.len() <= MAX_TEXT_LEN,
        ch.clanname@.len() <= MAX_TEXT_LEN,
    ensures
        bytes@ == char_pack_packet(*ch),
{
    let checksum = checksum_of(
        ch.level,
        ch.str_stat,
        ch.dex_stat,
        ch.con_stat,
        ch.wis_stat,
        ch.cha_stat,
        ch.int_stat,
    );
    PacketBuilder::new(server::S_OPCODE_CHARLIST)
        .write_s(Some(ch.char_name.as_str()))
        .write_s(Some(ch.clanname.as_str()))
        .write_c(ch.char_type)
        .write_c(ch.sex)
        .write_h(ch.lawful)
        .write_h(ch.cur_hp)
        .write_h(ch.cur_mp)
        .write_c(ch.ac)
        .write_c(ch.level)
        .write_c(ch.str_stat)
        .write_c(ch.dex_stat)
        .write_c(ch.con_stat)
        .write_c(ch.wis_stat)
        .write_c(ch.cha_stat)
        .write_c(ch.int_stat)
        .write_c(0)
        .write_d(ch.birthday)
        .write_c(checksum)
        .build()
}

/// The game time for a clock reading: the seconds since the Unix epoch,
/// rounded down to five minutes and cut to 32 bits.
pub open spec fn game_time_of(seconds: u64) -> i32 {
    cut32(seconds as int / 300 * 300)
}

/// Computes `game_time_of`.
pub fn game_time_at(seconds: u64) -> (time: i32)
    ensures
        time == game_time_of(seconds),
{
    cut_to_32((seconds / 300 * 300) as i128)
}

/// The bytes of the packet that `build_own_char_status_at` builds.
pub open spec fn own_char_status_packet(ch: CharacterFullData, seconds: u64) -> Seq<u8> {
    seq![server::S_OPCODE_OWNCHARSTATUS] + field_d(ch.objid) + field_c(clamped(ch.level, 1, 127)) + field_d(ch.exp) + field_c(ch.str_stat) + field_c(ch.int_stat) + field_c(ch.wis_stat) + field_c(ch.dex_stat) + field_c(ch.con_stat) + field_c(ch.cha_stat) + field_h(ch.cur_hp) + field_h(ch.max_hp) + field_h(ch.cur_mp) + field_h(ch.max_mp) + field_c(ch.ac) + field_d(game_time_of(seconds)) + field_c(ch.food) + field_c(0) + field_h(ch.lawful) + field_h(0) + field_h(0) + field_h(0) + field_h(0) + field_d(ch.mons_kill)
}

/// Build S_OWNCHARSTATUS for a clock reading: the full character status sent
/// after entering the game world. The level is kept between 1 and 127.
pub fn build_own_char_status_at(ch: &CharacterFullData, seconds: u64) -> (bytes: Vec<u8>)
    ensures
        bytes@ == own_char_status_packet(*ch, seconds),
{
    PacketBuilder::new(server::S_OPCODE_OWNCHARSTATUS)
        .write_d(ch.objid)
        .write_c(clamp_to(ch.level, 1, 127))
        .write_d(ch.exp)
        .write_c(ch.str_stat)
        .write_c(ch.int_stat)
        .write_c(ch.wis_stat)
        .write_c(ch.dex_stat)
        .write_c(ch.con_stat)
        .write_c(ch.cha_stat)
        .write_h(ch.cur_hp)
        .write_h(ch.max_hp)
        .write_h(ch.cur_mp)
        .write_h(ch.max_mp)
        .write_c(ch.ac)
        .write_d(game_time_at(seconds))
        .write_c(ch.food)
        .write_c(0)
        .write_h(ch.lawful)
        .write_h(0)
        .write_h(0)
        .write_h(0)
        .write_h(0)
        .write_d(ch.mons_kill)
        .build()
}

/// Build S_OWNCHARSTATUS with the game time of the system clock.
pub fn build_own_char_status(ch: &CharacterFullData) -> (bytes: Vec<u8>)
    ensures
        exists|seconds: u64| bytes@ == #[trigger] own_char_status_packet(*ch, seconds),
{
    build_own_char_status_at(ch, unix_seconds())
}

/// The bytes of the packet that `build_map_id` builds.
pub open spec fn map_id_packet(map_id: i32, is_underwater: bool) -> Seq<u8> {
    seq![server::S_OPCODE_MAPID] + field_h(map_id) + field_c(if is_underwater { 1i32 } else { 0i32 }) + field_d(0) + field_d(0) + field_d(0)
}

/// Build S_MAPID: tells the client which map the character is on.
pub fn build_map_id(map_id: i32, is_underwater: bool) -> (bytes: Vec<u8>)
    ensures
        bytes@ == map_id_packet(map_id, is_underwater),
{
    PacketBuilder::new(server::S_OPCODE_MAPID)
        .write_h(map_id)
        .write_c(if is_underwater { 1 } else { 0 })
        .write_d(0)
        .write_d(0)
        .write_d(0)
        .build()
}

/// The bytes of the packet that `build_own_char_pack` builds.
pub open spec fn own_char_pack_packet(ch: CharacterFullData) -> Seq<u8> {
    seq![server::S_OPCODE_CHARPACK] + field_h(ch.loc_x) + field_h(ch.loc_y) + field_d(ch.objid) + field_h(ch.gfxid) + field_c(0) + field_c(ch.heading) + field_c(0) + field_c(0) + field_d(1) + field_h(ch.lawful) + field_s(ch.char_name@) + field_s(""@) + field_c(4) + field_d(0) + field_s(ch.clanname@) + seq![0u8] + field_c(0xb0) + field_c(0xff) + field_c(0) + field_c(0) + field_c(0) + field_c(0xff) + field_c(0xff) + seq![0u8] + field_c(0)
}

/// Build S_OWNCHARPACK: the character appearance packet sent when entering
/// the game.
pub fn build_own_char_pack(ch: &CharacterFullData) -> (bytes: Vec<u8>)
    requires
        ch.char_name@.len() <= MAX_TEXT_LEN,
        ch.clanname@.len() <= MAX_TEXT_LEN,
    ensures
        bytes@ == own_char_pack_packet(*ch),
{
    proof {
        reveal_strlit("");
    }
    PacketBuilder::new(server::S_OPCODE_CHARPACK)
        .write_h(ch.loc_x)
        .write_h(ch.loc_y)
        .write_d(ch.objid)
        .write_h(ch.gfxid)
        .write_c(0)
        .write_c(ch.heading)
        .write_c(0)
        .write_c(0)
        .write_d(1)
        .write_h(ch.lawful)
        .write_s(Some(ch.char_name.as_str()))
        .write_s(Some(""))
        .write_c(4)
        .write_d(0)
        .write_s(Some(ch.clanname.as_str()))
        .write_s(None)
        .write_c(0xb0)
        .write_c(0xff)
        .write_c(0)
        .write_c(0)
        .write_c(0)
        .write_c(0xff)
        .write_c(0xff)
        .write_s(None)
        .write_c(0)
        .build()
}

} // verus!
