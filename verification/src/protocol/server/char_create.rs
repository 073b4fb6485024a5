//! Character creation response packets.

use crate::protocol::encoding::MAX_TEXT_LEN;
use crate::protocol::opcodes::server;
use crate::protocol::packet::{field_c, field_d, field_h, field_s, PacketBuilder};
use vstd::prelude::*;

verus! {

/// Reason codes of the creation result.
pub const REASON_OK: u8 = 0x02;
pub const REASON_ALREADY_EXISTS: u8 = 0x06;
pub const REASON_INVALID_NAME: u8 = 0x09;
pub const REASON_WRONG_AMOUNT: u8 = 0x15;

/// The bytes of the packet that `build_char_create_status` builds.
pub open spec fn char_create_status_packet(reason: u8) -> Seq<u8> {
    seq![server::S_OPCODE_NEWCHARWRONG] + field_c(reason as i32) + field_d(0) + field_h(0)
}

/// Build the creation result packet.
pub fn build_char_create_status(reason: u8) -> (bytes: Vec<u8>)
    ensures
        bytes@ == char_create_status_packet(reason),
{
    PacketBuilder::new(server::S_OPCODE_NEWCHARWRONG)
        .write_c(reason as i32)
        .write_d(0)
        .write_h(0)
        .build()
}

/// The checksum over a character's level and stats: their XOR, cut to 8
/// bits.
pub open spec fn stat_checksum(
    level: i32,
    str_s: i32,
    dex_s: i32,
    con_s: i32,
    wis_s: i32,
    cha_s: i32,
    int_s: i32,
) -> i32 {
    (level ^ str_s ^ dex_s ^ con_s ^ wis_s ^ cha_s ^ int_s) & 0xFF
}

/// Computes `stat_checksum`.
pub fn checksum_of(
    level: i32,
    str_s: i32,
    dex_s: i32,
    con_s: i32,
    wis_s: i32,
    cha_s: i32,
    int_s: i32,
) -> (sum: i32)
    ensures
        sum == stat_checksum(level, str_s, dex_s, con_s, wis_s, cha_s, int_s),
{
    (level ^ str_s ^ dex_s ^ con_s ^ wis_s ^ cha_s ^ int_s) & 0xFF
}

/// The bytes of the packet that `build_new_char_pack` builds.
pub open spec fn new_char_pack_packet(name: Seq<char>, char_type: i32, sex: i32, lawful: i32, max_hp: i32, max_mp: i32, ac: i32, level: i32, str_s: i32, dex_s: i32, con_s: i32, wis_s: i32, cha_s: i32, int_s: i32, birthday: i32) -> Seq<u8> {
    seq![server::S_OPCODE_NEWCHARPACK] + field_s(name) + field_s(""@) + field_c(char_type) + field_c(sex) + field_h(lawful) + field_h(max_hp) + field_h(max_mp) + field_c(ac) + field_c(level) + field_c(str_s) + field_c(dex_s) + field_c(con_s) + field_c(wis_s) + field_c(cha_s) + field_c(int_s) + field_c(0) + field_d(birthday) + field_c(stat_checksum(level, str_s, dex_s, con_s, wis_s, cha_s, int_s))
}

/// Build the packet that carries a newly created character's data.
pub fn build_new_char_pack(name: &str, char_type: i32, sex: i32, lawful: i32, max_hp: i32, max_mp: i32, ac: i32, level: i32, str_s: i32, dex_s: i32, con_s: i32, wis_s: i32, cha_s: i32, int_s: i32, birthday: i32) -> (bytes: Vec<u8>)
    requires
        name@.len() <= MAX_TEXT_LEN,
    ensures
        bytes@ == new_char_pack_packet(name@, char_type, sex, lawful, max_hp, max_mp, ac, level, str_s, dex_s, con_s, wis_s, cha_s, int_s, birthday),
{
    proof {
        reveal_strlit("");
    }
    let checksum = checksum_of(level, str_s, dex_s, con_s, wis_s, cha_s, int_s);
    PacketBuilder::new(server::S_OPCODE_NEWCHARPACK)
        .write_s(Some(name))
        .write_s(Some(""))
        .write_c(char_type)
        .write_c(sex)
        .write_h(lawful)
        .write_h(max_hp)
        .write_h(max_mp)
        .write_c(ac)
        .write_c(level)
        .write_c(str_s)
        .write_c(dex_s)
        .write_c(con_s)
        .write_c(wis_s)
        .write_c(cha_s)
        .write_c(int_s)
        .write_c(0)
        .write_d(birthday)
        .write_c(checksum)
        .build()
}

} // verus!
