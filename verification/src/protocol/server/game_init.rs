//! All packets required when a character enters the game world.
//!
//! They must be sent in order after the login packet, or the client stays
//! on its loading screen.

use crate::clock::unix_seconds;
use crate::db::character::CharacterFullData;
use crate::protocol::encoding::MAX_TEXT_LEN;
use crate::protocol::server::char_list::{
    build_map_id, build_own_char_pack, build_own_char_status_at, game_time_at, game_time_of,
    map_id_packet, own_char_pack_packet, own_char_status_packet,
};
use crate::protocol::server::login::{build_login_to_game, login_to_game_packet};
use crate::protocol::opcodes::server;
use crate::protocol::packet::{clamp_to, clamped, cut32, cut_to_32, field_c, field_d, field_h, PacketBuilder};
use vstd::prelude::*;

verus! {

/// The bytes of the packet that `build_spmr` builds.
pub open spec fn spmr_packet(equipment_sp: i32, equipment_mr: i32) -> Seq<u8> {
    seq![server::S_OPCODE_SPMR] + field_c(equipment_sp) + field_h(equipment_mr)
}

/// Build S_SPMR - spell power and magic resistance from equipment.
pub fn build_spmr(equipment_sp: i32, equipment_mr: i32) -> (bytes: Vec<u8>)
    ensures
        bytes@ == spmr_packet(equipment_sp, equipment_mr),
{
    PacketBuilder::new(server::S_OPCODE_SPMR)
        .write_c(equipment_sp)
        .write_h(equipment_mr)
        .build()
}

/// The bytes of the packet that `build_own_char_status2` builds.
pub open spec fn own_char_status2_packet(ch: CharacterFullData) -> Seq<u8> {
    seq![server::S_OPCODE_OWNCHARSTATUS2] + field_c(ch.str_stat) + field_c(ch.int_stat) + field_c(ch.wis_stat) + field_c(ch.dex_stat) + field_c(ch.con_stat) + field_c(ch.cha_stat) + field_c(0)
}

/// Build S_OwnCharStatus2 - base stat display.
pub fn build_own_char_status2(ch: &CharacterFullData) -> (bytes: Vec<u8>)
    ensures
        bytes@ == own_char_status2_packet(*ch),
{
    PacketBuilder::new(server::S_OPCODE_OWNCHARSTATUS2)
        .write_c(ch.str_stat)
        .write_c(ch.int_stat)
        .write_c(ch.wis_stat)
        .write_c(ch.dex_stat)
        .write_c(ch.con_stat)
        .write_c(ch.cha_stat)
        .write_c(0)
        .build()
}

/// Two stats packed into one byte: the first in the high four bits.
pub open spec fn stat_pair(high: i32, low: i32) -> i32 {
    cut32(high * 16 + low)
}

/// Computes `stat_pair`.
pub fn pack_stats(high: i32, low: i32) -> (pair: i32)
    ensures
        pair == stat_pair(high, low),
{
    cut_to_32(high as i128 * 16 + low as i128)
}

/// The bytes of the packet that `build_initial_ability` builds.
pub open spec fn initial_ability_packet(ch: CharacterFullData) -> Seq<u8> {
    seq![server::S_OPCODE_CHARSYNACK] + field_c(0x04) + field_c(stat_pair(ch.int_stat, ch.str_stat)) + field_c(stat_pair(ch.dex_stat, ch.wis_stat)) + field_c(stat_pair(ch.cha_stat, ch.con_stat)) + field_c(0x00)
}

/// Build S_InitialAbilityGrowth - initial stat allocation display.
pub fn build_initial_ability(ch: &CharacterFullData) -> (bytes: Vec<u8>)
    ensures
        bytes@ == initial_ability_packet(*ch),
{
    PacketBuilder::new(server::S_OPCODE_CHARSYNACK)
        .write_c(0x04)
        .write_c(pack_stats(ch.int_stat, ch.str_stat))
        .write_c(pack_stats(ch.dex_stat, ch.wis_stat))
        .write_c(pack_stats(ch.cha_stat, ch.con_stat))
        .write_c(0x00)
        .build()
}

/// The bytes of the packet that `build_weather` builds.
pub open spec fn weather_packet(weather: i32) -> Seq<u8> {
    seq![server::S_OPCODE_WEATHER] + field_c(weather)
}

/// Build S_Weather - current weather: 0=clear, 1=snow, 2=rain.
pub fn build_weather(weather: i32) -> (bytes: Vec<u8>)
    ensures
        bytes@ == weather_packet(weather),
{
    PacketBuilder::new(server::S_OPCODE_WEATHER)
        .write_c(weather)
        .build()
}

/// The bytes of the packet that `build_light` builds.
pub open spec fn light_packet(object_id: i32, light_size: i32) -> Seq<u8> {
    seq![server::S_OPCODE_LIGHT] + field_d(object_id) + field_c(light_size)
}

/// Build S_Light - light radius around character.
pub fn build_light(object_id: i32, light_size: i32) -> (bytes: Vec<u8>)
    ensures
        bytes@ == light_packet(object_id, light_size),
{
    PacketBuilder::new(server::S_OPCODE_LIGHT)
        .write_d(object_id)
        .write_c(light_size)
        .build()
}

/// The bytes of the packet that `build_game_time_at` builds.
pub open spec fn game_time_packet(seconds: u64) -> Seq<u8> {
    seq![server::S_OPCODE_GAMETIME] + field_d(game_time_of(seconds))
}

/// Build S_GameTime for a clock reading.
pub fn build_game_time_at(seconds: u64) -> (bytes: Vec<u8>)
    ensures
        bytes@ == game_time_packet(seconds),
{
    PacketBuilder::new(server::S_OPCODE_GAMETIME)
        .write_d(game_time_at(seconds))
        .build()
}

/// Build S_GameTime - current in-game time by the system clock.
pub fn build_game_time() -> (bytes: Vec<u8>)
    ensures
        exists|seconds: u64| bytes@ == #[trigger] game_time_packet(seconds),
{
    build_game_time_at(unix_seconds())
}

/// The bytes of the packet that `build_add_skill_empty` builds: a size
/// marker, 28 skill level bytes that are all zero, and two zero words.
pub open spec fn add_skill_empty_packet() -> Seq<u8> {
    seq![server::S_OPCODE_ADDSKILL] + field_c(32) + Seq::new(28, |i: int| 0u8) + field_d(0)
        + field_d(0)
}

/// Build S_AddSkill for a character that has learned no skill.
pub fn build_add_skill_empty() -> (bytes: Vec<u8>)
    ensures
        bytes@ == add_skill_empty_packet(),
{
    let mut pb = PacketBuilder::new(server::S_OPCODE_ADDSKILL).write_c(32);
    let ghost prefix = pb@;
    let mut i: usize = 0;
    assert(pb@ =~= prefix + Seq::new(0, |i: int| 0u8));
    while i < 28
        invariant
            i <= 28,
            pb@ == prefix + Seq::new(i as nat, |i: int| 0u8),
        decreases 28 - i,
    {
        pb = pb.write_c(0);
        assert(pb@ =~= prefix + Seq::new((i + 1) as nat, |i: int| 0u8));
        i += 1;
    }
    pb.write_d(0).write_d(0).build()
}

/// The bytes of the packet that `build_own_char_attr_def` builds.
pub open spec fn own_char_attr_def_packet(_ch: CharacterFullData) -> Seq<u8> {
    seq![server::S_OPCODE_OWNCHARATTRDEF] + field_h(0) + field_h(0) + field_h(0) + field_h(0)
}

/// Build S_OwnCharAttrDef - character attribute defense values: fire,
/// water, wind and earth, all zero.
pub fn build_own_char_attr_def(_ch: &CharacterFullData) -> (bytes: Vec<u8>)
    ensures
        bytes@ == own_char_attr_def_packet(*_ch),
{
    PacketBuilder::new(server::S_OPCODE_OWNCHARATTRDEF)
        .write_h(0)
        .write_h(0)
        .write_h(0)
        .write_h(0)
        .build()
}

/// The bytes of the packet that `build_karma` builds.
pub open spec fn karma_packet(karma: i32) -> Seq<u8> {
    seq![server::S_OPCODE_PACKETBOX] + field_c(0x57) + field_d(karma)
}

/// Build S_Karma - character's karma value.
pub fn build_karma(karma: i32) -> (bytes: Vec<u8>)
    ensures
        bytes@ == karma_packet(karma),
{
    PacketBuilder::new(server::S_OPCODE_PACKETBOX)
        .write_c(0x57)
        .write_d(karma)
        .build()
}

/// The bytes of the packet that `build_hp_update` builds.
pub open spec fn hp_update_packet(cur_hp: i32, max_hp: i32) -> Seq<u8> {
    seq![server::S_OPCODE_HPUPDATE] + field_h(clamped(cur_hp, 1, 32767)) + field_h(clamped(max_hp, 1, 32767))
}

/// Build S_HPUpdate - initial HP display. Both values are kept between 1 and
/// 32767.
pub fn build_hp_update(cur_hp: i32, max_hp: i32) -> (bytes: Vec<u8>)
    ensures
        bytes@ == hp_update_packet(cur_hp, max_hp),
{
    PacketBuilder::new(server::S_OPCODE_HPUPDATE)
        .write_h(clamp_to(cur_hp, 1, 32767))
        .write_h(clamp_to(max_hp, 1, 32767))
        .build()
}

/// The bytes of the packet that `build_mp_update` builds.
pub open spec fn mp_update_packet(cur_mp: i32, max_mp: i32) -> Seq<u8> {
    seq![server::S_OPCODE_MPUPDATE] + field_h(cur_mp) + field_h(max_mp)
}

/// Build S_MPUpdate - initial MP display.
pub fn build_mp_update(cur_mp: i32, max_mp: i32) -> (bytes: Vec<u8>)
    ensures
        bytes@ == mp_update_packet(cur_mp, max_mp),
{
    PacketBuilder::new(server::S_OPCODE_MPUPDATE)
        .write_h(cur_mp)
        .write_h(max_mp)
        .build()
}

/// The bytes of the packet that `build_ability` builds.
pub open spec fn ability_packet(_char_type: i32) -> Seq<u8> {
    seq![server::S_OPCODE_ABILITY] + field_c(0) + field_h(0) + field_c(0) + field_d(0)
}

/// Build S_Ability - movement speed ability packet.
pub fn build_ability(_char_type: i32) -> (bytes: Vec<u8>)
    ensures
        bytes@ == ability_packet(_char_type),
{
    PacketBuilder::new(server::S_OPCODE_ABILITY)
        .write_c(0)
        .write_h(0)
        .write_c(0)
        .write_d(0)
        .build()
}

/// The packets a client needs, in this order, to render the world for a
/// character that enters it, for a clock reading.
pub open spec fn game_init_packets(ch: CharacterFullData, weather: i32, seconds: u64) -> Seq<
    Seq<u8>,
> {
    seq![
        login_to_game_packet(ch.clanid, 0),
        own_char_status_packet(ch, seconds),
        map_id_packet(ch.map_id, false),
        own_char_pack_packet(ch),
        spmr_packet(0, 0),
        own_char_status2_packet(ch),
        initial_ability_packet(ch),
        weather_packet(weather),
        add_skill_empty_packet(),
        light_packet(ch.objid, 0),
        game_time_packet(seconds),
        karma_packet(0),
        hp_update_packet(ch.cur_hp, ch.max_hp),
        mp_update_packet(ch.cur_mp, ch.max_mp),
        own_char_attr_def_packet(ch),
        ability_packet(ch.char_type),
        seq![server::S_OPCODE_INVLIST] + field_c(0),
    ]
}

/// The bytes of each packet of a list.
pub open spec fn packet_bytes(packets: Seq<Vec<u8>>) -> Seq<Seq<u8>> {
    packets.map_values(|p: Vec<u8>| p@)
}

/// Build all the packets required for entering the game world, for a clock
/// reading. They must be sent in the order given.
pub fn build_all_game_init_packets_at(ch: &CharacterFullData, weather: i32, seconds: u64) -> (packets:
    Vec<Vec<u8>>)
    requires
        ch.char_name@.len() <= MAX_TEXT_LEN,
        ch.clanname@.len() <= MAX_TEXT_LEN,
    ensures
        packet_bytes(packets@) == game_init_packets(*ch, weather, seconds),
{
    let mut packets: Vec<Vec<u8>> = Vec::with_capacity(20);
    packets.push(build_login_to_game(ch.clanid, 0));
    packets.push(build_own_char_status_at(ch, seconds));
    packets.push(build_map_id(ch.map_id, false));
    packets.push(build_own_char_pack(ch));
    packets.push(build_spmr(0, 0));
    packets.push(build_own_char_status2(ch));
    packets.push(build_initial_ability(ch));
    packets.push(build_weather(weather));
    packets.push(build_add_skill_empty());
    packets.push(build_light(ch.objid, 0));
    packets.push(build_game_time_at(seconds));
    packets.push(build_karma(0));
    packets.push(build_hp_update(ch.cur_hp, ch.max_hp));
    packets.push(build_mp_update(ch.cur_mp, ch.max_mp));
    packets.push(build_own_char_attr_def(ch));
    packets.push(build_ability(ch.char_type));
    packets.push(PacketBuilder::new(server::S_OPCODE_INVLIST).write_c(0).build());
    assert(packet_bytes(packets@) =~= game_init_packets(*ch, weather, seconds));
    packets
}

/// Build all the packets required for entering the game world, with the game
/// time of the system clock.
pub fn build_all_game_init_packets(ch: &CharacterFullData, weather: i32) -> (packets: Vec<
    Vec<u8>,
>)
    requires
        ch.char_name@.len() <= MAX_TEXT_LEN,
        ch.clanname@.len() <= MAX_TEXT_LEN,
    ensures
        exists|seconds: u64|
            packet_bytes(packets@) == #[trigger] game_init_packets(*ch, weather, seconds),
{
    build_all_game_init_packets_at(ch, weather, unix_seconds())
}

} // verus!
