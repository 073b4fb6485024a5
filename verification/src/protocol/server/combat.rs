//! Combat packets.

use crate::protocol::opcodes::server;
use crate::protocol::packet::{clamp_to, clamped, field_c, field_d, field_h, PacketBuilder};
use vstd::prelude::*;

verus! {

/// Action IDs for combat animations.
pub const ACTION_IDLE: i32 = 0;
pub const ACTION_ATTACK: i32 = 1;
pub const ACTION_DAMAGE: i32 = 2;
pub const ACTION_HIDE: i32 = 4;
pub const ACTION_DIE: i32 = 8;
pub const ACTION_PICKUP: i32 = 15;

/// Attack effect flags.
pub const EFFECT_NONE: i32 = 0;
pub const EFFECT_CLAW: i32 = 2;
pub const EFFECT_DOUBLE_HIT: i32 = 4;
pub const EFFECT_MIRROR: i32 = 8;

/// The bytes of the packet that `build_attack_packet` builds.
pub open spec fn attack_packet_packet(attacker_id: i32, target_id: i32, action_id: i32, damage: i32, heading: i32, effect: i32) -> Seq<u8> {
    seq![server::S_OPCODE_ATTACKPACKET] + field_c(action_id) + field_d(attacker_id) + field_d(target_id) + field_h(damage) + field_c(heading) + field_d(0) + field_c(effect)
}

/// Build S_ATTACKPACKET - shows attack animation + damage number.
pub fn build_attack_packet(attacker_id: i32, target_id: i32, action_id: i32, damage: i32, heading: i32, effect: i32) -> (bytes: Vec<u8>)
    ensures
        bytes@ == attack_packet_packet(attacker_id, target_id, action_id, damage, heading, effect),
{
    PacketBuilder::new(server::S_OPCODE_ATTACKPACKET)
        .write_c(action_id)
        .write_d(attacker_id)
        .write_d(target_id)
        .write_h(damage)
        .write_c(heading)
        .write_d(0)
        .write_c(effect)
        .build()
}

/// The bytes of the packet that `build_do_action_gfx` builds.
pub open spec fn do_action_gfx_packet(object_id: i32, action_id: i32) -> Seq<u8> {
    seq![server::S_OPCODE_DOACTIONGFX] + field_d(object_id) + field_c(action_id)
}

/// Build S_DOACTIONGFX - plays an action animation on an entity.
pub fn build_do_action_gfx(object_id: i32, action_id: i32) -> (bytes: Vec<u8>)
    ensures
        bytes@ == do_action_gfx_packet(object_id, action_id),
{
    PacketBuilder::new(server::S_OPCODE_DOACTIONGFX)
        .write_d(object_id)
        .write_c(action_id)
        .build()
}

/// The bytes of the packet that `build_hp_update` builds.
pub open spec fn hp_update_packet(cur_hp: i32, max_hp: i32) -> Seq<u8> {
    seq![server::S_OPCODE_HPUPDATE] + field_h(clamped(cur_hp, 1, 32767)) + field_h(clamped(max_hp, 1, 32767))
}

/// Build S_HPUPDATE - updates the player's own HP display. Both values are
/// kept between 1 and 32767.
pub fn build_hp_update(cur_hp: i32, max_hp: i32) -> (bytes: Vec<u8>)
    ensures
        bytes@ == hp_update_packet(cur_hp, max_hp),
{
    PacketBuilder::new(server::S_OPCODE_HPUPDATE)
        .write_h(clamp_to(cur_hp, 1, 32767))
        .write_h(clamp_to(max_hp, 1, 32767))
        .build()
}

/// The bytes of the packet that `build_mp_update` builds.
pub open spec fn mp_update_packet(cur_mp: i32, max_mp: i32) -> Seq<u8> {
    seq![server::S_OPCODE_MPUPDATE] + field_h(cur_mp) + field_h(max_mp)
}

/// Build S_MPUPDATE - updates the player's own MP display.
pub fn build_mp_update(cur_mp: i32, max_mp: i32) -> (bytes: Vec<u8>)
    ensures
        bytes@ == mp_update_packet(cur_mp, max_mp),
{
    PacketBuilder::new(server::S_OPCODE_MPUPDATE)
        .write_h(cur_mp)
        .write_h(max_mp)
        .build()
}

/// Hit points as a percentage of the maximum, between 0 and 100; 0 where
/// there is no positive maximum.
pub open spec fn hp_percent(cur_hp: i32, max_hp: i32) -> i32 {
    if max_hp > 0 && cur_hp > 0 {
        if 100 * cur_hp / (max_hp as int) > 100 {
            100
        } else {
            (100 * cur_hp / (max_hp as int)) as i32
        }
    } else {
        0
    }
}

/// Computes `hp_percent`.
pub fn hp_percent_of(cur_hp: i32, max_hp: i32) -> (ratio: i32)
    ensures
        ratio == hp_percent(cur_hp, max_hp),
{
    if max_hp > 0 && cur_hp > 0 {
        let q: i64 = 100 * (cur_hp as i64) / (max_hp as i64);
        if q > 100 {
            100
        } else {
            q as i32
        }
    } else {
        0
    }
}

/// The bytes of the packet that `build_hp_meter` builds.
pub open spec fn hp_meter_packet(object_id: i32, cur_hp: i32, max_hp: i32) -> Seq<u8> {
    seq![server::S_OPCODE_HPMETER] + field_d(object_id) + field_h(hp_percent(cur_hp, max_hp))
}

/// Build S_HPMETER - shows HP bar on another entity (NPC/player).
pub fn build_hp_meter(object_id: i32, cur_hp: i32, max_hp: i32) -> (bytes: Vec<u8>)
    ensures
        bytes@ == hp_meter_packet(object_id, cur_hp, max_hp),
{
    PacketBuilder::new(server::S_OPCODE_HPMETER)
        .write_d(object_id)
        .write_h(hp_percent_of(cur_hp, max_hp))
        .build()
}

} // verus!
