//! NPC appearance packets.

use crate::ecs::components::npc::NpcTemplate;
use crate::ecs::components::position::Position;
use crate::protocol::encoding::MAX_TEXT_LEN;
use crate::protocol::opcodes::server;
use crate::protocol::packet::{cut32, cut_u32, field_c, field_d, field_h, field_s, PacketBuilder};
use vstd::prelude::*;

verus! {

/// The HP bar of an NPC: its hit points as a share of 255, rounded toward
/// zero and kept within 32 bits; 255 where there is no positive maximum.
pub open spec fn hp_bar(cur_hp: i32, max_hp: i32) -> i32 {
    if max_hp > 0 {
        if cur_hp >= 0 {
            if cur_hp * 255 / (max_hp as int) > i32::MAX {
                i32::MAX
            } else {
                (cur_hp * 255 / (max_hp as int)) as i32
            }
        } else {
            if -((-cur_hp) * 255 / (max_hp as int)) < i32::MIN {
                i32::MIN
            } else {
                (-((-cur_hp) * 255 / (max_hp as int))) as i32
            }
        }
    } else {
        0xFF
    }
}

/// Computes `hp_bar`.
pub fn hp_bar_of(cur_hp: i32, max_hp: i32) -> (bar: i32)
    ensures
        bar == hp_bar(cur_hp, max_hp),
{
    if max_hp > 0 {
        if cur_hp >= 0 {
            let q: i64 = (cur_hp as i64) * 255 / (max_hp as i64);
            if q > i32::MAX as i64 {
                i32::MAX
            } else {
                q as i32
            }
        } else {
            let q: i64 = -((-(cur_hp as i64)) * 255 / (max_hp as i64));
            if q < i32::MIN as i64 {
                i32::MIN
            } else {
                q as i32
            }
        }
    } else {
        0xFF
    }
}

/// The bytes of the packet that `build_npc_pack` builds.
pub open spec fn npc_pack_packet(object_id: u32, pos: Position, template: NpcTemplate, cur_hp: i32, max_hp: i32, status_flags: i32) -> Seq<u8> {
    seq![server::S_OPCODE_CHARPACK] + field_h(pos.x) + field_h(pos.y) + field_d(cut32(object_id as int)) + field_h(template.gfxid) + field_c(0) + field_c(pos.heading) + field_c(template.light_size) + field_c(0) + field_d(template.exp) + field_h(template.lawful) + field_s(template.nameid@) + field_s(""@) + field_c(status_flags) + field_d(0) + seq![0u8] + seq![0u8] + field_c(0) + field_c(hp_bar(cur_hp, max_hp)) + field_c(0) + field_c(template.level) + field_c(0xFF) + field_c(0xFF) + field_c(0)
}

/// Build S_NPCPack for a single NPC: sent when a player first sees the NPC
/// or when it enters the player's screen.
pub fn build_npc_pack(object_id: u32, pos: &Position, template: &NpcTemplate, cur_hp: i32, max_hp: i32, status_flags: i32) -> (bytes: Vec<u8>)
    requires
        template.nameid@.len() <= MAX_TEXT_LEN,
    ensures
        bytes@ == npc_pack_packet(object_id, *pos, *template, cur_hp, max_hp, status_flags),
{
    proof {
        reveal_strlit("");
    }
    PacketBuilder::new(server::S_OPCODE_CHARPACK)
        .write_h(pos.x)
        .write_h(pos.y)
        .write_d(cut_u32(object_id))
        .write_h(template.gfxid)
        .write_c(0)
        .write_c(pos.heading)
        .write_c(template.light_size)
        .write_c(0)
        .write_d(template.exp)
        .write_h(template.lawful)
        .write_s(Some(template.nameid.as_str()))
        .write_s(Some(""))
        .write_c(status_flags)
        .write_d(0)
        .write_s(None)
        .write_s(None)
        .write_c(0)
        .write_c(hp_bar_of(cur_hp, max_hp))
        .write_c(0)
        .write_c(template.level)
        .write_c(0xFF)
        .write_c(0xFF)
        .write_c(0)
        .build()
}

/// The bytes of the packet that `build_remove_object` builds.
pub open spec fn remove_object_packet(object_id: u32) -> Seq<u8> {
    seq![server::S_OPCODE_REMOVE_OBJECT] + field_d(cut32(object_id as int))
}

/// Build S_REMOVE_OBJECT - removes an object from the client's screen.
pub fn build_remove_object(object_id: u32) -> (bytes: Vec<u8>)
    ensures
        bytes@ == remove_object_packet(object_id),
{
    PacketBuilder::new(server::S_OPCODE_REMOVE_OBJECT)
        .write_d(cut_u32(object_id))
        .build()
}

} // verus!
