//! Skill-related server packets.

use crate::protocol::opcodes::server;
use crate::protocol::packet::{field_c, field_d, field_h, PacketBuilder};
use vstd::prelude::*;

verus! {

/// The bytes of the packet that `build_add_skill` builds.
pub open spec fn add_skill_packet(skill_number: i32) -> Seq<u8> {
    seq![server::S_OPCODE_ADDSKILL] + field_c(skill_number) + field_c(0)
}

/// Build S_ADDSKILL - adds a skill to the player's skill list.
pub fn build_add_skill(skill_number: i32) -> (bytes: Vec<u8>)
    ensures
        bytes@ == add_skill_packet(skill_number),
{
    PacketBuilder::new(server::S_OPCODE_ADDSKILL)
        .write_c(skill_number)
        .write_c(0)
        .build()
}

/// The bytes of the packet that `build_skill_sound` builds.
pub open spec fn skill_sound_packet(object_id: i32, gfx_id: i32) -> Seq<u8> {
    seq![server::S_OPCODE_SKILLSOUNDGFX] + field_d(object_id) + field_h(gfx_id)
}

/// Build S_SKILLSOUNDGFX - visual effect at caster.
pub fn build_skill_sound(object_id: i32, gfx_id: i32) -> (bytes: Vec<u8>)
    ensures
        bytes@ == skill_sound_packet(object_id, gfx_id),
{
    PacketBuilder::new(server::S_OPCODE_SKILLSOUNDGFX)
        .write_d(object_id)
        .write_h(gfx_id)
        .build()
}

/// The bytes of the packet that `build_effect_location` builds.
pub open spec fn effect_location_packet(x: i32, y: i32, gfx_id: i32) -> Seq<u8> {
    seq![server::S_OPCODE_EFFECTLOCATION] + field_h(x) + field_h(y) + field_h(gfx_id)
}

/// Build S_EFFECTLOCATION - visual effect at coordinates.
pub fn build_effect_location(x: i32, y: i32, gfx_id: i32) -> (bytes: Vec<u8>)
    ensures
        bytes@ == effect_location_packet(x, y, gfx_id),
{
    PacketBuilder::new(server::S_OPCODE_EFFECTLOCATION)
        .write_h(x)
        .write_h(y)
        .write_h(gfx_id)
        .build()
}

/// The bytes of the packet that `build_skill_haste` builds.
pub open spec fn skill_haste_packet(object_id: i32, haste_type: i32, duration: i32) -> Seq<u8> {
    seq![server::S_OPCODE_SKILLHASTE] + field_d(object_id) + field_c(haste_type) + field_h(duration)
}

/// Build S_SKILLHASTE - haste/slow effect icon. `haste_type`: 1=haste,
/// 2=slow; `duration` in seconds.
pub fn build_skill_haste(object_id: i32, haste_type: i32, duration: i32) -> (bytes: Vec<u8>)
    ensures
        bytes@ == skill_haste_packet(object_id, haste_type, duration),
{
    PacketBuilder::new(server::S_OPCODE_SKILLHASTE)
        .write_d(object_id)
        .write_c(haste_type)
        .write_h(duration)
        .build()
}

/// The bytes of the packet that `build_skill_brave` builds.
pub open spec fn skill_brave_packet(object_id: i32, brave_type: i32, duration: i32) -> Seq<u8> {
    seq![server::S_OPCODE_SKILLBRAVE] + field_d(object_id) + field_c(brave_type) + field_h(duration)
}

/// Build S_SKILLBRAVE - brave potion / buff icon.
pub fn build_skill_brave(object_id: i32, brave_type: i32, duration: i32) -> (bytes: Vec<u8>)
    ensures
        bytes@ == skill_brave_packet(object_id, brave_type, duration),
{
    PacketBuilder::new(server::S_OPCODE_SKILLBRAVE)
        .write_d(object_id)
        .write_c(brave_type)
        .write_h(duration)
        .build()
}

/// The bytes of the packet that `build_skill_icon_shield` builds.
pub open spec fn skill_icon_shield_packet(shield_type: i32, duration: i32) -> Seq<u8> {
    seq![server::S_OPCODE_SKILLICONSHIELD] + field_c(shield_type) + field_h(duration)
}

/// Build S_SKILLICONSHIELD - defense buff icon (AC bonus etc).
pub fn build_skill_icon_shield(shield_type: i32, duration: i32) -> (bytes: Vec<u8>)
    ensures
        bytes@ == skill_icon_shield_packet(shield_type, duration),
{
    PacketBuilder::new(server::S_OPCODE_SKILLICONSHIELD)
        .write_c(shield_type)
        .write_h(duration)
        .build()
}

/// The bytes of the packet that `build_paralysis` builds.
pub open spec fn paralysis_packet(state: i32, is_start: bool) -> Seq<u8> {
    seq![server::S_OPCODE_PARALYSIS] + field_c(state) + field_c(if is_start { 1i32 } else { 0i32 })
}

/// Build S_PARALYSIS - paralysis/freeze/sleep effect.
/// `state`: 1=paralyze, 2=stun, 3=sleep, 4=freeze
pub fn build_paralysis(state: i32, is_start: bool) -> (bytes: Vec<u8>)
    ensures
        bytes@ == paralysis_packet(state, is_start),
{
    PacketBuilder::new(server::S_OPCODE_PARALYSIS)
        .write_c(state)
        .write_c(if is_start { 1 } else { 0 })
        .build()
}

} // verus!
