//! Skill visual effect packets.

use crate::protocol::opcodes::server;
use crate::protocol::packet::{cut32, cut_len, field_c, field_d, field_h, PacketBuilder};
use vstd::prelude::*;

verus! {

/// The bytes of the packet that `build_attack_skill` builds.
pub open spec fn attack_skill_packet(caster_id: i32, target_id: i32, damage: i32, heading: i32, gfx_id: i32, caster_x: i32, caster_y: i32, target_x: i32, target_y: i32, seq_number: i32, with_cast_motion: bool) -> Seq<u8> {
    seq![server::S_OPCODE_ATTACKPACKET] + field_c(19) + field_d(if with_cast_motion { caster_id } else { 0i32 }) + field_d(target_id) + field_h(damage) + field_c(heading) + field_d(seq_number) + field_h(gfx_id) + field_c(6) + field_h(caster_x) + field_h(caster_y) + field_h(target_x) + field_h(target_y) + field_c(0) + field_c(0) + field_c(0)
}

/// Build S_UseAttackSkill - single target attack spell visual. The caster is
/// named only where the cast motion is shown.
pub fn build_attack_skill(caster_id: i32, target_id: i32, damage: i32, heading: i32, gfx_id: i32, caster_x: i32, caster_y: i32, target_x: i32, target_y: i32, seq_number: i32, with_cast_motion: bool) -> (bytes: Vec<u8>)
    ensures
        bytes@ == attack_skill_packet(caster_id, target_id, damage, heading, gfx_id, caster_x, caster_y, target_x, target_y, seq_number, with_cast_motion),
{
    PacketBuilder::new(server::S_OPCODE_ATTACKPACKET)
        .write_c(19)
        .write_d(if with_cast_motion { caster_id } else { 0 })
        .write_d(target_id)
        .write_h(damage)
        .write_c(heading)
        .write_d(seq_number)
        .write_h(gfx_id)
        .write_c(6)
        .write_h(caster_x)
        .write_h(caster_y)
        .write_h(target_x)
        .write_h(target_y)
        .write_c(0)
        .write_c(0)
        .write_c(0)
        .build()
}

/// The targets of a range skill, one after the other: the target id (32
/// bits) and the damage flag 0x20 (16 bits).
pub open spec fn target_entries(target_ids: Seq<i32>) -> Seq<u8>
    decreases target_ids.len(),
{
    if target_ids.len() == 0 {
        Seq::empty()
    } else {
        target_entries(target_ids.drop_last()) + field_d(target_ids.last()) + field_h(0x20)
    }
}

/// The bytes of the packet that `build_range_skill` builds.
pub open spec fn range_skill_packet(
    caster_id: i32,
    caster_x: i32,
    caster_y: i32,
    heading: i32,
    gfx_id: i32,
    range_type: i32,
    target_ids: Seq<i32>,
    seq_number: i32,
) -> Seq<u8> {
    seq![server::S_OPCODE_RANGESKILLS] + field_c(19) + field_d(caster_id) + field_h(caster_x)
        + field_h(caster_y) + field_c(heading) + field_d(seq_number) + field_h(gfx_id) + field_c(
        range_type,
    ) + field_h(0) + field_h(cut32(target_ids.len() as int)) + target_entries(target_ids)
}

/// Build S_RangeSkill - AoE skill visual.
///
/// `range_type`: 0 = non-directional, 8 = directional
pub fn build_range_skill(
    caster_id: i32,
    caster_x: i32,
    caster_y: i32,
    heading: i32,
    gfx_id: i32,
    range_type: i32,
    target_ids: &[i32],
    seq_number: i32,
) -> (bytes: Vec<u8>)
    ensures
        bytes@ == range_skill_packet(
            caster_id,
            caster_x,
            caster_y,
            heading,
            gfx_id,
            range_type,
            target_ids@,
            seq_number,
        ),
{
    let mut pb = PacketBuilder::new(server::S_OPCODE_RANGESKILLS).write_c(19).write_d(
        caster_id,
    ).write_h(caster_x).write_h(caster_y).write_c(heading).write_d(seq_number).write_h(
        gfx_id,
    ).write_c(range_type).write_h(0).write_h(cut_len(target_ids.len()));
    let ghost prefix = pb@;
    let mut i: usize = 0;
    assert(target_ids@.take(0) =~= Seq::<i32>::empty());
    assert(pb@ =~= prefix + target_entries(target_ids@.take(0)));
    while i < target_ids.len()
        invariant
            i <= target_ids.len(),
            pb@ == prefix + target_entries(target_ids@.take(i as int)),
        decreases target_ids.len() - i,
    {
        pb = pb.write_d(target_ids[i]).write_h(0x20);
        proof {
            assert(target_ids@.take(i + 1).drop_last() =~= target_ids@.take(i as int));
            assert(pb@ =~= prefix + target_entries(target_ids@.take(i + 1)));
        }
        i += 1;
    }
    assert(target_ids@.take(target_ids@.len() as int) =~= target_ids@);
    pb.build()
}

/// The bytes of the packet that `build_skill_sound` builds.
pub open spec fn skill_sound_packet(object_id: i32, gfx_id: i32) -> Seq<u8> {
    seq![server::S_OPCODE_SKILLSOUNDGFX] + field_d(object_id) + field_h(gfx_id)
}

/// Build S_SkillSound - visual/sound effect on an entity.
pub fn build_skill_sound(object_id: i32, gfx_id: i32) -> (bytes: Vec<u8>)
    ensures
        bytes@ == skill_sound_packet(object_id, gfx_id),
{
    PacketBuilder::new(server::S_OPCODE_SKILLSOUNDGFX)
        .write_d(object_id)
        .write_h(gfx_id)
        .build()
}

} // verus!
