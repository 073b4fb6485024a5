//! Movement packets.

use crate::ecs::components::position::{direction_of, heading_delta, step_dx, step_dy};
use crate::protocol::opcodes::server;
use crate::protocol::packet::{field_c, field_d, field_h, PacketBuilder};
use vstd::prelude::*;

verus! {

/// The low 16 bits of a number.
pub open spec fn low16(v: int) -> i32 {
    (v % 0x1_0000) as i32
}

/// The coordinate one step against a heading, cut to 16 bits.
fn step_back(coordinate: i32, delta: i32) -> (previous: i32)
    ensures
        previous == low16(coordinate - delta),
{
    let wide: i64 = coordinate as i64 - delta as i64 + 0x1_0000_0000;
    (wide % 0x1_0000) as i32
}

/// The bytes of the packet that `build_move_char` builds.
pub open spec fn move_char_packet(object_id: i32, cur_x: i32, cur_y: i32, heading: i32) -> Seq<u8> {
    seq![server::S_OPCODE_MOVEOBJECT] + field_d(object_id) + field_h(low16(cur_x - step_dx(direction_of(heading)))) + field_h(low16(cur_y - step_dy(direction_of(heading)))) + field_c(heading) + field_c(129) + field_d(0)
}

/// Build S_MOVECHARPACKET - broadcast when an entity moves.
///
/// The packet carries the position before the step, and the heading, so that
/// the client can animate the movement.
pub fn build_move_char(object_id: i32, cur_x: i32, cur_y: i32, heading: i32) -> (bytes: Vec<u8>)
    ensures
        bytes@ == move_char_packet(object_id, cur_x, cur_y, heading),
{
    let (dx, dy) = heading_delta(heading);
    let prev_x = step_back(cur_x, dx);
    let prev_y = step_back(cur_y, dy);
    PacketBuilder::new(server::S_OPCODE_MOVEOBJECT)
        .write_d(object_id)
        .write_h(prev_x)
        .write_h(prev_y)
        .write_c(heading)
        .write_c(129)
        .write_d(0)
        .build()
}

/// The bytes of the packet that `build_change_heading` builds.
pub open spec fn change_heading_packet(object_id: i32, heading: i32) -> Seq<u8> {
    seq![server::S_OPCODE_CHANGEHEADING] + field_d(object_id) + field_c(heading)
}

/// Build S_CHANGEHEADING - broadcast when entity turns without moving.
pub fn build_change_heading(object_id: i32, heading: i32) -> (bytes: Vec<u8>)
    ensures
        bytes@ == change_heading_packet(object_id, heading),
{
    PacketBuilder::new(server::S_OPCODE_CHANGEHEADING)
        .write_d(object_id)
        .write_c(heading)
        .build()
}

} // verus!
