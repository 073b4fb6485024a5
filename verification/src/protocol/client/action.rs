//! Combat and item requests.

use crate::protocol::packet::{after_d, after_h, peek_d, peek_h, PacketReader};
use vstd::prelude::*;

verus! {

/// Parsed C_ATTACK packet (melee attack).
pub struct Attack {
    pub target_id: i32,
    pub x: i32,
    pub y: i32,
}

/// The attack request in a packet: target id (32 bits), then x and y (16
/// bits each), after the opcode.
pub open spec fn attack_of(d: Seq<u8>) -> Attack {
    let p1 = after_d(d, 1);
    let p2 = after_h(d, p1);
    Attack { target_id: peek_d(d, 1), x: peek_h(d, p1) as i32, y: peek_h(d, p2) as i32 }
}

pub fn parse_attack(data: &[u8]) -> (attack: Attack)
    ensures
        attack == attack_of(data@),
{
    let mut r = PacketReader::after_opcode(data);
    let target_id = r.read_d();
    let x = r.read_h() as i32;
    let y = r.read_h() as i32;
    Attack { target_id, x, y }
}

/// Parsed C_ARROWATTACK packet (ranged attack).
pub struct ArrowAttack {
    pub target_id: i32,
    pub x: i32,
    pub y: i32,
}

/// The ranged attack request in a packet: laid out as a melee attack.
pub open spec fn arrow_attack_of(d: Seq<u8>) -> ArrowAttack {
    let p1 = after_d(d, 1);
    let p2 = after_h(d, p1);
    ArrowAttack { target_id: peek_d(d, 1), x: peek_h(d, p1) as i32, y: peek_h(d, p2) as i32 }
}

pub fn parse_arrow_attack(data: &[u8]) -> (attack: ArrowAttack)
    ensures
        attack == arrow_attack_of(data@),
{
    let mut r = PacketReader::after_opcode(data);
    let target_id = r.read_d();
    let x = r.read_h() as i32;
    let y = r.read_h() as i32;
    ArrowAttack { target_id, x, y }
}

/// Parsed C_PICKUPITEM packet.
pub struct PickUpItem {
    pub x: i32,
    pub y: i32,
    pub object_id: i32,
    pub count: i32,
}

/// The pick-up request in a packet: x and y (16 bits each), then object id
/// and count (32 bits each), after the opcode.
pub open spec fn pickup_item_of(d: Seq<u8>) -> PickUpItem {
    let p1 = after_h(d, 1);
    let p2 = after_h(d, p1);
    let p3 = after_d(d, p2);
    PickUpItem {
        x: peek_h(d, 1) as i32,
        y: peek_h(d, p1) as i32,
        object_id: peek_d(d, p2),
        count: peek_d(d, p3),
    }
}

pub fn parse_pickup_item(data: &[u8]) -> (pickup: PickUpItem)
    ensures
        pickup == pickup_item_of(data@),
{
    let mut r = PacketReader::after_opcode(data);
    let x = r.read_h() as i32;
    let y = r.read_h() as i32;
    let object_id = r.read_d();
    let count = r.read_d();
    PickUpItem { x, y, object_id, count }
}

/// Parsed C_USEITEM packet.
pub struct UseItem {
    pub item_obj_id: i32,
}

pub fn parse_use_item(data: &[u8]) -> (item: UseItem)
    ensures
        item.item_obj_id == peek_d(data@, 1),
{
    let mut r = PacketReader::after_opcode(data);
    let item_obj_id = r.read_d();
    UseItem { item_obj_id }
}

} // verus!
