//! Movement requests.

use crate::protocol::packet::{after_h, peek_c, PacketReader};
use vstd::prelude::*;

verus! {

/// Parsed C_MOVECHAR packet.
pub struct MoveChar {
    pub heading: i32,
}

/// The heading a raw heading byte of a move request stands for: the client
/// sends it XORed with 0x49, and only the low three bits count.
pub open spec fn decoded_heading(raw: u8) -> i32 {
    ((raw ^ 0x49u8) & 7u8) as i32
}

/// Parse C_MOVECHAR. The client's own x and y (16 bits each) are passed
/// over; the heading byte follows them.
pub fn parse_move_char(data: &[u8]) -> (request: MoveChar)
    ensures
        request.heading == decoded_heading(peek_c(data@, after_h(data@, after_h(data@, 1)))),
        0 <= request.heading <= 7,
{
    let mut r = PacketReader::after_opcode(data);
    let _locx = r.read_h();
    let _locy = r.read_h();
    let raw_heading: u8 = r.read_c();
    let heading: u8 = (raw_heading ^ 0x49u8) & 7u8;
    assert((raw_heading ^ 0x49u8) & 7u8 <= 7) by (bit_vector);
    MoveChar { heading: heading as i32 }
}

/// Parsed C_CHANGEHEADING packet.
pub struct ChangeHeading {
    pub heading: i32,
}

/// Parse C_CHANGEHEADING: the low three bits of the heading byte.
pub fn parse_change_heading(data: &[u8]) -> (request: ChangeHeading)
    ensures
        request.heading == (peek_c(data@, 1) & 7u8) as i32,
        0 <= request.heading <= 7,
{
    let mut r = PacketReader::after_opcode(data);
    let raw: u8 = r.read_c();
    let heading: u8 = raw & 7u8;
    assert(raw & 7u8 <= 7) by (bit_vector);
    ChangeHeading { heading: heading as i32 }
}

} // verus!
