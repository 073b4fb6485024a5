//! Packets of the handshake phase.

use crate::protocol::opcodes::server;
use crate::protocol::packet::{cut32, cut_u32, field_d, PacketBuilder};
use vstd::prelude::*;

verus! {

/// The fixed bytes that end the handshake packet.
pub open spec fn handshake_tail() -> Seq<u8> {
    seq![0x9du8, 0xd1, 0xd6, 0x7a, 0xf4, 0x62, 0xe7, 0xa0, 0x66, 0x02, 0xfa]
}

/// The bytes of the handshake packet: the cipher seed as four little-endian
/// bytes, then the fixed tail.
pub open spec fn init_packet(seed: u32) -> Seq<u8> {
    seq![server::S_OPCODE_INITPACKET] + field_d(cut32(seed as int)) + handshake_tail()
}

/// Build the handshake packet, the first packet of a connection. It is sent
/// as it is; every later packet goes through the cipher made from `seed`.
pub fn build_init_packet(seed: u32) -> (bytes: Vec<u8>)
    ensures
        bytes@ == init_packet(seed),
{
    let tail: [u8; 11] = [0x9d, 0xd1, 0xd6, 0x7a, 0xf4, 0x62, 0xe7, 0xa0, 0x66, 0x02, 0xfa];
    assert(tail@ =~= handshake_tail());
    PacketBuilder::new(server::S_OPCODE_INITPACKET).write_d(cut_u32(seed)).write_bytes(
        tail.as_slice(),
    ).build()
}

/// Build the bare S_SERVERVERSION packet: the opcode alone.
pub fn build_server_version() -> (bytes: Vec<u8>)
    ensures
        bytes@ == seq![server::S_OPCODE_SERVERVERSION],
{
    PacketBuilder::new(server::S_OPCODE_SERVERVERSION).build()
}

/// Build the short S_LOGINRESULT packet: the reason and two zero bytes.
pub fn build_login_result(reason: u8) -> (bytes: Vec<u8>)
    ensures
        bytes@ == seq![server::S_OPCODE_LOGINRESULT, reason, 0u8, 0u8],
{
    let mut buf: Vec<u8> = Vec::with_capacity(4);
    buf.push(server::S_OPCODE_LOGINRESULT);
    buf.push(reason);
    buf.push(0);
    buf.push(0);
    assert(buf@ =~= seq![server::S_OPCODE_LOGINRESULT, reason, 0u8, 0u8]);
    buf
}

} // verus!
