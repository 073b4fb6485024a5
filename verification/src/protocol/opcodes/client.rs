//! Opcodes of the packets the client sends: the first byte of each packet.

use vstd::prelude::*;

verus! {

pub const C_OPCODE_USESKILL: u8 = 6;
pub const C_OPCODE_PICKUPITEM: u8 = 11;
pub const C_OPCODE_BOOKMARKDELETE: u8 = 13;
pub const C_OPCODE_CLIENTVERSION: u8 = 14;
pub const C_OPCODE_MOVECHAR: u8 = 29;
pub const C_OPCODE_CHAT: u8 = 40;
pub const C_OPCODE_QUITGAME: u8 = 62;
pub const C_OPCODE_RANK: u8 = 63;
pub const C_OPCODE_LEAVECLAN: u8 = 69;
pub const C_OPCODE_NEWCHAR: u8 = 84;
pub const C_OPCODE_LOGINPACKET: u8 = 119;
pub const C_OPCODE_ARROWATTACK: u8 = 123;
pub const C_OPCODE_LOGINTOSERVER: u8 = 137;
pub const C_OPCODE_USEITEM: u8 = 164;
pub const C_OPCODE_BOOKMARK: u8 = 165;
pub const C_OPCODE_BANCLAN: u8 = 173;
pub const C_OPCODE_AUTHLOGIN: u8 = 210;
pub const C_OPCODE_ENTERPORTAL: u8 = 219;
pub const C_OPCODE_CREATECLAN: u8 = 222;
pub const C_OPCODE_CHANGEHEADING: u8 = 225;
pub const C_OPCODE_WAR: u8 = 227;
pub const C_OPCODE_ATTACK: u8 = 229;

} // verus!
