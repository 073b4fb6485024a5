//! Teleport requests.

use crate::protocol::encoding::MAX_TEXT_LEN;
use crate::protocol::packet::{after_h, peek_h, peek_s, PacketReader};
use vstd::prelude::*;

verus! {

/// Parsed C_ENTERPORTAL packet.
pub struct EnterPortal {
    pub x: i32,
    pub y: i32,
}

/// The portal request in a packet: x and y (16 bits each) after the opcode.
pub open spec fn enter_portal_of(d: Seq<u8>) -> EnterPortal {
    EnterPortal { x: peek_h(d, 1) as i32, y: peek_h(d, after_h(d, 1)) as i32 }
}

/// Parse C_ENTERPORTAL - player stepped on a portal tile.
pub fn parse_enter_portal(data: &[u8]) -> (request: EnterPortal)
    ensures
        request == enter_portal_of(data@),
{
    let mut r = PacketReader::after_opcode(data);
    let x = r.read_h() as i32;
    let y = r.read_h() as i32;
    EnterPortal { x, y }
}

/// Parsed C_BOOKMARK (add bookmark).
pub struct AddBookmark {
    pub name: String,
}

pub fn parse_add_bookmark(data: &[u8]) -> (request: AddBookmark)
    requires
        data@.len() <= MAX_TEXT_LEN,
    ensures
        request.name@ == peek_s(data@, 1),
{
    let mut r = PacketReader::after_opcode(data);
    let name = r.read_s();
    AddBookmark { name }
}

/// Parsed C_BOOKMARKDELETE (delete bookmark).
pub struct DeleteBookmark {
    pub name: String,
}

pub fn parse_delete_bookmark(data: &[u8]) -> (request: DeleteBookmark)
    requires
        data@.len() <= MAX_TEXT_LEN,
    ensures
        request.name@ == peek_s(data@, 1),
{
    let mut r = PacketReader::after_opcode(data);
    let name = r.read_s();
    DeleteBookmark { name }
}

} // verus!
