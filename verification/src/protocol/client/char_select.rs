//! Character selection.

use crate::protocol::encoding::MAX_TEXT_LEN;
use crate::protocol::packet::{peek_s, PacketReader};
use vstd::prelude::*;

verus! {

/// Parsed C_LOGINTOSERVER packet (character selection).
pub struct LoginToServer {
    pub char_name: String,
}

/// Parse the C_LOGINTOSERVER packet: the name of the character to play.
pub fn parse_login_to_server(data: &[u8]) -> (login: LoginToServer)
    requires
        data@.len() <= MAX_TEXT_LEN,
    ensures
        login.char_name@ == peek_s(data@, 1),
{
    let mut r = PacketReader::after_opcode(data);
    let char_name = r.read_s();
    LoginToServer { char_name }
}

} // verus!
