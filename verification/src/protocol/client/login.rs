//! Version and login requests.

use crate::text::{lowercase, to_lowercase};
use crate::protocol::encoding::MAX_TEXT_LEN;
use crate::protocol::packet::{after_c, after_d, after_s, peek_c, peek_d, peek_s, PacketReader};
use vstd::prelude::*;

verus! {

/// Parsed C_CLIENTVERSION packet.
pub struct ClientVersion {
    pub client_language: i32,
    pub client_version: i32,
}

/// The version report in a packet: after the opcode and three bytes that are
/// passed over, the language (32 bits); after four more bytes that are
/// passed over, the version (32 bits).
pub open spec fn client_version_of(d: Seq<u8>) -> ClientVersion {
    ClientVersion {
        client_language: peek_d(d, 4),
        client_version: peek_d(d, after_d(d, 4) + 4),
    }
}

/// Parse the C_CLIENTVERSION packet.
pub fn parse_client_version(data: &[u8]) -> (version: ClientVersion)
    requires
        data@.len() <= MAX_TEXT_LEN,
    ensures
        version == client_version_of(data@),
{
    let mut r = PacketReader::after_opcode(data);
    r.skip(2);
    r.skip(1);
    let client_language = r.read_d();
    r.skip(2);
    r.skip(2);
    let client_version = r.read_d();
    ClientVersion { client_language, client_version }
}

/// Login action codes.
pub const LOGIN_ACTION_LOGIN: u8 = 0x06;
pub const LOGIN_ACTION_RETURN_CHARSELECT: u8 = 0x0b;
pub const LOGIN_ACTION_LOGOUT: u8 = 0x1c;

/// Parsed login credentials.
pub struct AuthLogin {
    pub action: u8,
    pub account: String,
    pub password: String,
}

/// Parse the login packet that starts with an action byte. Account and
/// password follow only for the login action; the account name is lowercased.
pub fn parse_auth_login(data: &[u8]) -> (login: AuthLogin)
    requires
        data@.len() <= MAX_TEXT_LEN,
    ensures
        login.action == peek_c(data@, 1),
        login.action == LOGIN_ACTION_LOGIN ==> {
            let p1 = after_c(data@, 1);
            &&& login.account@ == lowercase(peek_s(data@, p1))
            &&& login.password@ == peek_s(data@, after_s(data@, p1))
        },
        login.action != LOGIN_ACTION_LOGIN ==> {
            &&& login.account@ == Seq::<char>::empty()
            &&& login.password@ == Seq::<char>::empty()
        },
{
    let mut r = PacketReader::after_opcode(data);
    let action = r.read_c();
    if action == LOGIN_ACTION_LOGIN {
        let name = r.read_s();
        let account = to_lowercase(name.as_str());
        let password = r.read_s();
        AuthLogin { action, account, password }
    } else {
        AuthLogin { action, account: String::new(), password: String::new() }
    }
}

/// Parse the login packet without an action byte: the account name, which
/// is lowercased, then the password.
pub fn parse_login_packet(data: &[u8]) -> (login: AuthLogin)
    requires
        data@.len() <= MAX_TEXT_LEN,
    ensures
        login.action == LOGIN_ACTION_LOGIN,
        login.account@ == lowercase(peek_s(data@, 1)),
        login.password@ == peek_s(data@, after_s(data@, 1)),
{
    let mut r = PacketReader::after_opcode(data);
    let name = r.read_s();
    let account = to_lowercase(name.as_str());
    let password = r.read_s();
    AuthLogin { action: LOGIN_ACTION_LOGIN, account, password }
}

} // verus!
