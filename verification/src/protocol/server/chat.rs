//! Chat packets.

use crate::protocol::encoding::MAX_TEXT_LEN;
use vstd::string::StringExecFns;
use crate::protocol::opcodes::server;
use crate::protocol::packet::{field_c, field_d, field_h, field_s, PacketBuilder};
use vstd::prelude::*;

verus! {

/// The text of a normal or shouted chat line: a shout (type 2) puts the
/// name in angle brackets, anything else puts a colon after it.
pub open spec fn normal_chat_text(chat_type: i32, name: Seq<char>, message: Seq<char>) -> Seq<char> {
    if chat_type == 2 {
        seq!['<'] + name + seq!['>', ' '] + message
    } else {
        name + seq![':', ' '] + message
    }
}

/// The text of a global chat line: world chat (type 3) puts the name in
/// square brackets, clan chat (type 4) in braces, anything else puts a colon
/// after it.
pub open spec fn global_chat_text(chat_type: i32, name: Seq<char>, message: Seq<char>) -> Seq<char> {
    if chat_type == 3 {
        seq!['['] + name + seq![']', ' '] + message
    } else if chat_type == 4 {
        seq!['{'] + name + seq!['}', ' '] + message
    } else {
        name + seq![':', ' '] + message
    }
}

/// Joins an opening, a name, a closing and a message into one line.
fn chat_line(open: &str, name: &str, close: &str, message: &str) -> (line: String)
    ensures
        line@ == open@ + name@ + close@ + message@,
{
    let mut line = String::from_str(open);
    line.append(name);
    line.append(close);
    line.append(message);
    line
}

/// The bytes of the packet that `build_normal_chat` builds: the chat type,
/// the speaker's object id, the chat line and, for a shout, two zero
/// coordinates.
pub open spec fn normal_chat_packet(
    object_id: i32,
    chat_type: i32,
    name: Seq<char>,
    message: Seq<char>,
) -> Seq<u8> {
    let common = seq![server::S_OPCODE_NORMALCHAT] + field_c(chat_type) + field_d(object_id)
        + field_s(normal_chat_text(chat_type, name, message));
    if chat_type == 2 {
        common + field_h(0) + field_h(0)
    } else {
        common
    }
}

/// Build S_NORMALCHAT (normal/shout chat).
pub fn build_normal_chat(object_id: i32, chat_type: i32, name: &str, message: &str) -> (bytes: Vec<
    u8,
>)
    requires
        name@.len() + message@.len() + 4 <= MAX_TEXT_LEN,
    ensures
        bytes@ == normal_chat_packet(object_id, chat_type, name@, message@),
{
    proof {
        reveal_strlit("<");
        reveal_strlit("> ");
        reveal_strlit("");
        reveal_strlit(": ");
    }
    let text = if chat_type == 2 {
        chat_line("<", name, "> ", message)
    } else {
        chat_line("", name, ": ", message)
    };
    assert(text@ =~= normal_chat_text(chat_type, name@, message@));
    let pb = PacketBuilder::new(server::S_OPCODE_NORMALCHAT).write_c(chat_type);
    if chat_type == 2 {
        pb.write_d(object_id).write_s(Some(text.as_str())).write_h(0).write_h(0).build()
    } else {
        pb.write_d(object_id).write_s(Some(text.as_str())).build()
    }
}

/// The bytes of the packet that `build_global_chat` builds.
pub open spec fn global_chat_packet(chat_type: i32, name: Seq<char>, message: Seq<char>) -> Seq<u8> {
    seq![server::S_OPCODE_GLOBALCHAT] + field_c(chat_type) + field_s(
        global_chat_text(chat_type, name, message),
    )
}

/// Build S_GLOBALCHAT (world/clan/alliance chat).
pub fn build_global_chat(chat_type: i32, name: &str, message: &str) -> (bytes: Vec<u8>)
    requires
        name@.len() + message@.len() + 4 <= MAX_TEXT_LEN,
    ensures
        bytes@ == global_chat_packet(chat_type, name@, message@),
{
    proof {
        reveal_strlit("[");
        reveal_strlit("] ");
        reveal_strlit("{");
        reveal_strlit("} ");
        reveal_strlit("");
        reveal_strlit(": ");
    }
    let text = if chat_type == 3 {
        chat_line("[", name, "] ", message)
    } else if chat_type == 4 {
        chat_line("{", name, "} ", message)
    } else {
        chat_line("", name, ": ", message)
    };
    assert(text@ =~= global_chat_text(chat_type, name@, message@));
    PacketBuilder::new(server::S_OPCODE_GLOBALCHAT).write_c(chat_type).write_s(
        Some(text.as_str()),
    ).build()
}

/// The bytes of the packet that `build_server_message` builds.
pub open spec fn server_message_packet(message: Seq<char>) -> Seq<u8> {
    seq![server::S_OPCODE_SERVERMSG] + field_c(9) + field_d(0) + field_s(message)
}

/// Build S_SERVERMSG - server system message with a text of its own.
pub fn build_server_message(message: &str) -> (bytes: Vec<u8>)
    requires
        message@.len() <= MAX_TEXT_LEN,
    ensures
        bytes@ == server_message_packet(message@),
{
    PacketBuilder::new(server::S_OPCODE_SERVERMSG)
        .write_c(9)
        .write_d(0)
        .write_s(Some(message))
        .build()
}

} // verus!
