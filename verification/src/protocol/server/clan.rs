//! Clan packets.

use crate::protocol::encoding::MAX_TEXT_LEN;
use crate::protocol::opcodes::server;
use crate::protocol::packet::{cut32, cut_len, field_c, field_d, field_s, PacketBuilder};
use vstd::prelude::*;

verus! {

/// The bytes of the packet that `build_clan_name` builds: the object id and
/// the clan name, or an empty name where it is not to be shown.
pub open spec fn clan_name_packet(object_id: i32, clan_name: Seq<char>, show: bool) -> Seq<u8> {
    seq![server::S_OPCODE_CLANNAME] + field_d(object_id) + field_s(
        if show {
            clan_name
        } else {
            Seq::empty()
        },
    )
}

/// Build S_CLANNAME - sets the clan name display above a character.
pub fn build_clan_name(object_id: i32, clan_name: &str, show: bool) -> (bytes: Vec<u8>)
    requires
        clan_name@.len() <= MAX_TEXT_LEN,
    ensures
        bytes@ == clan_name_packet(object_id, clan_name@, show),
{
    proof {
        reveal_strlit("");
    }
    if show {
        PacketBuilder::new(server::S_OPCODE_CLANNAME).write_d(object_id).write_s(
            Some(clan_name),
        ).build()
    } else {
        assert(""@ =~= Seq::<char>::empty());
        PacketBuilder::new(server::S_OPCODE_CLANNAME).write_d(object_id).write_s(Some("")).build()
    }
}

/// The bytes of the packet that `build_war` builds.
pub open spec fn war_packet(war_type: i32, clan1: Seq<char>, clan2: Seq<char>) -> Seq<u8> {
    seq![server::S_OPCODE_WAR] + field_c(war_type) + field_s(clan1) + field_s(clan2)
}

/// Build S_WAR - war declaration/surrender/cease notification.
/// `war_type`: 1=clan war, 2=siege war
pub fn build_war(war_type: i32, clan1: &str, clan2: &str) -> (bytes: Vec<u8>)
    requires
        clan1@.len() <= MAX_TEXT_LEN,
        clan2@.len() <= MAX_TEXT_LEN,
    ensures
        bytes@ == war_packet(war_type, clan1@, clan2@),
{
    PacketBuilder::new(server::S_OPCODE_WAR)
        .write_c(war_type)
        .write_s(Some(clan1))
        .write_s(Some(clan2))
        .build()
}

/// The bytes of the packet that `build_castle_master` builds.
pub open spec fn castle_master_packet(object_id: i32, castle_id: i32) -> Seq<u8> {
    seq![server::S_OPCODE_CASTLEMASTER] + field_d(object_id) + field_c(castle_id)
}

/// Build S_CASTLEMASTER - shows the crown icon for castle lords.
pub fn build_castle_master(object_id: i32, castle_id: i32) -> (bytes: Vec<u8>)
    ensures
        bytes@ == castle_master_packet(object_id, castle_id),
{
    PacketBuilder::new(server::S_OPCODE_CASTLEMASTER)
        .write_d(object_id)
        .write_c(castle_id)
        .build()
}

/// The bytes of the packet that `build_emblem` builds: the clan id, the
/// length of the image cut to 32 bits, and the image itself.
pub open spec fn emblem_packet(clan_id: i32, emblem_data: Seq<u8>) -> Seq<u8> {
    seq![server::S_OPCODE_EMBLEM] + field_d(clan_id) + field_d(cut32(emblem_data.len() as int))
        + emblem_data
}

/// Build S_EMBLEM - sends clan emblem image data.
pub fn build_emblem(clan_id: i32, emblem_data: &[u8]) -> (bytes: Vec<u8>)
    ensures
        bytes@ == emblem_packet(clan_id, emblem_data@),
{
    PacketBuilder::new(server::S_OPCODE_EMBLEM).write_d(clan_id).write_d(
        cut_len(emblem_data.len()),
    ).write_bytes(emblem_data).build()
}

/// The bytes of the packet that `build_char_title` builds.
pub open spec fn char_title_packet(object_id: i32, title: Seq<char>) -> Seq<u8> {
    seq![server::S_OPCODE_CHARTITLE] + field_d(object_id) + field_s(title)
}

/// Build S_CHARTITLE - updates a character's title display.
pub fn build_char_title(object_id: i32, title: &str) -> (bytes: Vec<u8>)
    requires
        title@.len() <= MAX_TEXT_LEN,
    ensures
        bytes@ == char_title_packet(object_id, title@),
{
    PacketBuilder::new(server::S_OPCODE_CHARTITLE)
        .write_d(object_id)
        .write_s(Some(title))
        .build()
}

/// The text fields of a list of message arguments, one after the other.
pub open spec fn argument_fields(args: Seq<&str>) -> Seq<u8>
    decreases args.len(),
{
    if args.len() == 0 {
        Seq::empty()
    } else {
        argument_fields(args.drop_last()) + field_s(args.last()@)
    }
}

/// The bytes of the packet that `build_system_message` builds: the message
/// id and its arguments.
pub open spec fn system_message_packet(msg_id: i32, args: Seq<&str>) -> Seq<u8> {
    seq![server::S_OPCODE_SERVERMSG] + field_c(9) + field_d(msg_id) + argument_fields(args)
}

/// Build S_SERVERMSG for a numbered system message with arguments.
pub fn build_system_message(msg_id: i32, args: &[&str]) -> (bytes: Vec<u8>)
    requires
        forall|i: int| 0 <= i < args@.len() ==> (#[trigger] args@[i])@.len() <= MAX_TEXT_LEN,
    ensures
        bytes@ == system_message_packet(msg_id, args@),
{
    let mut pb = PacketBuilder::new(server::S_OPCODE_SERVERMSG).write_c(9).write_d(msg_id);
    let ghost prefix = pb@;
    let mut i: usize = 0;
    assert(args@.take(0) =~= Seq::<&str>::empty());
    assert(pb@ =~= prefix + argument_fields(args@.take(0)));
    while i < args.len()
        invariant
            i <= args.len(),
            pb@ == prefix + argument_fields(args@.take(i as int)),
            forall|j: int| 0 <= j < args@.len() ==> (#[trigger] args@[j])@.len() <= MAX_TEXT_LEN,
        decreases args.len() - i,
    {
        let ghost before = pb@;
        pb = pb.write_s(Some(args[i]));
        proof {
            assert(args@.take(i + 1).drop_last() =~= args@.take(i as int));
            assert(pb@ =~= prefix + argument_fields(args@.take(i + 1)));
        }
        i += 1;
    }
    assert(args@.take(args@.len() as int) =~= args@);
    pb.build()
}

} // verus!
