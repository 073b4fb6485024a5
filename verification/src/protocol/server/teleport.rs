//! Teleport packets and the steps of a teleportation: portal entry,
//! bookmark teleport, scroll teleport.

use crate::protocol::encoding::MAX_TEXT_LEN;
use crate::protocol::opcodes::server;
use crate::protocol::packet::{field_c, field_d, field_h, field_s, PacketBuilder};
use vstd::prelude::*;

verus! {

/// The bytes of the packet that `build_map_id` builds.
pub open spec fn map_id_packet(map_id: i32, is_underwater: bool) -> Seq<u8> {
    seq![server::S_OPCODE_MAPID] + field_h(map_id) + field_c(if is_underwater { 1i32 } else { 0i32 }) + field_d(0) + field_d(0) + field_d(0)
}

/// Build the S_MAPID packet for map transition.
pub fn build_map_id(map_id: i32, is_underwater: bool) -> (bytes: Vec<u8>)
    ensures
        bytes@ == map_id_packet(map_id, is_underwater),
{
    PacketBuilder::new(server::S_OPCODE_MAPID)
        .write_h(map_id)
        .write_c(if is_underwater { 1 } else { 0 })
        .write_d(0)
        .write_d(0)
        .write_d(0)
        .build()
}

/// The bytes of the packet that `build_bookmark` builds.
pub open spec fn bookmark_packet(name: Seq<char>, map_id: i32, bookmark_id: i32, x: i32, y: i32) -> Seq<u8> {
    seq![server::S_OPCODE_BOOKMARKS] + field_s(name) + field_h(map_id) + field_d(bookmark_id) + field_h(x) + field_h(y)
}

/// Build S_BOOKMARKS packet - adds a bookmark entry on the client.
pub fn build_bookmark(name: &str, map_id: i32, bookmark_id: i32, x: i32, y: i32) -> (bytes: Vec<u8>)
    requires
        name@.len() <= MAX_TEXT_LEN,
    ensures
        bytes@ == bookmark_packet(name@, map_id, bookmark_id, x, y),
{
    PacketBuilder::new(server::S_OPCODE_BOOKMARKS)
        .write_s(Some(name))
        .write_h(map_id)
        .write_d(bookmark_id)
        .write_h(x)
        .write_h(y)
        .build()
}

/// The bytes of the packet that `build_own_char_at` builds.
pub open spec fn own_char_at_packet(object_id: i32, x: i32, y: i32, gfxid: i32, heading: i32, name: Seq<char>, clan_name: Seq<char>, lawful: i32) -> Seq<u8> {
    seq![server::S_OPCODE_CHARPACK] + field_h(x) + field_h(y) + field_d(object_id) + field_h(gfxid) + field_c(0) + field_c(heading) + field_c(0) + field_c(0) + field_d(1) + field_h(lawful) + field_s(name) + field_s(""@) + field_c(4) + field_d(0) + field_s(clan_name) + seq![0u8] + field_c(0xb0) + field_c(0xff) + field_c(0) + field_c(0) + field_c(0) + field_c(0xff) + field_c(0xff) + seq![0u8] + field_c(0)
}

/// Build S_OWNCHARPACK at a specific position.
fn build_own_char_at(object_id: i32, x: i32, y: i32, gfxid: i32, heading: i32, name: &str, clan_name: &str, lawful: i32) -> (bytes: Vec<u8>)
    requires
        name@.len() <= MAX_TEXT_LEN,
        clan_name@.len() <= MAX_TEXT_LEN,
    ensures
        bytes@ == own_char_at_packet(object_id, x, y, gfxid, heading, name@, clan_name@, lawful),
{
    proof {
        reveal_strlit("");
    }
    PacketBuilder::new(server::S_OPCODE_CHARPACK)
        .write_h(x)
        .write_h(y)
        .write_d(object_id)
        .write_h(gfxid)
        .write_c(0)
        .write_c(heading)
        .write_c(0)
        .write_c(0)
        .write_d(1)
        .write_h(lawful)
        .write_s(Some(name))
        .write_s(Some(""))
        .write_c(4)
        .write_d(0)
        .write_s(Some(clan_name))
        .write_s(None)
        .write_c(0xb0)
        .write_c(0xff)
        .write_c(0)
        .write_c(0)
        .write_c(0)
        .write_c(0xff)
        .write_c(0xff)
        .write_s(None)
        .write_c(0)
        .build()
}

/// Describes all state changes and packets needed for a teleportation.
///
/// The caller executes these steps:
///   1. Remove player from old map's visibility
///   2. Update player position in the grid
///   3. Send packets to the player
///   4. Send remove/add packets to nearby players on both maps
///   5. Teleport pets/summons if allowed
///   6. Clear player's known object list
#[derive(Debug)]
pub struct TeleportAction {
    /// Packets to send to the teleporting player, in order.
    pub player_packets: Vec<Vec<u8>>,
    /// New position after teleport.
    pub new_x: i32,
    pub new_y: i32,
    pub new_map_id: i32,
    pub new_heading: i32,
    /// Whether to show teleport animation/sound.
    pub show_effect: bool,
}

/// The teleport animation: graphic 169 on the teleporting object.
pub open spec fn teleport_sound_packet(object_id: i32) -> Seq<u8> {
    seq![server::S_OPCODE_SKILLSOUNDGFX] + field_d(object_id) + field_h(169)
}

impl TeleportAction {
    /// The bytes of the packets to send, in order.
    pub open spec fn packets(&self) -> Seq<Seq<u8>> {
        self.player_packets@.map_values(|p: Vec<u8>| p@)
    }
}

/// Build a full teleport action from portal entry: the new map, then the
/// character at its new place; without animation.
pub fn build_portal_teleport(
    object_id: i32,
    new_x: i32,
    new_y: i32,
    new_map_id: i32,
    new_heading: i32,
    gfxid: i32,
    name: &str,
    clan_name: &str,
    lawful: i32,
    is_underwater: bool,
) -> (action: TeleportAction)
    requires
        name@.len() <= MAX_TEXT_LEN,
        clan_name@.len() <= MAX_TEXT_LEN,
    ensures
        action.packets() == seq![
            map_id_packet(new_map_id, is_underwater),
            own_char_at_packet(
                object_id,
                new_x,
                new_y,
                gfxid,
                new_heading,
                name@,
                clan_name@,
                lawful,
            ),
        ],
        action.new_x == new_x,
        action.new_y == new_y,
        action.new_map_id == new_map_id,
        action.new_heading == new_heading,
        !action.show_effect,
{
    let mut packets: Vec<Vec<u8>> = Vec::new();
    packets.push(build_map_id(new_map_id, is_underwater));
    packets.push(
        build_own_char_at(object_id, new_x, new_y, gfxid, new_heading, name, clan_name, lawful),
    );
    let action = TeleportAction {
        player_packets: packets,
        new_x,
        new_y,
        new_map_id,
        new_heading,
        show_effect: false,
    };
    assert(action.packets() =~= seq![
        map_id_packet(new_map_id, is_underwater),
        own_char_at_packet(object_id, new_x, new_y, gfxid, new_heading, name@, clan_name@, lawful),
    ]);
    action
}

/// Build a teleport action with visual effect (spell teleport, scroll, etc):
/// the teleport animation, the new map, then the character at its new place.
pub fn build_effect_teleport(
    object_id: i32,
    new_x: i32,
    new_y: i32,
    new_map_id: i32,
    new_heading: i32,
    gfxid: i32,
    name: &str,
    clan_name: &str,
    lawful: i32,
    is_underwater: bool,
) -> (action: TeleportAction)
    requires
        name@.len() <= MAX_TEXT_LEN,
        clan_name@.len() <= MAX_TEXT_LEN,
    ensures
        action.packets() == seq![
            teleport_sound_packet(object_id),
            map_id_packet(new_map_id, is_underwater),
            own_char_at_packet(
                object_id,
                new_x,
                new_y,
                gfxid,
                new_heading,
                name@,
                clan_name@,
                lawful,
            ),
        ],
        action.new_x == new_x,
        action.new_y == new_y,
        action.new_map_id == new_map_id,
        action.new_heading == new_heading,
        action.show_effect,
{
    let mut packets: Vec<Vec<u8>> = Vec::new();
    packets.push(
        PacketBuilder::new(server::S_OPCODE_SKILLSOUNDGFX).write_d(object_id).write_h(169).build(),
    );
    packets.push(build_map_id(new_map_id, is_underwater));
    packets.push(
        build_own_char_at(object_id, new_x, new_y, gfxid, new_heading, name, clan_name, lawful),
    );
    let action = TeleportAction {
        player_packets: packets,
        new_x,
        new_y,
        new_map_id,
        new_heading,
        show_effect: true,
    };
    assert(action.packets() =~= seq![
        teleport_sound_packet(object_id),
        map_id_packet(new_map_id, is_underwater),
        own_char_at_packet(object_id, new_x, new_y, gfxid, new_heading, name@, clan_name@, lawful),
    ]);
    action
}

} // verus!
