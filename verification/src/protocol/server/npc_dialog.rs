//! NPC dialogue and shop packets.
//!
//! Dialogue windows are HTML pages that the client renders in a popup.

use crate::protocol::encoding::MAX_TEXT_LEN;
use vstd::string::StringExecFns;
use crate::protocol::opcodes::server;
use crate::protocol::packet::{cut32, cut_len, field_d, field_h, field_s, PacketBuilder};
use vstd::prelude::*;

verus! {

/// The bytes of the packet that `build_show_html` builds.
pub open spec fn show_html_packet(object_id: i32, html: Seq<char>) -> Seq<u8> {
    seq![server::S_OPCODE_SHOWHTML] + field_d(object_id) + field_s(html)
}

/// Build S_SHOWHTML - opens an HTML dialogue window.
pub fn build_show_html(object_id: i32, html: &str) -> (bytes: Vec<u8>)
    requires
        html@.len() <= MAX_TEXT_LEN,
    ensures
        bytes@ == show_html_packet(object_id, html@),
{
    PacketBuilder::new(server::S_OPCODE_SHOWHTML)
        .write_d(object_id)
        .write_s(Some(html))
        .build()
}

/// The entries of a shop list, one after the other: item id, price and pack
/// count, 32 bits each.
pub open spec fn shop_entries(items: Seq<(i32, i32, i32)>) -> Seq<u8>
    decreases items.len(),
{
    if items.len() == 0 {
        Seq::empty()
    } else {
        shop_entries(items.drop_last()) + field_d(items.last().0) + field_d(items.last().1)
            + field_d(items.last().2)
    }
}

/// The bytes of the packet that `build_shop_buy_list` builds: the NPC, the
/// number of entries cut to 16 bits, and the entries.
pub open spec fn shop_buy_list_packet(npc_object_id: i32, items: Seq<(i32, i32, i32)>) -> Seq<u8> {
    seq![server::S_OPCODE_SHOWSHOPBUYLIST] + field_d(npc_object_id) + field_h(
        cut32(items.len() as int),
    ) + shop_entries(items)
}

/// Build S_SHOWSHOPBUYLIST - shows what a shop sells to the player.
///
/// Each entry: item_id, price, pack_count
pub fn build_shop_buy_list(npc_object_id: i32, items: &[(i32, i32, i32)]) -> (bytes: Vec<u8>)
    ensures
        bytes@ == shop_buy_list_packet(npc_object_id, items@),
{
    let mut pb = PacketBuilder::new(server::S_OPCODE_SHOWSHOPBUYLIST).write_d(
        npc_object_id,
    ).write_h(cut_len(items.len()));
    let ghost prefix = pb@;
    let mut i: usize = 0;
    assert(items@.take(0) =~= Seq::<(i32, i32, i32)>::empty());
    assert(pb@ =~= prefix + shop_entries(items@.take(0)));
    while i < items.len()
        invariant
            i <= items.len(),
            pb@ == prefix + shop_entries(items@.take(i as int)),
        decreases items.len() - i,
    {
        let (item_id, price, pack_count) = items[i];
        pb = pb.write_d(item_id).write_d(price).write_d(pack_count);
        proof {
            assert(items@.take(i + 1).drop_last() =~= items@.take(i as int));
            assert(pb@ =~= prefix + shop_entries(items@.take(i + 1)));
        }
        i += 1;
    }
    assert(items@.take(items@.len() as int) =~= items@);
    pb.build()
}

/// The bytes of the packet that `build_shop_sell_list` builds.
pub open spec fn shop_sell_list_packet(npc_object_id: i32) -> Seq<u8> {
    seq![server::S_OPCODE_SHOWSHOPSELLLIST] + field_d(npc_object_id)
}

/// Build S_SHOWSHOPSELLLIST - shows what the shop will buy from the player.
pub fn build_shop_sell_list(npc_object_id: i32) -> (bytes: Vec<u8>)
    ensures
        bytes@ == shop_sell_list_packet(npc_object_id),
{
    PacketBuilder::new(server::S_OPCODE_SHOWSHOPSELLLIST)
        .write_d(npc_object_id)
        .build()
}

/// The entries of a selection list, one after the other: the item's object
/// id (32 bits) and its name.
pub open spec fn select_entries(items: Seq<(i32, String)>) -> Seq<u8>
    decreases items.len(),
{
    if items.len() == 0 {
        Seq::empty()
    } else {
        select_entries(items.drop_last()) + field_d(items.last().0) + field_s(items.last().1@)
    }
}

/// The bytes of the packet that `build_select_list` builds: the NPC, the
/// number of entries cut to 16 bits, and the entries.
pub open spec fn select_list_packet(npc_object_id: i32, items: Seq<(i32, String)>) -> Seq<u8> {
    seq![server::S_OPCODE_SELECTLIST] + field_d(npc_object_id) + field_h(
        cut32(items.len() as int),
    ) + select_entries(items)
}

/// Build S_SELECTLIST - shows a list of items for repair/enchant.
pub fn build_select_list(npc_object_id: i32, items: &[(i32, String)]) -> (bytes: Vec<u8>)
    requires
        forall|i: int| 0 <= i < items@.len() ==> (#[trigger] items@[i]).1@.len() <= MAX_TEXT_LEN,
    ensures
        bytes@ == select_list_packet(npc_object_id, items@),
{
    let mut pb = PacketBuilder::new(server::S_OPCODE_SELECTLIST).write_d(npc_object_id).write_h(
        cut_len(items.len()),
    );
    let ghost prefix = pb@;
    let mut i: usize = 0;
    assert(items@.take(0) =~= Seq::<(i32, String)>::empty());
    assert(pb@ =~= prefix + select_entries(items@.take(0)));
    while i < items.len()
        invariant
            i <= items.len(),
            pb@ == prefix + select_entries(items@.take(i as int)),
            forall|j: int|
                0 <= j < items@.len() ==> (#[trigger] items@[j]).1@.len() <= MAX_TEXT_LEN,
        decreases items.len() - i,
    {
        let entry = &items[i];
        pb = pb.write_d(entry.0).write_s(Some(entry.1.as_str()));
        proof {
            assert(items@.take(i + 1).drop_last() =~= items@.take(i as int));
            assert(pb@ =~= prefix + select_entries(items@.take(i + 1)));
        }
        i += 1;
    }
    assert(items@.take(items@.len() as int) =~= items@);
    pb.build()
}

/// The bytes of the packet that `build_yes_no` builds.
pub open spec fn yes_no_packet(message_id: i32, yes_no_id: i32) -> Seq<u8> {
    seq![server::S_OPCODE_YES_NO] + field_h(yes_no_id) + field_d(message_id)
}

/// Build S_YES_NO - shows a confirmation dialog.
pub fn build_yes_no(message_id: i32, yes_no_id: i32) -> (bytes: Vec<u8>)
    ensures
        bytes@ == yes_no_packet(message_id, yes_no_id),
{
    PacketBuilder::new(server::S_OPCODE_YES_NO)
        .write_h(yes_no_id)
        .write_d(message_id)
        .build()
}

/// One button of a dialogue page: a link that sends `action` and shows
/// `label`.
pub open spec fn button_html(label: Seq<char>, action: Seq<char>) -> Seq<char> {
    "<a action=\""@ + action + "\">"@ + label + "</a><br>"@
}

/// The buttons of a dialogue page, one after the other.
pub open spec fn buttons_html(buttons: Seq<(&str, &str)>) -> Seq<char>
    decreases buttons.len(),
{
    if buttons.len() == 0 {
        Seq::empty()
    } else {
        buttons_html(buttons.drop_last()) + button_html(buttons.last().0@, buttons.last().1@)
    }
}

/// A simple dialogue page: the NPC's name as a centred heading, the message,
/// and the buttons.
pub open spec fn simple_dialog_html(
    npc_name: Seq<char>,
    message: Seq<char>,
    buttons: Seq<(&str, &str)>,
) -> Seq<char> {
    "<html><body><center><b>"@ + npc_name + "</b></center><br>"@ + message + "<br><br>"@
        + buttons_html(buttons) + "</body></html>"@
}

/// Build a simple NPC chat HTML page. Each button is a pair of label and
/// action.
pub fn build_simple_dialog(npc_name: &str, message: &str, buttons: &[(&str, &str)]) -> (html:
    String)
    ensures
        html@ == simple_dialog_html(npc_name@, message@, buttons@),
{
    let mut html = String::from_str("<html><body><center><b>");
    html.append(npc_name);
    html.append("</b></center><br>");
    html.append(message);
    html.append("<br><br>");
    let ghost prefix = html@;
    let mut i: usize = 0;
    assert(buttons@.take(0) =~= Seq::<(&str, &str)>::empty());
    assert(html@ =~= prefix + buttons_html(buttons@.take(0)));
    while i < buttons.len()
        invariant
            i <= buttons.len(),
            html@ == prefix + buttons_html(buttons@.take(i as int)),
        decreases buttons.len() - i,
    {
        let (label, action) = buttons[i];
        html.append("<a action=\"");
        html.append(action);
        html.append("\">");
        html.append(label);
        html.append("</a><br>");
        proof {
            assert(buttons@.take(i + 1).drop_last() =~= buttons@.take(i as int));
            assert(html@ =~= prefix + buttons_html(buttons@.take(i + 1)));
        }
        i += 1;
    }
    assert(buttons@.take(buttons@.len() as int) =~= buttons@);
    html.append("</body></html>");
    html
}

} // verus!
