//! Inventory-related server packets.

use crate::ecs::components::item::{view_name, ItemInstance, ItemTemplate};
use crate::protocol::encoding::MAX_TEXT_LEN;
use crate::text::lemma_decimal_len;
use crate::protocol::opcodes::server;
use crate::protocol::packet::{cut32, cut_len, cut_u32, field_c, field_d, field_h, field_s, PacketBuilder};
use vstd::prelude::*;

verus! {

/// The delete flag of an item: 3 for a sealed item (bless of 128 or more),
/// 7 for a tradable one, 2 otherwise.
pub open spec fn delete_flag(item: ItemInstance, template: ItemTemplate) -> i32 {
    if item.bless >= 128 {
        3
    } else if template.tradable {
        7
    } else {
        2
    }
}

/// Whether the display name of any instance of a template fits a text field.
pub open spec fn name_fits(template: ItemTemplate) -> bool {
    template.name@.len() + 13 <= MAX_TEXT_LEN
}

/// The bytes `before`, followed by one item entry as the item and inventory
/// list packets carry it.
pub open spec fn with_item_entry(before: Seq<u8>, item: ItemInstance, template: ItemTemplate) -> Seq<
    u8,
> {
    before + field_d(cut32(item.object_id as int)) + field_h(template.ground_gfx_id) + field_c(
        template.use_type,
    ) + field_c(item.charge_count) + field_h(template.inv_gfx_id) + field_c(item.bless) + field_d(
        item.count,
    ) + field_c(0) + field_s(view_name(item.enchant_level, template.name@)) + field_c(0) + field_c(
        0x17,
    ) + field_c(0) + field_h(0) + field_h(0) + field_c(item.enchant_level) + field_d(
        cut32(item.object_id as int),
    ) + field_d(0) + field_d(0) + field_d(delete_flag(item, template)) + field_c(0)
}

proof fn lemma_view_name_fits(item: ItemInstance, template: ItemTemplate)
    requires
        name_fits(template),
    ensures
        view_name(item.enchant_level, template.name@).len() <= MAX_TEXT_LEN,
{
    lemma_decimal_len(item.enchant_level as int);
}

/// Write a single item entry.
fn write_item_entry(pb: PacketBuilder, item: &ItemInstance, template: &ItemTemplate) -> (out:
    PacketBuilder)
    requires
        name_fits(*template),
    ensures
        out@ == with_item_entry(pb@, *item, *template),
{
    let view_name = item.get_view_name(template);
    proof {
        lemma_view_name_fits(*item, *template);
    }
    let delete_flag: i32 = if item.bless >= 128 {
        3
    } else if template.tradable {
        7
    } else {
        2
    };
    let id = cut_u32(item.object_id);
    pb.write_d(id).write_h(template.ground_gfx_id).write_c(template.use_type).write_c(
        item.charge_count,
    ).write_h(template.inv_gfx_id).write_c(item.bless).write_d(item.count).write_c(0).write_s(
        Some(view_name.as_str()),
    ).write_c(0).write_c(0x17).write_c(0).write_h(0).write_h(0).write_c(
        item.enchant_level,
    ).write_d(id).write_d(0).write_d(0).write_d(delete_flag).write_c(0)
}

/// The bytes of the packet that `build_add_item` builds.
pub open spec fn add_item_packet(item: ItemInstance, template: ItemTemplate) -> Seq<u8> {
    with_item_entry(seq![server::S_OPCODE_ADDITEM], item, template)
}

/// Build S_ADDITEM - adds a single item to the client's inventory display.
pub fn build_add_item(item: &ItemInstance, template: &ItemTemplate) -> (bytes: Vec<u8>)
    requires
        name_fits(*template),
    ensures
        bytes@ == add_item_packet(*item, *template),
{
    let pb = PacketBuilder::new(server::S_OPCODE_ADDITEM);
    write_item_entry(pb, item, template).build()
}

/// The bytes of the packet that `build_delete_inventory_item` builds.
pub open spec fn delete_inventory_item_packet(object_id: u32) -> Seq<u8> {
    seq![server::S_OPCODE_DELETEINVENTORYITEM] + field_d(cut32(object_id as int))
}

/// Build S_DELETEINVENTORYITEM - removes an item from client inventory.
pub fn build_delete_inventory_item(object_id: u32) -> (bytes: Vec<u8>)
    ensures
        bytes@ == delete_inventory_item_packet(object_id),
{
    PacketBuilder::new(server::S_OPCODE_DELETEINVENTORYITEM)
        .write_d(cut_u32(object_id))
        .build()
}

/// The bytes `before`, followed by the entries of an inventory list, one
/// after the other.
pub open spec fn with_item_entries(before: Seq<u8>, items: Seq<(ItemInstance, ItemTemplate)>) -> Seq<
    u8,
>
    decreases items.len(),
{
    if items.len() == 0 {
        before
    } else {
        with_item_entry(
            with_item_entries(before, items.drop_last()),
            items.last().0,
            items.last().1,
        )
    }
}

/// The bytes of the packet that `build_inv_list` builds: the number of
/// items, cut to 8 bits, and the entries.
pub open spec fn inv_list_packet(items: Seq<(ItemInstance, ItemTemplate)>) -> Seq<u8> {
    with_item_entries(
        seq![server::S_OPCODE_INVLIST] + field_c(cut32(items.len() as int)),
        items,
    )
}

/// Build S_INVLIST - sends the full inventory on login.
pub fn build_inv_list(items: &[(ItemInstance, ItemTemplate)]) -> (bytes: Vec<u8>)
    requires
        forall|i: int| 0 <= i < items@.len() ==> name_fits((#[trigger] items@[i]).1),
    ensures
        bytes@ == inv_list_packet(items@),
{
    let mut pb = PacketBuilder::new(server::S_OPCODE_INVLIST).write_c(cut_len(items.len()));
    let ghost prefix = pb@;
    let mut i: usize = 0;
    assert(items@.take(0) =~= Seq::<(ItemInstance, ItemTemplate)>::empty());
    while i < items.len()
        invariant
            i <= items.len(),
            pb@ == with_item_entries(prefix, items@.take(i as int)),
            forall|j: int| 0 <= j < items@.len() ==> name_fits((#[trigger] items@[j]).1),
        decreases items.len() - i,
    {
        let entry = &items[i];
        pb = write_item_entry(pb, &entry.0, &entry.1);
        proof {
            assert(items@.take(i + 1).drop_last() =~= items@.take(i as int));
        }
        i += 1;
    }
    assert(items@.take(items@.len() as int) =~= items@);
    pb.build()
}

/// The bytes of the packet that `build_item_status` builds.
pub open spec fn item_status_packet(item: ItemInstance, template: ItemTemplate) -> Seq<u8> {
    seq![server::S_OPCODE_ITEMSTATUS] + field_d(cut32(item.object_id as int)) + field_s(
        view_name(item.enchant_level, template.name@),
    ) + field_d(item.count) + field_c(0)
}

/// Build S_ITEMSTATUS - updates item display (count, enchant, name change).
pub fn build_item_status(item: &ItemInstance, template: &ItemTemplate) -> (bytes: Vec<u8>)
    requires
        name_fits(*template),
    ensures
        bytes@ == item_status_packet(*item, *template),
{
    let view_name = item.get_view_name(template);
    proof {
        lemma_view_name_fits(*item, *template);
    }
    PacketBuilder::new(server::S_OPCODE_ITEMSTATUS).write_d(cut_u32(item.object_id)).write_s(
        Some(view_name.as_str()),
    ).write_d(item.count).write_c(0).build()
}

} // verus!
