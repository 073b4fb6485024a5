//! Item templates, item instances and the inventory.
//!
//! Three item categories: EtcItem, Weapon, Armor.

use crate::text::{decimal, push_decimal};
use std::collections::HashMap;
use vstd::prelude::*;
use vstd::std_specs::hash::*;
use vstd::string::StringExecFns;

pub mod equip_slot;

verus! {

broadcast use vstd::std_specs::hash::group_hash_axioms;

/// Item category.
#[derive(Debug, Clone, Copy, PartialEq)]
pub enum ItemType2 {
    EtcItem,
    Weapon,
    Armor,
}

/// Item template data.
#[derive(Debug, Clone)]
pub struct ItemTemplate {
    pub item_id: i32,
    pub name: String,
    pub type2: ItemType2,
    /// sub-type within category
    pub item_type: i32,
    pub use_type: i32,
    pub material: i32,
    pub weight: i32,
    /// inventory graphic
    pub inv_gfx_id: i32,
    /// dropped-on-ground graphic
    pub ground_gfx_id: i32,
    pub item_desc_id: i32,
    pub unidentified_name_id: String,
    pub identified_name_id: String,
    pub min_level: i32,
    pub max_level: i32,
    pub bless: i32,
    pub tradable: bool,
    pub cant_delete: bool,
    /// EtcItem only
    pub stackable: bool,
    pub max_charge_count: i32,
    // Weapon fields
    pub dmg_small: i32,
    pub dmg_large: i32,
    pub range: i32,
    pub safe_enchant: i32,
    pub hit_modifier: i32,
    pub dmg_modifier: i32,
    pub double_dmg_chance: i32,
    pub magic_dmg_modifier: i32,
    // Armor fields
    pub ac: i32,
    pub damage_reduction: i32,
    pub weight_reduction: i32,
    // Shared stat bonuses
    pub add_str: i32,
    pub add_dex: i32,
    pub add_con: i32,
    pub add_int: i32,
    pub add_wis: i32,
    pub add_cha: i32,
    pub add_hp: i32,
    pub add_mp: i32,
    pub add_hpr: i32,
    pub add_mpr: i32,
    pub add_sp: i32,
    pub m_def: i32,
    // Class restrictions
    pub use_royal: bool,
    pub use_knight: bool,
    pub use_elf: bool,
    pub use_mage: bool,
    pub use_darkelf: bool,
    pub use_dragonknight: bool,
    pub use_illusionist: bool,
    pub haste_item: bool,
    pub max_use_time: i32,
    /// EtcItem only
    pub food_volume: i32,
}

/// The template that `default` gives: an unnamed, weightless, tradable,
/// unblessed-normal (`bless == 1`) EtcItem with every number zero and every
/// other flag off.
pub open spec fn blank_template(t: ItemTemplate) -> bool {
    &&& t.name@ == Seq::<char>::empty()
    &&& t.unidentified_name_id@ == Seq::<char>::empty()
    &&& t.identified_name_id@ == Seq::<char>::empty()
    &&& t.type2 == ItemType2::EtcItem
    &&& t.bless == 1
    &&& t.tradable
    &&& t.item_id == 0
    &&& t.item_type == 0
    &&& t.use_type == 0
    &&& t.material == 0
    &&& t.weight == 0
    &&& t.inv_gfx_id == 0
    &&& t.ground_gfx_id == 0
    &&& t.item_desc_id == 0
    &&& t.min_level == 0
    &&& t.max_level == 0
    &&& t.max_charge_count == 0
    &&& t.dmg_small == 0
    &&& t.dmg_large == 0
    &&& t.range == 0
    &&& t.safe_enchant == 0
    &&& t.hit_modifier == 0
    &&& t.dmg_modifier == 0
    &&& t.double_dmg_chance == 0
    &&& t.magic_dmg_modifier == 0
    &&& t.ac == 0
    &&& t.damage_reduction == 0
    &&& t.weight_reduction == 0
    &&& t.add_str == 0
    &&& t.add_dex == 0
    &&& t.add_con == 0
    &&& t.add_int == 0
    &&& t.add_wis == 0
    &&& t.add_cha == 0
    &&& t.add_hp == 0
    &&& t.add_mp == 0
    &&& t.add_hpr == 0
    &&& t.add_mpr == 0
    &&& t.add_sp == 0
    &&& t.m_def == 0
    &&& t.max_use_time == 0
    &&& t.food_volume == 0
    &&& !t.cant_delete
    &&& !t.stackable
    &&& !t.use_royal
    &&& !t.use_knight
    &&& !t.use_elf
    &&& !t.use_mage
    &&& !t.use_darkelf
    &&& !t.use_dragonknight
    &&& !t.use_illusionist
    &&& !t.haste_item
}

impl Default for ItemTemplate {
    fn default() -> (t: Self)
        ensures
            blank_template(t),
    {
        ItemTemplate {
            item_id: 0,
            name: String::new(),
            type2: ItemType2::EtcItem,
            item_type: 0,
            use_type: 0,
            material: 0,
            weight: 0,
            inv_gfx_id: 0,
            ground_gfx_id: 0,
            item_desc_id: 0,
            unidentified_name_id: String::new(),
            identified_name_id: String::new(),
            min_level: 0,
            max_level: 0,
            bless: 1,
            tradable: true,
            cant_delete: false,
            stackable: false,
            max_charge_count: 0,
            dmg_small: 0,
            dmg_large: 0,
            range: 0,
            safe_enchant: 0,
            hit_modifier: 0,
            dmg_modifier: 0,
            double_dmg_chance: 0,
            magic_dmg_modifier: 0,
            ac: 0,
            damage_reduction: 0,
            weight_reduction: 0,
            add_str: 0,
            add_dex: 0,
            add_con: 0,
            add_int: 0,
            add_wis: 0,
            add_cha: 0,
            add_hp: 0,
            add_mp: 0,
            add_hpr: 0,
            add_mpr: 0,
            add_sp: 0,
            m_def: 0,
            use_royal: false,
            use_knight: false,
            use_elf: false,
            use_mage: false,
            use_darkelf: false,
            use_dragonknight: false,
            use_illusionist: false,
            haste_item: false,
            max_use_time: 0,
            food_volume: 0,
        }
    }
}

/// A single item instance owned by a character or on the ground.
#[derive(Debug, Clone)]
pub struct ItemInstance {
    pub object_id: u32,
    /// references ItemTemplate
    pub item_id: i32,
    pub count: i32,
    pub is_equipped: bool,
    pub enchant_level: i32,
    pub is_identified: bool,
    pub durability: i32,
    pub charge_count: i32,
    pub remaining_time: i32,
    pub bless: i32,
    /// 1=earth,2=fire,4=water,8=wind
    pub attr_enchant_kind: i32,
    pub attr_enchant_level: i32,
}

/// A fresh, single, unequipped, unidentified instance.
pub open spec fn fresh_item(object_id: u32, item_id: i32) -> ItemInstance {
    ItemInstance {
        object_id,
        item_id,
        count: 1,
        is_equipped: false,
        enchant_level: 0,
        is_identified: false,
        durability: 0,
        charge_count: 0,
        remaining_time: 0,
        bless: 1,
        attr_enchant_kind: 0,
        attr_enchant_level: 0,
    }
}

/// The display name: the template's name, with the enchant level in front
/// where it is positive ("+7 Sword").
pub open spec fn view_name(enchant_level: i32, name: Seq<char>) -> Seq<char> {
    if enchant_level > 0 {
        seq!['+'] + decimal(enchant_level as int) + seq![' '] + name
    } else {
        name
    }
}

/// A quotient rounded toward zero.
pub open spec fn quotient_toward_zero(a: int, b: int) -> int
    recommends
        b > 0,
{
    if a >= 0 {
        a / b
    } else {
        -((-a) / b)
    }
}

/// The 32-bit signed number with the same low 32 bits as `v`.
pub open spec fn low32(v: int) -> int {
    let m = v % 0x1_0000_0000;
    if m >= 0x8000_0000 {
        m - 0x1_0000_0000
    } else {
        m
    }
}

/// The weight of a stack: count times unit weight over 1000, at least 1,
/// kept to 32 bits.
pub open spec fn stack_weight(count: i32, unit_weight: i32) -> int {
    let w = quotient_toward_zero(count as int * unit_weight as int, 1000);
    low32(
        if w >= 1 {
            w
        } else {
            1
        },
    )
}

impl ItemInstance {
    pub fn new(object_id: u32, item_id: i32) -> (item: ItemInstance)
        ensures
            item == fresh_item(object_id, item_id),
    {
        ItemInstance {
            object_id,
            item_id,
            count: 1,
            is_equipped: false,
            enchant_level: 0,
            is_identified: false,
            durability: 0,
            charge_count: 0,
            remaining_time: 0,
            bless: 1,
            attr_enchant_kind: 0,
            attr_enchant_level: 0,
        }
    }

    /// Get the display name including enchant prefix.
    pub fn get_view_name(&self, template: &ItemTemplate) -> (name: String)
        ensures
            name@ == view_name(self.enchant_level, template.name@),
    {
        if self.enchant_level > 0 {
            proof {
                reveal_strlit("+");
                reveal_strlit(" ");
            }
            let mut name = String::from_str("+");
            push_decimal(&mut name, self.enchant_level as i64);
            name.append(" ");
            name.append(template.name.as_str());
            name
        } else {
            template.name.clone()
        }
    }

    /// Get effective weight (count * unit weight / 1000, min 1).
    pub fn get_weight(&self, template: &ItemTemplate) -> (w: i32)
        ensures
            w == stack_weight(self.count, template.weight),
    {
        let count = self.count;
        let unit = template.weight;
        assert(-0x4000_0000_0000_0000 <= count * unit <= 0x4000_0000_0000_0000)
            by (nonlinear_arith)
            requires
                -0x8000_0000 <= count <= 0x8000_0000,
                -0x8000_0000 <= unit <= 0x8000_0000,
        ;
        let product: i64 = count as i64 * unit as i64;
        let quotient: i64 = if product >= 0 {
            product / 1000
        } else {
            -((-product) / 1000)
        };
        let at_least_one: i64 = if quotient >= 1 {
            quotient
        } else {
            1
        };
        let low: i64 = at_least_one % 0x1_0000_0000;
        if low >= 0x8000_0000 {
            (low - 0x1_0000_0000) as i32
        } else {
            low as i32
        }
    }
}

/// Player inventory.
#[derive(Debug, Clone)]
pub struct Inventory {
    pub items: Vec<ItemInstance>,
    pub max_size: usize,
    pub max_weight: i32,
}

/// `k` is the index of the first item of kind `item_id`.
pub open spec fn is_first_of_kind(items: Seq<ItemInstance>, item_id: i32, k: int) -> bool {
    &&& 0 <= k < items.len()
    &&& items[k].item_id == item_id
    &&& forall|j: int| 0 <= j < k ==> items[j].item_id != item_id
}

/// Whether there is an item of kind `item_id`.
pub open spec fn has_kind(items: Seq<ItemInstance>, item_id: i32) -> bool {
    exists|k: int| 0 <= k < items.len() && #[trigger] items[k].item_id == item_id
}

/// The index of the first item of kind `item_id`.
pub open spec fn first_of_kind(items: Seq<ItemInstance>, item_id: i32) -> int {
    choose|k: int| is_first_of_kind(items, item_id, k)
}

/// `k` is the index of the first item with the given object id.
pub open spec fn is_first_object(items: Seq<ItemInstance>, object_id: u32, k: int) -> bool {
    &&& 0 <= k < items.len()
    &&& items[k].object_id == object_id
    &&& forall|j: int| 0 <= j < k ==> items[j].object_id != object_id
}

/// Whether there is an item with the given object id.
pub open spec fn has_object(items: Seq<ItemInstance>, object_id: u32) -> bool {
    exists|k: int| 0 <= k < items.len() && #[trigger] items[k].object_id == object_id
}

/// The index of the first item with the given object id.
pub open spec fn first_object(items: Seq<ItemInstance>, object_id: u32) -> int {
    choose|k: int| is_first_object(items, object_id, k)
}

/// Where there is an item of a kind, there is a first one, and it is the one
/// that `first_of_kind` names.
pub proof fn lemma_first_of_kind(items: Seq<ItemInstance>, item_id: i32)
    requires
        has_kind(items, item_id),
    ensures
        is_first_of_kind(items, item_id, first_of_kind(items, item_id)),
        forall|k: int| is_first_of_kind(items, item_id, k) ==> k == first_of_kind(items, item_id),
{
    let k = choose|k: int| 0 <= k < items.len() && #[trigger] items[k].item_id == item_id;
    lemma_least_of_kind(items, item_id, k);
    let first = first_of_kind(items, item_id);
    assert forall|j: int| is_first_of_kind(items, item_id, j) implies j == first by {
        if j < first {
            assert(items[j].item_id != item_id);
        } else if first < j {
            assert(items[first].item_id != item_id);
        }
    }
}

proof fn lemma_least_of_kind(items: Seq<ItemInstance>, item_id: i32, k: int)
    requires
        0 <= k < items.len(),
        items[k].item_id == item_id,
    ensures
        exists|j: int| is_first_of_kind(items, item_id, j),
    decreases k,
{
    if exists|j: int| 0 <= j < k && #[trigger] items[j].item_id == item_id {
        let j = choose|j: int| 0 <= j < k && #[trigger] items[j].item_id == item_id;
        lemma_least_of_kind(items, item_id, j);
    } else {
        assert(is_first_of_kind(items, item_id, k));
    }
}

/// Where there is an item with an object id, there is a first one, and it is
/// the one that `first_object` names.
pub proof fn lemma_first_object(items: Seq<ItemInstance>, object_id: u32)
    requires
        has_object(items, object_id),
    ensures
        is_first_object(items, object_id, first_object(items, object_id)),
        forall|k: int| is_first_object(items, object_id, k) ==> k == first_object(items, object_id),
{
    let k = choose|k: int| 0 <= k < items.len() && #[trigger] items[k].object_id == object_id;
    lemma_least_object(items, object_id, k);
    let first = first_object(items, object_id);
    assert forall|j: int| is_first_object(items, object_id, j) implies j == first by {
        if j < first {
            assert(items[j].object_id != object_id);
        } else if first < j {
            assert(items[first].object_id != object_id);
        }
    }
}

proof fn lemma_least_object(items: Seq<ItemInstance>, object_id: u32, k: int)
    requires
        0 <= k < items.len(),
        items[k].object_id == object_id,
    ensures
        exists|j: int| is_first_object(items, object_id, j),
    decreases k,
{
    if exists|j: int| 0 <= j < k && #[trigger] items[j].object_id == object_id {
        let j = choose|j: int| 0 <= j < k && #[trigger] items[j].object_id == object_id;
        lemma_least_object(items, object_id, j);
    } else {
        assert(is_first_object(items, object_id, k));
    }
}

/// An item with another count.
pub open spec fn with_count(item: ItemInstance, count: int) -> ItemInstance {
    ItemInstance { count: count as i32, ..item }
}

/// How many units of kind `item_id` the items hold together.
pub open spec fn units_of_kind(items: Seq<ItemInstance>, item_id: i32) -> int
    decreases items.len(),
{
    if items.len() == 0 {
        0
    } else {
        units_of_kind(items.drop_last(), item_id) + if items.last().item_id == item_id {
            items.last().count as int
        } else {
            0
        }
    }
}

/// The weight of all items whose template is known.
pub open spec fn weight_of_all(items: Seq<ItemInstance>, templates: Map<i32, ItemTemplate>) -> int
    decreases items.len(),
{
    if items.len() == 0 {
        0
    } else {
        weight_of_all(items.drop_last(), templates) + if templates.contains_key(
            items.last().item_id,
        ) {
            stack_weight(items.last().count, templates[items.last().item_id].weight)
        } else {
            0
        }
    }
}

impl Inventory {
    /// An empty inventory with room for 180 items.
    pub fn new() -> (inv: Inventory)
        ensures
            inv.items@ == Seq::<ItemInstance>::empty(),
            inv.max_size == 180,
            inv.max_weight == 300_000,
    {
        Inventory { items: Vec::new(), max_size: 180, max_weight: 300_000 }
    }

    fn position_of_kind(&self, item_id: i32) -> (k: usize)
        ensures
            k <= self.items@.len(),
            k < self.items@.len() <==> has_kind(self.items@, item_id),
            k < self.items@.len() ==> is_first_of_kind(self.items@, item_id, k as int) && k
                == first_of_kind(self.items@, item_id),
    {
        let mut i: usize = 0;
        while i < self.items.len()
            invariant
                i <= self.items.len(),
                forall|j: int| 0 <= j < i ==> self.items@[j].item_id != item_id,
            decreases self.items.len() - i,
        {
            if self.items[i].item_id == item_id {
                assert(is_first_of_kind(self.items@, item_id, i as int));
                return i;
            }
            i += 1;
        }
        i
    }

    fn position_of_object(&self, object_id: u32) -> (k: usize)
        ensures
            k <= self.items@.len(),
            k < self.items@.len() <==> has_object(self.items@, object_id),
            k < self.items@.len() ==> is_first_object(self.items@, object_id, k as int) && k
                == first_object(self.items@, object_id),
    {
        let mut i: usize = 0;
        while i < self.items.len()
            invariant
                i <= self.items.len(),
                forall|j: int| 0 <= j < i ==> self.items@[j].object_id != object_id,
            decreases self.items.len() - i,
        {
            if self.items[i].object_id == object_id {
                assert(is_first_object(self.items@, object_id, i as int));
                return i;
            }
            i += 1;
        }
        i
    }

    /// Add an item to inventory. A stackable item is merged into the first
    /// stack of its kind; anything else takes a new slot if one is free.
    /// Returns whether the item was taken.
    pub fn add_item(&mut self, item: ItemInstance, template: &ItemTemplate) -> (added: bool)
        requires
            template.stackable && has_kind(old(self).items@, item.item_id) ==> i32::MIN <= old(
                self,
            ).items@[first_of_kind(old(self).items@, item.item_id)].count + item.count
                <= i32::MAX,
        ensures
            final(self).max_size == old(self).max_size,
            final(self).max_weight == old(self).max_weight,
            template.stackable && has_kind(old(self).items@, item.item_id) ==> {
                let k = first_of_kind(old(self).items@, item.item_id);
                added && final(self).items@ == old(self).items@.update(
                    k,
                    with_count(old(self).items@[k], old(self).items@[k].count + item.count),
                )
            },
            !(template.stackable && has_kind(old(self).items@, item.item_id)) ==> {
                if old(self).items@.len() >= old(self).max_size {
                    !added && final(self).items@ == old(self).items@
                } else {
                    added && final(self).items@ == old(self).items@.push(item)
                }
            },
    {
        if template.stackable {
            let k = self.position_of_kind(item.item_id);
            if k < self.items.len() {
                let merged: i32 = self.items[k].count + item.count;
                self.items[k].count = merged;
                assert(self.items@ =~= old(self).items@.update(
                    k as int,
                    with_count(old(self).items@[k as int], merged as int),
                ));
                return true;
            }
        }
        if self.items.len() >= self.max_size {
            return false;
        }
        self.items.push(item);
        true
    }

    /// Remove a specific count of an item. A stack that holds no more than
    /// `count` leaves the inventory. Returns whether the item was found.
    pub fn remove_item(&mut self, object_id: u32, count: i32) -> (found: bool)
        requires
            has_object(old(self).items@, object_id) ==> old(self).items@[first_object(
                old(self).items@,
                object_id,
            )].count - count <= i32::MAX,
        ensures
            final(self).max_size == old(self).max_size,
            final(self).max_weight == old(self).max_weight,
            found == has_object(old(self).items@, object_id),
            !found ==> final(self).items@ == old(self).items@,
            found ==> {
                let k = first_object(old(self).items@, object_id);
                final(self).items@ == if old(self).items@[k].count <= count {
                    old(self).items@.remove(k)
                } else {
                    old(self).items@.update(
                        k,
                        with_count(old(self).items@[k], old(self).items@[k].count - count),
                    )
                }
            },
    {
        let k = self.position_of_object(object_id);
        if k < self.items.len() {
            if self.items[k].count <= count {
                self.items.remove(k);
            } else {
                let left: i32 = self.items[k].count - count;
                self.items[k].count = left;
                assert(self.items@ =~= old(self).items@.update(
                    k as int,
                    with_count(old(self).items@[k as int], left as int),
                ));
            }
            true
        } else {
            false
        }
    }

    /// Check if inventory contains item_id with at least `count` units.
    pub fn check_item(&self, item_id: i32, count: i32) -> (enough: bool)
        ensures
            enough == (units_of_kind(self.items@, item_id) >= count),
    {
        let mut total: i128 = 0;
        let mut i: usize = 0;
        assert(self.items@.take(0) =~= Seq::<ItemInstance>::empty());
        while i < self.items.len()
            invariant
                i <= self.items.len(),
                total == units_of_kind(self.items@.take(i as int), item_id),
                -0x8000_0000 * i <= total <= 0x8000_0000 * i,
            decreases self.items.len() - i,
        {
            assert(self.items@.take(i + 1).drop_last() =~= self.items@.take(i as int));
            if self.items[i].item_id == item_id {
                total = total + self.items[i].count as i128;
            }
            i += 1;
        }
        assert(self.items@.take(self.items@.len() as int) =~= self.items@);
        total >= count as i128
    }

    /// Find an item instance by object_id: the first one, if there are several.
    pub fn get_item(&self, object_id: u32) -> (item: Option<&ItemInstance>)
        ensures
            item is Some <==> has_object(self.items@, object_id),
            item is Some ==> *item.unwrap() == self.items@[first_object(self.items@, object_id)],
    {
        let k = self.position_of_object(object_id);
        if k < self.items.len() {
            Some(&self.items[k])
        } else {
            None
        }
    }

    /// Find an item instance by item_id: the first one, if there are several.
    pub fn find_item_id(&self, item_id: i32) -> (item: Option<&ItemInstance>)
        ensures
            item is Some <==> has_kind(self.items@, item_id),
            item is Some ==> *item.unwrap() == self.items@[first_of_kind(self.items@, item_id)],
    {
        let k = self.position_of_kind(item_id);
        if k < self.items.len() {
            Some(&self.items[k])
        } else {
            None
        }
    }

    /// Get total weight of all items whose template is known.
    pub fn get_total_weight(&self, templates: &HashMap<i32, ItemTemplate>) -> (w: i32)
        requires
            i32::MIN <= weight_of_all(self.items@, templates@) <= i32::MAX,
        ensures
            w == weight_of_all(self.items@, templates@),
    {
        let mut total: i128 = 0;
        let mut i: usize = 0;
        assert(self.items@.take(0) =~= Seq::<ItemInstance>::empty());
        while i < self.items.len()
            invariant
                i <= self.items.len(),
                total == weight_of_all(self.items@.take(i as int), templates@),
                -0x8000_0000 * i <= total <= 0x8000_0000 * i,
            decreases self.items.len() - i,
        {
            assert(self.items@.take(i + 1).drop_last() =~= self.items@.take(i as int));
            match templates.get(&self.items[i].item_id) {
                Some(t) => {
                    total = total + self.items[i].get_weight(t) as i128;
                },
                None => {},
            }
            i += 1;
        }
        assert(self.items@.take(self.items@.len() as int) =~= self.items@);
        total as i32
    }

    /// Get all currently equipped items, in inventory order.
    pub fn get_equipped(&self) -> (equipped: Vec<&ItemInstance>)
        ensures
            equipped@.map_values(|item: &ItemInstance| *item) == self.items@.filter(
                |item: ItemInstance| item.is_equipped,
            ),
    {
        let ghost worn = |item: ItemInstance| item.is_equipped;
        let ghost plain = |item: &ItemInstance| *item;
        let mut equipped: Vec<&ItemInstance> = Vec::new();
        let mut i: usize = 0;
        assert(self.items@.take(0) =~= Seq::<ItemInstance>::empty());
        assert(equipped@.map_values(plain) =~= Seq::<ItemInstance>::empty());
        while i < self.items.len()
            invariant
                i <= self.items.len(),
                worn == |item: ItemInstance| item.is_equipped,
                plain == |item: &ItemInstance| *item,
                equipped@.map_values(plain) == self.items@.take(i as int).filter(worn),
            decreases self.items.len() - i,
        {
            let ghost before = equipped@.map_values(plain);
            proof {
                self.items@.take(i as int).lemma_filter_push(self.items@[i as int], worn);
            }
            assert(self.items@.take(i + 1) =~= self.items@.take(i as int).push(
                self.items@[i as int],
            ));
            if self.items[i].is_equipped {
                equipped.push(&self.items[i]);
                assert(equipped@.map_values(plain) =~= before.push(self.items@[i as int]));
            }
            i += 1;
        }
        assert(self.items@.take(self.items@.len() as int) =~= self.items@);
        equipped
    }
}

} // verus!
