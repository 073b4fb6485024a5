//! Dungeon and portal entrances: maps source coordinates to destination
//! coordinates for portal teleportation.

use crate::text::{decimal, push_decimal};
use std::collections::HashMap;
use vstd::prelude::*;
use vstd::std_specs::hash::*;
use vstd::string::StringExecFns;

verus! {

broadcast use vstd::std_specs::hash::group_hash_axioms;

/// A single dungeon portal entry.
#[derive(Debug, Clone)]
pub struct DungeonEntry {
    pub src_map_id: i32,
    pub src_x: i32,
    pub src_y: i32,
    pub new_x: i32,
    pub new_y: i32,
    pub new_map_id: i32,
    pub new_heading: i32,
}

/// The number that stands for a place on a map: `x * 10000 + y`. Two places
/// on a map with the same number share a portal.
pub open spec fn place_code(x: i32, y: i32) -> int {
    x as int * 10000 + y as int
}

/// The number a portal is stored under: its map and its place code.
pub open spec fn portal_key(map_id: i32, x: i32, y: i32) -> i128 {
    (map_id as int * 0x1_0000_0000_0000_0000 + place_code(x, y)) as i128
}

/// The key of a portal as text: the map id, an underscore, the place code.
pub open spec fn portal_key_text(map_id: i32, x: i32, y: i32) -> Seq<char> {
    decimal(map_id as int) + seq!['_'] + decimal(place_code(x, y))
}

/// Dungeon portal lookup table.
pub struct DungeonTable {
    portals: HashMap<i128, DungeonEntry>,
}

impl View for DungeonTable {
    type V = Map<i128, DungeonEntry>;

    closed spec fn view(&self) -> Map<i128, DungeonEntry> {
        self.portals@
    }
}

/// Two places have the same key exactly if they are on the same map and have
/// the same place code.
pub proof fn lemma_portal_keys(map_a: i32, xa: i32, ya: i32, map_b: i32, xb: i32, yb: i32)
    ensures
        portal_key(map_a, xa, ya) == portal_key(map_b, xb, yb) <==> map_a == map_b && place_code(
            xa,
            ya,
        ) == place_code(xb, yb),
{
    let ca = place_code(xa, ya);
    let cb = place_code(xb, yb);
    assert(-0x2000_0000_0000 < ca < 0x2000_0000_0000);
    assert(-0x2000_0000_0000 < cb < 0x2000_0000_0000);
}

fn key_of(map_id: i32, x: i32, y: i32) -> (key: i128)
    ensures
        key == portal_key(map_id, x, y),
{
    let code: i64 = x as i64 * 10000 + y as i64;
    (map_id as i128) * 0x1_0000_0000_0000_0000 + code as i128
}

impl DungeonTable {
    /// A table without portals.
    pub fn new() -> (table: DungeonTable)
        ensures
            table@ == Map::<i128, DungeonEntry>::empty(),
    {
        DungeonTable { portals: HashMap::new() }
    }

    /// Build the portal key text from source coordinates.
    pub fn make_key(map_id: i32, x: i32, y: i32) -> (key: String)
        ensures
            key@ == portal_key_text(map_id, x, y),
    {
        proof {
            reveal_strlit("_");
        }
        let mut key = String::new();
        push_decimal(&mut key, map_id as i64);
        key.append("_");
        push_decimal(&mut key, x as i64 * 10000 + y as i64);
        assert(key@ =~= portal_key_text(map_id, x, y));
        key
    }

    /// Puts a portal into the table, under its source coordinates. A portal
    /// already stored under the same key is replaced.
    pub fn insert(&mut self, entry: DungeonEntry)
        ensures
            final(self)@ == old(self)@.insert(
                portal_key(entry.src_map_id, entry.src_x, entry.src_y),
                entry,
            ),
    {
        let key = key_of(entry.src_map_id, entry.src_x, entry.src_y);
        self.portals.insert(key, entry);
    }

    /// Number of portals.
    pub fn len(&self) -> (n: usize)
        ensures
            n == self@.dom().len(),
    {
        self.portals.len()
    }

    /// Look up a portal at the given source coordinates.
    pub fn find_portal(&self, map_id: i32, x: i32, y: i32) -> (portal: Option<&DungeonEntry>)
        ensures
            portal == if self@.contains_key(portal_key(map_id, x, y)) {
                Some(&self@[portal_key(map_id, x, y)])
            } else {
                None
            },
    {
        let key = key_of(map_id, x, y);
        self.portals.get(&key)
    }
}

} // verus!
