//! Grid-based spatial partitioning for visibility queries.
//!
//! Each map is divided into regions of 32x32 tiles. A neighborhood query
//! looks at the region of the query point and its eight neighbors only, so
//! its cost follows the local density and not the population of the map.

use std::collections::hash_map::Entry;
use std::collections::{HashMap, HashSet};
use vstd::prelude::*;
use vstd::std_specs::hash::*;
use vstd::std_specs::iter::IteratorSpec;

verus! {

broadcast use vstd::std_specs::hash::group_hash_axioms;

/// Region size in tiles. Each region covers 32x32 tiles.
pub const REGION_SIZE: i32 = 32;

/// Screen visibility is 18 tiles in each direction. With 32x32 regions,
/// the region of a point and its 8 neighbors cover it.
pub const SCREEN_RANGE: i32 = 18;

/// Object ID type.
pub type ObjectId = u32;

/// A region key: (map_id, region_x, region_y).
#[derive(Debug, Clone, Copy, PartialEq, Eq, Hash, Structural)]
pub struct RegionKey {
    pub map_id: i32,
    pub rx: i32,
    pub ry: i32,
}

/// What the index holds: for each occupied region, the ids in it.
pub type Buckets = Map<RegionKey, Set<ObjectId>>;

/// The region that a world position lies in: each coordinate divided by the
/// region size, rounding toward negative infinity.
pub open spec fn region_of(map_id: i32, x: i32, y: i32) -> RegionKey {
    RegionKey { map_id, rx: (x as int / 32) as i32, ry: (y as int / 32) as i32 }
}

/// The key at offset `(dx, dy)` from `c`, on the same map.
pub open spec fn shifted(c: RegionKey, dx: int, dy: int) -> RegionKey {
    RegionKey { map_id: c.map_id, rx: (c.rx + dx) as i32, ry: (c.ry + dy) as i32 }
}

/// The 3x3 block of keys around `c`, row by row, with `c` itself in the middle.
pub open spec fn neighbor_keys(c: RegionKey) -> Seq<RegionKey> {
    seq![
        shifted(c, -1, -1),
        shifted(c, 0, -1),
        shifted(c, 1, -1),
        shifted(c, -1, 0),
        c,
        shifted(c, 1, 0),
        shifted(c, -1, 1),
        shifted(c, 0, 1),
        shifted(c, 1, 1),
    ]
}

/// The ids in region `k`; none if the region is not occupied.
pub open spec fn bucket(g: Buckets, k: RegionKey) -> Set<ObjectId> {
    if g.contains_key(k) {
        g[k]
    } else {
        Set::empty()
    }
}

/// The index after `id` is put into region `k`.
pub open spec fn grid_add(g: Buckets, id: ObjectId, k: RegionKey) -> Buckets {
    g.insert(k, bucket(g, k).insert(id))
}

/// The index after `id` is taken out of region `k`. A region that becomes
/// empty is dropped; a region that is not occupied stays so.
pub open spec fn grid_remove(g: Buckets, id: ObjectId, k: RegionKey) -> Buckets {
    if !g.contains_key(k) {
        g
    } else if g[k].remove(id) =~= Set::empty() {
        g.remove(k)
    } else {
        g.insert(k, g[k].remove(id))
    }
}

/// The index after `id` is relocated from region `from` to region `to`:
/// nothing changes unless the two regions differ.
pub open spec fn grid_move(g: Buckets, id: ObjectId, from: RegionKey, to: RegionKey) -> Buckets {
    if from == to {
        g
    } else {
        grid_add(grid_remove(g, id, from), id, to)
    }
}

/// In how many of the first `n` keys' regions `id` is found.
pub open spec fn hits(g: Buckets, keys: Seq<RegionKey>, n: int, id: ObjectId) -> nat
    decreases n,
{
    if n <= 0 {
        0
    } else {
        hits(g, keys, n - 1, id) + if bucket(g, keys[n - 1]).contains(id) {
            1nat
        } else {
            0nat
        }
    }
}

/// How many ids the first `n` keys' regions hold together.
pub open spec fn population(g: Buckets, keys: Seq<RegionKey>, n: int) -> nat
    decreases n,
{
    if n <= 0 {
        0
    } else {
        population(g, keys, n - 1) + bucket(g, keys[n - 1]).len()
    }
}

/// How often a neighborhood query around region `c` reports `id`: once for
/// each of the nine regions that holds it.
pub open spec fn nearby_count(g: Buckets, c: RegionKey, id: ObjectId) -> nat {
    hits(g, neighbor_keys(c), 9, id)
}

/// How many ids a neighborhood query around region `c` reports.
pub open spec fn nearby_size(g: Buckets, c: RegionKey) -> nat {
    population(g, neighbor_keys(c), 9)
}

/// The entries of the index: each id together with a region that holds it.
pub open spec fn entries(g: Buckets) -> Set<(RegionKey, ObjectId)> {
    Set::new(|e: (RegionKey, ObjectId)| bucket(g, e.0).contains(e.1))
}

/// All ids the index holds, counted once for each region that holds them.
pub open spec fn grid_total(g: Buckets) -> nat {
    entries(g).len()
}

/// A region key as one number, so that it can key a hash map.
spec fn pack(k: RegionKey) -> u128 {
    ((k.map_id + 0x8000_0000) * 0x1_0000_0000_0000_0000 + (k.rx + 0x8000_0000) * 0x1_0000_0000 + (
    k.ry + 0x8000_0000)) as u128
}

/// The region key that a number stands for.
spec fn unpack(p: u128) -> RegionKey {
    RegionKey {
        map_id: ((p as int / 0x1_0000_0000) / 0x1_0000_0000 - 0x8000_0000) as i32,
        rx: ((p as int / 0x1_0000_0000) % 0x1_0000_0000 - 0x8000_0000) as i32,
        ry: (p as int % 0x1_0000_0000 - 0x8000_0000) as i32,
    }
}

proof fn lemma_split_word(hi: int, lo: int)
    requires
        0 <= hi,
        0 <= lo < 0x1_0000_0000,
    ensures
        (hi * 0x1_0000_0000 + lo) / 0x1_0000_0000 == hi,
        (hi * 0x1_0000_0000 + lo) % 0x1_0000_0000 == lo,
{
}

proof fn lemma_unpack_pack(a: RegionKey)
    ensures
        unpack(pack(a)) == a,
{
    let m: int = a.map_id + 0x8000_0000;
    let x: int = a.rx + 0x8000_0000;
    let y: int = a.ry + 0x8000_0000;
    let hi: int = m * 0x1_0000_0000 + x;
    assert(m * 0x1_0000_0000_0000_0000 + x * 0x1_0000_0000 + y == hi * 0x1_0000_0000 + y);
    assert(0 <= hi < 0x1_0000_0000_0000_0000);
    assert(pack(a) as int == hi * 0x1_0000_0000 + y);
    lemma_split_word(hi, y);
    lemma_split_word(m, x);
}

proof fn lemma_pack_injective(a: RegionKey, b: RegionKey)
    ensures
        pack(a) == pack(b) <==> a == b,
        unpack(pack(a)) == a,
{
    lemma_unpack_pack(a);
    lemma_unpack_pack(b);
}

impl RegionKey {
    /// Compute the region key for a world position.
    pub fn from_world(map_id: i32, x: i32, y: i32) -> (k: RegionKey)
        ensures
            k == region_of(map_id, x, y),
            -0x400_0000 <= k.rx < 0x400_0000,
            -0x400_0000 <= k.ry < 0x400_0000,
    {
        RegionKey { map_id, rx: floor_div_region(x), ry: floor_div_region(y) }
    }

    /// Get the 9 neighboring region keys (including self).
    pub fn neighbors(&self) -> (keys: [RegionKey; 9])
        requires
            i32::MIN < self.rx < i32::MAX,
            i32::MIN < self.ry < i32::MAX,
        ensures
            keys@ == neighbor_keys(*self),
    {
        let keys = [
            RegionKey { map_id: self.map_id, rx: self.rx - 1, ry: self.ry - 1 },
            RegionKey { map_id: self.map_id, rx: self.rx, ry: self.ry - 1 },
            RegionKey { map_id: self.map_id, rx: self.rx + 1, ry: self.ry - 1 },
            RegionKey { map_id: self.map_id, rx: self.rx - 1, ry: self.ry },
            *self,
            RegionKey { map_id: self.map_id, rx: self.rx + 1, ry: self.ry },
            RegionKey { map_id: self.map_id, rx: self.rx - 1, ry: self.ry + 1 },
            RegionKey { map_id: self.map_id, rx: self.rx, ry: self.ry + 1 },
            RegionKey { map_id: self.map_id, rx: self.rx + 1, ry: self.ry + 1 },
        ];
        assert(keys@ =~= neighbor_keys(*self));
        keys
    }

    fn packed(&self) -> (p: u128)
        ensures
            p == pack(*self),
    {
        let m: u128 = (self.map_id as i64 + 0x8000_0000) as u128;
        let x: u128 = (self.rx as i64 + 0x8000_0000) as u128;
        let y: u128 = (self.ry as i64 + 0x8000_0000) as u128;
        m * 0x1_0000_0000_0000_0000 + x * 0x1_0000_0000 + y
    }
}

/// A coordinate divided by the region size, rounding toward negative infinity.
fn floor_div_region(v: i32) -> (q: i32)
    ensures
        q == v as int / 32,
        -0x400_0000 <= q < 0x400_0000,
{
    if v >= 0 {
        v / REGION_SIZE
    } else {
        let n: i64 = -(v as i64);
        let q: i64 = (n + 31) / 32;
        (-q) as i32
    }
}

/// The grid index: maps each occupied region to the set of object ids in it.
pub struct WorldGrid {
    regions: HashMap<u128, HashSet<ObjectId>>,
}

/// The regions of a hash map keyed by packed region keys.
spec fn buckets_of(m: Map<u128, HashSet<ObjectId>>) -> Buckets {
    Map::new(|k: RegionKey| m.contains_key(pack(k)), |k: RegionKey| m[pack(k)]@)
}

/// Every key stands for a region, and no region is kept empty.
spec fn regions_ok(m: Map<u128, HashSet<ObjectId>>) -> bool {
    forall|p: u128| #[trigger]
        m.contains_key(p) ==> pack(unpack(p)) == p && !(m[p]@ =~= Set::empty())
            && m[p]@.finite()
}

impl View for WorldGrid {
    type V = Buckets;

    closed spec fn view(&self) -> Buckets {
        buckets_of(self.regions@)
    }
}

/// There are as many regions as there are keys in the hash map.
proof fn lemma_region_count(m: Map<u128, HashSet<ObjectId>>)
    requires
        regions_ok(m),
        m.dom().finite(),
    ensures
        buckets_of(m).dom().finite(),
        buckets_of(m).dom().len() == m.dom().len(),
{
    let g = buckets_of(m);
    let f = |p: u128| unpack(p);
    assert(m.dom().map(f) =~= g.dom()) by {
        assert forall|k: RegionKey| g.dom().contains(k) implies m.dom().map(f).contains(k) by {
            lemma_pack_injective(k, k);
            assert(m.dom().contains(pack(k)) && f(pack(k)) == k);
        }
    }
    assert(vstd::relations::injective_on(f, m.dom())) by {
        assert forall|a: u128, b: u128|
            m.dom().contains(a) && m.dom().contains(b) && #[trigger] f(a) == #[trigger] f(
                b,
            ) implies a == b by {
            assert(m.contains_key(a) && m.contains_key(b));
        }
    }
    vstd::set_lib::lemma_map_size(m.dom(), g.dom(), f);
}

/// An index of finitely many regions, each holding finitely many ids, has
/// finitely many entries.
proof fn lemma_entries_finite(m: Map<u128, HashSet<ObjectId>>)
    requires
        regions_ok(m),
        m.dom().finite(),
    ensures
        entries(buckets_of(m)).finite(),
{
    let g = buckets_of(m);
    lemma_region_count(m);
    assert forall|k: RegionKey| g.dom().contains(k) implies bucket(g, k).finite() by {
        assert(m.contains_key(pack(k)));
    }
    lemma_entries_of_regions_finite(g, g.dom());
    assert(entries_of_regions(g, g.dom()) =~= entries(g));
}

/// The entries of the regions in `seen`.
spec fn entries_of_regions(g: Buckets, seen: Set<RegionKey>) -> Set<(RegionKey, ObjectId)> {
    Set::new(|e: (RegionKey, ObjectId)| seen.contains(e.0) && bucket(g, e.0).contains(e.1))
}

/// The entries of one region.
spec fn entries_of_region(k: RegionKey, ids: Set<ObjectId>) -> Set<(RegionKey, ObjectId)> {
    Set::new(|e: (RegionKey, ObjectId)| e.0 == k && ids.contains(e.1))
}

/// A region has as many entries as it holds ids.
proof fn lemma_entries_of_one_region(k: RegionKey, ids: Set<ObjectId>)
    requires
        ids.finite(),
    ensures
        entries_of_region(k, ids).finite(),
        entries_of_region(k, ids).len() == ids.len(),
{
    let f = |id: ObjectId| (k, id);
    assert(ids.map(f) =~= entries_of_region(k, ids)) by {
        assert forall|e: (RegionKey, ObjectId)| entries_of_region(k, ids).contains(
            e,
        ) implies ids.map(f).contains(e) by {
            assert(ids.contains(e.1) && f(e.1) == e);
        }
    }
    assert(vstd::relations::injective_on(f, ids));
    vstd::set_lib::lemma_map_size(ids, entries_of_region(k, ids), f);
}

proof fn lemma_entries_of_regions_finite(g: Buckets, seen: Set<RegionKey>)
    requires
        seen.finite(),
        forall|k: RegionKey| seen.contains(k) ==> bucket(g, k).finite(),
    ensures
        entries_of_regions(g, seen).finite(),
    decreases seen.len(),
{
    if seen.len() == 0 {
        assert(entries_of_regions(g, seen) =~= Set::empty());
    } else {
        let k = seen.choose();
        let rest = seen.remove(k);
        lemma_entries_of_regions_finite(g, rest);
        lemma_entries_of_one_region(k, bucket(g, k));
        assert(entries_of_regions(g, seen) =~= entries_of_regions(g, rest) + entries_of_region(
            k,
            bucket(g, k),
        ));
    }
}

fn put(regions: &mut HashMap<u128, HashSet<ObjectId>>, id: ObjectId, key: RegionKey)
    requires
        regions_ok(old(regions)@),
    ensures
        regions_ok(final(regions)@),
        buckets_of(final(regions)@) == grid_add(buckets_of(old(regions)@), id, key),
{
    let p = key.packed();
    let set = regions.entry(p).or_insert(HashSet::new());
    set.insert(id);
    proof {
        let g0 = buckets_of(old(regions)@);
        let g1 = buckets_of(regions@);
        assert(regions@[p]@.contains(id));
        assert forall|k: RegionKey| g1.contains_key(k) <==> grid_add(g0, id, key).contains_key(
            k,
        ) by {
            lemma_pack_injective(k, key);
        }
        assert forall|k: RegionKey| g1.contains_key(k) implies g1[k] == grid_add(g0, id, key)[k] by {
            lemma_pack_injective(k, key);
            if k == key {
                assert(g1[k] =~= bucket(g0, key).insert(id));
            }
        }
        assert(g1 =~= grid_add(g0, id, key));
    }
}

fn take(regions: &mut HashMap<u128, HashSet<ObjectId>>, id: ObjectId, key: RegionKey)
    requires
        regions_ok(old(regions)@),
    ensures
        regions_ok(final(regions)@),
        buckets_of(final(regions)@) == grid_remove(buckets_of(old(regions)@), id, key),
{
    let p = key.packed();
    match regions.entry(p) {
        Entry::Occupied(mut occupied) => {
            let set = occupied.get_mut();
            set.remove(&id);
            let now_empty = set.is_empty();
            if now_empty {
                occupied.remove();
            }
        },
        Entry::Vacant(_) => {},
    }
    proof {
        let g0 = buckets_of(old(regions)@);
        let g1 = buckets_of(regions@);
        assert forall|k: RegionKey| g1.contains_key(k) <==> grid_remove(g0, id, key).contains_key(
            k,
        ) by {
            lemma_pack_injective(k, key);
        }
        assert forall|k: RegionKey| g1.contains_key(k) implies g1[k] == grid_remove(g0, id, key)[k] by {
            lemma_pack_injective(k, key);
        }
        assert(g1 =~= grid_remove(g0, id, key));
    }
}

impl WorldGrid {
    #[verifier::type_invariant]
    spec fn well_formed(&self) -> bool {
        regions_ok(self.regions@)
    }

    pub fn new() -> (grid: WorldGrid)
        ensures
            grid@ == Buckets::empty(),
            entries(grid@).finite(),
    {
        let grid = WorldGrid { regions: HashMap::new() };
        assert(grid@ =~= Buckets::empty());
        assert(entries(grid@) =~= Set::empty());
        grid
    }

    /// Add an object to the grid at the given world position.
    pub fn add(&mut self, id: ObjectId, map_id: i32, x: i32, y: i32)
        ensures
            final(self)@ == grid_add(old(self)@, id, region_of(map_id, x, y)),
            entries(final(self)@).finite(),
    {
        proof {
            use_type_invariant(&*self);
        }
        let key = RegionKey::from_world(map_id, x, y);
        let mut regions: HashMap<u128, HashSet<ObjectId>> = HashMap::new();
        core::mem::swap(&mut self.regions, &mut regions);
        put(&mut regions, id, key);
        core::mem::swap(&mut self.regions, &mut regions);
        proof {
            lemma_entries_finite(self.regions@);
        }
    }

    /// Number of occupied regions.
    pub fn active_regions(&self) -> (n: usize)
        ensures
            n == self@.dom().len(),
            self@.dom().finite(),
            entries(self@).finite(),
    {
        proof {
            use_type_invariant(self);
            lemma_region_count(self.regions@);
            lemma_entries_finite(self.regions@);
        }
        self.regions.len()
    }

    /// Remove an object from the grid at its current world position.
    pub fn remove(&mut self, id: ObjectId, map_id: i32, x: i32, y: i32)
        ensures
            final(self)@ == grid_remove(old(self)@, id, region_of(map_id, x, y)),
            entries(final(self)@).finite(),
    {
        proof {
            use_type_invariant(&*self);
        }
        let key = RegionKey::from_world(map_id, x, y);
        let mut regions: HashMap<u128, HashSet<ObjectId>> = HashMap::new();
        core::mem::swap(&mut self.regions, &mut regions);
        take(&mut regions, id, key);
        core::mem::swap(&mut self.regions, &mut regions);
        proof {
            lemma_entries_finite(self.regions@);
        }
    }
}

impl WorldGrid {
    /// Move an object from one position to another on the same map.
    ///
    /// Only updates the grid if the object moved to a different region.
    pub fn move_object(
        &mut self,
        id: ObjectId,
        map_id: i32,
        old_x: i32,
        old_y: i32,
        new_x: i32,
        new_y: i32,
    )
        ensures
            final(self)@ == grid_move(
                old(self)@,
                id,
                region_of(map_id, old_x, old_y),
                region_of(map_id, new_x, new_y),
            ),
            entries(final(self)@).finite(),
    {
        proof {
            use_type_invariant(&*self);
            lemma_entries_finite(self.regions@);
        }
        let old_key = RegionKey::from_world(map_id, old_x, old_y);
        let new_key = RegionKey::from_world(map_id, new_x, new_y);
        if old_key != new_key {
            let mut regions: HashMap<u128, HashSet<ObjectId>> = HashMap::new();
            core::mem::swap(&mut self.regions, &mut regions);
            take(&mut regions, id, old_key);
            put(&mut regions, id, new_key);
            core::mem::swap(&mut self.regions, &mut regions);
            proof {
                lemma_entries_finite(self.regions@);
            }
        }
    }

    /// Get all object IDs in the 9 surrounding regions of a position.
    ///
    /// The order of the result is not significant. An id is reported once for
    /// each of the nine regions that holds it.
    pub fn get_nearby(&self, map_id: i32, x: i32, y: i32) -> (result: Vec<ObjectId>)
        ensures
            forall|id: ObjectId| #[trigger]
                result@.to_multiset().count(id) == nearby_count(
                    self@,
                    region_of(map_id, x, y),
                    id,
                ),
            result@.len() == nearby_size(self@, region_of(map_id, x, y)),
    {
        broadcast use vstd::seq_lib::group_to_multiset_ensures;

        proof {
            use_type_invariant(self);
        }
        let center = RegionKey::from_world(map_id, x, y);
        let keys = center.neighbors();
        let mut result: Vec<ObjectId> = Vec::new();
        let mut i: usize = 0;
        while i < 9
            invariant
                i <= 9,
                keys@ == neighbor_keys(center),
                forall|id: ObjectId| #[trigger]
                    result@.to_multiset().count(id) == hits(self@, keys@, i as int, id),
                result@.len() == population(self@, keys@, i as int),
            decreases 9 - i,
        {
            let key = keys[i];
            let p = key.packed();
            let ghost before = result@;
            match self.regions.get(&p) {
                Some(set) => {
                    let Ghost(items) = append_all(set, &mut result);
                    proof {
                        assert(bucket(self@, key) == set@);
                        vstd::seq_lib::lemma_multiset_commutative(before, items);
                        items.lemma_multiset_has_no_duplicates();
                        items.unique_seq_to_set();
                        assert forall|id: ObjectId| #[trigger]
                            result@.to_multiset().count(id) == hits(
                                self@,
                                keys@,
                                i + 1,
                                id,
                            ) by {
                            vstd::seq_lib::to_multiset_contains(items, id);
                            assert(items.to_set().contains(id) <==> items.contains(id));
                        }
                    }
                },
                None => {
                    assert(bucket(self@, key) =~= Set::empty());
                },
            }
            i += 1;
        }
        result
    }
}

impl WorldGrid {
    /// Get total number of objects in the index. The total must fit `usize`;
    /// `checked_total_objects` asks for nothing.
    pub fn total_objects(&self) -> (n: usize)
        requires
            grid_total(self@) <= usize::MAX,
        ensures
            n == grid_total(self@),
            entries(self@).finite(),
    {
        let total = self.count_entries();
        total as usize
    }

    /// Get total number of objects in the index, if it fits `usize`.
    pub fn checked_total_objects(&self) -> (n: Option<usize>)
        ensures
            entries(self@).finite(),
            grid_total(self@) <= usize::MAX ==> n == Some(grid_total(self@) as usize),
            grid_total(self@) > usize::MAX ==> n is None,
    {
        let total = self.count_entries();
        if total <= usize::MAX as u128 {
            Some(total as usize)
        } else {
            None
        }
    }

    /// Counts the entries of the index, region by region.
    fn count_entries(&self) -> (total: u128)
        ensures
            total == grid_total(self@),
            entries(self@).finite(),
    {
        proof {
            use_type_invariant(self);
        }
        let count: usize = self.regions.len();
        let ghost g = self@;
        let ghost m = self.regions@;
        let ghost mut seen: Set<RegionKey> = Set::empty();
        let mut total: u128 = 0;
        assert(entries_of_regions(g, seen) =~= Set::empty());
        for entry in it: self.regions.iter()
            invariant
                g == self@,
                m == self.regions@,
                regions_ok(m),
                it.seq().len() == m.dom().len(),
                m.dom().len() == count,
                it.seq().no_duplicates(),
                forall|j: int|
                    0 <= j < it.seq().len() ==> m.contains_key(*(#[trigger] it.seq()[j]).0) && m[*it.seq()[j].0]
                        == *it.seq()[j].1,
                seen.finite(),
                seen.len() == it.index(),
                forall|k: RegionKey| #[trigger]
                    seen.contains(k) ==> g.contains_key(k) && exists|j: int|
                        0 <= j < it.index() && *(#[trigger] it.seq()[j]).0 == pack(k),
                entries_of_regions(g, seen).finite(),
                total == entries_of_regions(g, seen).len(),
                total <= it.index() * 0x1_0000_0000_0000_0000,
        {
            let size: usize = entry.1.len();
            proof {
                let i = it.index() as int;
                let p = *entry.0;
                let k = unpack(p);
                assert(entry == it.seq()[i]);
                assert(m.contains_key(p));
                assert(pack(k) == p);
                assert(g.contains_key(k));
                assert(g[k] == entry.1@);
                if seen.contains(k) {
                    let j = choose|j: int| 0 <= j < i && *(#[trigger] it.seq()[j]).0 == pack(k);
                    assert(*it.seq()[j].1 == m[p]);
                    assert(*it.seq()[i].1 == m[p]);
                    assert(it.seq()[j] == it.seq()[i]);
                    assert(false);
                }
                lemma_entries_of_one_region(k, g[k]);
                let old_part = entries_of_regions(g, seen);
                let added = entries_of_region(k, g[k]);
                assert(old_part.disjoint(added));
                vstd::set_lib::lemma_set_disjoint_lens(old_part, added);
                assert(entries_of_regions(g, seen.insert(k)) =~= old_part + added);
                seen = seen.insert(k);
                assert(size < 0x1_0000_0000_0000_0000);
                assert((i + 1) * 0x1_0000_0000_0000_0000 == i * 0x1_0000_0000_0000_0000
                    + 0x1_0000_0000_0000_0000) by (nonlinear_arith);
                assert(i < 0x1_0000_0000_0000_0000);
                assert(i * 0x1_0000_0000_0000_0000 <= 0xffff_ffff_ffff_ffff
                    * 0x1_0000_0000_0000_0000) by (nonlinear_arith)
                    requires
                        0 <= i <= 0xffff_ffff_ffff_ffff,
                ;
            }
            total = total + size as u128;
        }
        proof {
            lemma_region_count(m);
            assert(seen.subset_of(g.dom()));
            vstd::set_lib::lemma_subset_equality(seen, g.dom());
            assert(seen =~= g.dom());
            assert(entries_of_regions(g, seen) =~= entries(g));
        }
        total
    }
}

/// Appends the members of `set` to `out`, each once, in the set's own order.
fn append_all(set: &HashSet<ObjectId>, out: &mut Vec<ObjectId>) -> (items: Ghost<Seq<ObjectId>>)
    ensures
        final(out)@ == old(out)@ + items@,
        items@.no_duplicates(),
        items@.to_set() == set@,
        items@.len() == set@.len(),
        set@.finite(),
{
    let ghost start = out@;
    let ghost all: Seq<ObjectId> = set.iter().remaining().unref();
    let ghost mut done: Seq<ObjectId> = Seq::empty();
    for id in it: set.iter()
        invariant
            it.seq().unref() == all,
            done == all.take(it.index() as int),
            out@ == start + done,
    {
        out.push(*id);
        proof {
            assert(all.take(it.index() + 1) =~= all.take(it.index() as int).push(
                all[it.index() as int],
            ));
            done = done.push(*id);
        }
    }
    proof {
        assert(done =~= all);
        assert(set.iter().remaining().no_duplicates());
        assert(all.no_duplicates()) by {
            let r = set.iter().remaining();
            assert forall|i: int, j: int| 0 <= i < all.len() && 0 <= j < all.len() && i != j implies all[i] != all[j] by {
                assert(r[i] != r[j]);
            }
        }
    }
    Ghost(done)
}

/// An empty index holds nothing.
pub proof fn lemma_total_of_empty()
    ensures
        entries(Buckets::empty()).finite(),
        grid_total(Buckets::empty()) == 0,
{
    assert(entries(Buckets::empty()) =~= Set::empty());
}

/// Adding an id to a region that does not hold it yet raises the total by
/// one; adding it where it is already changes nothing.
pub proof fn lemma_total_after_add(g: Buckets, id: ObjectId, k: RegionKey)
    requires
        entries(g).finite(),
    ensures
        entries(grid_add(g, id, k)).finite(),
        grid_total(grid_add(g, id, k)) == grid_total(g) + if bucket(g, k).contains(id) {
            0nat
        } else {
            1nat
        },
{
    assert(entries(grid_add(g, id, k)) =~= entries(g).insert((k, id)));
}

/// Removing an id from a region that holds it lowers the total by one;
/// removing it where it is not changes nothing.
pub proof fn lemma_total_after_remove(g: Buckets, id: ObjectId, k: RegionKey)
    requires
        entries(g).finite(),
    ensures
        entries(grid_remove(g, id, k)).finite(),
        grid_total(grid_remove(g, id, k)) == grid_total(g) - if bucket(g, k).contains(id) {
            1nat
        } else {
            0nat
        },
{
    assert(entries(grid_remove(g, id, k)) =~= entries(g).remove((k, id))) by {
        assert forall|e: (RegionKey, ObjectId)|
            entries(grid_remove(g, id, k)).contains(e) == entries(g).remove((k, id)).contains(
                e,
            ) by {
            if g.contains_key(k) && g[k].remove(id) =~= Set::empty() && e.0 == k {
                assert(!g[k].remove(id).contains(e.1));
            }
        }
    }
}

/// A move keeps the total where the moved id is in the region it leaves and
/// not yet in the region it goes to.
pub proof fn lemma_total_after_move(g: Buckets, id: ObjectId, from: RegionKey, to: RegionKey)
    requires
        entries(g).finite(),
        bucket(g, from).contains(id),
        from != to ==> !bucket(g, to).contains(id),
    ensures
        entries(grid_move(g, id, from, to)).finite(),
        grid_total(grid_move(g, id, from, to)) == grid_total(g),
{
    if from != to {
        lemma_total_after_remove(g, id, from);
        let g1 = grid_remove(g, id, from);
        lemma_remove_other_region(g, id, from, to);
        lemma_total_after_add(g1, id, to);
        assert(entries(g).contains((from, id)));
    }
}

/// Removing an id from one region leaves every other region as it was.
proof fn lemma_remove_other_region(g: Buckets, id: ObjectId, from: RegionKey, k: RegionKey)
    requires
        from != k,
    ensures
        bucket(grid_remove(g, id, from), k) == bucket(g, k),
{
}

// ---------------------------------------------------------------------------
// Histories: what holds after any sequence of operations
// ---------------------------------------------------------------------------

/// A world position.
pub struct Place {
    pub map_id: i32,
    pub x: i32,
    pub y: i32,
}

/// One operation on the index.
pub enum GridOp {
    Add { id: ObjectId, at: Place },
    Remove { id: ObjectId, at: Place },
    Move { id: ObjectId, from: Place, to_x: i32, to_y: i32 },
}

/// The region a place lies in.
pub open spec fn place_region(p: Place) -> RegionKey {
    region_of(p.map_id, p.x, p.y)
}

/// Where a move ends: on the map it started on.
pub open spec fn move_target(from: Place, to_x: i32, to_y: i32) -> Place {
    Place { map_id: from.map_id, x: to_x, y: to_y }
}

/// The index after one operation.
pub open spec fn apply_op(g: Buckets, op: GridOp) -> Buckets {
    match op {
        GridOp::Add { id, at } => grid_add(g, id, place_region(at)),
        GridOp::Remove { id, at } => grid_remove(g, id, place_region(at)),
        GridOp::Move { id, from, to_x, to_y } => grid_move(
            g,
            id,
            place_region(from),
            place_region(move_target(from, to_x, to_y)),
        ),
    }
}

/// The last reported position of each known id after one operation: an
/// added id becomes known, a removed id is no longer known, and a move
/// updates the position of an id that is known.
pub open spec fn track_op(t: Map<ObjectId, Place>, op: GridOp) -> Map<ObjectId, Place> {
    match op {
        GridOp::Add { id, at } => t.insert(id, at),
        GridOp::Remove { id, at } => t.remove(id),
        GridOp::Move { id, from, to_x, to_y } => if t.contains_key(id) {
            t.insert(id, move_target(from, to_x, to_y))
        } else {
            t
        },
    }
}

/// The index after a sequence of operations on an empty index.
pub open spec fn apply_ops(ops: Seq<GridOp>) -> Buckets
    decreases ops.len(),
{
    if ops.len() == 0 {
        Map::empty()
    } else {
        apply_op(apply_ops(ops.drop_last()), ops.last())
    }
}

/// The known ids and their last reported positions after a sequence of
/// operations.
pub open spec fn positions(ops: Seq<GridOp>) -> Map<ObjectId, Place>
    decreases ops.len(),
{
    if ops.len() == 0 {
        Map::empty()
    } else {
        track_op(positions(ops.drop_last()), ops.last())
    }
}

/// A move of a known id starts in the region of its last reported position.
pub open spec fn move_follows(t: Map<ObjectId, Place>, op: GridOp) -> bool {
    match op {
        GridOp::Move { id, from, to_x, to_y } => t.contains_key(id) ==> place_region(t[id])
            == place_region(from),
        _ => true,
    }
}

/// Every move in the history starts where the moved id was last reported.
pub open spec fn moves_follow(ops: Seq<GridOp>) -> bool
    decreases ops.len(),
{
    ops.len() > 0 ==> moves_follow(ops.drop_last()) && move_follows(
        positions(ops.drop_last()),
        ops.last(),
    )
}

/// The caller's discipline for one operation: only an unknown id is added,
/// and only a known id is moved or removed, at the region of its last
/// reported position.
pub open spec fn op_in_order(t: Map<ObjectId, Place>, op: GridOp) -> bool {
    match op {
        GridOp::Add { id, at } => !t.contains_key(id),
        GridOp::Remove { id, at } => t.contains_key(id) && place_region(t[id]) == place_region(at),
        GridOp::Move { id, from, to_x, to_y } => t.contains_key(id) && place_region(t[id])
            == place_region(from),
    }
}

/// Every operation in the history keeps to the caller's discipline.
pub open spec fn in_order(ops: Seq<GridOp>) -> bool
    decreases ops.len(),
{
    ops.len() > 0 ==> in_order(ops.drop_last()) && op_in_order(
        positions(ops.drop_last()),
        ops.last(),
    )
}

/// An operation on one id leaves every other id where it was.
proof fn lemma_other_ids_untouched(g: Buckets, op: GridOp, other: ObjectId, k: RegionKey)
    requires
        match op {
            GridOp::Add { id, at } => id != other,
            GridOp::Remove { id, at } => id != other,
            GridOp::Move { id, from, to_x, to_y } => id != other,
        },
    ensures
        bucket(apply_op(g, op), k).contains(other) == bucket(g, k).contains(other),
{
    match op {
        GridOp::Add { id, at } => {},
        GridOp::Remove { id, at } => {
            lemma_remove_other(g, id, place_region(at), other, k);
        },
        GridOp::Move { id, from, to_x, to_y } => {
            lemma_remove_other(g, id, place_region(from), other, k);
        },
    }
}

proof fn lemma_remove_other(g: Buckets, id: ObjectId, from: RegionKey, other: ObjectId, k: RegionKey)
    requires
        id != other,
    ensures
        bucket(grid_remove(g, id, from), k).contains(other) == bucket(g, k).contains(other),
{
    if g.contains_key(from) && g[from].remove(id) =~= Set::empty() && k == from {
        assert(!g[from].remove(id).contains(other));
    }
}

/// The centre of a neighbourhood counts: an id in the region of the query
/// point is reported by the query.
pub proof fn lemma_center_is_nearby(g: Buckets, c: RegionKey, id: ObjectId)
    requires
        bucket(g, c).contains(id),
    ensures
        nearby_count(g, c, id) >= 1,
{
    reveal_with_fuel(hits, 10);
}

/// After any sequence of operations in which every move starts where the
/// moved id was last reported, each known id is in the region of its last
/// reported position, so a neighbourhood query at that position reports it.
pub proof fn lemma_known_ids_are_nearby(ops: Seq<GridOp>, id: ObjectId)
    requires
        moves_follow(ops),
        positions(ops).contains_key(id),
    ensures
        bucket(apply_ops(ops), place_region(positions(ops)[id])).contains(id),
        nearby_count(apply_ops(ops), place_region(positions(ops)[id]), id) >= 1,
    decreases ops.len(),
{
    if ops.len() > 0 {
        let before = ops.drop_last();
        let op = ops.last();
        let g = apply_ops(before);
        let t = positions(before);
        let touched = match op {
            GridOp::Add { id, at } => id,
            GridOp::Remove { id, at } => id,
            GridOp::Move { id, from, to_x, to_y } => id,
        };
        if touched != id {
            lemma_known_ids_are_nearby(before, id);
            lemma_other_ids_untouched(g, op, id, place_region(t[id]));
        } else {
            match op {
                GridOp::Add { id, at } => {},
                GridOp::Remove { id, at } => {},
                GridOp::Move { id, from, to_x, to_y } => {
                    lemma_known_ids_are_nearby(before, id);
                },
            }
        }
        lemma_center_is_nearby(apply_ops(ops), place_region(positions(ops)[id]), id);
    }
}

/// After any sequence of operations that keeps to the caller's discipline,
/// an id is in a region exactly if it is known and that region is the one
/// of its last reported position: every known id is in exactly one region,
/// and no other id is in any.
pub proof fn lemma_one_region_per_id(ops: Seq<GridOp>, id: ObjectId, k: RegionKey)
    requires
        in_order(ops),
    ensures
        bucket(apply_ops(ops), k).contains(id) <==> positions(ops).contains_key(id) && k
            == place_region(positions(ops)[id]),
    decreases ops.len(),
{
    if ops.len() > 0 {
        let before = ops.drop_last();
        let op = ops.last();
        let g = apply_ops(before);
        let t = positions(before);
        lemma_one_region_per_id(before, id, k);
        let touched = match op {
            GridOp::Add { id, at } => id,
            GridOp::Remove { id, at } => id,
            GridOp::Move { id, from, to_x, to_y } => id,
        };
        if touched != id {
            lemma_other_ids_untouched(g, op, id, k);
        } else {
            match op {
                GridOp::Add { id, at } => {},
                GridOp::Remove { id, at } => {
                    lemma_one_region_per_id(before, id, place_region(at));
                },
                GridOp::Move { id, from, to_x, to_y } => {
                    let a = place_region(from);
                    let b = place_region(move_target(from, to_x, to_y));
                    lemma_one_region_per_id(before, id, a);
                    lemma_one_region_per_id(before, id, b);
                    if a != b {
                        let g1 = grid_remove(g, id, a);
                        assert(!bucket(g1, a).contains(id));
                        assert(bucket(g1, k).contains(id) ==> bucket(g, k).contains(id));
                    }
                },
            }
        }
    }
}

/// Empty regions are pruned: after any sequence of operations, every region
/// that the index keeps holds at least one id.
pub proof fn lemma_no_empty_regions(ops: Seq<GridOp>, k: RegionKey)
    requires
        apply_ops(ops).contains_key(k),
    ensures
        exists|id: ObjectId| apply_ops(ops)[k].contains(id),
    decreases ops.len(),
{
    if ops.len() > 0 {
        let before = ops.drop_last();
        let g = apply_ops(before);
        if g.contains_key(k) {
            lemma_no_empty_regions(before, k);
        }
        match ops.last() {
            GridOp::Add { id, at } => {
                lemma_stays_occupied_by_add(g, id, place_region(at), k);
            },
            GridOp::Remove { id, at } => {
                lemma_stays_occupied_by_remove(g, id, place_region(at), k);
            },
            GridOp::Move { id, from, to_x, to_y } => {
                let a = place_region(from);
                let b = place_region(move_target(from, to_x, to_y));
                if a != b {
                    let g1 = grid_remove(g, id, a);
                    if g1.contains_key(k) {
                        lemma_stays_occupied_by_remove(g, id, a, k);
                    }
                    lemma_stays_occupied_by_add(g1, id, b, k);
                }
            },
        }
    }
}

proof fn lemma_stays_occupied_by_add(g: Buckets, id: ObjectId, at: RegionKey, k: RegionKey)
    requires
        grid_add(g, id, at).contains_key(k),
        g.contains_key(k) ==> exists|other: ObjectId| g[k].contains(other),
    ensures
        exists|other: ObjectId| grid_add(g, id, at)[k].contains(other),
{
    if k == at {
        assert(grid_add(g, id, at)[k].contains(id));
    } else {
        let other = choose|other: ObjectId| g[k].contains(other);
        assert(grid_add(g, id, at)[k].contains(other));
    }
}

proof fn lemma_stays_occupied_by_remove(g: Buckets, id: ObjectId, at: RegionKey, k: RegionKey)
    requires
        grid_remove(g, id, at).contains_key(k),
        g.contains_key(k) ==> exists|other: ObjectId| g[k].contains(other),
    ensures
        exists|other: ObjectId| grid_remove(g, id, at)[k].contains(other),
{
    if k == at {
        let left = g[at].remove(id);
        if forall|other: ObjectId| !left.contains(other) {
            assert(left =~= Set::empty());
        }
        let other = choose|other: ObjectId| left.contains(other);
        assert(grid_remove(g, id, at)[k].contains(other));
    } else {
        let other = choose|other: ObjectId| g[k].contains(other);
        assert(grid_remove(g, id, at)[k].contains(other));
    }
}

/// The distance between two coordinates.
pub open spec fn apart(a: i32, b: i32) -> int {
    if a >= b {
        a - b
    } else {
        b - a
    }
}

/// An id in a region next to the centre, or in the centre, is reported.
proof fn lemma_neighbor_is_nearby(g: Buckets, c: RegionKey, dx: int, dy: int, id: ObjectId)
    requires
        -1 <= dx <= 1,
        -1 <= dy <= 1,
        bucket(g, shifted(c, dx, dy)).contains(id),
    ensures
        nearby_count(g, c, id) >= 1,
{
    reveal_with_fuel(hits, 10);
    assert(shifted(c, 0, 0) == c);
}

/// The query covers the screen: after any sequence of operations in which
/// every move starts where the moved id was last reported, a known id whose
/// last reported position is on the map asked about and at most a region's
/// width (32 tiles, which is more than the screen range) away from the query
/// point on each axis is reported by the query.
pub proof fn lemma_query_covers_screen(ops: Seq<GridOp>, id: ObjectId, x: i32, y: i32)
    requires
        moves_follow(ops),
        positions(ops).contains_key(id),
        apart(positions(ops)[id].x, x) <= REGION_SIZE,
        apart(positions(ops)[id].y, y) <= REGION_SIZE,
    ensures
        nearby_count(apply_ops(ops), region_of(positions(ops)[id].map_id, x, y), id) >= 1,
{
    let at = positions(ops)[id];
    let c = region_of(at.map_id, x, y);
    let k = place_region(at);
    lemma_known_ids_are_nearby(ops, id);
    let dx = k.rx - c.rx;
    let dy = k.ry - c.ry;
    assert(k == shifted(c, dx, dy));
    lemma_neighbor_is_nearby(apply_ops(ops), c, dx, dy, id);
}

/// The query is local: after any sequence of operations that keeps to the
/// caller's discipline, an id that a query reports was last reported on the
/// map asked about and fewer than two regions' widths (64 tiles) away from
/// the query point on each axis.
pub proof fn lemma_query_is_local(ops: Seq<GridOp>, id: ObjectId, map_id: i32, x: i32, y: i32)
    requires
        in_order(ops),
        nearby_count(apply_ops(ops), region_of(map_id, x, y), id) >= 1,
    ensures
        positions(ops).contains_key(id),
        positions(ops)[id].map_id == map_id,
        apart(positions(ops)[id].x, x) < 2 * REGION_SIZE,
        apart(positions(ops)[id].y, y) < 2 * REGION_SIZE,
{
    reveal_with_fuel(hits, 10);
    let g = apply_ops(ops);
    let c = region_of(map_id, x, y);
    let keys = neighbor_keys(c);
    assert forall|i: int| 0 <= i < 9 && bucket(g, #[trigger] keys[i]).contains(id) implies {
        &&& positions(ops).contains_key(id)
        &&& positions(ops)[id].map_id == map_id
        &&& apart(positions(ops)[id].x, x) < 2 * REGION_SIZE
        &&& apart(positions(ops)[id].y, y) < 2 * REGION_SIZE
    } by {
        lemma_one_region_per_id(ops, id, keys[i]);
    }
    if !bucket(g, keys[0]).contains(id) && !bucket(g, keys[1]).contains(id) && !bucket(
        g,
        keys[2],
    ).contains(id) && !bucket(g, keys[3]).contains(id) && !bucket(g, keys[4]).contains(id)
        && !bucket(g, keys[5]).contains(id) && !bucket(g, keys[6]).contains(id) && !bucket(
        g,
        keys[7],
    ).contains(id) && !bucket(g, keys[8]).contains(id) {
        assert(false);
    }
}

/// A neighbourhood query only reports ids held by regions of the map that
/// was asked about.
pub proof fn lemma_nearby_stays_on_map(g: Buckets, c: RegionKey, id: ObjectId)
    requires
        nearby_count(g, c, id) > 0,
    ensures
        exists|k: RegionKey| k.map_id == c.map_id && #[trigger] bucket(g, k).contains(id),
{
    reveal_with_fuel(hits, 10);
    let keys = neighbor_keys(c);
    if forall|i: int| 0 <= i < 9 ==> !bucket(g, #[trigger] keys[i]).contains(id) {
        assert(!bucket(g, keys[0]).contains(id));
        assert(!bucket(g, keys[1]).contains(id));
        assert(!bucket(g, keys[2]).contains(id));
        assert(!bucket(g, keys[3]).contains(id));
        assert(!bucket(g, keys[4]).contains(id));
        assert(!bucket(g, keys[5]).contains(id));
        assert(!bucket(g, keys[6]).contains(id));
        assert(!bucket(g, keys[7]).contains(id));
        assert(!bucket(g, keys[8]).contains(id));
        assert(false);
    } else {
        let i = choose|i: int| 0 <= i < 9 && bucket(g, #[trigger] keys[i]).contains(id);
        assert(keys[i].map_id == c.map_id);
    }
}

/// Maps are isolated: after any sequence of operations that keeps to the
/// caller's discipline, an id known on one map is never reported by a
/// neighbourhood query on another map, whatever the coordinates.
pub proof fn lemma_maps_are_isolated(
    ops: Seq<GridOp>,
    id: ObjectId,
    other_map: i32,
    x: i32,
    y: i32,
)
    requires
        in_order(ops),
        positions(ops).contains_key(id),
        positions(ops)[id].map_id != other_map,
    ensures
        nearby_count(apply_ops(ops), region_of(other_map, x, y), id) == 0,
{
    let g = apply_ops(ops);
    let c = region_of(other_map, x, y);
    if nearby_count(g, c, id) > 0 {
        lemma_nearby_stays_on_map(g, c, id);
        let k = choose|k: RegionKey| k.map_id == c.map_id && #[trigger] bucket(g, k).contains(id);
        lemma_one_region_per_id(ops, id, k);
    }
}

/// What a neighbourhood query reports depends on the nine regions around the
/// query point only: two indexes that agree there give the same counts and
/// the same result size, however many ids they hold elsewhere.
pub proof fn lemma_nearby_is_local(g1: Buckets, g2: Buckets, c: RegionKey)
    requires
        forall|i: int| 0 <= i < 9 ==> bucket(g1, #[trigger] neighbor_keys(c)[i]) == bucket(g2, neighbor_keys(c)[i]),
    ensures
        nearby_size(g1, c) == nearby_size(g2, c),
        forall|id: ObjectId| nearby_count(g1, c, id) == nearby_count(g2, c, id),
{
    reveal_with_fuel(hits, 10);
    reveal_with_fuel(population, 10);
    let keys = neighbor_keys(c);
    assert(bucket(g1, keys[0]) == bucket(g2, keys[0]));
    assert(bucket(g1, keys[1]) == bucket(g2, keys[1]));
    assert(bucket(g1, keys[2]) == bucket(g2, keys[2]));
    assert(bucket(g1, keys[3]) == bucket(g2, keys[3]));
    assert(bucket(g1, keys[4]) == bucket(g2, keys[4]));
    assert(bucket(g1, keys[5]) == bucket(g2, keys[5]));
    assert(bucket(g1, keys[6]) == bucket(g2, keys[6]));
    assert(bucket(g1, keys[7]) == bucket(g2, keys[7]));
    assert(bucket(g1, keys[8]) == bucket(g2, keys[8]));
}

} // verus!
