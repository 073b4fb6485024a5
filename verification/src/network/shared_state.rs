//! The registry of connected players.
//!
//! Every session registers its player here when it enters the world, keeps
//! the player's position current, and asks who is in screen range when it
//! has something to broadcast.

use std::collections::hash_map::Entry;
use std::collections::HashMap;
use tokio::sync::mpsc::UnboundedSender;
use vstd::prelude::*;
use vstd::slice::slice_to_vec;
use vstd::std_specs::hash::*;
use vstd::std_specs::iter::IteratorSpec;

verus! {

broadcast use vstd::std_specs::hash::group_hash_axioms;

/// Screen range in tiles, on each axis.
pub const VISIBLE_RANGE: i32 = 18;

/// The sending half of a player's outbound packet channel.
#[verifier::external_type_specification]
#[verifier::external_body]
#[verifier::reject_recursive_types(T)]
pub struct ExUnboundedSender<T>(UnboundedSender<T>);

/// What other connections see of a player.
pub struct PlayerRecord {
    pub object_id: i32,
    pub name: Seq<char>,
    pub x: i32,
    pub y: i32,
    pub map_id: i32,
    pub heading: i32,
    pub gfx_id: i32,
    pub level: i32,
    pub lawful: i32,
    pub char_type: i32,
    pub sex: i32,
    pub clan_name: Seq<char>,
    pub title: Seq<char>,
}

/// A connected player visible in the game world.
#[derive(Debug)]
pub struct OnlinePlayer {
    pub object_id: i32,
    pub name: String,
    pub x: i32,
    pub y: i32,
    pub map_id: i32,
    pub heading: i32,
    pub gfx_id: i32,
    pub level: i32,
    pub lawful: i32,
    pub char_type: i32,
    pub sex: i32,
    pub clan_name: String,
    pub title: String,
    /// Channel to send packets to this player's session.
    pub packet_tx: UnboundedSender<Vec<u8>>,
}

impl View for OnlinePlayer {
    type V = PlayerRecord;

    open spec fn view(&self) -> PlayerRecord {
        PlayerRecord {
            object_id: self.object_id,
            name: self.name@,
            x: self.x,
            y: self.y,
            map_id: self.map_id,
            heading: self.heading,
            gfx_id: self.gfx_id,
            level: self.level,
            lawful: self.lawful,
            char_type: self.char_type,
            sex: self.sex,
            clan_name: self.clan_name@,
            title: self.title@,
        }
    }
}

/// Another handle on the same channel.
///
/// Calls `Clone::clone` of tokio's `UnboundedSender`. Nothing is stated of
/// the result: a sender has no contents that the registry reads.
#[verifier::external_body]
fn another_sender(tx: &UnboundedSender<Vec<u8>>) -> (copy: UnboundedSender<Vec<u8>>) {
    tx.clone()
}

/// Hands a packet to a player's channel without waiting.
///
/// Calls tokio's `UnboundedSender::send` and reports whether the packet was
/// queued. Nothing is promised of the outcome: the receiving session may be
/// gone.
#[verifier::external_body]
fn try_deliver(tx: &UnboundedSender<Vec<u8>>, packet: Vec<u8>) -> (queued: bool) {
    tx.send(packet).is_ok()
}

impl Clone for OnlinePlayer {
    fn clone(&self) -> (copy: Self)
        ensures
            copy@ == self@,
    {
        OnlinePlayer {
            object_id: self.object_id,
            name: self.name.clone(),
            x: self.x,
            y: self.y,
            map_id: self.map_id,
            heading: self.heading,
            gfx_id: self.gfx_id,
            level: self.level,
            lawful: self.lawful,
            char_type: self.char_type,
            sex: self.sex,
            clan_name: self.clan_name.clone(),
            title: self.title.clone(),
            packet_tx: another_sender(&self.packet_tx),
        }
    }
}

/// The visibility predicate: another player is seen from `(map_id, x, y)` if
/// it is not the excluded one, is on the same map, and is at most
/// `VISIBLE_RANGE` tiles away on each axis.
pub open spec fn in_screen(r: PlayerRecord, map_id: i32, x: i32, y: i32, exclude_id: i32) -> bool {
    &&& r.object_id != exclude_id
    &&& r.map_id == map_id
    &&& -VISIBLE_RANGE <= r.x - x <= VISIBLE_RANGE
    &&& -VISIBLE_RANGE <= r.y - y <= VISIBLE_RANGE
}

/// The ids of the registered players seen from `(map_id, x, y)`.
pub open spec fn visible_ids(
    w: Map<i32, PlayerRecord>,
    map_id: i32,
    x: i32,
    y: i32,
    exclude_id: i32,
) -> Set<i32> {
    Set::new(|id: i32| w.contains_key(id) && in_screen(w[id], map_id, x, y, exclude_id))
}

/// The record after a position update.
pub open spec fn moved(r: PlayerRecord, x: i32, y: i32, heading: i32) -> PlayerRecord {
    PlayerRecord { x, y, heading, ..r }
}

/// All online players, keyed by object id.
pub struct WorldState {
    players: HashMap<i32, OnlinePlayer>,
}

/// The records of a hash map of players.
spec fn records_of(m: Map<i32, OnlinePlayer>) -> Map<i32, PlayerRecord> {
    Map::new(|id: i32| m.contains_key(id), |id: i32| m[id]@)
}

/// Every player is registered under its own id.
spec fn keyed_by_id(m: Map<i32, OnlinePlayer>) -> bool {
    forall|id: i32| #[trigger] m.contains_key(id) ==> m[id].object_id == id
}

/// The channels of a hash map of players.
spec fn channels_of(m: Map<i32, OnlinePlayer>) -> Map<i32, UnboundedSender<Vec<u8>>> {
    Map::new(|id: i32| m.contains_key(id), |id: i32| m[id].packet_tx)
}

impl View for WorldState {
    type V = Map<i32, PlayerRecord>;

    closed spec fn view(&self) -> Map<i32, PlayerRecord> {
        records_of(self.players@)
    }
}

fn visible_from(p: &OnlinePlayer, map_id: i32, x: i32, y: i32, exclude_id: i32) -> (b: bool)
    ensures
        b == in_screen(p@, map_id, x, y, exclude_id),
{
    let dx: i64 = p.x as i64 - x as i64;
    let dy: i64 = p.y as i64 - y as i64;
    p.object_id != exclude_id && p.map_id == map_id && -18 <= dx && dx <= 18 && -18 <= dy && dy
        <= 18
}

fn reposition(players: &mut HashMap<i32, OnlinePlayer>, object_id: i32, x: i32, y: i32, heading: i32)
    requires
        keyed_by_id(old(players)@),
    ensures
        keyed_by_id(final(players)@),
        channels_of(final(players)@) == channels_of(old(players)@),
        records_of(final(players)@) == if records_of(old(players)@).contains_key(object_id) {
            records_of(old(players)@).insert(
                object_id,
                moved(records_of(old(players)@)[object_id], x, y, heading),
            )
        } else {
            records_of(old(players)@)
        },
{
    match players.entry(object_id) {
        Entry::Occupied(mut occupied) => {
            let p = occupied.get_mut();
            p.x = x;
            p.y = y;
            p.heading = heading;
        },
        Entry::Vacant(_) => {},
    }
    proof {
        let w0 = records_of(old(players)@);
        let w1 = records_of(players@);
        assert(channels_of(players@) =~= channels_of(old(players)@));
        if w0.contains_key(object_id) {
            assert(w1 =~= w0.insert(object_id, moved(w0[object_id], x, y, heading)));
        } else {
            assert(w1 =~= w0);
        }
    }
}

impl WorldState {
    /// The outbound channel of each registered player, by object id.
    pub closed spec fn channels(&self) -> Map<i32, UnboundedSender<Vec<u8>>> {
        channels_of(self.players@)
    }

    #[verifier::type_invariant]
    spec fn well_formed(&self) -> bool {
        keyed_by_id(self.players@)
    }

    pub fn new() -> (w: WorldState)
        ensures
            w@ == Map::<i32, PlayerRecord>::empty(),
            w.channels() == Map::<i32, UnboundedSender<Vec<u8>>>::empty(),
    {
        let w = WorldState { players: HashMap::new() };
        assert(w@ =~= Map::<i32, PlayerRecord>::empty());
        assert(w.channels() =~= Map::<i32, UnboundedSender<Vec<u8>>>::empty());
        w
    }

    /// Register a player when they enter the game, with the channel that
    /// comes with it. A player already registered under the same id is
    /// replaced.
    pub fn add_player(&mut self, player: OnlinePlayer)
        ensures
            final(self)@ == old(self)@.insert(player.object_id, player@),
            final(self).channels() == old(self).channels().insert(
                player.object_id,
                player.packet_tx,
            ),
    {
        proof {
            use_type_invariant(&*self);
        }
        let mut players: HashMap<i32, OnlinePlayer> = HashMap::new();
        core::mem::swap(&mut self.players, &mut players);
        let ghost before = players@;
        players.insert(player.object_id, player);
        assert(records_of(players@) =~= records_of(before).insert(player.object_id, player@));
        assert(channels_of(players@) =~= channels_of(before).insert(
            player.object_id,
            player.packet_tx,
        ));
        core::mem::swap(&mut self.players, &mut players);
    }

    /// Remove a player when they leave. The others keep their channels.
    pub fn remove_player(&mut self, object_id: i32)
        ensures
            final(self)@ == old(self)@.remove(object_id),
            final(self).channels() == old(self).channels().remove(object_id),
    {
        proof {
            use_type_invariant(&*self);
        }
        let mut players: HashMap<i32, OnlinePlayer> = HashMap::new();
        core::mem::swap(&mut self.players, &mut players);
        let ghost before = players@;
        players.remove(&object_id);
        assert(records_of(players@) =~= records_of(before).remove(object_id));
        assert(channels_of(players@) =~= channels_of(before).remove(object_id));
        core::mem::swap(&mut self.players, &mut players);
    }

    /// Update a player's position after movement. An id that is not
    /// registered changes nothing. Every player keeps its channel.
    pub fn update_position(&mut self, object_id: i32, x: i32, y: i32, heading: i32)
        ensures
            final(self)@ == if old(self)@.contains_key(object_id) {
                old(self)@.insert(object_id, moved(old(self)@[object_id], x, y, heading))
            } else {
                old(self)@
            },
            final(self).channels() == old(self).channels(),
    {
        proof {
            use_type_invariant(&*self);
        }
        let mut players: HashMap<i32, OnlinePlayer> = HashMap::new();
        core::mem::swap(&mut self.players, &mut players);
        reposition(&mut players, object_id, x, y, heading);
        core::mem::swap(&mut self.players, &mut players);
    }

    /// Number of registered players.
    pub fn player_count(&self) -> (n: usize)
        ensures
            n == self@.dom().len(),
    {
        assert(self@.dom() =~= self.players@.dom());
        self.players.len()
    }

    /// The registered player with the given id, if there is one, with its
    /// record and its channel.
    pub fn get_player(&self, object_id: i32) -> (p: Option<&OnlinePlayer>)
        ensures
            p is Some <==> self@.contains_key(object_id),
            p is Some ==> p.unwrap()@ == self@[object_id],
            p is Some ==> p.unwrap().packet_tx == self.channels()[object_id],
            self.channels().dom() == self@.dom(),
    {
        assert(self.channels().dom() =~= self@.dom());
        self.players.get(&object_id)
    }

    /// Get all players on the same map within screen range (18 tiles),
    /// leaving out `exclude_id`. Each such player is returned once; the order
    /// is not significant.
    pub fn get_nearby_players(&self, map_id: i32, x: i32, y: i32, exclude_id: i32) -> (found: Vec<
        OnlinePlayer,
    >)
        ensures
            forall|i: int|
                0 <= i < found@.len() ==> {
                    &&& in_screen((#[trigger] found@[i])@, map_id, x, y, exclude_id)
                    &&& self@.contains_key(found@[i].object_id)
                    &&& self@[found@[i].object_id] == found@[i]@
                },
            forall|id: i32| #[trigger]
                visible_ids(self@, map_id, x, y, exclude_id).contains(id) ==> exists|i: int|
                    0 <= i < found@.len() && (#[trigger] found@[i]).object_id == id,
            forall|i: int, j: int|
                0 <= i < j < found@.len() ==> (#[trigger] found@[i]).object_id != (
                #[trigger] found@[j]).object_id,
    {
        proof {
            use_type_invariant(self);
        }
        let mut found: Vec<OnlinePlayer> = Vec::new();
        let ghost m = self.players@;
        let ghost all = self.players.iter().remaining();
        let ghost mut origin: Seq<int> = Seq::empty();
        let ghost mut n: int = 0;
        for entry in it: self.players.iter()
            invariant
                m == self.players@,
                keyed_by_id(m),
                it.seq() == all,
                n == it.index(),
                all.no_duplicates(),
                forall|j: int|
                    0 <= j < all.len() ==> m.contains_key(*(#[trigger] all[j]).0) && m[*all[j].0]
                        == *all[j].1,
                origin.len() == found@.len(),
                forall|i: int|
                    0 <= i < found@.len() ==> 0 <= #[trigger] origin[i] < n && found@[i]@ == (
                    *all[origin[i]].1)@,
                forall|i: int, j: int|
                    0 <= i < j < found@.len() ==> #[trigger] origin[i] < #[trigger] origin[j],
                forall|i: int|
                    0 <= i < found@.len() ==> in_screen(
                        (#[trigger] found@[i])@,
                        map_id,
                        x,
                        y,
                        exclude_id,
                    ),
                forall|j: int|
                    0 <= j < n && in_screen((*(#[trigger] all[j]).1)@, map_id, x, y, exclude_id)
                        ==> exists|i: int| 0 <= i < found@.len() && #[trigger] origin[i] == j,
        {
            let p: &OnlinePlayer = entry.1;
            assert(entry == all[n]);
            if visible_from(p, map_id, x, y, exclude_id) {
                let ghost old_origin = origin;
                let ghost old_len = found@.len();
                found.push(p.clone());
                proof {
                    origin = origin.push(n);
                    assert forall|j: int|
                        0 <= j < n + 1 && in_screen(
                            (*(#[trigger] all[j]).1)@,
                            map_id,
                            x,
                            y,
                            exclude_id,
                        ) implies exists|i: int| 0 <= i < found@.len() && #[trigger] origin[i] == j by {
                        if j < n {
                            let i0 = choose|i: int| 0 <= i < old_len && #[trigger] old_origin[i] == j;
                            assert(origin[i0] == j);
                        } else {
                            assert(origin[old_len as int] == j);
                        }
                    }
                }
            }
            proof {
                n = n + 1;
            }
        }
        proof {
            assert(n == all.len());
            assert forall|i: int| 0 <= i < found@.len() implies {
                &&& self@.contains_key((#[trigger] found@[i]).object_id)
                &&& self@[found@[i].object_id] == found@[i]@
            } by {
                let e = all[origin[i]];
                assert(m.contains_key(*e.0) && m[*e.0] == *e.1);
            }
            assert forall|id: i32| #[trigger]
                visible_ids(self@, map_id, x, y, exclude_id).contains(id) implies exists|i: int|
                0 <= i < found@.len() && (#[trigger] found@[i]).object_id == id by {
                assert(m.contains_key(id));
                let j = choose|j: int| 0 <= j < all.len() && *(#[trigger] all[j]).0 == id;
                assert(m[id] == *all[j].1);
                let i = choose|i: int| 0 <= i < found@.len() && #[trigger] origin[i] == j;
                assert(found@[i].object_id == id);
            }
            assert forall|i: int, j: int| 0 <= i < j < found@.len() implies (
            #[trigger] found@[i]).object_id != (#[trigger] found@[j]).object_id by {
                let a = all[origin[i]];
                let b = all[origin[j]];
                assert(origin[i] < origin[j]);
                if found@[i].object_id == found@[j].object_id {
                    assert(m.contains_key(*a.0) && m[*a.0] == *a.1);
                    assert(m.contains_key(*b.0) && m[*b.0] == *b.1);
                    assert(*a.0 == *b.0);
                    assert(a == b);
                }
            }
        }
        found
    }

    /// Send a packet to all nearby players: those that `get_nearby_players`
    /// would return. Each of them is handed a copy of the packet on its own
    /// channel, once. Delivery is best effort and never waits; a player whose
    /// session is gone is passed over. Returns who was served, each with
    /// whether the packet was queued for it; the order is not significant.
    pub fn broadcast_to_nearby(
        &self,
        map_id: i32,
        x: i32,
        y: i32,
        exclude_id: i32,
        packet: &[u8],
    ) -> (served: Vec<(i32, bool)>)
        ensures
            served_ids(served@).no_duplicates(),
            served_ids(served@).to_set() == visible_ids(self@, map_id, x, y, exclude_id),
    {
        proof {
            use_type_invariant(self);
        }
        let mut served: Vec<(i32, bool)> = Vec::new();
        let ghost m = self.players@;
        let ghost all = self.players.iter().remaining();
        let ghost mut origin: Seq<int> = Seq::empty();
        let ghost mut n: int = 0;
        for entry in it: self.players.iter()
            invariant
                m == self.players@,
                keyed_by_id(m),
                it.seq() == all,
                n == it.index(),
                all.no_duplicates(),
                forall|j: int|
                    0 <= j < all.len() ==> m.contains_key(*(#[trigger] all[j]).0) && m[*all[j].0]
                        == *all[j].1,
                origin.len() == served@.len(),
                forall|i: int|
                    0 <= i < served@.len() ==> 0 <= #[trigger] origin[i] < n && served@[i].0
                        == *all[origin[i]].0 && in_screen(
                        (*all[origin[i]].1)@,
                        map_id,
                        x,
                        y,
                        exclude_id,
                    ),
                forall|i: int, j: int|
                    0 <= i < j < served@.len() ==> #[trigger] origin[i] < #[trigger] origin[j],
                forall|j: int|
                    0 <= j < n && in_screen((*(#[trigger] all[j]).1)@, map_id, x, y, exclude_id)
                        ==> exists|i: int| 0 <= i < served@.len() && #[trigger] origin[i] == j,
        {
            let p: &OnlinePlayer = entry.1;
            assert(entry == all[n]);
            if visible_from(p, map_id, x, y, exclude_id) {
                let ghost old_origin = origin;
                let ghost old_len = served@.len();
                let delivered = try_deliver(&p.packet_tx, slice_to_vec(packet));
                served.push((p.object_id, delivered));
                proof {
                    origin = origin.push(n);
                    assert forall|j: int|
                        0 <= j < n + 1 && in_screen(
                            (*(#[trigger] all[j]).1)@,
                            map_id,
                            x,
                            y,
                            exclude_id,
                        ) implies exists|i: int| 0 <= i < served@.len() && #[trigger] origin[i] == j by {
                        if j < n {
                            let i0 = choose|i: int| 0 <= i < old_len && #[trigger] old_origin[i] == j;
                            assert(origin[i0] == j);
                        } else {
                            assert(origin[old_len as int] == j);
                        }
                    }
                }
            }
            proof {
                n = n + 1;
            }
        }
        proof {
            assert(n == all.len());
            let ids = served_ids(served@);
            let seen = visible_ids(self@, map_id, x, y, exclude_id);
            assert forall|i: int, j: int| 0 <= i < ids.len() && 0 <= j < ids.len() && i != j implies ids[i]
                != ids[j] by {
                let a = all[origin[i]];
                let b = all[origin[j]];
                if i < j {
                    assert(origin[i] < origin[j]);
                } else {
                    assert(origin[j] < origin[i]);
                }
                if ids[i] == ids[j] {
                    assert(m.contains_key(*a.0) && m[*a.0] == *a.1);
                    assert(m.contains_key(*b.0) && m[*b.0] == *b.1);
                    assert(a == b);
                }
            }
            assert forall|id: i32| ids.to_set().contains(id) <==> seen.contains(id) by {
                if ids.contains(id) {
                    let i = choose|i: int| 0 <= i < ids.len() && ids[i] == id;
                    let e = all[origin[i]];
                    assert(m.contains_key(*e.0) && m[*e.0] == *e.1);
                }
                if seen.contains(id) {
                    assert(m.contains_key(id));
                    let j = choose|j: int| 0 <= j < all.len() && *(#[trigger] all[j]).0 == id;
                    assert(m[id] == *all[j].1);
                    let i = choose|i: int| 0 <= i < served@.len() && #[trigger] origin[i] == j;
                    assert(ids[i] == id);
                }
            }
            assert(ids.to_set() =~= seen);
        }
        served
    }
}

/// The ids of those who were served, in the order in which they were served.
pub open spec fn served_ids(served: Seq<(i32, bool)>) -> Seq<i32> {
    served.map_values(|s: (i32, bool)| s.0)
}

/// Those for whom the packet was queued.
pub open spec fn queued(served: Seq<(i32, bool)>) -> Seq<(i32, bool)> {
    served.filter(|s: (i32, bool)| s.1)
}

/// Counts for how many of those who were served the packet was queued.
pub fn queued_count(served: &Vec<(i32, bool)>) -> (count: usize)
    ensures
        count == queued(served@).len(),
        count <= served@.len(),
{
    let ghost taken = |s: (i32, bool)| s.1;
    let mut count: usize = 0;
    let mut i: usize = 0;
    assert(served@.take(0) =~= Seq::<(i32, bool)>::empty());
    while i < served.len()
        invariant
            i <= served.len(),
            taken == |s: (i32, bool)| s.1,
            count == served@.take(i as int).filter(taken).len(),
            count <= i,
        decreases served.len() - i,
    {
        proof {
            served@.take(i as int).lemma_filter_push(served@[i as int], taken);
            assert(served@.take(i + 1) =~= served@.take(i as int).push(served@[i as int]));
        }
        if served[i].1 {
            count += 1;
        }
        i += 1;
    }
    assert(served@.take(served@.len() as int) =~= served@);
    count
}

/// The visibility predicate is exact: whoever is seen from a point is not the
/// excluded player, is on the map asked about, and is within screen range on
/// both axes; and whoever meets all of that and is registered is seen.
pub proof fn lemma_visibility_predicate(
    w: Map<i32, PlayerRecord>,
    map_id: i32,
    x: i32,
    y: i32,
    exclude_id: i32,
    id: i32,
)
    ensures
        visible_ids(w, map_id, x, y, exclude_id).contains(id) <==> {
            &&& w.contains_key(id)
            &&& w[id].object_id != exclude_id
            &&& w[id].map_id == map_id
            &&& vstd::math::abs(w[id].x - x) <= 18
            &&& vstd::math::abs(w[id].y - y) <= 18
        },
{
}

} // verus!
