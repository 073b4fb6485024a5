//! Clan (blood pledge) component: ranks, member management, and clan state.

use crate::text::same_text;
use vstd::prelude::*;

pub mod ranks;

verus! {

/// Full clan data.
#[derive(Debug, Clone)]
pub struct ClanData {
    pub clan_id: i32,
    pub clan_name: String,
    pub leader_id: i32,
    pub leader_name: String,
    pub castle_id: i32,
    pub house_id: i32,
    pub emblem_id: i32,
    pub emblem_status: i32,
    pub announcement: String,
    pub member_names: Vec<String>,
    /// Character ID currently using clan warehouse (0 = nobody).
    pub warehouse_using_char: i32,
}

/// The texts of a list of strings.
pub open spec fn texts(names: Seq<String>) -> Seq<Seq<char>> {
    names.map_values(|s: String| s@)
}

/// Whether `name` occurs in `names`.
pub fn contains_name(names: &Vec<String>, name: &str) -> (found: bool)
    ensures
        found == texts(names@).contains(name@),
{
    let mut i: usize = 0;
    while i < names.len()
        invariant
            i <= names.len(),
            forall|j: int| 0 <= j < i ==> names@[j]@ != name@,
        decreases names.len() - i,
    {
        if same_text(names[i].as_str(), name) {
            assert(texts(names@)[i as int] == name@);
            return true;
        }
        i += 1;
    }
    assert forall|j: int| 0 <= j < texts(names@).len() implies texts(names@)[j] != name@ by {
        assert(texts(names@)[j] == names@[j]@);
    }
    false
}

impl ClanData {
    /// The member names as plain texts, in order.
    pub open spec fn members(&self) -> Seq<Seq<char>> {
        texts(self.member_names@)
    }

    /// A new clan with a leader and no members, castle or house.
    pub fn new(clan_id: i32, clan_name: String, leader_id: i32, leader_name: String) -> (c:
        ClanData)
        ensures
            c.clan_id == clan_id,
            c.clan_name == clan_name,
            c.leader_id == leader_id,
            c.leader_name == leader_name,
            c.castle_id == 0,
            c.house_id == 0,
            c.emblem_id == 0,
            c.emblem_status == 0,
            c.announcement@ == Seq::<char>::empty(),
            c.members() == Seq::<Seq<char>>::empty(),
            c.warehouse_using_char == 0,
    {
        let c = ClanData {
            clan_id,
            clan_name,
            leader_id,
            leader_name,
            castle_id: 0,
            house_id: 0,
            emblem_id: 0,
            emblem_status: 0,
            announcement: String::new(),
            member_names: Vec::new(),
            warehouse_using_char: 0,
        };
        assert(c.members() =~= Seq::<Seq<char>>::empty());
        c
    }

    /// Adds a member unless the name is already on the list.
    pub fn add_member(&mut self, name: String)
        ensures
            final(self).members() == if old(self).members().contains(name@) {
                old(self).members()
            } else {
                old(self).members().push(name@)
            },
            final(self).clan_id == old(self).clan_id,
            final(self).clan_name == old(self).clan_name,
            final(self).leader_id == old(self).leader_id,
            final(self).leader_name == old(self).leader_name,
            final(self).castle_id == old(self).castle_id,
            final(self).house_id == old(self).house_id,
            final(self).emblem_id == old(self).emblem_id,
            final(self).emblem_status == old(self).emblem_status,
            final(self).announcement == old(self).announcement,
            final(self).warehouse_using_char == old(self).warehouse_using_char,
    {
        if !contains_name(&self.member_names, name.as_str()) {
            self.member_names.push(name);
            assert(self.members() =~= old(self).members().push(name@));
        }
    }

    /// Removes every occurrence of a name from the member list.
    pub fn remove_member(&mut self, name: &str)
        ensures
            final(self).members() == old(self).members().filter(|n: Seq<char>| n != name@),
            final(self).clan_id == old(self).clan_id,
            final(self).clan_name == old(self).clan_name,
            final(self).leader_id == old(self).leader_id,
            final(self).leader_name == old(self).leader_name,
            final(self).castle_id == old(self).castle_id,
            final(self).house_id == old(self).house_id,
            final(self).emblem_id == old(self).emblem_id,
            final(self).emblem_status == old(self).emblem_status,
            final(self).announcement == old(self).announcement,
            final(self).warehouse_using_char == old(self).warehouse_using_char,
    {
        broadcast use Seq::lemma_filter_push;

        let ghost all = self.members();
        let ghost keep = |n: Seq<char>| n != name@;
        let mut kept: Vec<String> = Vec::new();
        let mut i: usize = 0;
        assert(all.take(0) =~= Seq::<Seq<char>>::empty());
        assert(texts(kept@) =~= Seq::<Seq<char>>::empty());
        while i < self.member_names.len()
            invariant
                i <= self.member_names.len(),
                all == texts(self.member_names@),
                keep == |n: Seq<char>| n != name@,
                texts(kept@) == all.take(i as int).filter(keep),
                *self == *old(self),
            decreases self.member_names.len() - i,
        {
            let ghost before = texts(kept@);
            proof {
                all.take(i as int).lemma_filter_push(all[i as int], keep);
            }
            assert(all.take(i + 1) =~= all.take(i as int).push(all[i as int]));
            assert(all[i as int] == self.member_names@[i as int]@);
            if !same_text(self.member_names[i].as_str(), name) {
                kept.push(self.member_names[i].clone());
                assert(texts(kept@) =~= before.push(all[i as int]));
            }
            i += 1;
        }
        assert(all.take(all.len() as int) =~= all);
        self.member_names = kept;
    }

    pub fn member_count(&self) -> (n: usize)
        ensures
            n == self.members().len(),
    {
        self.member_names.len()
    }

    pub fn has_castle(&self) -> (b: bool)
        ensures
            b == (self.castle_id > 0),
    {
        self.castle_id > 0
    }

    pub fn has_house(&self) -> (b: bool)
        ensures
            b == (self.house_id > 0),
    {
        self.house_id > 0
    }
}

/// A player's clan membership component.
#[derive(Debug, Clone)]
pub struct ClanMembership {
    pub clan_id: i32,
    pub clan_name: String,
    pub rank: i32,
    /// index of the member within the clan
    pub member_id: i32,
    pub notes: String,
}

impl ClanMembership {
    /// The membership of a player without a clan.
    pub fn none() -> (m: ClanMembership)
        ensures
            m.clan_id == 0,
            m.clan_name@ == Seq::<char>::empty(),
            m.rank == 0,
            m.member_id == 0,
            m.notes@ == Seq::<char>::empty(),
    {
        ClanMembership {
            clan_id: 0,
            clan_name: String::new(),
            rank: 0,
            member_id: 0,
            notes: String::new(),
        }
    }

    pub fn is_leader(&self) -> (b: bool)
        ensures
            b == (self.rank == ranks::CLAN_RANK_PRINCE || self.rank
                == ranks::CLAN_RANK_LEAGUE_PRINCE),
    {
        self.rank == ranks::CLAN_RANK_PRINCE || self.rank == ranks::CLAN_RANK_LEAGUE_PRINCE
    }

    pub fn is_guardian(&self) -> (b: bool)
        ensures
            b == (self.rank == ranks::CLAN_RANK_GUARDIAN || self.rank
                == ranks::CLAN_RANK_LEAGUE_GUARDIAN),
    {
        self.rank == ranks::CLAN_RANK_GUARDIAN || self.rank == ranks::CLAN_RANK_LEAGUE_GUARDIAN
    }

    pub fn has_clan(&self) -> (b: bool)
        ensures
            b == (self.clan_id > 0),
    {
        self.clan_id > 0
    }

    /// Check if this rank can invite new members: leaders, guardians and the
    /// league's vice prince can.
    pub fn can_invite(&self) -> (b: bool)
        ensures
            b == (self.rank == ranks::CLAN_RANK_PRINCE || self.rank == ranks::CLAN_RANK_GUARDIAN
                || self.rank == ranks::CLAN_RANK_LEAGUE_PRINCE || self.rank
                == ranks::CLAN_RANK_LEAGUE_GUARDIAN || self.rank
                == ranks::CLAN_RANK_LEAGUE_VICEPRINCE),
    {
        self.rank == ranks::CLAN_RANK_PRINCE || self.rank == ranks::CLAN_RANK_GUARDIAN
            || self.rank == ranks::CLAN_RANK_LEAGUE_PRINCE || self.rank
            == ranks::CLAN_RANK_LEAGUE_GUARDIAN || self.rank == ranks::CLAN_RANK_LEAGUE_VICEPRINCE
    }
}

/// Adena cost to create a clan.
pub const CLAN_CREATE_COST: i32 = 30_000;

/// Adena item ID.
pub const ADENA_ITEM_ID: i32 = 40308;

} // verus!
