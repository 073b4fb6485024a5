//! Skill system components: skill templates, active buffs/debuffs, and
//! cooldowns.

use std::collections::HashMap;
use vstd::prelude::*;
use vstd::std_specs::hash::*;
use vstd::std_specs::iter::IteratorSpec;

pub mod skill_ids;

verus! {

broadcast use vstd::std_specs::hash::group_hash_axioms;

/// Skill template.
#[derive(Debug, Clone)]
pub struct SkillTemplate {
    pub skill_id: i32,
    pub name: String,
    pub skill_level: i32,
    /// internal ID for the skill icon
    pub skill_number: i32,
    pub mp_consume: i32,
    pub hp_consume: i32,
    pub item_consume_id: i32,
    pub item_consume_count: i32,
    /// cooldown in ms
    pub reuse_delay: i32,
    /// buff duration in seconds (0 = instant)
    pub buff_duration: i32,
    /// "none","attack","buff","self" etc.
    pub target: String,
    /// target type enum
    pub target_to: i32,
    pub damage_value: i32,
    pub damage_dice: i32,
    pub damage_dice_count: i32,
    pub probability_value: i32,
    /// element: 0=none,1=earth,2=fire,4=water,8=wind
    pub attr: i32,
    /// 0=active, 1=passive
    pub skill_type: i32,
    /// penetrates barriers
    pub is_through: bool,
    pub range: i32,
    /// AoE range
    pub area: i32,
    /// casting animation
    pub action_id: i32,
    /// casting visual effect
    pub cast_gfx: i32,
    /// secondary effect
    pub cast_gfx2: i32,
    pub sys_msg_id_happen: i32,
    pub sys_msg_id_stop: i32,
    pub sys_msg_id_fail: i32,
}

/// Active buff/debuff effect on an entity.
#[derive(Debug, Clone)]
pub struct ActiveEffect {
    pub skill_id: i32,
    /// ticks left (0 = permanent until removed)
    pub remaining_ticks: u32,
    /// effect strength (e.g., AC bonus, damage per tick)
    pub value: i32,
}

/// An effect one tick later: a permanent effect stays as it is, any other
/// has one tick less to run.
pub open spec fn ticked(e: ActiveEffect) -> ActiveEffect {
    if e.remaining_ticks == 0 {
        e
    } else {
        ActiveEffect { remaining_ticks: (e.remaining_ticks - 1) as u32, ..e }
    }
}

/// Whether an effect runs out with the next tick.
pub open spec fn runs_out(e: ActiveEffect) -> bool {
    e.remaining_ticks == 1
}

/// The effects after one tick: those that run out are gone, the others are
/// one tick older.
pub open spec fn effects_after_tick(m: Map<i32, ActiveEffect>) -> Map<i32, ActiveEffect> {
    Map::new(|id: i32| m.contains_key(id) && !runs_out(m[id]), |id: i32| ticked(m[id]))
}

/// What one effect adds to a running sum of effect values.
pub open spec fn add_value(m: Map<i32, ActiveEffect>) -> spec_fn(int, i32) -> int {
    |acc: int, id: i32| acc + m[id].value
}

/// The sum of the values of all effects.
pub open spec fn sum_of_values(m: Map<i32, ActiveEffect>) -> int {
    m.dom().fold(0int, add_value(m))
}

/// Skill effects component - tracks all active buffs/debuffs on an entity.
#[derive(Debug, Clone)]
pub struct SkillEffects {
    /// Active effects keyed by skill_id.
    pub effects: HashMap<i32, ActiveEffect>,
}

impl SkillEffects {
    pub fn new() -> (s: SkillEffects)
        ensures
            s.effects@ == Map::<i32, ActiveEffect>::empty(),
    {
        SkillEffects { effects: HashMap::new() }
    }

    /// Add or refresh a buff/debuff.
    pub fn add_effect(&mut self, skill_id: i32, duration_ticks: u32, value: i32)
        ensures
            final(self).effects@ == old(self).effects@.insert(
                skill_id,
                (ActiveEffect { skill_id, remaining_ticks: duration_ticks, value }),
            ),
    {
        self.effects.insert(skill_id, ActiveEffect { skill_id, remaining_ticks: duration_ticks, value });
    }

    /// Remove an effect by skill_id. Returns whether it was active.
    pub fn remove_effect(&mut self, skill_id: i32) -> (was_active: bool)
        ensures
            final(self).effects@ == old(self).effects@.remove(skill_id),
            was_active == old(self).effects@.contains_key(skill_id),
    {
        self.effects.remove(&skill_id).is_some()
    }

    /// Check if a specific effect is active.
    pub fn has_effect(&self, skill_id: i32) -> (active: bool)
        ensures
            active == self.effects@.contains_key(skill_id),
    {
        self.effects.contains_key(&skill_id)
    }

    /// Tick all effects, removing expired ones. Returns the ids of the
    /// effects that expired, each once, in no particular order.
    pub fn tick(&mut self) -> (expired: Vec<i32>)
        ensures
            final(self).effects@ == effects_after_tick(old(self).effects@),
            expired@.no_duplicates(),
            forall|id: i32|
                expired@.contains(id) <==> old(self).effects@.contains_key(id) && runs_out(
                    old(self).effects@[id],
                ),
    {
        let mut expired: Vec<i32> = Vec::new();
        let mut kept: HashMap<i32, ActiveEffect> = HashMap::new();
        let ghost m = self.effects@;
        let ghost all = self.effects.iter().remaining();
        let ghost mut n: int = 0;
        for entry in it: self.effects.iter()
            invariant
                m == self.effects@,
                *self == *old(self),
                it.seq() == all,
                n == it.index(),
                all.no_duplicates(),
                forall|j: int|
                    0 <= j < all.len() ==> m.contains_key(*(#[trigger] all[j]).0) && m[*all[j].0]
                        == *all[j].1,
                forall|id: i32| #[trigger]
                    kept@.contains_key(id) <==> !runs_out(m[id]) && exists|j: int|
                        0 <= j < n && *(#[trigger] all[j]).0 == id,
                forall|id: i32| #[trigger] kept@.contains_key(id) ==> kept@[id] == ticked(m[id]),
                forall|id: i32|
                    expired@.contains(id) <==> runs_out(m[id]) && exists|j: int|
                        0 <= j < n && *(#[trigger] all[j]).0 == id,
                expired@.no_duplicates(),
        {
            let id: i32 = *entry.0;
            let e: &ActiveEffect = entry.1;
            assert(entry == all[n]);
            let ghost old_kept = kept@;
            let ghost old_expired = expired@;
            assert forall|j: int| 0 <= j < n implies *(#[trigger] all[j]).0 != id by {
                if *all[j].0 == id {
                    assert(all[j] == all[n]);
                }
            }
            if e.remaining_ticks == 0 {
                kept.insert(id, ActiveEffect { skill_id: e.skill_id, remaining_ticks: 0, value: e.value });
            } else if e.remaining_ticks == 1 {
                expired.push(id);
                assert(forall|k: int| 0 <= k < old_expired.len() ==> expired@[k] == old_expired[k]);
                assert(expired@[old_expired.len() as int] == id);
                assert(!old_expired.contains(id));
                assert forall|a: int, b: int|
                    0 <= a < expired@.len() && 0 <= b < expired@.len() && a != b implies expired@[a]
                    != expired@[b] by {
                    if a < old_expired.len() && b < old_expired.len() {
                        assert(old_expired[a] != old_expired[b]);
                    } else if a < old_expired.len() {
                        assert(old_expired.contains(old_expired[a]));
                    } else {
                        assert(old_expired.contains(old_expired[b]));
                    }
                }
            } else {
                kept.insert(
                    id,
                    ActiveEffect {
                        skill_id: e.skill_id,
                        remaining_ticks: e.remaining_ticks - 1,
                        value: e.value,
                    },
                );
            }
            proof {
                assert forall|k: i32| #[trigger]
                    kept@.contains_key(k) <==> !runs_out(m[k]) && exists|j: int|
                        0 <= j < n + 1 && *(#[trigger] all[j]).0 == k by {
                    if k == id {
                        assert(*all[n].0 == k);
                    } else {
                        if old_kept.contains_key(k) {
                            let j = choose|j: int| 0 <= j < n && *(#[trigger] all[j]).0 == k;
                            assert(0 <= j < n + 1 && *all[j].0 == k);
                        }
                        if exists|j: int| 0 <= j < n + 1 && *(#[trigger] all[j]).0 == k {
                            let j = choose|j: int| 0 <= j < n + 1 && *(#[trigger] all[j]).0 == k;
                            assert(j < n);
                        }
                    }
                }
                assert forall|k: i32|
                    expired@.contains(k) <==> runs_out(m[k]) && exists|j: int|
                        0 <= j < n + 1 && *(#[trigger] all[j]).0 == k by {
                    if k == id {
                        assert(*all[n].0 == k);
                        if runs_out(m[k]) {
                            assert(expired@[old_expired.len() as int] == k);
                        } else {
                            assert(expired@ == old_expired);
                        }
                    } else {
                        if old_expired.contains(k) {
                            let i = choose|i: int| 0 <= i < old_expired.len() && old_expired[i] == k;
                            assert(expired@[i] == k);
                            let j = choose|j: int| 0 <= j < n && *(#[trigger] all[j]).0 == k;
                            assert(0 <= j < n + 1 && *all[j].0 == k);
                        }
                        if expired@.contains(k) {
                            let i = choose|i: int| 0 <= i < expired@.len() && expired@[i] == k;
                            assert(old_expired[i] == k);
                        }
                        if exists|j: int| 0 <= j < n + 1 && *(#[trigger] all[j]).0 == k {
                            let j = choose|j: int| 0 <= j < n + 1 && *(#[trigger] all[j]).0 == k;
                            assert(j < n);
                        }
                    }
                }
                n = n + 1;
            }
        }
        proof {
            assert(n == all.len());
            assert forall|id: i32| m.contains_key(id) implies exists|j: int|
                0 <= j < n && *(#[trigger] all[j]).0 == id by {
                let j = choose|j: int| 0 <= j < all.len() && all[j] == (&id, &m[id]);
                assert(*all[j].0 == id);
            }
            assert(kept@ =~= effects_after_tick(m));
        }
        self.effects = kept;
        expired
    }

    /// Get total stat modifier from all active effects: the sum of their
    /// values, whatever the stat type.
    pub fn get_stat_modifier(&self, _stat_type: &str) -> (total: i32)
        requires
            i32::MIN <= sum_of_values(self.effects@) <= i32::MAX,
        ensures
            total == sum_of_values(self.effects@),
    {
        broadcast use vstd::set::fold::lemma_fold_insert, vstd::set::fold::lemma_fold_empty;

        let count: usize = self.effects.len();
        let ghost m = self.effects@;
        let ghost f = add_value(m);
        let ghost all = self.effects.iter().remaining();
        let ghost mut seen: Set<i32> = Set::empty();
        let ghost mut n: int = 0;
        let mut total: i128 = 0;
        assert(vstd::set::fold::is_fun_commutative(f));
        for entry in it: self.effects.iter()
            invariant
                m == self.effects@,
                f == add_value(m),
                vstd::set::fold::is_fun_commutative(f),
                it.seq() == all,
                n == it.index(),
                all.len() == count,
                all.no_duplicates(),
                forall|j: int|
                    0 <= j < all.len() ==> m.contains_key(*(#[trigger] all[j]).0) && m[*all[j].0]
                        == *all[j].1,
                seen.finite(),
                seen.len() == n,
                seen.subset_of(m.dom()),
                forall|id: i32| #[trigger]
                    seen.contains(id) ==> exists|j: int|
                        0 <= j < n && *(#[trigger] all[j]).0 == id,
                total == seen.fold(0int, f),
                -0x8000_0000 * n <= total <= 0x8000_0000 * n,
        {
            let value: i32 = entry.1.value;
            proof {
                let id = *entry.0;
                assert(entry == all[n]);
                if seen.contains(id) {
                    let j = choose|j: int| 0 <= j < n && *(#[trigger] all[j]).0 == id;
                    assert(all[j] == all[n]);
                    assert(false);
                }
                vstd::set::fold::lemma_fold_insert(seen, 0int, f, id);
                seen = seen.insert(id);
                n = n + 1;
            }
            total = total + value as i128;
        }
        proof {
            vstd::set_lib::lemma_subset_equality(seen, m.dom());
        }
        total as i32
    }
}

/// Skill cooldown tracker.
#[derive(Debug, Clone)]
pub struct SkillCooldowns {
    /// skill_id -> ticks remaining until usable
    pub cooldowns: HashMap<i32, u32>,
}

/// The cooldowns after one tick: each is one tick shorter, and those that
/// reach zero are gone.
pub open spec fn cooldowns_after_tick(m: Map<i32, u32>) -> Map<i32, u32> {
    Map::new(|id: i32| m.contains_key(id) && m[id] > 1, |id: i32| (m[id] - 1) as u32)
}

impl SkillCooldowns {
    pub fn new() -> (c: SkillCooldowns)
        ensures
            c.cooldowns@ == Map::<i32, u32>::empty(),
    {
        SkillCooldowns { cooldowns: HashMap::new() }
    }

    pub fn set_cooldown(&mut self, skill_id: i32, ticks: u32)
        ensures
            final(self).cooldowns@ == old(self).cooldowns@.insert(skill_id, ticks),
    {
        self.cooldowns.insert(skill_id, ticks);
    }

    /// A skill is ready if it has no cooldown or its cooldown is zero.
    pub fn is_ready(&self, skill_id: i32) -> (ready: bool)
        ensures
            ready == (!self.cooldowns@.contains_key(skill_id) || self.cooldowns@[skill_id] == 0),
    {
        match self.cooldowns.get(&skill_id) {
            Some(ticks) => *ticks == 0,
            None => true,
        }
    }

    /// Counts every cooldown down by one tick and drops those that are over.
    pub fn tick(&mut self)
        ensures
            final(self).cooldowns@ == cooldowns_after_tick(old(self).cooldowns@),
    {
        let mut kept: HashMap<i32, u32> = HashMap::new();
        let ghost m = self.cooldowns@;
        let ghost all = self.cooldowns.iter().remaining();
        let ghost mut n: int = 0;
        for entry in it: self.cooldowns.iter()
            invariant
                m == self.cooldowns@,
                *self == *old(self),
                it.seq() == all,
                n == it.index(),
                all.no_duplicates(),
                forall|j: int|
                    0 <= j < all.len() ==> m.contains_key(*(#[trigger] all[j]).0) && m[*all[j].0]
                        == *all[j].1,
                forall|id: i32| #[trigger]
                    kept@.contains_key(id) <==> m[id] > 1 && exists|j: int|
                        0 <= j < n && *(#[trigger] all[j]).0 == id,
                forall|id: i32| #[trigger] kept@.contains_key(id) ==> kept@[id] == m[id] - 1,
        {
            let id: i32 = *entry.0;
            let ticks: u32 = *entry.1;
            assert(entry == all[n]);
            let ghost old_kept = kept@;
            assert forall|j: int| 0 <= j < n implies *(#[trigger] all[j]).0 != id by {
                if *all[j].0 == id {
                    assert(all[j] == all[n]);
                }
            }
            if ticks > 1 {
                kept.insert(id, ticks - 1);
            }
            proof {
                assert forall|k: i32| #[trigger]
                    kept@.contains_key(k) <==> m[k] > 1 && exists|j: int|
                        0 <= j < n + 1 && *(#[trigger] all[j]).0 == k by {
                    if k == id {
                        assert(*all[n].0 == k);
                    } else {
                        if old_kept.contains_key(k) {
                            let j = choose|j: int| 0 <= j < n && *(#[trigger] all[j]).0 == k;
                            assert(0 <= j < n + 1 && *all[j].0 == k);
                        }
                        if exists|j: int| 0 <= j < n + 1 && *(#[trigger] all[j]).0 == k {
                            let j = choose|j: int| 0 <= j < n + 1 && *(#[trigger] all[j]).0 == k;
                            assert(j < n);
                        }
                    }
                }
                n = n + 1;
            }
        }
        proof {
            assert(n == all.len());
            assert forall|id: i32| m.contains_key(id) implies exists|j: int|
                0 <= j < n && *(#[trigger] all[j]).0 == id by {
                let j = choose|j: int| 0 <= j < all.len() && all[j] == (&id, &m[id]);
                assert(*all[j].0 == id);
            }
            assert(kept@ =~= cooldowns_after_tick(m));
        }
        self.cooldowns = kept;
    }
}

} // verus!
