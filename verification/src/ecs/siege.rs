//! Castle siege: wars between clans, and the doors, towers and crowns of
//! the castles they are fought over.

use crate::clock::unix_seconds_signed;
use crate::ecs::components::clan::{contains_name, texts};
use crate::text::same_text;
use std::collections::HashMap;
use vstd::prelude::*;

pub mod door_action;
pub mod tower_action;
pub mod war_msg;

verus! {

// ---------------------------------------------------------------------------
// Castle definitions
// ---------------------------------------------------------------------------

pub const KENT_CASTLE_ID: i32 = 1;
pub const OT_CASTLE_ID: i32 = 2;
pub const WW_CASTLE_ID: i32 = 3;
pub const GIRAN_CASTLE_ID: i32 = 4;
pub const HEINE_CASTLE_ID: i32 = 5;
pub const DOWA_CASTLE_ID: i32 = 6;
pub const ADEN_CASTLE_ID: i32 = 7;
pub const DIAD_CASTLE_ID: i32 = 8;

/// Castle static data.
#[derive(Debug)]
pub struct CastleInfo {
    pub castle_id: i32,
    pub name: &'static str,
    /// War area bounds (x1, x2, y1, y2, map_id).
    pub war_area: (i32, i32, i32, i32, i32),
    /// Tower location (x, y, map_id).
    pub tower_loc: (i32, i32, i32),
    /// Inner castle map ID (0 if same as outer).
    pub inner_map_id: i32,
}

impl Clone for CastleInfo {
    fn clone(&self) -> (copy: Self)
        ensures
            copy == *self,
    {
        CastleInfo {
            castle_id: self.castle_id,
            name: self.name,
            war_area: self.war_area,
            tower_loc: self.tower_loc,
            inner_map_id: self.inner_map_id,
        }
    }
}

/// The war area of a castle: (x1, x2, y1, y2, map_id).
pub open spec fn war_area_of(castle_id: int) -> (i32, i32, i32, i32, i32) {
    if castle_id == 1 {
        (33089, 33219, 32717, 32827, 4)
    } else if castle_id == 2 {
        (32627, 32757, 32742, 32852, 4)
    } else if castle_id == 3 {
        (32491, 32621, 32572, 32682, 4)
    } else if castle_id == 4 {
        (33504, 33634, 32692, 32802, 4)
    } else if castle_id == 5 {
        (33647, 33777, 33197, 33307, 4)
    } else if castle_id == 6 {
        (32482, 32612, 33159, 33269, 4)
    } else if castle_id == 7 {
        (34015, 34145, 33166, 33276, 4)
    } else if castle_id == 8 {
        (33465, 33595, 32830, 32940, 4)
    } else {
        (0, 0, 0, 0, 0)
    }
}

/// The tower location of a castle: (x, y, map_id).
pub open spec fn tower_of(castle_id: int) -> (i32, i32, i32) {
    if castle_id == 1 {
        (33139, 32768, 4)
    } else if castle_id == 2 {
        (32675, 32797, 4)
    } else if castle_id == 3 {
        (32555, 32617, 4)
    } else if castle_id == 4 {
        (33553, 32742, 4)
    } else if castle_id == 5 {
        (33700, 33261, 4)
    } else if castle_id == 6 {
        (32546, 33208, 4)
    } else if castle_id == 7 {
        (34065, 33224, 4)
    } else if castle_id == 8 {
        (33523, 32880, 4)
    } else {
        (0, 0, 0)
    }
}

/// The inner map of a castle.
pub open spec fn inner_map_of(castle_id: int) -> i32 {
    if castle_id == 1 {
        15
    } else if castle_id == 2 {
        16
    } else if castle_id == 3 {
        19
    } else if castle_id == 4 {
        29
    } else if castle_id == 5 {
        52
    } else if castle_id == 6 {
        64
    } else if castle_id == 7 {
        300
    } else if castle_id == 8 {
        320
    } else {
        0
    }
}

/// The name of a castle.
pub open spec fn castle_name_of(castle_id: int) -> Seq<char> {
    if castle_id == 1 {
        "肯特城"@
    } else if castle_id == 2 {
        "妖魔城"@
    } else if castle_id == 3 {
        "風木城"@
    } else if castle_id == 4 {
        "奇岩城"@
    } else if castle_id == 5 {
        "海音城"@
    } else if castle_id == 6 {
        "侏儒城"@
    } else if castle_id == 7 {
        "亞丁城"@
    } else if castle_id == 8 {
        "狄亞得要塞"@
    } else {
        Seq::empty()
    }
}

/// Whether a point lies in a war area.
pub open spec fn in_area(area: (i32, i32, i32, i32, i32), x: i32, y: i32, map_id: i32) -> bool {
    map_id == area.4 && area.0 <= x <= area.1 && area.2 <= y <= area.3
}

/// The entry of a castle in the table of castles.
pub open spec fn castle_entry(info: CastleInfo, castle_id: int) -> bool {
    &&& info.castle_id == castle_id
    &&& info.name@ == castle_name_of(castle_id)
    &&& info.war_area == war_area_of(castle_id)
    &&& info.tower_loc == tower_of(castle_id)
    &&& info.inner_map_id == inner_map_of(castle_id)
}

/// The table of all 8 castles, ordered by castle id.
pub open spec fn castle_table(info: Seq<CastleInfo>) -> bool {
    &&& info.len() == 8
    &&& forall|i: int| 0 <= i < 8 ==> castle_entry(#[trigger] info[i], i + 1)
}

/// All 8 castles.
pub fn get_castle_info() -> (info: Vec<CastleInfo>)
    ensures
        castle_table(info@),
{
    vec![
        CastleInfo {
            castle_id: 1,
            name: "肯特城",
            war_area: (33089, 33219, 32717, 32827, 4),
            tower_loc: (33139, 32768, 4),
            inner_map_id: 15,
        },
        CastleInfo {
            castle_id: 2,
            name: "妖魔城",
            war_area: (32627, 32757, 32742, 32852, 4),
            tower_loc: (32675, 32797, 4),
            inner_map_id: 16,
        },
        CastleInfo {
            castle_id: 3,
            name: "風木城",
            war_area: (32491, 32621, 32572, 32682, 4),
            tower_loc: (32555, 32617, 4),
            inner_map_id: 19,
        },
        CastleInfo {
            castle_id: 4,
            name: "奇岩城",
            war_area: (33504, 33634, 32692, 32802, 4),
            tower_loc: (33553, 32742, 4),
            inner_map_id: 29,
        },
        CastleInfo {
            castle_id: 5,
            name: "海音城",
            war_area: (33647, 33777, 33197, 33307, 4),
            tower_loc: (33700, 33261, 4),
            inner_map_id: 52,
        },
        CastleInfo {
            castle_id: 6,
            name: "侏儒城",
            war_area: (32482, 32612, 33159, 33269, 4),
            tower_loc: (32546, 33208, 4),
            inner_map_id: 64,
        },
        CastleInfo {
            castle_id: 7,
            name: "亞丁城",
            war_area: (34015, 34145, 33166, 33276, 4),
            tower_loc: (34065, 33224, 4),
            inner_map_id: 300,
        },
        CastleInfo {
            castle_id: 8,
            name: "狄亞得要塞",
            war_area: (33465, 33595, 32830, 32940, 4),
            tower_loc: (33523, 32880, 4),
            inner_map_id: 320,
        },
    ]
}

/// Every castle's tower stands in its war area, and no two war areas overlap.
pub proof fn lemma_castle_geography(a: int, b: int, x: i32, y: i32, map_id: i32)
    requires
        1 <= a <= 8,
        1 <= b <= 8,
    ensures
        in_area(war_area_of(a), tower_of(a).0, tower_of(a).1, tower_of(a).2),
        in_area(war_area_of(a), x, y, map_id) && in_area(war_area_of(b), x, y, map_id) ==> a == b,
{
}

// ---------------------------------------------------------------------------
// Castle dynamic data
// ---------------------------------------------------------------------------

/// Castle runtime state.
#[derive(Debug, Clone)]
pub struct CastleData {
    pub castle_id: i32,
    pub name: String,
    /// next war time as unix timestamp
    pub war_time: i64,
    /// tax percentage
    pub tax_rate: i32,
    /// accumulated tax revenue
    pub public_money: i32,
    /// clan that owns this castle (0 = none)
    pub owner_clan_id: i32,
}

// ---------------------------------------------------------------------------
// War state machine
// ---------------------------------------------------------------------------

/// War type.
#[derive(Debug, Clone, Copy, PartialEq)]
pub enum WarType {
    CastleWar,
    SimulatedWar,
}

/// Active war instance.
#[derive(Debug, Clone)]
pub struct ActiveWar {
    pub war_type: WarType,
    pub attack_clans: Vec<String>,
    pub defence_clan: String,
    /// 0 for simulated war
    pub castle_id: i32,
    /// unix timestamp
    pub war_end_time: i64,
    pub is_active: bool,
}

/// A number kept within the range of `i64`.
pub open spec fn within_i64(v: int) -> i64 {
    if v > i64::MAX {
        i64::MAX
    } else if v < i64::MIN {
        i64::MIN
    } else {
        v as i64
    }
}

/// When a simulated war that begins at `now` ends.
pub open spec fn sim_war_end(now: i64, duration_minutes: i64) -> i64 {
    within_i64(now + duration_minutes * 60)
}

/// A war that has just begun: one attacker, active.
pub open spec fn fresh_war(
    war: ActiveWar,
    war_type: WarType,
    attack_clan: Seq<char>,
    defence_clan: Seq<char>,
    castle_id: i32,
    end_time: i64,
) -> bool {
    &&& war.war_type == war_type
    &&& texts(war.attack_clans@) == seq![attack_clan]
    &&& war.defence_clan@ == defence_clan
    &&& war.castle_id == castle_id
    &&& war.war_end_time == end_time
    &&& war.is_active
}

impl ActiveWar {
    /// The attacking clans' names as plain texts.
    pub open spec fn attackers(&self) -> Seq<Seq<char>> {
        texts(self.attack_clans@)
    }

    /// Whether a clan takes part in this war, on either side.
    pub open spec fn involves(&self, clan_name: Seq<char>) -> bool {
        self.defence_clan@ == clan_name || self.attackers().contains(clan_name)
    }

    /// Whether the war is over at time `now`.
    pub open spec fn expired_at(&self, now: i64) -> bool {
        now >= self.war_end_time
    }

    /// Create a new castle war.
    pub fn new_castle_war(
        attack_clan: String,
        defence_clan: String,
        castle_id: i32,
        end_time: i64,
    ) -> (war: ActiveWar)
        ensures
            fresh_war(war, WarType::CastleWar, attack_clan@, defence_clan@, castle_id, end_time),
    {
        let mut attack_clans: Vec<String> = Vec::new();
        attack_clans.push(attack_clan);
        assert(texts(attack_clans@) =~= seq![attack_clan@]);
        ActiveWar {
            war_type: WarType::CastleWar,
            attack_clans,
            defence_clan,
            castle_id,
            war_end_time: end_time,
            is_active: true,
        }
    }

    /// Create a new simulated (clan) war that begins at `now` and lasts
    /// `duration_minutes`.
    pub fn new_sim_war_at(
        attack_clan: String,
        defence_clan: String,
        duration_minutes: i64,
        now: i64,
    ) -> (war: ActiveWar)
        ensures
            fresh_war(
                war,
                WarType::SimulatedWar,
                attack_clan@,
                defence_clan@,
                0,
                sim_war_end(now, duration_minutes),
            ),
    {
        let mut attack_clans: Vec<String> = Vec::new();
        attack_clans.push(attack_clan);
        assert(texts(attack_clans@) =~= seq![attack_clan@]);
        let wide: i128 = now as i128 + duration_minutes as i128 * 60;
        let end: i64 = if wide > i64::MAX as i128 {
            i64::MAX
        } else if wide < i64::MIN as i128 {
            i64::MIN
        } else {
            wide as i64
        };
        ActiveWar {
            war_type: WarType::SimulatedWar,
            attack_clans,
            defence_clan,
            castle_id: 0,
            war_end_time: end,
            is_active: true,
        }
    }

    /// Create a new simulated (clan) war that begins now, by the system
    /// clock, and lasts `duration_minutes`.
    pub fn new_sim_war(attack_clan: String, defence_clan: String, duration_minutes: i64) -> (war:
        ActiveWar)
        ensures
            exists|now: i64|
                0 <= now && #[trigger] fresh_war(
                    war,
                    WarType::SimulatedWar,
                    attack_clan@,
                    defence_clan@,
                    0,
                    sim_war_end(now, duration_minutes),
                ),
    {
        let now = unix_seconds_signed();
        Self::new_sim_war_at(attack_clan, defence_clan, duration_minutes, now)
    }

    /// Add another attacking clan (alliance attack), unless it already
    /// attacks.
    pub fn add_attacker(&mut self, clan_name: String)
        ensures
            final(self).attackers() == if old(self).attackers().contains(clan_name@) {
                old(self).attackers()
            } else {
                old(self).attackers().push(clan_name@)
            },
            final(self).war_type == old(self).war_type,
            final(self).defence_clan == old(self).defence_clan,
            final(self).castle_id == old(self).castle_id,
            final(self).war_end_time == old(self).war_end_time,
            final(self).is_active == old(self).is_active,
    {
        if !contains_name(&self.attack_clans, clan_name.as_str()) {
            self.attack_clans.push(clan_name);
            assert(self.attackers() =~= old(self).attackers().push(clan_name@));
        }
    }

    /// Check if a clan is involved in this war.
    pub fn involves_clan(&self, clan_name: &str) -> (b: bool)
        ensures
            b == self.involves(clan_name@),
    {
        same_text(self.defence_clan.as_str(), clan_name) || contains_name(
            &self.attack_clans,
            clan_name,
        )
    }

    /// Check if war time has expired at time `now`.
    pub fn is_expired_at(&self, now: i64) -> (b: bool)
        ensures
            b == self.expired_at(now),
    {
        now >= self.war_end_time
    }

    /// Check if war time has expired by the system clock.
    pub fn is_expired(&self) -> (b: bool)
        ensures
            exists|now: i64| 0 <= now && b == self.expired_at(now),
    {
        let now = unix_seconds_signed();
        self.is_expired_at(now)
    }
}

// ---------------------------------------------------------------------------
// Door mechanics
// ---------------------------------------------------------------------------

/// A castle door entity.
#[derive(Debug, Clone)]
pub struct DoorState {
    pub object_id: u32,
    pub castle_id: i32,
    pub max_hp: i32,
    pub cur_hp: i32,
    pub is_open: bool,
    /// 0 = /, 1 = \
    pub direction: i32,
    pub x: i32,
    pub y: i32,
    pub map_id: i32,
}

/// Whether `cur / max` is more than `num / den`, for positive `cur` and
/// `den`: with nothing to divide by the share counts as unbounded, and a
/// negative maximum makes the share negative.
pub open spec fn share_above(cur: i32, max: i32, num: int, den: int) -> bool {
    if max > 0 {
        den * cur > num * max
    } else {
        max == 0
    }
}

/// The visual state of a door with the given hit points.
pub open spec fn door_action_of(cur_hp: i32, max_hp: i32) -> i32 {
    if cur_hp <= 0 {
        door_action::DOOR_DIE
    } else if max_hp == 0 {
        door_action::DOOR_CLOSE
    } else if share_above(cur_hp, max_hp, 5, 6) {
        door_action::DOOR_CLOSE
    } else if share_above(cur_hp, max_hp, 4, 6) {
        door_action::DOOR_ACTION1
    } else if share_above(cur_hp, max_hp, 3, 6) {
        door_action::DOOR_ACTION2
    } else if share_above(cur_hp, max_hp, 2, 6) {
        door_action::DOOR_ACTION3
    } else if share_above(cur_hp, max_hp, 1, 6) {
        door_action::DOOR_ACTION4
    } else {
        door_action::DOOR_ACTION5
    }
}

/// Hit points after damage: never below zero.
pub open spec fn hp_after(cur_hp: i32, damage: i32) -> int {
    if cur_hp - damage > 0 {
        cur_hp - damage
    } else {
        0
    }
}

fn is_share_above(cur: i32, max: i32, num: i64, den: i64) -> (b: bool)
    requires
        0 <= num <= 8,
        0 < den <= 8,
    ensures
        b == share_above(cur, max, num as int, den as int),
{
    if max > 0 {
        assert(-0x4_0000_0000 <= den * cur <= 0x4_0000_0000 && -0x4_0000_0000 <= num * max
            <= 0x4_0000_0000) by (nonlinear_arith)
            requires
                0 <= num <= 8,
                0 < den <= 8,
                -0x8000_0000 <= cur < 0x8000_0000,
                -0x8000_0000 <= max < 0x8000_0000,
        ;
        den * (cur as i64) > num * (max as i64)
    } else {
        max == 0
    }
}

impl DoorState {
    /// Get the visual action ID based on current HP.
    pub fn get_damage_action(&self) -> (action: i32)
        ensures
            action == door_action_of(self.cur_hp, self.max_hp),
    {
        if self.cur_hp <= 0 {
            return door_action::DOOR_DIE;
        }
        if self.max_hp == 0 {
            return door_action::DOOR_CLOSE;
        }
        if is_share_above(self.cur_hp, self.max_hp, 5, 6) {
            door_action::DOOR_CLOSE
        } else if is_share_above(self.cur_hp, self.max_hp, 4, 6) {
            door_action::DOOR_ACTION1
        } else if is_share_above(self.cur_hp, self.max_hp, 3, 6) {
            door_action::DOOR_ACTION2
        } else if is_share_above(self.cur_hp, self.max_hp, 2, 6) {
            door_action::DOOR_ACTION3
        } else if is_share_above(self.cur_hp, self.max_hp, 1, 6) {
            door_action::DOOR_ACTION4
        } else {
            door_action::DOOR_ACTION5
        }
    }

    /// Apply damage. Returns true if destroyed. A door without hit points is
    /// indestructible and takes no damage.
    pub fn receive_damage(&mut self, damage: i32) -> (destroyed: bool)
        requires
            old(self).max_hp != 0 ==> old(self).cur_hp - damage <= i32::MAX,
        ensures
            final(self).cur_hp == if old(self).max_hp == 0 {
                old(self).cur_hp as int
            } else {
                hp_after(old(self).cur_hp, damage)
            },
            destroyed == (old(self).max_hp != 0 && final(self).cur_hp <= 0),
            final(self).object_id == old(self).object_id,
            final(self).castle_id == old(self).castle_id,
            final(self).max_hp == old(self).max_hp,
            final(self).is_open == old(self).is_open,
            final(self).direction == old(self).direction,
            final(self).x == old(self).x,
            final(self).y == old(self).y,
            final(self).map_id == old(self).map_id,
    {
        if self.max_hp == 0 {
            return false;
        }
        let left: i64 = self.cur_hp as i64 - damage as i64;
        self.cur_hp = if left > 0 {
            left as i32
        } else {
            0
        };
        self.cur_hp <= 0
    }

    /// Full repair + close.
    pub fn repair(&mut self)
        ensures
            final(self).cur_hp == old(self).max_hp,
            !final(self).is_open,
            final(self).object_id == old(self).object_id,
            final(self).castle_id == old(self).castle_id,
            final(self).max_hp == old(self).max_hp,
            final(self).direction == old(self).direction,
            final(self).x == old(self).x,
            final(self).y == old(self).y,
            final(self).map_id == old(self).map_id,
    {
        self.cur_hp = self.max_hp;
        self.is_open = false;
    }
}

// ---------------------------------------------------------------------------
// Tower mechanics
// ---------------------------------------------------------------------------

/// NPC IDs for towers.
pub const GUARDIAN_TOWER_NPC_ID: i32 = 81111;
pub const ADEN_MAIN_TOWER_NPC_ID: i32 = 81189;
pub const ADEN_SUB_TOWER_NPC_IDS: [i32; 4] = [81190, 81191, 81192, 81193];

/// Whether an NPC id is one of the four Aden sub-towers.
pub open spec fn is_aden_sub_tower(npc_id: i32) -> bool {
    81190 <= npc_id <= 81193
}

/// A castle tower entity.
#[derive(Debug, Clone)]
pub struct TowerState {
    pub object_id: u32,
    pub castle_id: i32,
    pub npc_id: i32,
    pub max_hp: i32,
    pub cur_hp: i32,
    pub x: i32,
    pub y: i32,
    pub map_id: i32,
}

/// The visual state of a tower with the given hit points.
pub open spec fn crack_action_of(cur_hp: i32, max_hp: i32) -> i32 {
    if cur_hp <= 0 {
        tower_action::TOWER_DIE
    } else if share_above(cur_hp, max_hp, 3, 4) {
        tower_action::TOWER_NORMAL
    } else if share_above(cur_hp, max_hp, 2, 4) {
        tower_action::TOWER_CRACK1
    } else if share_above(cur_hp, max_hp, 1, 4) {
        tower_action::TOWER_CRACK2
    } else {
        tower_action::TOWER_CRACK3
    }
}

impl TowerState {
    /// Get visual crack state based on HP.
    pub fn get_crack_action(&self) -> (action: i32)
        ensures
            action == crack_action_of(self.cur_hp, self.max_hp),
    {
        if self.cur_hp <= 0 {
            return tower_action::TOWER_DIE;
        }
        if is_share_above(self.cur_hp, self.max_hp, 3, 4) {
            tower_action::TOWER_NORMAL
        } else if is_share_above(self.cur_hp, self.max_hp, 2, 4) {
            tower_action::TOWER_CRACK1
        } else if is_share_above(self.cur_hp, self.max_hp, 1, 4) {
            tower_action::TOWER_CRACK2
        } else {
            tower_action::TOWER_CRACK3
        }
    }

    /// Apply damage. Returns true if destroyed.
    pub fn receive_damage(&mut self, damage: i32) -> (destroyed: bool)
        requires
            old(self).cur_hp - damage <= i32::MAX,
        ensures
            final(self).cur_hp == hp_after(old(self).cur_hp, damage),
            destroyed == (final(self).cur_hp <= 0),
            final(self).object_id == old(self).object_id,
            final(self).castle_id == old(self).castle_id,
            final(self).npc_id == old(self).npc_id,
            final(self).max_hp == old(self).max_hp,
            final(self).x == old(self).x,
            final(self).y == old(self).y,
            final(self).map_id == old(self).map_id,
    {
        let left: i64 = self.cur_hp as i64 - damage as i64;
        self.cur_hp = if left > 0 {
            left as i32
        } else {
            0
        };
        self.cur_hp <= 0
    }

    /// Check if this is the Aden main tower.
    pub fn is_aden_main_tower(&self) -> (b: bool)
        ensures
            b == (self.npc_id == ADEN_MAIN_TOWER_NPC_ID),
    {
        self.npc_id == ADEN_MAIN_TOWER_NPC_ID
    }
}

// ---------------------------------------------------------------------------
// Crown mechanics - a crown appears when a tower is destroyed
// ---------------------------------------------------------------------------

/// Crown state - only exists after tower destruction during active war.
#[derive(Debug, Clone)]
pub struct CrownState {
    pub object_id: u32,
    pub castle_id: i32,
    pub x: i32,
    pub y: i32,
    pub map_id: i32,
}

// ---------------------------------------------------------------------------
// Siege manager - ties everything together
// ---------------------------------------------------------------------------

/// Manages all active wars, castle state, and siege mechanics.
pub struct SiegeManager {
    pub active_wars: Vec<ActiveWar>,
    pub castles: HashMap<i32, CastleData>,
    pub doors: Vec<DoorState>,
    pub towers: Vec<TowerState>,
    pub crowns: Vec<CrownState>,
    pub castle_info: Vec<CastleInfo>,
    /// Aden sub-tower destruction count (need 3+ to attack main tower).
    pub aden_sub_towers_destroyed: i32,
}

/// Whether a war goes on at time `now`: it is active and its time is not up.
pub open spec fn goes_on(now: i64) -> spec_fn(ActiveWar) -> bool {
    |w: ActiveWar| w.is_active && !w.expired_at(now)
}

/// Whether a war ends at time `now`: it is active and its time is up.
pub open spec fn ends(now: i64) -> spec_fn(ActiveWar) -> bool {
    |w: ActiveWar| w.is_active && w.expired_at(now)
}

/// The castles of a list of wars.
pub open spec fn castles_of(wars: Seq<ActiveWar>) -> Seq<i32> {
    wars.map_values(|w: ActiveWar| w.castle_id)
}

/// The crown that appears where a tower fell; the caller gives it an id.
pub open spec fn crown_of(tower: TowerState) -> CrownState {
    CrownState { object_id: 0, castle_id: tower.castle_id, x: tower.x, y: tower.y, map_id: tower.map_id }
}

/// Whether the fall of a tower brings out a crown: not for an Aden
/// sub-tower, and for the Aden main tower only once three sub-towers fell.
pub open spec fn brings_crown(tower: TowerState, sub_towers_destroyed: i32) -> bool {
    !is_aden_sub_tower(tower.npc_id) && !(tower.npc_id == ADEN_MAIN_TOWER_NPC_ID
        && sub_towers_destroyed < 3)
}

impl SiegeManager {
    /// A manager with the table of castles and nothing else.
    pub fn new() -> (mgr: SiegeManager)
        ensures
            mgr.active_wars@.len() == 0,
            mgr.castles@ == Map::<i32, CastleData>::empty(),
            mgr.doors@.len() == 0,
            mgr.towers@.len() == 0,
            mgr.crowns@.len() == 0,
            castle_table(mgr.castle_info@),
            mgr.aden_sub_towers_destroyed == 0,
    {
        SiegeManager {
            active_wars: Vec::new(),
            castles: HashMap::new(),
            doors: Vec::new(),
            towers: Vec::new(),
            crowns: Vec::new(),
            castle_info: get_castle_info(),
            aden_sub_towers_destroyed: 0,
        }
    }

    /// Check if a castle is currently at war.
    pub fn is_now_war(&self, castle_id: i32) -> (at_war: bool)
        ensures
            at_war == exists|i: int|
                0 <= i < self.active_wars@.len() && (#[trigger] self.active_wars@[i]).castle_id
                    == castle_id && self.active_wars@[i].is_active,
    {
        let mut i: usize = 0;
        while i < self.active_wars.len()
            invariant
                i <= self.active_wars.len(),
                forall|j: int|
                    0 <= j < i ==> !((#[trigger] self.active_wars@[j]).castle_id == castle_id
                        && self.active_wars@[j].is_active),
            decreases self.active_wars.len() - i,
        {
            if self.active_wars[i].castle_id == castle_id && self.active_wars[i].is_active {
                return true;
            }
            i += 1;
        }
        false
    }

    /// Check if a position is inside a castle's war area, going by the first
    /// table entry for that castle.
    pub fn is_in_war_area(&self, castle_id: i32, x: i32, y: i32, map_id: i32) -> (inside: bool)
        ensures
            inside == {
                let k = first_match(
                    self.castle_info@,
                    |c: CastleInfo| c.castle_id == castle_id,
                    0,
                );
                k < self.castle_info@.len() && in_area(self.castle_info@[k].war_area, x, y, map_id)
            },
    {
        let ghost pick = |c: CastleInfo| c.castle_id == castle_id;
        let mut i: usize = 0;
        while i < self.castle_info.len()
            invariant
                i <= self.castle_info.len(),
                pick == |c: CastleInfo| c.castle_id == castle_id,
                first_match(self.castle_info@, pick, 0) == first_match(
                    self.castle_info@,
                    pick,
                    i as int,
                ),
            decreases self.castle_info.len() - i,
        {
            let c = &self.castle_info[i];
            if c.castle_id == castle_id {
                let (x1, x2, y1, y2, mid) = c.war_area;
                return map_id == mid && x >= x1 && x <= x2 && y >= y1 && y <= y2;
            }
            i += 1;
        }
        false
    }

    /// Find which castle a position belongs to (if any): the first in the
    /// table whose war area holds it.
    pub fn get_castle_id_at(&self, x: i32, y: i32, map_id: i32) -> (castle: Option<i32>)
        ensures
            castle == {
                let k = first_match(
                    self.castle_info@,
                    |c: CastleInfo| in_area(c.war_area, x, y, map_id),
                    0,
                );
                if k < self.castle_info@.len() {
                    Some(self.castle_info@[k].castle_id)
                } else {
                    None
                }
            },
    {
        let ghost pick = |c: CastleInfo| in_area(c.war_area, x, y, map_id);
        let mut i: usize = 0;
        while i < self.castle_info.len()
            invariant
                i <= self.castle_info.len(),
                pick == |c: CastleInfo| in_area(c.war_area, x, y, map_id),
                first_match(self.castle_info@, pick, 0) == first_match(
                    self.castle_info@,
                    pick,
                    i as int,
                ),
            decreases self.castle_info.len() - i,
        {
            let c = &self.castle_info[i];
            let (x1, x2, y1, y2, mid) = c.war_area;
            if map_id == mid && x >= x1 && x <= x2 && y >= y1 && y <= y2 {
                return Some(c.castle_id);
            }
            i += 1;
        }
        None
    }

    /// Find active war for a clan: the first war in the list that involves it.
    pub fn find_war_for_clan(&self, clan_name: &str) -> (war: Option<&ActiveWar>)
        ensures
            ({
                let k = first_match(
                    self.active_wars@,
                    |w: ActiveWar| w.involves(clan_name@),
                    0,
                );
                if k < self.active_wars@.len() {
                    war == Some(&self.active_wars@[k])
                } else {
                    war is None
                }
            }),
    {
        let ghost pick = |w: ActiveWar| w.involves(clan_name@);
        let mut i: usize = 0;
        while i < self.active_wars.len()
            invariant
                i <= self.active_wars.len(),
                pick == |w: ActiveWar| w.involves(clan_name@),
                first_match(self.active_wars@, pick, 0) == first_match(
                    self.active_wars@,
                    pick,
                    i as int,
                ),
            decreases self.active_wars.len() - i,
        {
            if self.active_wars[i].involves_clan(clan_name) {
                return Some(&self.active_wars[i]);
            }
            i += 1;
        }
        None
    }

    /// Handle tower destruction. A fallen Aden sub-tower is counted; any
    /// other tower brings out a crown at its place, except the Aden main
    /// tower while fewer than three sub-towers have fallen. Returns whether a
    /// crown appeared.
    pub fn on_tower_destroyed(&mut self, tower: &TowerState) -> (crowned: bool)
        requires
            is_aden_sub_tower(tower.npc_id) ==> old(self).aden_sub_towers_destroyed < i32::MAX,
        ensures
            crowned == brings_crown(*tower, old(self).aden_sub_towers_destroyed),
            final(self).aden_sub_towers_destroyed == if is_aden_sub_tower(tower.npc_id) {
                old(self).aden_sub_towers_destroyed + 1
            } else {
                old(self).aden_sub_towers_destroyed as int
            },
            final(self).crowns@ == if crowned {
                old(self).crowns@.push(crown_of(*tower))
            } else {
                old(self).crowns@
            },
            final(self).active_wars == old(self).active_wars,
            final(self).castles == old(self).castles,
            final(self).doors == old(self).doors,
            final(self).towers == old(self).towers,
            final(self).castle_info == old(self).castle_info,
    {
        if 81190 <= tower.npc_id && tower.npc_id <= 81193 {
            self.aden_sub_towers_destroyed += 1;
            return false;
        }
        if tower.is_aden_main_tower() && self.aden_sub_towers_destroyed < 3 {
            return false;
        }
        self.crowns.push(
            CrownState {
                object_id: 0,
                castle_id: tower.castle_id,
                x: tower.x,
                y: tower.y,
                map_id: tower.map_id,
            },
        );
        true
    }

    /// Check war timers at time `now`: the wars that go on stay, in order;
    /// the castles of the active wars whose time is up are returned, in
    /// order.
    pub fn tick_war_timers_at(&mut self, now: i64) -> (ended_castle_ids: Vec<i32>)
        ensures
            final(self).active_wars@ == old(self).active_wars@.filter(goes_on(now)),
            ended_castle_ids@ == castles_of(old(self).active_wars@.filter(ends(now))),
            final(self).castles == old(self).castles,
            final(self).doors == old(self).doors,
            final(self).towers == old(self).towers,
            final(self).crowns == old(self).crowns,
            final(self).castle_info == old(self).castle_info,
            final(self).aden_sub_towers_destroyed == old(self).aden_sub_towers_destroyed,
    {
        let mut ended_castle_ids: Vec<i32> = Vec::new();
        let mut wars: Vec<ActiveWar> = Vec::new();
        core::mem::swap(&mut self.active_wars, &mut wars);
        let ghost all = wars@;
        let ghost stay = goes_on(now);
        let ghost end = ends(now);
        let mut kept: Vec<ActiveWar> = Vec::new();
        assert(all.take(0) =~= Seq::<ActiveWar>::empty());
        assert(castles_of(all.take(0).filter(end)) =~= Seq::<i32>::empty());
        let ghost mut n: int = 0;
        for war in it: wars
            invariant
                it.seq() == all,
                n == it.index(),
                stay == goes_on(now),
                end == ends(now),
                kept@ == all.take(n).filter(stay),
                ended_castle_ids@ == castles_of(all.take(n).filter(end)),
                self.active_wars@.len() == 0,
                self.castles == old(self).castles,
                self.doors == old(self).doors,
                self.towers == old(self).towers,
                self.crowns == old(self).crowns,
                self.castle_info == old(self).castle_info,
                self.aden_sub_towers_destroyed == old(self).aden_sub_towers_destroyed,
        {
            proof {
                all.take(n).lemma_filter_push(all[n], stay);
                all.take(n).lemma_filter_push(all[n], end);
                assert(all.take(n + 1) =~= all.take(n).push(all[n]));
            }
            if war.is_active {
                if war.is_expired_at(now) {
                    ended_castle_ids.push(war.castle_id);
                    assert(castles_of(all.take(n).filter(end).push(all[n])) =~= castles_of(
                        all.take(n).filter(end),
                    ).push(all[n].castle_id));
                } else {
                    kept.push(war);
                }
            }
            proof {
                n = n + 1;
            }
        }
        assert(all.take(all.len() as int) =~= all);
        self.active_wars = kept;
        ended_castle_ids
    }

    /// Check war timers by the system clock - expire wars that have timed
    /// out.
    pub fn tick_war_timers(&mut self) -> (ended_castle_ids: Vec<i32>)
        ensures
            exists|now: i64|
                {
                    &&& 0 <= now
                    &&& final(self).active_wars@ == old(self).active_wars@.filter(goes_on(now))
                    &&& ended_castle_ids@ == castles_of(old(self).active_wars@.filter(ends(now)))
                },
            final(self).castles == old(self).castles,
            final(self).doors == old(self).doors,
            final(self).towers == old(self).towers,
            final(self).crowns == old(self).crowns,
            final(self).castle_info == old(self).castle_info,
            final(self).aden_sub_towers_destroyed == old(self).aden_sub_towers_destroyed,
    {
        let now = unix_seconds_signed();
        self.tick_war_timers_at(now)
    }
}

/// Index of the first element at or after `from` that `pick` accepts, or the
/// length of the sequence if there is none.
pub open spec fn first_match<T>(s: Seq<T>, pick: spec_fn(T) -> bool, from: int) -> int
    decreases s.len() - from,
{
    if from < 0 || from >= s.len() {
        s.len() as int
    } else if pick(s[from]) {
        from
    } else {
        first_match(s, pick, from + 1)
    }
}

} // verus!
