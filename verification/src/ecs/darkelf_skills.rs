//! Dark elf skills.
//!
//! Four grades: grade 1 is learned at level 15, grade 2 at level 30, grade 3
//! at level 45 and grade 4 at level 60.

use vstd::prelude::*;

pub mod de_skill_id;

verus! {

/// Dark elf skill template.
#[derive(Debug, Clone)]
pub struct DarkElfSkill {
    pub skill_id: i32,
    pub name: &'static str,
    pub learn_level: i32,
    pub mp_cost: i32,
    pub hp_cost: i32,
    /// black stones consumed
    pub black_stone_cost: i32,
    /// cast delay in ms
    pub cast_time_ms: i32,
    /// duration in seconds, 0 = instant
    pub duration_sec: i32,
    /// grade 1-4
    pub skill_grade: i32,
}

/// The grade of the skill at position `i` of the table: five skills each of
/// grades 1 to 3, then one of grade 4.
pub open spec fn grade_at(i: int) -> int {
    i / 5 + 1
}

/// The level at which skills of a grade are learned.
pub open spec fn level_of_grade(grade: int) -> int {
    grade * 15
}

/// What holds of the entry at position `i` of the table.
pub open spec fn sound_entry(s: DarkElfSkill, i: int) -> bool {
    &&& s.skill_id == de_skill_id::DARK_BLIND + i
    &&& s.skill_grade == grade_at(i)
    &&& s.learn_level == level_of_grade(grade_at(i))
    &&& 0 < s.mp_cost
    &&& 0 <= s.hp_cost
    &&& 0 <= s.black_stone_cost
    &&& 0 < s.cast_time_ms
    &&& 0 <= s.duration_sec
}

/// The rows of the dark elf table.
pub open spec fn darkelf_rows() -> Seq<DarkElfSkill> {
    seq![
        DarkElfSkill {
            skill_id: de_skill_id::DARK_BLIND, name: "暗隱術",
            learn_level: 15, mp_cost: 10, hp_cost: 0, black_stone_cost: 0,
            cast_time_ms: 10000, duration_sec: 32, skill_grade: 1,
        },
        DarkElfSkill {
            skill_id: de_skill_id::ENCHANT_VENOM, name: "附加劇毒",
            learn_level: 15, mp_cost: 10, hp_cost: 1, black_stone_cost: 0,
            cast_time_ms: 360, duration_sec: 320, skill_grade: 1,
        },
        DarkElfSkill {
            skill_id: de_skill_id::SHADOW_ARMOR, name: "影之防護",
            learn_level: 15, mp_cost: 12, hp_cost: 0, black_stone_cost: 0,
            cast_time_ms: 360, duration_sec: 960, skill_grade: 1,
        },
        DarkElfSkill {
            skill_id: de_skill_id::BRING_STONE, name: "提煉魔石",
            learn_level: 15, mp_cost: 5, hp_cost: 0, black_stone_cost: 0,
            cast_time_ms: 360, duration_sec: 0, skill_grade: 1,
        },
        DarkElfSkill {
            skill_id: de_skill_id::MOVING_ACCEL, name: "行走加速",
            learn_level: 15, mp_cost: 10, hp_cost: 0, black_stone_cost: 0,
            cast_time_ms: 360, duration_sec: 960, skill_grade: 1,
        },
        DarkElfSkill {
            skill_id: de_skill_id::BURNING_SPIRIT, name: "燃燒鬥志",
            learn_level: 30, mp_cost: 20, hp_cost: 0, black_stone_cost: 0,
            cast_time_ms: 360, duration_sec: 300, skill_grade: 2,
        },
        DarkElfSkill {
            skill_id: de_skill_id::DARK_BLIND_ATTACK, name: "暗黑盲咒",
            learn_level: 30, mp_cost: 20, hp_cost: 0, black_stone_cost: 0,
            cast_time_ms: 1000, duration_sec: 3, skill_grade: 2,
        },
        DarkElfSkill {
            skill_id: de_skill_id::VENOM_RESIST, name: "毒性抵抗",
            learn_level: 30, mp_cost: 20, hp_cost: 0, black_stone_cost: 0,
            cast_time_ms: 360, duration_sec: 320, skill_grade: 2,
        },
        DarkElfSkill {
            skill_id: de_skill_id::DOUBLE_BREAK, name: "雙重破壞",
            learn_level: 30, mp_cost: 20, hp_cost: 0, black_stone_cost: 0,
            cast_time_ms: 360, duration_sec: 192, skill_grade: 2,
        },
        DarkElfSkill {
            skill_id: de_skill_id::SHADOW_FANG, name: "暗影閃避",
            learn_level: 30, mp_cost: 20, hp_cost: 0, black_stone_cost: 0,
            cast_time_ms: 360, duration_sec: 192, skill_grade: 2,
        },
        DarkElfSkill {
            skill_id: de_skill_id::SHADOW_BITE, name: "暗影之牙",
            learn_level: 45, mp_cost: 20, hp_cost: 0, black_stone_cost: 1,
            cast_time_ms: 360, duration_sec: 192, skill_grade: 3,
        },
        DarkElfSkill {
            skill_id: de_skill_id::FINAL_BURN, name: "會心一擊",
            learn_level: 45, mp_cost: 1, hp_cost: 1, black_stone_cost: 3,
            cast_time_ms: 2500, duration_sec: 0, skill_grade: 3,
        },
        DarkElfSkill {
            skill_id: de_skill_id::STR_UP, name: "力量提升",
            learn_level: 45, mp_cost: 10, hp_cost: 0, black_stone_cost: 0,
            cast_time_ms: 360, duration_sec: 960, skill_grade: 3,
        },
        DarkElfSkill {
            skill_id: de_skill_id::DEX_UP, name: "敏捷提升",
            learn_level: 45, mp_cost: 10, hp_cost: 0, black_stone_cost: 0,
            cast_time_ms: 360, duration_sec: 960, skill_grade: 3,
        },
        DarkElfSkill {
            skill_id: de_skill_id::DODGE_UP, name: "閃避提升",
            learn_level: 45, mp_cost: 15, hp_cost: 0, black_stone_cost: 0,
            cast_time_ms: 360, duration_sec: 32, skill_grade: 3,
        },
        DarkElfSkill {
            skill_id: de_skill_id::ARMOR_BREAK, name: "破壞盔甲",
            learn_level: 60, mp_cost: 32, hp_cost: 30, black_stone_cost: 2,
            cast_time_ms: 2000, duration_sec: 8, skill_grade: 4,
        },
    ]
}

/// All dark elf skills: exactly the rows of `darkelf_rows`, sixteen entries
/// with consecutive ids, ordered by grade.
pub fn all_darkelf_skills() -> (skills: Vec<DarkElfSkill>)
    ensures
        skills@ == darkelf_rows(),
        skills@.len() == 16,
        forall|i: int| 0 <= i < 16 ==> sound_entry(#[trigger] skills@[i], i),
{
    let skills = vec![
        DarkElfSkill {
            skill_id: de_skill_id::DARK_BLIND, name: "暗隱術",
            learn_level: 15, mp_cost: 10, hp_cost: 0, black_stone_cost: 0,
            cast_time_ms: 10000, duration_sec: 32, skill_grade: 1,
        },
        DarkElfSkill {
            skill_id: de_skill_id::ENCHANT_VENOM, name: "附加劇毒",
            learn_level: 15, mp_cost: 10, hp_cost: 1, black_stone_cost: 0,
            cast_time_ms: 360, duration_sec: 320, skill_grade: 1,
        },
        DarkElfSkill {
            skill_id: de_skill_id::SHADOW_ARMOR, name: "影之防護",
            learn_level: 15, mp_cost: 12, hp_cost: 0, black_stone_cost: 0,
            cast_time_ms: 360, duration_sec: 960, skill_grade: 1,
        },
        DarkElfSkill {
            skill_id: de_skill_id::BRING_STONE, name: "提煉魔石",
            learn_level: 15, mp_cost: 5, hp_cost: 0, black_stone_cost: 0,
            cast_time_ms: 360, duration_sec: 0, skill_grade: 1,
        },
        DarkElfSkill {
            skill_id: de_skill_id::MOVING_ACCEL, name: "行走加速",
            learn_level: 15, mp_cost: 10, hp_cost: 0, black_stone_cost: 0,
            cast_time_ms: 360, duration_sec: 960, skill_grade: 1,
        },
        DarkElfSkill {
            skill_id: de_skill_id::BURNING_SPIRIT, name: "燃燒鬥志",
            learn_level: 30, mp_cost: 20, hp_cost: 0, black_stone_cost: 0,
            cast_time_ms: 360, duration_sec: 300, skill_grade: 2,
        },
        DarkElfSkill {
            skill_id: de_skill_id::DARK_BLIND_ATTACK, name: "暗黑盲咒",
            learn_level: 30, mp_cost: 20, hp_cost: 0, black_stone_cost: 0,
            cast_time_ms: 1000, duration_sec: 3, skill_grade: 2,
        },
        DarkElfSkill {
            skill_id: de_skill_id::VENOM_RESIST, name: "毒性抵抗",
            learn_level: 30, mp_cost: 20, hp_cost: 0, black_stone_cost: 0,
            cast_time_ms: 360, duration_sec: 320, skill_grade: 2,
        },
        DarkElfSkill {
            skill_id: de_skill_id::DOUBLE_BREAK, name: "雙重破壞",
            learn_level: 30, mp_cost: 20, hp_cost: 0, black_stone_cost: 0,
            cast_time_ms: 360, duration_sec: 192, skill_grade: 2,
        },
        DarkElfSkill {
            skill_id: de_skill_id::SHADOW_FANG, name: "暗影閃避",
            learn_level: 30, mp_cost: 20, hp_cost: 0, black_stone_cost: 0,
            cast_time_ms: 360, duration_sec: 192, skill_grade: 2,
        },
        DarkElfSkill {
            skill_id: de_skill_id::SHADOW_BITE, name: "暗影之牙",
            learn_level: 45, mp_cost: 20, hp_cost: 0, black_stone_cost: 1,
            cast_time_ms: 360, duration_sec: 192, skill_grade: 3,
        },
        DarkElfSkill {
            skill_id: de_skill_id::FINAL_BURN, name: "會心一擊",
            learn_level: 45, mp_cost: 1, hp_cost: 1, black_stone_cost: 3,
            cast_time_ms: 2500, duration_sec: 0, skill_grade: 3,
        },
        DarkElfSkill {
            skill_id: de_skill_id::STR_UP, name: "力量提升",
            learn_level: 45, mp_cost: 10, hp_cost: 0, black_stone_cost: 0,
            cast_time_ms: 360, duration_sec: 960, skill_grade: 3,
        },
        DarkElfSkill {
            skill_id: de_skill_id::DEX_UP, name: "敏捷提升",
            learn_level: 45, mp_cost: 10, hp_cost: 0, black_stone_cost: 0,
            cast_time_ms: 360, duration_sec: 960, skill_grade: 3,
        },
        DarkElfSkill {
            skill_id: de_skill_id::DODGE_UP, name: "閃避提升",
            learn_level: 45, mp_cost: 15, hp_cost: 0, black_stone_cost: 0,
            cast_time_ms: 360, duration_sec: 32, skill_grade: 3,
        },
        DarkElfSkill {
            skill_id: de_skill_id::ARMOR_BREAK, name: "破壞盔甲",
            learn_level: 60, mp_cost: 32, hp_cost: 30, black_stone_cost: 2,
            cast_time_ms: 2000, duration_sec: 8, skill_grade: 4,
        },
    ];
    assert(skills@ =~= darkelf_rows());
    skills
}

/// Shadow bite: raises weapon damage.
pub struct ShadowBiteEffect {
    pub damage_bonus: i32,
    pub duration_sec: i32,
    pub stone_cost: i32,
}

impl ShadowBiteEffect {
    pub fn official() -> (e: ShadowBiteEffect)
        ensures
            e.damage_bonus == 5,
            e.duration_sec == 192,
            e.stone_cost == 1,
    {
        ShadowBiteEffect { damage_bonus: 5, duration_sec: 192, stone_cost: 1 }
    }
}

/// Shadow dodge: raises the dodge rate.
pub struct ShadowDodgeEffect {
    pub dodge_bonus: i32,
    pub duration_sec: i32,
}

impl ShadowDodgeEffect {
    pub fn official() -> (e: ShadowDodgeEffect)
        ensures
            e.dodge_bonus == 60,
            e.duration_sec == 192,
    {
        ShadowDodgeEffect { dodge_bonus: 60, duration_sec: 192 }
    }
}

} // verus!
