//! Class skill tables for the royal, knight, elf, dragon knight and
//! illusionist classes. Mage magic and the dark elf skills have modules of
//! their own.

use vstd::prelude::*;

verus! {

/// Character class.
#[derive(Debug, Clone, Copy, PartialEq)]
pub enum CharClass {
    Royal,
    Knight,
    Elf,
    Mage,
    DarkElf,
    DragonKnight,
    Illusionist,
}

/// Kind of skill.
#[derive(Debug, Clone, Copy, PartialEq)]
pub enum SkillKind {
    Active,
    Passive,
    Toggle,
}

/// Skill target.
#[derive(Debug, Clone, Copy, PartialEq)]
pub enum SkillTarget {
    SelfOnly,
    SingleEnemy,
    SingleAlly,
    AreaEnemy,
    AreaAlly,
    ClanMember,
}

/// Class skill template.
#[derive(Debug, Clone)]
pub struct ClassSkill {
    pub skill_id: i32,
    pub name: &'static str,
    pub class: CharClass,
    /// skill grade 1-5
    pub grade: i32,
    /// character level needed to learn the skill
    pub learn_level: i32,
    pub mp_cost: i32,
    pub hp_cost: i32,
    /// number of reagent items consumed
    pub reagent_cost: i32,
    /// reagent item ID (0 = none)
    pub reagent_item_id: i32,
    /// cast delay in ms
    pub cast_time_ms: i32,
    /// cooldown in ms
    pub cooldown_ms: i32,
    /// duration in seconds (0 = instant)
    pub duration_sec: i32,
    pub kind: SkillKind,
    pub target: SkillTarget,
    pub effect_desc: &'static str,
}

/// The skill ids of a table, in table order.
pub open spec fn ids_of(skills: Seq<ClassSkill>) -> Seq<i32> {
    skills.map_values(|s: ClassSkill| s.skill_id)
}

/// What holds of every entry of a table: the grade is between 1 and 5, no
/// cost, delay or duration is negative, and a reagent is named exactly where
/// one is consumed.
pub open spec fn sound_skill(s: ClassSkill) -> bool {
    &&& 1 <= s.grade <= 5
    &&& 1 <= s.learn_level
    &&& 0 <= s.mp_cost
    &&& 0 <= s.hp_cost
    &&& 0 <= s.reagent_cost
    &&& (s.reagent_cost > 0 <==> s.reagent_item_id > 0)
    &&& 0 <= s.cast_time_ms
    &&& 0 <= s.cooldown_ms
    &&& 0 <= s.duration_sec
    &&& (s.kind == SkillKind::Passive ==> s.cast_time_ms == 0 && s.duration_sec == 0)
}

/// A table of one class: sound entries of that class with the given ids.
pub open spec fn table_of(skills: Seq<ClassSkill>, class: CharClass, ids: Seq<i32>) -> bool {
    &&& ids_of(skills) == ids
    &&& forall|i: int| 0 <= i < skills.len() ==> (#[trigger] skills[i]).class == class
    &&& forall|i: int| 0 <= i < skills.len() ==> sound_skill(#[trigger] skills[i])
}

/// Strictly increasing numbers.
pub open spec fn increasing(ids: Seq<i32>) -> bool {
    forall|i: int, j: int| 0 <= i < j < ids.len() ==> ids[i] < ids[j]
}

/// The skill ids of the Royal table.
pub open spec fn royal_ids() -> Seq<i32> {
    seq![1, 3, 9, 113, 114, 115, 116, 117, 118]
}

/// The skill ids of the Knight table.
pub open spec fn knight_ids() -> Seq<i32> {
    seq![120, 121, 122, 123, 124]
}

/// The skill ids of the Elf table.
pub open spec fn elf_ids() -> Seq<i32> {
    seq![130, 131, 132, 133, 134, 135]
}

/// The skill ids of the DragonKnight table.
pub open spec fn dragon_knight_ids() -> Seq<i32> {
    seq![140, 141, 142, 143, 144, 145, 146, 147, 148]
}

/// The skill ids of the Illusionist table.
pub open spec fn illusionist_ids() -> Seq<i32> {
    seq![150, 151, 152, 153, 154, 155, 156]
}

/// The rows of the royal table.
pub open spec fn royal_rows() -> Seq<ClassSkill> {
    seq![
        ClassSkill { skill_id: 1, name: "光箭", class: CharClass::Royal, grade: 1, learn_level: 10,
            mp_cost: 3, hp_cost: 0, reagent_cost: 0, reagent_item_id: 0,
            cast_time_ms: 440, cooldown_ms: 0, duration_sec: 0,
            kind: SkillKind::Active, target: SkillTarget::SingleEnemy,
            effect_desc: "壓縮魔法能量射出，造成些許傷害" },
        ClassSkill { skill_id: 3, name: "保護罩", class: CharClass::Royal, grade: 1, learn_level: 10,
            mp_cost: 8, hp_cost: 0, reagent_cost: 0, reagent_item_id: 0,
            cast_time_ms: 360, cooldown_ms: 0, duration_sec: 1800,
            kind: SkillKind::Active, target: SkillTarget::SelfOnly,
            effect_desc: "防禦+2" },
        ClassSkill { skill_id: 9, name: "初級治癒術", class: CharClass::Royal, grade: 1, learn_level: 10,
            mp_cost: 4, hp_cost: 0, reagent_cost: 0, reagent_item_id: 0,
            cast_time_ms: 360, cooldown_ms: 0, duration_sec: 0,
            kind: SkillKind::Active, target: SkillTarget::SingleAlly,
            effect_desc: "恢復少量體力" },
        ClassSkill { skill_id: 113, name: "精準目標", class: CharClass::Royal, grade: 1, learn_level: 15,
            mp_cost: 1, hp_cost: 0, reagent_cost: 0, reagent_item_id: 0,
            cast_time_ms: 100, cooldown_ms: 0, duration_sec: 16,
            kind: SkillKind::Active, target: SkillTarget::SingleEnemy,
            effect_desc: "目標傷害減免-3" },
        ClassSkill { skill_id: 114, name: "灼熱武器", class: CharClass::Royal, grade: 2, learn_level: 30,
            mp_cost: 20, hp_cost: 0, reagent_cost: 0, reagent_item_id: 0,
            cast_time_ms: 100, cooldown_ms: 0, duration_sec: 640,
            kind: SkillKind::Active, target: SkillTarget::SelfOnly,
            effect_desc: "攻擊成功+5、額外攻擊+5" },
        ClassSkill { skill_id: 115, name: "閃亮之盾", class: CharClass::Royal, grade: 2, learn_level: 55,
            mp_cost: 20, hp_cost: 0, reagent_cost: 0, reagent_item_id: 0,
            cast_time_ms: 100, cooldown_ms: 0, duration_sec: 640,
            kind: SkillKind::Active, target: SkillTarget::SelfOnly,
            effect_desc: "防禦力+8" },
        ClassSkill { skill_id: 116, name: "呼喚盟友", class: CharClass::Royal, grade: 3, learn_level: 60,
            mp_cost: 50, hp_cost: 0, reagent_cost: 0, reagent_item_id: 0,
            cast_time_ms: 100, cooldown_ms: 0, duration_sec: 0,
            kind: SkillKind::Active, target: SkillTarget::ClanMember,
            effect_desc: "召喚血盟成員到自己位置" },
        ClassSkill { skill_id: 117, name: "勇猛意志", class: CharClass::Royal, grade: 3, learn_level: 50,
            mp_cost: 25, hp_cost: 0, reagent_cost: 0, reagent_item_id: 0,
            cast_time_ms: 100, cooldown_ms: 0, duration_sec: 640,
            kind: SkillKind::Active, target: SkillTarget::SelfOnly,
            effect_desc: "30%機率攻擊力×1.5倍" },
        ClassSkill { skill_id: 118, name: "援護盟友", class: CharClass::Royal, grade: 3, learn_level: 55,
            mp_cost: 50, hp_cost: 0, reagent_cost: 0, reagent_item_id: 0,
            cast_time_ms: 100, cooldown_ms: 0, duration_sec: 0,
            kind: SkillKind::Active, target: SkillTarget::ClanMember,
            effect_desc: "傳送到血盟成員所在位置" },
    ]
}

/// The royal skills: exactly the rows of `royal_rows`, which are sound
/// entries of the class with the ids of `royal_ids`.
pub fn royal_skills() -> (skills: Vec<ClassSkill>)
    ensures
        skills@ == royal_rows(),
        table_of(skills@, CharClass::Royal, royal_ids()),
{
    let skills = vec![
        ClassSkill { skill_id: 1, name: "光箭", class: CharClass::Royal, grade: 1, learn_level: 10,
            mp_cost: 3, hp_cost: 0, reagent_cost: 0, reagent_item_id: 0,
            cast_time_ms: 440, cooldown_ms: 0, duration_sec: 0,
            kind: SkillKind::Active, target: SkillTarget::SingleEnemy,
            effect_desc: "壓縮魔法能量射出，造成些許傷害" },
        ClassSkill { skill_id: 3, name: "保護罩", class: CharClass::Royal, grade: 1, learn_level: 10,
            mp_cost: 8, hp_cost: 0, reagent_cost: 0, reagent_item_id: 0,
            cast_time_ms: 360, cooldown_ms: 0, duration_sec: 1800,
            kind: SkillKind::Active, target: SkillTarget::SelfOnly,
            effect_desc: "防禦+2" },
        ClassSkill { skill_id: 9, name: "初級治癒術", class: CharClass::Royal, grade: 1, learn_level: 10,
            mp_cost: 4, hp_cost: 0, reagent_cost: 0, reagent_item_id: 0,
            cast_time_ms: 360, cooldown_ms: 0, duration_sec: 0,
            kind: SkillKind::Active, target: SkillTarget::SingleAlly,
            effect_desc: "恢復少量體力" },
        ClassSkill { skill_id: 113, name: "精準目標", class: CharClass::Royal, grade: 1, learn_level: 15,
            mp_cost: 1, hp_cost: 0, reagent_cost: 0, reagent_item_id: 0,
            cast_time_ms: 100, cooldown_ms: 0, duration_sec: 16,
            kind: SkillKind::Active, target: SkillTarget::SingleEnemy,
            effect_desc: "目標傷害減免-3" },
        ClassSkill { skill_id: 114, name: "灼熱武器", class: CharClass::Royal, grade: 2, learn_level: 30,
            mp_cost: 20, hp_cost: 0, reagent_cost: 0, reagent_item_id: 0,
            cast_time_ms: 100, cooldown_ms: 0, duration_sec: 640,
            kind: SkillKind::Active, target: SkillTarget::SelfOnly,
            effect_desc: "攻擊成功+5、額外攻擊+5" },
        ClassSkill { skill_id: 115, name: "閃亮之盾", class: CharClass::Royal, grade: 2, learn_level: 55,
            mp_cost: 20, hp_cost: 0, reagent_cost: 0, reagent_item_id: 0,
            cast_time_ms: 100, cooldown_ms: 0, duration_sec: 640,
            kind: SkillKind::Active, target: SkillTarget::SelfOnly,
            effect_desc: "防禦力+8" },
        ClassSkill { skill_id: 116, name: "呼喚盟友", class: CharClass::Royal, grade: 3, learn_level: 60,
            mp_cost: 50, hp_cost: 0, reagent_cost: 0, reagent_item_id: 0,
            cast_time_ms: 100, cooldown_ms: 0, duration_sec: 0,
            kind: SkillKind::Active, target: SkillTarget::ClanMember,
            effect_desc: "召喚血盟成員到自己位置" },
        ClassSkill { skill_id: 117, name: "勇猛意志", class: CharClass::Royal, grade: 3, learn_level: 50,
            mp_cost: 25, hp_cost: 0, reagent_cost: 0, reagent_item_id: 0,
            cast_time_ms: 100, cooldown_ms: 0, duration_sec: 640,
            kind: SkillKind::Active, target: SkillTarget::SelfOnly,
            effect_desc: "30%機率攻擊力×1.5倍" },
        ClassSkill { skill_id: 118, name: "援護盟友", class: CharClass::Royal, grade: 3, learn_level: 55,
            mp_cost: 50, hp_cost: 0, reagent_cost: 0, reagent_item_id: 0,
            cast_time_ms: 100, cooldown_ms: 0, duration_sec: 0,
            kind: SkillKind::Active, target: SkillTarget::ClanMember,
            effect_desc: "傳送到血盟成員所在位置" },
    ];
    assert(skills@ =~= royal_rows());
    assert(ids_of(skills@) =~= royal_ids());
    skills
}

/// The rows of the knight table.
pub open spec fn knight_rows() -> Seq<ClassSkill> {
    seq![
        ClassSkill { skill_id: 120, name: "衝擊之暈", class: CharClass::Knight, grade: 2, learn_level: 50,
            mp_cost: 15, hp_cost: 0, reagent_cost: 0, reagent_item_id: 0,
            cast_time_ms: 0, cooldown_ms: 8000, duration_sec: 5,
            kind: SkillKind::Active, target: SkillTarget::SingleEnemy,
            effect_desc: "暈眩3-6秒，50%命中率（等級差±5%/級）" },
        ClassSkill { skill_id: 121, name: "反擊屏障", class: CharClass::Knight, grade: 2, learn_level: 50,
            mp_cost: 10, hp_cost: 0, reagent_cost: 0, reagent_item_id: 0,
            cast_time_ms: 0, cooldown_ms: 0, duration_sec: 0,
            kind: SkillKind::Passive, target: SkillTarget::SelfOnly,
            effect_desc: "35%機率反彈物理傷害（不反彈弓箭），等級越高機率越高" },
        ClassSkill { skill_id: 122, name: "增幅防禦", class: CharClass::Knight, grade: 2, learn_level: 50,
            mp_cost: 5, hp_cost: 50, reagent_cost: 0, reagent_item_id: 0,
            cast_time_ms: 0, cooldown_ms: 0, duration_sec: 32,
            kind: SkillKind::Active, target: SkillTarget::SelfOnly,
            effect_desc: "傷害減免+1（Lv50），每5級額外+1，最高+7（Lv80）" },
        ClassSkill { skill_id: 123, name: "尖刺盔甲", class: CharClass::Knight, grade: 1, learn_level: 30,
            mp_cost: 10, hp_cost: 0, reagent_cost: 0, reagent_item_id: 0,
            cast_time_ms: 0, cooldown_ms: 0, duration_sec: 192,
            kind: SkillKind::Active, target: SkillTarget::SelfOnly,
            effect_desc: "物理命中率+6" },
        ClassSkill { skill_id: 124, name: "堅固防護", class: CharClass::Knight, grade: 2, learn_level: 50,
            mp_cost: 10, hp_cost: 100, reagent_cost: 0, reagent_item_id: 0,
            cast_time_ms: 0, cooldown_ms: 0, duration_sec: 64,
            kind: SkillKind::Active, target: SkillTarget::SelfOnly,
            effect_desc: "迴避率+15（需裝備盾牌）" },
    ]
}

/// The knight skills: exactly the rows of `knight_rows`, which are sound
/// entries of the class with the ids of `knight_ids`.
pub fn knight_skills() -> (skills: Vec<ClassSkill>)
    ensures
        skills@ == knight_rows(),
        table_of(skills@, CharClass::Knight, knight_ids()),
{
    let skills = vec![
        ClassSkill { skill_id: 120, name: "衝擊之暈", class: CharClass::Knight, grade: 2, learn_level: 50,
            mp_cost: 15, hp_cost: 0, reagent_cost: 0, reagent_item_id: 0,
            cast_time_ms: 0, cooldown_ms: 8000, duration_sec: 5,
            kind: SkillKind::Active, target: SkillTarget::SingleEnemy,
            effect_desc: "暈眩3-6秒，50%命中率（等級差±5%/級）" },
        ClassSkill { skill_id: 121, name: "反擊屏障", class: CharClass::Knight, grade: 2, learn_level: 50,
            mp_cost: 10, hp_cost: 0, reagent_cost: 0, reagent_item_id: 0,
            cast_time_ms: 0, cooldown_ms: 0, duration_sec: 0,
            kind: SkillKind::Passive, target: SkillTarget::SelfOnly,
            effect_desc: "35%機率反彈物理傷害（不反彈弓箭），等級越高機率越高" },
        ClassSkill { skill_id: 122, name: "增幅防禦", class: CharClass::Knight, grade: 2, learn_level: 50,
            mp_cost: 5, hp_cost: 50, reagent_cost: 0, reagent_item_id: 0,
            cast_time_ms: 0, cooldown_ms: 0, duration_sec: 32,
            kind: SkillKind::Active, target: SkillTarget::SelfOnly,
            effect_desc: "傷害減免+1（Lv50），每5級額外+1，最高+7（Lv80）" },
        ClassSkill { skill_id: 123, name: "尖刺盔甲", class: CharClass::Knight, grade: 1, learn_level: 30,
            mp_cost: 10, hp_cost: 0, reagent_cost: 0, reagent_item_id: 0,
            cast_time_ms: 0, cooldown_ms: 0, duration_sec: 192,
            kind: SkillKind::Active, target: SkillTarget::SelfOnly,
            effect_desc: "物理命中率+6" },
        ClassSkill { skill_id: 124, name: "堅固防護", class: CharClass::Knight, grade: 2, learn_level: 50,
            mp_cost: 10, hp_cost: 100, reagent_cost: 0, reagent_item_id: 0,
            cast_time_ms: 0, cooldown_ms: 0, duration_sec: 64,
            kind: SkillKind::Active, target: SkillTarget::SelfOnly,
            effect_desc: "迴避率+15（需裝備盾牌）" },
    ];
    assert(skills@ =~= knight_rows());
    assert(ids_of(skills@) =~= knight_ids());
    skills
}

/// The rows of the elf table.
pub open spec fn elf_rows() -> Seq<ClassSkill> {
    seq![
        ClassSkill { skill_id: 130, name: "三重矢", class: CharClass::Elf, grade: 2, learn_level: 30,
            mp_cost: 15, hp_cost: 0, reagent_cost: 3, reagent_item_id: 40745,
            cast_time_ms: 360, cooldown_ms: 0, duration_sec: 0,
            kind: SkillKind::Active, target: SkillTarget::SingleEnemy,
            effect_desc: "同時射出3支箭矢攻擊目標" },
        ClassSkill { skill_id: 131, name: "精靈之火", class: CharClass::Elf, grade: 2, learn_level: 30,
            mp_cost: 12, hp_cost: 0, reagent_cost: 0, reagent_item_id: 0,
            cast_time_ms: 440, cooldown_ms: 0, duration_sec: 0,
            kind: SkillKind::Active, target: SkillTarget::SingleEnemy,
            effect_desc: "火屬性精靈魔法攻擊" },
        ClassSkill { skill_id: 132, name: "封印禁地", class: CharClass::Elf, grade: 2, learn_level: 30,
            mp_cost: 15, hp_cost: 0, reagent_cost: 0, reagent_item_id: 0,
            cast_time_ms: 360, cooldown_ms: 0, duration_sec: 16,
            kind: SkillKind::Active, target: SkillTarget::AreaEnemy,
            effect_desc: "範圍內敵人無法使用魔法" },
        ClassSkill { skill_id: 133, name: "召喚屬性精靈", class: CharClass::Elf, grade: 3, learn_level: 45,
            mp_cost: 30, hp_cost: 0, reagent_cost: 0, reagent_item_id: 0,
            cast_time_ms: 1000, cooldown_ms: 0, duration_sec: 0,
            kind: SkillKind::Active, target: SkillTarget::SelfOnly,
            effect_desc: "召喚風/水/火/土屬性精靈作戰" },
        ClassSkill { skill_id: 134, name: "風之神射", class: CharClass::Elf, grade: 3, learn_level: 45,
            mp_cost: 25, hp_cost: 0, reagent_cost: 0, reagent_item_id: 0,
            cast_time_ms: 360, cooldown_ms: 0, duration_sec: 0,
            kind: SkillKind::Active, target: SkillTarget::SingleEnemy,
            effect_desc: "強力風屬性箭矢攻擊" },
        ClassSkill { skill_id: 135, name: "生命之泉", class: CharClass::Elf, grade: 2, learn_level: 30,
            mp_cost: 20, hp_cost: 0, reagent_cost: 0, reagent_item_id: 0,
            cast_time_ms: 360, cooldown_ms: 0, duration_sec: 300,
            kind: SkillKind::Active, target: SkillTarget::SelfOnly,
            effect_desc: "持續回復HP" },
    ]
}

/// The elf skills: exactly the rows of `elf_rows`, which are sound
/// entries of the class with the ids of `elf_ids`.
pub fn elf_skills() -> (skills: Vec<ClassSkill>)
    ensures
        skills@ == elf_rows(),
        table_of(skills@, CharClass::Elf, elf_ids()),
{
    let skills = vec![
        ClassSkill { skill_id: 130, name: "三重矢", class: CharClass::Elf, grade: 2, learn_level: 30,
            mp_cost: 15, hp_cost: 0, reagent_cost: 3, reagent_item_id: 40745,
            cast_time_ms: 360, cooldown_ms: 0, duration_sec: 0,
            kind: SkillKind::Active, target: SkillTarget::SingleEnemy,
            effect_desc: "同時射出3支箭矢攻擊目標" },
        ClassSkill { skill_id: 131, name: "精靈之火", class: CharClass::Elf, grade: 2, learn_level: 30,
            mp_cost: 12, hp_cost: 0, reagent_cost: 0, reagent_item_id: 0,
            cast_time_ms: 440, cooldown_ms: 0, duration_sec: 0,
            kind: SkillKind::Active, target: SkillTarget::SingleEnemy,
            effect_desc: "火屬性精靈魔法攻擊" },
        ClassSkill { skill_id: 132, name: "封印禁地", class: CharClass::Elf, grade: 2, learn_level: 30,
            mp_cost: 15, hp_cost: 0, reagent_cost: 0, reagent_item_id: 0,
            cast_time_ms: 360, cooldown_ms: 0, duration_sec: 16,
            kind: SkillKind::Active, target: SkillTarget::AreaEnemy,
            effect_desc: "範圍內敵人無法使用魔法" },
        ClassSkill { skill_id: 133, name: "召喚屬性精靈", class: CharClass::Elf, grade: 3, learn_level: 45,
            mp_cost: 30, hp_cost: 0, reagent_cost: 0, reagent_item_id: 0,
            cast_time_ms: 1000, cooldown_ms: 0, duration_sec: 0,
            kind: SkillKind::Active, target: SkillTarget::SelfOnly,
            effect_desc: "召喚風/水/火/土屬性精靈作戰" },
        ClassSkill { skill_id: 134, name: "風之神射", class: CharClass::Elf, grade: 3, learn_level: 45,
            mp_cost: 25, hp_cost: 0, reagent_cost: 0, reagent_item_id: 0,
            cast_time_ms: 360, cooldown_ms: 0, duration_sec: 0,
            kind: SkillKind::Active, target: SkillTarget::SingleEnemy,
            effect_desc: "強力風屬性箭矢攻擊" },
        ClassSkill { skill_id: 135, name: "生命之泉", class: CharClass::Elf, grade: 2, learn_level: 30,
            mp_cost: 20, hp_cost: 0, reagent_cost: 0, reagent_item_id: 0,
            cast_time_ms: 360, cooldown_ms: 0, duration_sec: 300,
            kind: SkillKind::Active, target: SkillTarget::SelfOnly,
            effect_desc: "持續回復HP" },
    ];
    assert(skills@ =~= elf_rows());
    assert(ids_of(skills@) =~= elf_ids());
    skills
}

/// The rows of the dragon knight table.
pub open spec fn dragon_knight_rows() -> Seq<ClassSkill> {
    seq![
        ClassSkill { skill_id: 140, name: "龍之護鎧", class: CharClass::DragonKnight, grade: 1, learn_level: 15,
            mp_cost: 10, hp_cost: 0, reagent_cost: 0, reagent_item_id: 0,
            cast_time_ms: 360, cooldown_ms: 0, duration_sec: 300,
            kind: SkillKind::Active, target: SkillTarget::SelfOnly,
            effect_desc: "傷害減免+5，Lv80後每2級額外+1" },
        ClassSkill { skill_id: 141, name: "燃燒擊砍", class: CharClass::DragonKnight, grade: 1, learn_level: 15,
            mp_cost: 10, hp_cost: 5, reagent_cost: 0, reagent_item_id: 0,
            cast_time_ms: 200, cooldown_ms: 2000, duration_sec: 0,
            kind: SkillKind::Active, target: SkillTarget::SingleEnemy,
            effect_desc: "強力火焰斬擊" },
        ClassSkill { skill_id: 142, name: "護衛毀滅", class: CharClass::DragonKnight, grade: 1, learn_level: 15,
            mp_cost: 15, hp_cost: 10, reagent_cost: 0, reagent_item_id: 0,
            cast_time_ms: 200, cooldown_ms: 3000, duration_sec: 10,
            kind: SkillKind::Active, target: SkillTarget::SingleEnemy,
            effect_desc: "目標AC降低10" },
        ClassSkill { skill_id: 143, name: "岩漿噴吐", class: CharClass::DragonKnight, grade: 1, learn_level: 15,
            mp_cost: 12, hp_cost: 5, reagent_cost: 0, reagent_item_id: 0,
            cast_time_ms: 440, cooldown_ms: 0, duration_sec: 0,
            kind: SkillKind::Active, target: SkillTarget::AreaEnemy,
            effect_desc: "目標及周邊敵人火焰傷害" },
        ClassSkill { skill_id: 144, name: "血之渴望", class: CharClass::DragonKnight, grade: 2, learn_level: 30,
            mp_cost: 15, hp_cost: 0, reagent_cost: 0, reagent_item_id: 0,
            cast_time_ms: 360, cooldown_ms: 0, duration_sec: 300,
            kind: SkillKind::Active, target: SkillTarget::SelfOnly,
            effect_desc: "攻擊速度和移動速度提升" },
        ClassSkill { skill_id: 145, name: "屠宰者", class: CharClass::DragonKnight, grade: 2, learn_level: 30,
            mp_cost: 20, hp_cost: 10, reagent_cost: 0, reagent_item_id: 0,
            cast_time_ms: 200, cooldown_ms: 4000, duration_sec: 0,
            kind: SkillKind::Active, target: SkillTarget::SingleEnemy,
            effect_desc: "3連擊，弱點曝光×3時吸取150HP+傷害加成" },
        ClassSkill { skill_id: 146, name: "恐懼無助", class: CharClass::DragonKnight, grade: 2, learn_level: 30,
            mp_cost: 15, hp_cost: 5, reagent_cost: 0, reagent_item_id: 0,
            cast_time_ms: 360, cooldown_ms: 0, duration_sec: 16,
            kind: SkillKind::Active, target: SkillTarget::SingleEnemy,
            effect_desc: "降低目標閃避率" },
        ClassSkill { skill_id: 147, name: "致命身軀", class: CharClass::DragonKnight, grade: 3, learn_level: 45,
            mp_cost: 0, hp_cost: 0, reagent_cost: 0, reagent_item_id: 0,
            cast_time_ms: 0, cooldown_ms: 0, duration_sec: 0,
            kind: SkillKind::Passive, target: SkillTarget::SelfOnly,
            effect_desc: "23%機率反射敵人30點傷害" },
        ClassSkill { skill_id: 148, name: "奪命之雷", class: CharClass::DragonKnight, grade: 3, learn_level: 45,
            mp_cost: 25, hp_cost: 10, reagent_cost: 0, reagent_item_id: 0,
            cast_time_ms: 440, cooldown_ms: 3000, duration_sec: 0,
            kind: SkillKind::Active, target: SkillTarget::AreaEnemy,
            effect_desc: "落雷攻擊1-4目標，28-44傷害，60%機率束縛1-4秒" },
    ]
}

/// The dragon knight skills: exactly the rows of `dragon_knight_rows`, which are sound
/// entries of the class with the ids of `dragon_knight_ids`.
pub fn dragon_knight_skills() -> (skills: Vec<ClassSkill>)
    ensures
        skills@ == dragon_knight_rows(),
        table_of(skills@, CharClass::DragonKnight, dragon_knight_ids()),
{
    let skills = vec![
        ClassSkill { skill_id: 140, name: "龍之護鎧", class: CharClass::DragonKnight, grade: 1, learn_level: 15,
            mp_cost: 10, hp_cost: 0, reagent_cost: 0, reagent_item_id: 0,
            cast_time_ms: 360, cooldown_ms: 0, duration_sec: 300,
            kind: SkillKind::Active, target: SkillTarget::SelfOnly,
            effect_desc: "傷害減免+5，Lv80後每2級額外+1" },
        ClassSkill { skill_id: 141, name: "燃燒擊砍", class: CharClass::DragonKnight, grade: 1, learn_level: 15,
            mp_cost: 10, hp_cost: 5, reagent_cost: 0, reagent_item_id: 0,
            cast_time_ms: 200, cooldown_ms: 2000, duration_sec: 0,
            kind: SkillKind::Active, target: SkillTarget::SingleEnemy,
            effect_desc: "強力火焰斬擊" },
        ClassSkill { skill_id: 142, name: "護衛毀滅", class: CharClass::DragonKnight, grade: 1, learn_level: 15,
            mp_cost: 15, hp_cost: 10, reagent_cost: 0, reagent_item_id: 0,
            cast_time_ms: 200, cooldown_ms: 3000, duration_sec: 10,
            kind: SkillKind::Active, target: SkillTarget::SingleEnemy,
            effect_desc: "目標AC降低10" },
        ClassSkill { skill_id: 143, name: "岩漿噴吐", class: CharClass::DragonKnight, grade: 1, learn_level: 15,
            mp_cost: 12, hp_cost: 5, reagent_cost: 0, reagent_item_id: 0,
            cast_time_ms: 440, cooldown_ms: 0, duration_sec: 0,
            kind: SkillKind::Active, target: SkillTarget::AreaEnemy,
            effect_desc: "目標及周邊敵人火焰傷害" },
        ClassSkill { skill_id: 144, name: "血之渴望", class: CharClass::DragonKnight, grade: 2, learn_level: 30,
            mp_cost: 15, hp_cost: 0, reagent_cost: 0, reagent_item_id: 0,
            cast_time_ms: 360, cooldown_ms: 0, duration_sec: 300,
            kind: SkillKind::Active, target: SkillTarget::SelfOnly,
            effect_desc: "攻擊速度和移動速度提升" },
        ClassSkill { skill_id: 145, name: "屠宰者", class: CharClass::DragonKnight, grade: 2, learn_level: 30,
            mp_cost: 20, hp_cost: 10, reagent_cost: 0, reagent_item_id: 0,
            cast_time_ms: 200, cooldown_ms: 4000, duration_sec: 0,
            kind: SkillKind::Active, target: SkillTarget::SingleEnemy,
            effect_desc: "3連擊，弱點曝光×3時吸取150HP+傷害加成" },
        ClassSkill { skill_id: 146, name: "恐懼無助", class: CharClass::DragonKnight, grade: 2, learn_level: 30,
            mp_cost: 15, hp_cost: 5, reagent_cost: 0, reagent_item_id: 0,
            cast_time_ms: 360, cooldown_ms: 0, duration_sec: 16,
            kind: SkillKind::Active, target: SkillTarget::SingleEnemy,
            effect_desc: "降低目標閃避率" },
        ClassSkill { skill_id: 147, name: "致命身軀", class: CharClass::DragonKnight, grade: 3, learn_level: 45,
            mp_cost: 0, hp_cost: 0, reagent_cost: 0, reagent_item_id: 0,
            cast_time_ms: 0, cooldown_ms: 0, duration_sec: 0,
            kind: SkillKind::Passive, target: SkillTarget::SelfOnly,
            effect_desc: "23%機率反射敵人30點傷害" },
        ClassSkill { skill_id: 148, name: "奪命之雷", class: CharClass::DragonKnight, grade: 3, learn_level: 45,
            mp_cost: 25, hp_cost: 10, reagent_cost: 0, reagent_item_id: 0,
            cast_time_ms: 440, cooldown_ms: 3000, duration_sec: 0,
            kind: SkillKind::Active, target: SkillTarget::AreaEnemy,
            effect_desc: "落雷攻擊1-4目標，28-44傷害，60%機率束縛1-4秒" },
    ];
    assert(skills@ =~= dragon_knight_rows());
    assert(ids_of(skills@) =~= dragon_knight_ids());
    skills
}

/// The rows of the illusionist table.
pub open spec fn illusionist_rows() -> Seq<ClassSkill> {
    seq![
        ClassSkill { skill_id: 150, name: "幻覺：化身", class: CharClass::Illusionist, grade: 2, learn_level: 30,
            mp_cost: 35, hp_cost: 0, reagent_cost: 0, reagent_item_id: 0,
            cast_time_ms: 360, cooldown_ms: 0, duration_sec: 12,
            kind: SkillKind::Active, target: SkillTarget::SelfOnly,
            effect_desc: "攻擊力/魔攻+10(+6)，受傷增加50%，命中100%" },
        ClassSkill { skill_id: 151, name: "疼痛的歡愉", class: CharClass::Illusionist, grade: 2, learn_level: 30,
            mp_cost: 40, hp_cost: 0, reagent_cost: 0, reagent_item_id: 0,
            cast_time_ms: 360, cooldown_ms: 3000, duration_sec: 0,
            kind: SkillKind::Active, target: SkillTarget::SingleEnemy,
            effect_desc: "依自身損失HP計算傷害：(損失HP÷5)×1.6，命中100%" },
        ClassSkill { skill_id: 152, name: "骷髏毀壞", class: CharClass::Illusionist, grade: 1, learn_level: 15,
            mp_cost: 20, hp_cost: 0, reagent_cost: 0, reagent_item_id: 0,
            cast_time_ms: 360, cooldown_ms: 0, duration_sec: 2,
            kind: SkillKind::Active, target: SkillTarget::SingleEnemy,
            effect_desc: "10傷害，20-30%機率昏迷1秒" },
        ClassSkill { skill_id: 153, name: "幻想", class: CharClass::Illusionist, grade: 2, learn_level: 30,
            mp_cost: 30, hp_cost: 25, reagent_cost: 0, reagent_item_id: 0,
            cast_time_ms: 360, cooldown_ms: 0, duration_sec: 5,
            kind: SkillKind::Active, target: SkillTarget::SingleEnemy,
            effect_desc: "30%機率石化，無法移動/攻擊（被攻擊解除）" },
        ClassSkill { skill_id: 154, name: "混亂", class: CharClass::Illusionist, grade: 2, learn_level: 30,
            mp_cost: 15, hp_cost: 10, reagent_cost: 0, reagent_item_id: 0,
            cast_time_ms: 360, cooldown_ms: 0, duration_sec: 8,
            kind: SkillKind::Active, target: SkillTarget::SingleEnemy,
            effect_desc: "11傷害，20-30%機率混亂8秒（無法使用魔法）" },
        ClassSkill { skill_id: 155, name: "鏡像", class: CharClass::Illusionist, grade: 3, learn_level: 45,
            mp_cost: 20, hp_cost: 0, reagent_cost: 0, reagent_item_id: 0,
            cast_time_ms: 360, cooldown_ms: 0, duration_sec: 32,
            kind: SkillKind::Active, target: SkillTarget::SelfOnly,
            effect_desc: "產生分身，吸引敵人攻擊" },
        ClassSkill { skill_id: 156, name: "立方體：燃燒", class: CharClass::Illusionist, grade: 3, learn_level: 45,
            mp_cost: 30, hp_cost: 0, reagent_cost: 0, reagent_item_id: 0,
            cast_time_ms: 1000, cooldown_ms: 0, duration_sec: 300,
            kind: SkillKind::Active, target: SkillTarget::SelfOnly,
            effect_desc: "召喚火焰立方體，持續對附近敵人造成火焰傷害" },
    ]
}

/// The illusionist skills: exactly the rows of `illusionist_rows`, which are sound
/// entries of the class with the ids of `illusionist_ids`.
pub fn illusionist_skills() -> (skills: Vec<ClassSkill>)
    ensures
        skills@ == illusionist_rows(),
        table_of(skills@, CharClass::Illusionist, illusionist_ids()),
{
    let skills = vec![
        ClassSkill { skill_id: 150, name: "幻覺：化身", class: CharClass::Illusionist, grade: 2, learn_level: 30,
            mp_cost: 35, hp_cost: 0, reagent_cost: 0, reagent_item_id: 0,
            cast_time_ms: 360, cooldown_ms: 0, duration_sec: 12,
            kind: SkillKind::Active, target: SkillTarget::SelfOnly,
            effect_desc: "攻擊力/魔攻+10(+6)，受傷增加50%，命中100%" },
        ClassSkill { skill_id: 151, name: "疼痛的歡愉", class: CharClass::Illusionist, grade: 2, learn_level: 30,
            mp_cost: 40, hp_cost: 0, reagent_cost: 0, reagent_item_id: 0,
            cast_time_ms: 360, cooldown_ms: 3000, duration_sec: 0,
            kind: SkillKind::Active, target: SkillTarget::SingleEnemy,
            effect_desc: "依自身損失HP計算傷害：(損失HP÷5)×1.6，命中100%" },
        ClassSkill { skill_id: 152, name: "骷髏毀壞", class: CharClass::Illusionist, grade: 1, learn_level: 15,
            mp_cost: 20, hp_cost: 0, reagent_cost: 0, reagent_item_id: 0,
            cast_time_ms: 360, cooldown_ms: 0, duration_sec: 2,
            kind: SkillKind::Active, target: SkillTarget::SingleEnemy,
            effect_desc: "10傷害，20-30%機率昏迷1秒" },
        ClassSkill { skill_id: 153, name: "幻想", class: CharClass::Illusionist, grade: 2, learn_level: 30,
            mp_cost: 30, hp_cost: 25, reagent_cost: 0, reagent_item_id: 0,
            cast_time_ms: 360, cooldown_ms: 0, duration_sec: 5,
            kind: SkillKind::Active, target: SkillTarget::SingleEnemy,
            effect_desc: "30%機率石化，無法移動/攻擊（被攻擊解除）" },
        ClassSkill { skill_id: 154, name: "混亂", class: CharClass::Illusionist, grade: 2, learn_level: 30,
            mp_cost: 15, hp_cost: 10, reagent_cost: 0, reagent_item_id: 0,
            cast_time_ms: 360, cooldown_ms: 0, duration_sec: 8,
            kind: SkillKind::Active, target: SkillTarget::SingleEnemy,
            effect_desc: "11傷害，20-30%機率混亂8秒（無法使用魔法）" },
        ClassSkill { skill_id: 155, name: "鏡像", class: CharClass::Illusionist, grade: 3, learn_level: 45,
            mp_cost: 20, hp_cost: 0, reagent_cost: 0, reagent_item_id: 0,
            cast_time_ms: 360, cooldown_ms: 0, duration_sec: 32,
            kind: SkillKind::Active, target: SkillTarget::SelfOnly,
            effect_desc: "產生分身，吸引敵人攻擊" },
        ClassSkill { skill_id: 156, name: "立方體：燃燒", class: CharClass::Illusionist, grade: 3, learn_level: 45,
            mp_cost: 30, hp_cost: 0, reagent_cost: 0, reagent_item_id: 0,
            cast_time_ms: 1000, cooldown_ms: 0, duration_sec: 300,
            kind: SkillKind::Active, target: SkillTarget::SelfOnly,
            effect_desc: "召喚火焰立方體，持續對附近敵人造成火焰傷害" },
    ];
    assert(skills@ =~= illusionist_rows());
    assert(ids_of(skills@) =~= illusionist_ids());
    skills
}

/// The rows of all class skills: the five tables one after the other.
pub open spec fn all_class_rows() -> Seq<ClassSkill> {
    royal_rows() + knight_rows() + elf_rows() + dragon_knight_rows() + illusionist_rows()
}

/// The ids of all class skills: the five tables one after the other.
pub open spec fn all_class_ids() -> Seq<i32> {
    royal_ids() + knight_ids() + elf_ids() + dragon_knight_ids() + illusionist_ids()
}

proof fn lemma_ids_of_join(a: Seq<ClassSkill>, b: Seq<ClassSkill>)
    ensures
        ids_of(a + b) == ids_of(a) + ids_of(b),
{
    assert(ids_of(a + b) =~= ids_of(a) + ids_of(b));
}

proof fn lemma_increasing_join(a: Seq<i32>, b: Seq<i32>)
    requires
        increasing(a),
        increasing(b),
        a.len() > 0,
        b.len() > 0,
        a.last() < b.first(),
    ensures
        increasing(a + b),
        (a + b).len() == a.len() + b.len(),
        (a + b).last() == b.last(),
        (a + b).first() == a.first(),
{
    let c = a + b;
    assert forall|i: int, j: int| 0 <= i < j < c.len() implies c[i] < c[j] by {
        if j < a.len() {
        } else if i >= a.len() {
            assert(b[i - a.len()] < b[j - a.len()]);
        } else {
            assert(a[i] <= a.last());
            assert(b.first() <= b[j - a.len()]);
        }
    }
}

/// No number occurs twice among strictly increasing numbers.
pub proof fn lemma_increasing_is_duplicate_free(ids: Seq<i32>)
    requires
        increasing(ids),
    ensures
        ids.no_duplicates(),
{
    assert forall|i: int, j: int| 0 <= i < ids.len() && 0 <= j < ids.len() && i != j implies ids[i]
        != ids[j] by {
        if i < j {
            assert(ids[i] < ids[j]);
        } else {
            assert(ids[j] < ids[i]);
        }
    }
}

/// The ids of all class skills are strictly increasing.
pub proof fn lemma_all_class_ids_increasing()
    ensures
        increasing(all_class_ids()),
        all_class_ids().len() == 36,
{
    let r = royal_ids();
    let k = knight_ids();
    let e = elf_ids();
    let d = dragon_knight_ids();
    let i = illusionist_ids();
    assert(increasing(r));
    assert(increasing(k));
    assert(increasing(e));
    assert(increasing(d));
    assert(increasing(i));
    lemma_increasing_join(r, k);
    lemma_increasing_join(r + k, e);
    lemma_increasing_join(r + k + e, d);
    lemma_increasing_join(r + k + e + d, i);
}

/// All class skills: the royal, knight, elf, dragon knight and illusionist
/// tables, in this order. No skill id occurs twice.
pub fn all_class_skills() -> (all: Vec<ClassSkill>)
    ensures
        all@ == all_class_rows(),
        ids_of(all@) == all_class_ids(),
        increasing(ids_of(all@)),
        ids_of(all@).no_duplicates(),
        all@.len() == 36,
        forall|i: int| 0 <= i < all@.len() ==> sound_skill(#[trigger] all@[i]),
        forall|i: int| 0 <= i < all@.len() ==> (#[trigger] all@[i]).class == class_at(i),
{
    let mut all: Vec<ClassSkill> = Vec::new();
    let mut royal = royal_skills();
    let mut knight = knight_skills();
    let mut elf = elf_skills();
    let mut dragon_knight = dragon_knight_skills();
    let mut illusionist = illusionist_skills();
    let ghost r = royal@;
    let ghost k = knight@;
    let ghost e = elf@;
    let ghost d = dragon_knight@;
    let ghost i = illusionist@;
    all.append(&mut royal);
    all.append(&mut knight);
    all.append(&mut elf);
    all.append(&mut dragon_knight);
    all.append(&mut illusionist);
    proof {
        assert(all@ =~= r + k + e + d + i);
        lemma_ids_of_join(r, k);
        lemma_ids_of_join(r + k, e);
        lemma_ids_of_join(r + k + e, d);
        lemma_ids_of_join(r + k + e + d, i);
        lemma_all_class_ids_increasing();
        lemma_increasing_is_duplicate_free(all_class_ids());
        assert(r.len() == ids_of(r).len());
        assert(k.len() == ids_of(k).len());
        assert(e.len() == ids_of(e).len());
        assert(d.len() == ids_of(d).len());
        assert(i.len() == ids_of(i).len());
        assert forall|j: int| 0 <= j < all@.len() implies sound_skill(#[trigger] all@[j])
            && all@[j].class == class_at(j) by {
            if j < 9 {
                assert(all@[j] == r[j]);
            } else if j < 14 {
                assert(all@[j] == k[j - 9]);
            } else if j < 20 {
                assert(all@[j] == e[j - 14]);
            } else if j < 29 {
                assert(all@[j] == d[j - 20]);
            } else {
                assert(all@[j] == i[j - 29]);
            }
        }
    }
    all
}

/// The class of the entry at position `i` of the list of all class skills.
pub open spec fn class_at(i: int) -> CharClass {
    if i < 9 {
        CharClass::Royal
    } else if i < 14 {
        CharClass::Knight
    } else if i < 20 {
        CharClass::Elf
    } else if i < 29 {
        CharClass::DragonKnight
    } else {
        CharClass::Illusionist
    }
}

} // verus!
