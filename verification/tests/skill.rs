use l1j_rust::ecs::components::skill::{skill_ids, SkillCooldowns, SkillEffects};

#[test]
fn test_add_and_check_effect() {
    let mut effects = SkillEffects::new();
    effects.add_effect(skill_ids::HASTE, 50, 1);

    assert!(effects.has_effect(skill_ids::HASTE));
    assert!(!effects.has_effect(skill_ids::SHIELD));
}

#[test]
fn test_effect_expiry() {
    let mut effects = SkillEffects::new();
    effects.add_effect(skill_ids::SHIELD, 3, 2); // 3 ticks

    let expired = effects.tick(); // 2 remaining
    assert!(expired.is_empty());

    let expired = effects.tick(); // 1 remaining
    assert!(expired.is_empty());

    let expired = effects.tick(); // 0 remaining -> expire
    assert_eq!(expired, vec![skill_ids::SHIELD]);
    assert!(!effects.has_effect(skill_ids::SHIELD));
}

#[test]
fn test_permanent_effect() {
    let mut effects = SkillEffects::new();
    effects.add_effect(99, 0, 5); // permanent (0 ticks)

    for _ in 0..100 {
        effects.tick();
    }
    assert!(effects.has_effect(99)); // still active
}

#[test]
fn test_cooldown() {
    let mut cd = SkillCooldowns::new();
    cd.set_cooldown(skill_ids::FIREBALL, 5);

    assert!(!cd.is_ready(skill_ids::FIREBALL));

    for _ in 0..4 { cd.tick(); }
    assert!(!cd.is_ready(skill_ids::FIREBALL));

    cd.tick();
    assert!(cd.is_ready(skill_ids::FIREBALL));
}

#[test]
fn tick_ages_effects_and_reports_each_expired_once() {
    let mut effects = SkillEffects::new();
    effects.add_effect(1, 1, 10);
    effects.add_effect(2, 1, 20);
    effects.add_effect(3, 2, 30);
    effects.add_effect(4, 0, 40);
    let mut expired = effects.tick();
    expired.sort();
    assert_eq!(expired, vec![1, 2]);
    assert_eq!(effects.effects.len(), 2);
    assert_eq!(effects.effects[&3].remaining_ticks, 1);
    assert_eq!(effects.effects[&3].value, 30);
    assert_eq!(effects.effects[&3].skill_id, 3);
    assert_eq!(effects.effects[&4].remaining_ticks, 0);
    assert_eq!(effects.tick(), vec![3]);
    assert!(effects.tick().is_empty());
    assert!(effects.has_effect(4));
}

#[test]
fn add_effect_refreshes_and_remove_reports() {
    let mut effects = SkillEffects::new();
    effects.add_effect(5, 10, 1);
    effects.add_effect(5, 20, 2);
    assert_eq!(effects.effects.len(), 1);
    assert_eq!(effects.effects[&5].remaining_ticks, 20);
    assert_eq!(effects.effects[&5].value, 2);
    assert!(effects.remove_effect(5));
    assert!(!effects.remove_effect(5));
    assert!(!effects.has_effect(5));
}

#[test]
fn stat_modifier_is_the_sum_of_all_values() {
    let mut effects = SkillEffects::new();
    assert_eq!(effects.get_stat_modifier("ac"), 0);
    effects.add_effect(1, 5, 3);
    effects.add_effect(2, 5, -10);
    effects.add_effect(3, 0, 4);
    assert_eq!(effects.get_stat_modifier("ac"), -3);
    assert_eq!(effects.get_stat_modifier("anything"), -3);
}

#[test]
fn cooldowns_that_reach_zero_are_dropped() {
    let mut cd = SkillCooldowns::new();
    assert!(cd.is_ready(1));
    cd.set_cooldown(1, 1);
    cd.set_cooldown(2, 3);
    cd.set_cooldown(3, 0);
    assert!(cd.is_ready(3));
    cd.tick();
    assert!(cd.is_ready(1));
    assert_eq!(cd.cooldowns.len(), 1);
    assert_eq!(cd.cooldowns[&2], 2);
}
