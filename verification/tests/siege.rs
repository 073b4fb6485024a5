use l1j_rust::ecs::siege::{
    door_action, get_castle_info, tower_action, war_msg, ActiveWar, CastleData, DoorState,
    SiegeManager, TowerState, WarType, ADEN_CASTLE_ID, ADEN_MAIN_TOWER_NPC_ID,
    ADEN_SUB_TOWER_NPC_IDS, GUARDIAN_TOWER_NPC_ID, KENT_CASTLE_ID,
};

#[test]
fn test_castle_info() {
    let info = get_castle_info();
    assert_eq!(info.len(), 8);
    assert_eq!(info[0].name, "肯特城");
    assert_eq!(info[6].castle_id, ADEN_CASTLE_ID);
}

#[test]
fn test_war_area_check() {
    let mut mgr = SiegeManager::new();
    mgr.castles.insert(1, CastleData {
        castle_id: 1, name: "Kent".into(), war_time: 0,
        tax_rate: 10, public_money: 0, owner_clan_id: 0,
    });

    // Inside Kent war area
    assert!(mgr.is_in_war_area(1, 33150, 32770, 4));
    // Outside
    assert!(!mgr.is_in_war_area(1, 30000, 30000, 4));
}

#[test]
fn test_door_damage() {
    let mut door = DoorState {
        object_id: 1, castle_id: 1, max_hp: 600, cur_hp: 600,
        is_open: false, direction: 0, x: 100, y: 200, map_id: 4,
    };

    assert_eq!(door.get_damage_action(), door_action::DOOR_CLOSE);

    door.receive_damage(200);
    assert_eq!(door.cur_hp, 400);
    assert_eq!(door.get_damage_action(), door_action::DOOR_ACTION2);

    let destroyed = door.receive_damage(500);
    assert!(destroyed);
    assert_eq!(door.get_damage_action(), door_action::DOOR_DIE);

    door.repair();
    assert_eq!(door.cur_hp, 600);
}

#[test]
fn test_tower_crack() {
    let mut tower = TowerState {
        object_id: 1, castle_id: 1, npc_id: GUARDIAN_TOWER_NPC_ID,
        max_hp: 1000, cur_hp: 1000, x: 100, y: 200, map_id: 4,
    };

    assert_eq!(tower.get_crack_action(), tower_action::TOWER_NORMAL);

    tower.receive_damage(300); // 700/1000 = 70%
    assert_eq!(tower.get_crack_action(), tower_action::TOWER_CRACK1);

    tower.receive_damage(250); // 450/1000 = 45%
    assert_eq!(tower.get_crack_action(), tower_action::TOWER_CRACK2);

    tower.receive_damage(300); // 150/1000 = 15%
    assert_eq!(tower.get_crack_action(), tower_action::TOWER_CRACK3);

    let destroyed = tower.receive_damage(200);
    assert!(destroyed);
    assert_eq!(tower.get_crack_action(), tower_action::TOWER_DIE);
}

#[test]
fn test_aden_sub_tower_logic() {
    let mut mgr = SiegeManager::new();

    // Destroy 2 sub-towers
    for &npc_id in &ADEN_SUB_TOWER_NPC_IDS[..2] {
        let tower = TowerState {
            object_id: 1, castle_id: 7, npc_id,
            max_hp: 1000, cur_hp: 0, x: 100, y: 200, map_id: 4,
        };
        let spawned = mgr.on_tower_destroyed(&tower);
        assert!(!spawned); // no crown yet
    }

    // Main tower still invulnerable
    let main_tower = TowerState {
        object_id: 2, castle_id: 7, npc_id: ADEN_MAIN_TOWER_NPC_ID,
        max_hp: 2000, cur_hp: 0, x: 100, y: 200, map_id: 4,
    };
    assert!(!mgr.on_tower_destroyed(&main_tower));

    // Destroy 3rd sub-tower
    let tower3 = TowerState {
        object_id: 3, castle_id: 7, npc_id: ADEN_SUB_TOWER_NPC_IDS[2],
        max_hp: 1000, cur_hp: 0, x: 100, y: 200, map_id: 4,
    };
    mgr.on_tower_destroyed(&tower3);

    // Now main tower can be destroyed -> crown spawns
    assert!(mgr.on_tower_destroyed(&main_tower));
    assert_eq!(mgr.crowns.len(), 1);
    assert_eq!(mgr.crowns[0].castle_id, ADEN_CASTLE_ID);
}

#[test]
fn test_war_timer_expiry() {
    let mut mgr = SiegeManager::new();
    mgr.active_wars.push(ActiveWar {
        war_type: WarType::CastleWar,
        attack_clans: vec!["Attacker".into()],
        defence_clan: "Defender".into(),
        castle_id: 1,
        war_end_time: 0, // already expired
        is_active: true,
    });

    let ended = mgr.tick_war_timers();
    assert_eq!(ended, vec![1]);
    assert!(mgr.active_wars.is_empty());
}

#[test]
fn castle_table_is_exact() {
    let info = get_castle_info();
    for (i, c) in info.iter().enumerate() {
        assert_eq!(c.castle_id, i as i32 + 1);
        assert_eq!(c.war_area.4, 4);
        assert_eq!(c.tower_loc.2, 4);
    }
    assert_eq!(info[0].castle_id, KENT_CASTLE_ID);
    assert_eq!(info[0].war_area, (33089, 33219, 32717, 32827, 4));
    assert_eq!(info[0].tower_loc, (33139, 32768, 4));
    assert_eq!(info[0].inner_map_id, 15);
    assert_eq!(info[7].war_area, (33465, 33595, 32830, 32940, 4));
    assert_eq!(info[7].tower_loc, (33523, 32880, 4));
    assert_eq!(info[7].inner_map_id, 320);
    assert_eq!(info[6].inner_map_id, 300);
    let copy = info[3].clone();
    assert_eq!(copy.war_area, info[3].war_area);
    assert_eq!(copy.name, info[3].name);
}

#[test]
fn castle_at_a_position() {
    let mgr = SiegeManager::new();
    assert_eq!(mgr.get_castle_id_at(33150, 32770, 4), Some(1));
    assert_eq!(mgr.get_castle_id_at(33089, 32717, 4), Some(1));
    assert_eq!(mgr.get_castle_id_at(33220, 32770, 4), None);
    assert_eq!(mgr.get_castle_id_at(33150, 32770, 5), None);
    assert_eq!(mgr.get_castle_id_at(34065, 33224, 4), Some(7));
    assert!(!mgr.is_in_war_area(9, 33150, 32770, 4));
    assert!(!mgr.is_in_war_area(2, 33150, 32770, 4));
    assert!(!mgr.is_in_war_area(1, 33150, 32770, 5));
    assert!(mgr.is_in_war_area(1, 33219, 32827, 4));
}

#[test]
fn door_states_by_sixths() {
    let mut door = DoorState {
        object_id: 1, castle_id: 1, max_hp: 600, cur_hp: 600,
        is_open: true, direction: 0, x: 0, y: 0, map_id: 4,
    };
    let expect = [
        (600, door_action::DOOR_CLOSE),
        (501, door_action::DOOR_CLOSE),
        (500, door_action::DOOR_ACTION1),
        (401, door_action::DOOR_ACTION1),
        (400, door_action::DOOR_ACTION2),
        (301, door_action::DOOR_ACTION2),
        (300, door_action::DOOR_ACTION3),
        (201, door_action::DOOR_ACTION3),
        (200, door_action::DOOR_ACTION4),
        (101, door_action::DOOR_ACTION4),
        (100, door_action::DOOR_ACTION5),
        (1, door_action::DOOR_ACTION5),
        (0, door_action::DOOR_DIE),
        (-5, door_action::DOOR_DIE),
    ];
    for (hp, action) in expect {
        door.cur_hp = hp;
        assert_eq!(door.get_damage_action(), action, "hp {}", hp);
    }
    door.repair();
    assert!(!door.is_open);
    assert_eq!(door.cur_hp, 600);
}

#[test]
fn indestructible_door_takes_no_damage() {
    let mut door = DoorState {
        object_id: 1, castle_id: 1, max_hp: 0, cur_hp: 10,
        is_open: false, direction: 0, x: 0, y: 0, map_id: 4,
    };
    assert!(!door.receive_damage(1000));
    assert_eq!(door.cur_hp, 10);
    assert_eq!(door.get_damage_action(), door_action::DOOR_CLOSE);
}

#[test]
fn tower_states_by_quarters() {
    let mut tower = TowerState {
        object_id: 1, castle_id: 1, npc_id: GUARDIAN_TOWER_NPC_ID,
        max_hp: 1000, cur_hp: 1000, x: 0, y: 0, map_id: 4,
    };
    let expect = [
        (1000, tower_action::TOWER_NORMAL),
        (751, tower_action::TOWER_NORMAL),
        (750, tower_action::TOWER_CRACK1),
        (501, tower_action::TOWER_CRACK1),
        (500, tower_action::TOWER_CRACK2),
        (251, tower_action::TOWER_CRACK2),
        (250, tower_action::TOWER_CRACK3),
        (1, tower_action::TOWER_CRACK3),
        (0, tower_action::TOWER_DIE),
    ];
    for (hp, action) in expect {
        tower.cur_hp = hp;
        assert_eq!(tower.get_crack_action(), action, "hp {}", hp);
    }
    assert!(!tower.is_aden_main_tower());
    tower.npc_id = ADEN_MAIN_TOWER_NPC_ID;
    assert!(tower.is_aden_main_tower());
    tower.cur_hp = 10;
    assert!(!tower.receive_damage(3));
    assert_eq!(tower.cur_hp, 7);
    assert!(tower.receive_damage(7));
    assert_eq!(tower.cur_hp, 0);
}

#[test]
fn ordinary_tower_brings_a_crown_at_its_place() {
    let mut mgr = SiegeManager::new();
    let tower = TowerState {
        object_id: 5, castle_id: 1, npc_id: GUARDIAN_TOWER_NPC_ID,
        max_hp: 1000, cur_hp: 0, x: 33139, y: 32768, map_id: 4,
    };
    assert!(mgr.on_tower_destroyed(&tower));
    assert_eq!(mgr.crowns.len(), 1);
    let crown = &mgr.crowns[0];
    assert_eq!((crown.object_id, crown.castle_id, crown.x, crown.y, crown.map_id), (0, 1, 33139, 32768, 4));
    assert_eq!(mgr.aden_sub_towers_destroyed, 0);
}

#[test]
fn wars_and_clans() {
    let mut war = ActiveWar::new_castle_war("Red".into(), "Blue".into(), 4, 1000);
    assert_eq!(war.war_type, WarType::CastleWar);
    assert_eq!(war.attack_clans, vec!["Red".to_string()]);
    assert_eq!(war.defence_clan, "Blue");
    assert_eq!(war.castle_id, 4);
    assert_eq!(war.war_end_time, 1000);
    assert!(war.is_active);
    war.add_attacker("Green".into());
    war.add_attacker("Red".into());
    assert_eq!(war.attack_clans, vec!["Red".to_string(), "Green".to_string()]);
    assert!(war.involves_clan("Blue"));
    assert!(war.involves_clan("Green"));
    assert!(!war.involves_clan("Yellow"));
    assert!(war.is_expired_at(1000));
    assert!(!war.is_expired_at(999));
    assert!(war.is_expired());

    let mut mgr = SiegeManager::new();
    assert!(!mgr.is_now_war(4));
    mgr.active_wars.push(ActiveWar::new_castle_war("A".into(), "B".into(), 2, 5));
    mgr.active_wars.push(war);
    assert!(mgr.is_now_war(4));
    assert!(!mgr.is_now_war(5));
    assert_eq!(mgr.find_war_for_clan("Green").map(|w| w.castle_id), Some(4));
    assert_eq!(mgr.find_war_for_clan("B").map(|w| w.castle_id), Some(2));
    assert!(mgr.find_war_for_clan("Nobody").is_none());
    mgr.active_wars[1].is_active = false;
    assert!(!mgr.is_now_war(4));
}

#[test]
fn simulated_war_ends_after_its_duration() {
    let war = ActiveWar::new_sim_war_at("A".into(), "B".into(), 30, 1_000_000);
    assert_eq!(war.war_type, WarType::SimulatedWar);
    assert_eq!(war.castle_id, 0);
    assert_eq!(war.war_end_time, 1_001_800);
    assert!(war.is_active);
    let war = ActiveWar::new_sim_war_at("A".into(), "B".into(), i64::MAX, 5);
    assert_eq!(war.war_end_time, i64::MAX);
    let war = ActiveWar::new_sim_war("A".into(), "B".into(), 60);
    assert!(war.war_end_time > 1_600_000_000 + 3600);
    assert!(!war.is_expired());
}

#[test]
fn war_timers_at_a_given_time() {
    let mut mgr = SiegeManager::new();
    let war = |castle: i32, end: i64, active: bool| ActiveWar {
        war_type: WarType::CastleWar,
        attack_clans: vec!["A".into()],
        defence_clan: "D".into(),
        castle_id: castle,
        war_end_time: end,
        is_active: active,
    };
    mgr.active_wars.push(war(1, 100, true));
    mgr.active_wars.push(war(2, 200, true));
    mgr.active_wars.push(war(3, 50, false));
    mgr.active_wars.push(war(4, 150, true));
    mgr.active_wars.push(war(5, 300, true));
    let ended = mgr.tick_war_timers_at(150);
    assert_eq!(ended, vec![1, 4]);
    let left: Vec<i32> = mgr.active_wars.iter().map(|w| w.castle_id).collect();
    assert_eq!(left, vec![2, 5]);
    assert!(mgr.tick_war_timers_at(150).is_empty());
}

#[test]
fn war_messages() {
    assert_eq!(war_msg::DECLARE, 1);
    assert_eq!(war_msg::AT_WAR, 8);
    assert_eq!(door_action::DOOR_OPEN, 0);
}
