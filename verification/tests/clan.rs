use l1j_rust::ecs::components::clan::{
    contains_name, ranks, ClanData, ClanMembership, ADENA_ITEM_ID, CLAN_CREATE_COST,
};

#[test]
fn test_clan_data_members() {
    let mut clan = ClanData::new(1, "TestClan".into(), 100, "Leader".into());
    clan.add_member("Player1".into());
    clan.add_member("Player2".into());
    clan.add_member("Player1".into()); // duplicate

    assert_eq!(clan.member_count(), 2);

    clan.remove_member("Player1");
    assert_eq!(clan.member_count(), 1);
    assert_eq!(clan.member_names[0], "Player2");
}

#[test]
fn test_clan_membership_ranks() {
    let leader = ClanMembership {
        clan_id: 1, clan_name: "Test".into(),
        rank: ranks::CLAN_RANK_PRINCE, member_id: 1, notes: String::new(),
    };
    assert!(leader.is_leader());
    assert!(leader.can_invite());
    assert!(!leader.is_guardian());

    let guardian = ClanMembership {
        clan_id: 1, clan_name: "Test".into(),
        rank: ranks::CLAN_RANK_GUARDIAN, member_id: 2, notes: String::new(),
    };
    assert!(!guardian.is_leader());
    assert!(guardian.is_guardian());
    assert!(guardian.can_invite());

    let public = ClanMembership {
        clan_id: 1, clan_name: "Test".into(),
        rank: ranks::CLAN_RANK_PUBLIC, member_id: 3, notes: String::new(),
    };
    assert!(!public.is_leader());
    assert!(!public.can_invite());
}

#[test]
fn test_no_clan() {
    let none = ClanMembership::none();
    assert!(!none.has_clan());
    assert!(!none.is_leader());
}

#[test]
fn new_clan_has_leader_and_nothing_else() {
    let clan = ClanData::new(7, "Seven".into(), 70, "Lead".into());
    assert_eq!(clan.clan_id, 7);
    assert_eq!(clan.clan_name, "Seven");
    assert_eq!(clan.leader_id, 70);
    assert_eq!(clan.leader_name, "Lead");
    assert_eq!(clan.member_count(), 0);
    assert!(!clan.has_castle());
    assert!(!clan.has_house());
    assert_eq!(clan.announcement, "");
    assert_eq!(clan.warehouse_using_char, 0);
}

#[test]
fn remove_member_removes_every_occurrence_and_keeps_order() {
    let mut clan = ClanData::new(1, "C".into(), 1, "L".into());
    clan.member_names = vec!["a".into(), "b".into(), "a".into(), "c".into()];
    clan.remove_member("a");
    assert_eq!(clan.member_names, vec!["b".to_string(), "c".to_string()]);
    clan.remove_member("zzz");
    assert_eq!(clan.member_names, vec!["b".to_string(), "c".to_string()]);
}

#[test]
fn castle_and_house() {
    let mut clan = ClanData::new(1, "C".into(), 1, "L".into());
    clan.castle_id = 4;
    clan.house_id = -1;
    assert!(clan.has_castle());
    assert!(!clan.has_house());
}

#[test]
fn league_ranks() {
    let mut m = ClanMembership::none();
    m.rank = ranks::CLAN_RANK_LEAGUE_PRINCE;
    assert!(m.is_leader() && m.can_invite() && !m.is_guardian());
    m.rank = ranks::CLAN_RANK_LEAGUE_GUARDIAN;
    assert!(!m.is_leader() && m.can_invite() && m.is_guardian());
    m.rank = ranks::CLAN_RANK_LEAGUE_VICEPRINCE;
    assert!(!m.is_leader() && m.can_invite() && !m.is_guardian());
    m.rank = ranks::CLAN_RANK_LEAGUE_PUBLIC;
    assert!(!m.can_invite());
    m.rank = ranks::CLAN_RANK_PROBATION;
    assert!(!m.can_invite());
    m.clan_id = 3;
    assert!(m.has_clan());
}

#[test]
fn names_are_compared_as_texts() {
    let names = vec!["Alpha".to_string(), "beta".to_string()];
    assert!(contains_name(&names, "beta"));
    assert!(!contains_name(&names, "Beta"));
    assert!(!contains_name(&names, ""));
    assert!(!contains_name(&Vec::new(), "x"));
}

#[test]
fn clan_constants() {
    assert_eq!(CLAN_CREATE_COST, 30_000);
    assert_eq!(ADENA_ITEM_ID, 40308);
    assert_eq!(ranks::CLAN_RANK_PRINCE, 10);
}
