use l1j_rust::protocol::client::action::{
    parse_arrow_attack, parse_attack, parse_pickup_item, parse_use_item,
};
use l1j_rust::protocol::client::char_create::{
    calc_init_mp, get_gfx_id, get_init_hp, parse_new_char, validate_stats, NewChar, START_MAP,
    START_X, START_Y,
};
use l1j_rust::protocol::client::char_select::parse_login_to_server;
use l1j_rust::protocol::client::chat::{parse_chat, CHAT_SHOUT};
use l1j_rust::protocol::client::clan::{
    parse_ban_clan, parse_create_clan, parse_leave_clan, parse_rank, parse_war,
};
use l1j_rust::protocol::client::login::{
    parse_auth_login, parse_client_version, parse_login_packet, LOGIN_ACTION_LOGIN,
    LOGIN_ACTION_LOGOUT,
};
use l1j_rust::protocol::client::movement::{parse_change_heading, parse_move_char};
use l1j_rust::protocol::client::skill::{
    parse_use_skill, SKILL_CALL_CLAN, SKILL_FIRE_WALL, SKILL_TELEPORT, SKILL_TRUE_TARGET,
};
use l1j_rust::protocol::client::teleport::{
    parse_add_bookmark, parse_delete_bookmark, parse_enter_portal,
};
use l1j_rust::protocol::packet::PacketBuilder;

#[test]
fn test_skill_id_calculation() {
    // Row 0, Column 0 -> skill 1
    // Row 2, Column 1 -> skill 2*8+1+1 = 18
    assert_eq!(0 * 8 + 0 + 1, 1);
    assert_eq!(2 * 8 + 1 + 1, 18);
    assert_eq!(6 * 8 + 7 + 1, 56);
}

#[test]
fn attack_requests() {
    let pkt = PacketBuilder::new(1).write_d(0x01020304).write_h(32800).write_h(32900).build();
    let a = parse_attack(&pkt);
    assert_eq!((a.target_id, a.x, a.y), (0x01020304, 32800, 32900));
    let a = parse_arrow_attack(&pkt);
    assert_eq!((a.target_id, a.x, a.y), (0x01020304, 32800, 32900));
    // a short packet yields zeros
    let a = parse_attack(&[1, 2, 3]);
    assert_eq!((a.target_id, a.x, a.y), (0, 0x0302, 0));
    let a = parse_attack(&[]);
    assert_eq!((a.target_id, a.x, a.y), (0, 0, 0));
}

#[test]
fn item_requests() {
    let pkt = PacketBuilder::new(1).write_h(10).write_h(20).write_d(-5).write_d(99).build();
    let p = parse_pickup_item(&pkt);
    assert_eq!((p.x, p.y, p.object_id, p.count), (10, 20, -5, 99));
    let pkt = PacketBuilder::new(1).write_d(123456).build();
    assert_eq!(parse_use_item(&pkt).item_obj_id, 123456);
    assert_eq!(parse_use_item(&[1, 2]).item_obj_id, 0);
}

#[test]
fn new_char_request() {
    let pkt = PacketBuilder::new(1)
        .write_s(Some("Hero"))
        .write_c(3)
        .write_c(1)
        .write_c(8)
        .write_c(7)
        .write_c(12)
        .write_c(12)
        .write_c(8)
        .write_c(28)
        .build();
    let nc = parse_new_char(&pkt);
    assert_eq!(nc.name, "Hero");
    assert_eq!((nc.char_type, nc.sex), (3, 1));
    assert_eq!(
        (nc.str_stat, nc.dex_stat, nc.con_stat, nc.wis_stat, nc.cha_stat, nc.int_stat),
        (8, 7, 12, 12, 8, 28)
    );
    assert!(validate_stats(&nc));
}

fn new_char(char_type: i32, stats: [i32; 6]) -> NewChar {
    NewChar {
        name: "n".into(),
        char_type,
        sex: 0,
        str_stat: stats[0],
        dex_stat: stats[1],
        con_stat: stats[2],
        wis_stat: stats[3],
        cha_stat: stats[4],
        int_stat: stats[5],
    }
}

#[test]
fn stat_rules() {
    // knight: base 16 12 14 9 12 8 and 4 points to spend
    assert!(validate_stats(&new_char(1, [20, 12, 14, 9, 12, 8])));
    assert!(validate_stats(&new_char(1, [16, 13, 15, 10, 13, 8])));
    assert!(!validate_stats(&new_char(1, [21, 12, 14, 9, 12, 8]))); // 76
    assert!(!validate_stats(&new_char(1, [19, 12, 14, 9, 12, 8]))); // 74
    assert!(!validate_stats(&new_char(1, [15, 13, 15, 10, 13, 9]))); // STR below base
    assert!(!validate_stats(&new_char(1, [17, 11, 15, 10, 13, 9]))); // DEX below base
    assert!(!validate_stats(&new_char(1, [17, 13, 13, 10, 13, 9]))); // CON below base
    assert!(!validate_stats(&new_char(1, [17, 13, 15, 8, 13, 9]))); // WIS below base
    assert!(!validate_stats(&new_char(1, [17, 13, 15, 10, 11, 9]))); // CHA below base
    assert!(!validate_stats(&new_char(1, [19, 13, 15, 10, 13, 5]))); // INT below base
    assert!(!validate_stats(&new_char(7, [20, 12, 14, 9, 12, 8])));
    assert!(!validate_stats(&new_char(-1, [20, 12, 14, 9, 12, 8])));
    assert!(!validate_stats(&new_char(1, [i32::MAX, i32::MAX, i32::MAX, 9, 12, 8])));
    // each class with all its bonus points on STR
    let bases = [
        [13, 10, 10, 11, 13, 10],
        [16, 12, 14, 9, 12, 8],
        [11, 12, 12, 12, 9, 12],
        [8, 7, 12, 12, 8, 12],
        [12, 15, 8, 10, 9, 11],
        [13, 11, 14, 12, 8, 11],
        [11, 10, 12, 12, 8, 12],
    ];
    for (class, base) in bases.iter().enumerate() {
        let spent: i32 = 75 - base.iter().sum::<i32>();
        let mut stats = *base;
        assert!(!validate_stats(&new_char(class as i32, stats)));
        stats[0] += spent;
        assert!(validate_stats(&new_char(class as i32, stats)));
    }
}

#[test]
fn initial_values_by_class() {
    assert_eq!(calc_init_mp(0, 16), 4);
    assert_eq!(calc_init_mp(0, 12), 3);
    assert_eq!(calc_init_mp(0, 11), 2);
    assert_eq!(calc_init_mp(1, 12), 2);
    assert_eq!(calc_init_mp(1, 11), 1);
    assert_eq!(calc_init_mp(2, 16), 6);
    assert_eq!(calc_init_mp(2, 15), 4);
    assert_eq!(calc_init_mp(3, 16), 8);
    assert_eq!(calc_init_mp(3, 15), 6);
    assert_eq!(calc_init_mp(4, 16), 6);
    assert_eq!(calc_init_mp(4, 12), 4);
    assert_eq!(calc_init_mp(4, 11), 3);
    assert_eq!(calc_init_mp(5, 99), 2);
    assert_eq!(calc_init_mp(6, 16), 6);
    assert_eq!(calc_init_mp(6, 15), 5);
    assert_eq!(calc_init_mp(7, 20), 2);
    assert_eq!(calc_init_mp(-1, 20), 2);

    let gfx = [[0, 1], [61, 48], [138, 37], [734, 1186], [2786, 2796], [6658, 6661], [6671, 6650]];
    for (class, pair) in gfx.iter().enumerate() {
        assert_eq!(get_gfx_id(class as i32, 0), pair[0]);
        assert_eq!(get_gfx_id(class as i32, 1), pair[1]);
        assert_eq!(get_gfx_id(class as i32, -4), pair[0]);
        assert_eq!(get_gfx_id(class as i32, 9), pair[1]);
    }
    assert_eq!(get_gfx_id(7, 0), 0);
    assert_eq!(get_gfx_id(-1, 1), 0);

    let hp = [14, 16, 15, 12, 12, 16, 14];
    for (class, v) in hp.iter().enumerate() {
        assert_eq!(get_init_hp(class as i32), *v);
    }
    assert_eq!(get_init_hp(7), 14);
    assert_eq!(get_init_hp(-1), 14);
    assert_eq!((START_X, START_Y, START_MAP), (32689, 32842, 2005));
}

#[test]
fn text_requests() {
    let pkt = PacketBuilder::new(1).write_s(Some("天堂")).build();
    assert_eq!(parse_login_to_server(&pkt).char_name, "天堂");
    assert_eq!(parse_create_clan(&pkt).clan_name, "天堂");
    assert_eq!(parse_leave_clan(&pkt).clan_name, "天堂");
    assert_eq!(parse_ban_clan(&pkt).member_name, "天堂");
    assert_eq!(parse_add_bookmark(&pkt).name, "天堂");
    assert_eq!(parse_delete_bookmark(&pkt).name, "天堂");
    assert_eq!(parse_login_to_server(&[1]).char_name, "");

    let pkt = PacketBuilder::new(1).write_c(2).write_s(Some("hello")).build();
    let chat = parse_chat(&pkt);
    assert_eq!(chat.chat_type, CHAT_SHOUT);
    assert_eq!(chat.text, "hello");
    let war = parse_war(&pkt);
    assert_eq!((war.war_type, war.enemy_clan_name.as_str()), (2, "hello"));

    let pkt = PacketBuilder::new(1).write_s(Some("Member")).write_c(9).build();
    let rank = parse_rank(&pkt);
    assert_eq!((rank.member_name.as_str(), rank.rank), ("Member", 9));
}

#[test]
fn version_request() {
    let pkt = PacketBuilder::new(1)
        .write_h(0x1111)
        .write_c(0x22)
        .write_d(3)
        .write_h(0x3333)
        .write_h(0x4444)
        .write_d(0x0507)
        .build();
    let v = parse_client_version(&pkt);
    assert_eq!((v.client_language, v.client_version), (3, 0x0507));
    let v = parse_client_version(&[1, 2, 3]);
    assert_eq!((v.client_language, v.client_version), (0, 0));
}

#[test]
fn login_requests() {
    let pkt = PacketBuilder::new(1)
        .write_c(LOGIN_ACTION_LOGIN as i32)
        .write_s(Some("AdMiN"))
        .write_s(Some("SeCret"))
        .build();
    let login = parse_auth_login(&pkt);
    assert_eq!(login.action, LOGIN_ACTION_LOGIN);
    assert_eq!(login.account, "admin");
    assert_eq!(login.password, "SeCret");

    let pkt = PacketBuilder::new(1)
        .write_c(LOGIN_ACTION_LOGOUT as i32)
        .write_s(Some("AdMiN"))
        .write_s(Some("SeCret"))
        .build();
    let login = parse_auth_login(&pkt);
    assert_eq!(login.action, LOGIN_ACTION_LOGOUT);
    assert_eq!(login.account, "");
    assert_eq!(login.password, "");

    let pkt = PacketBuilder::new(1).write_s(Some("AdMiN")).write_s(Some("SeCret")).build();
    let login = parse_login_packet(&pkt);
    assert_eq!(login.action, LOGIN_ACTION_LOGIN);
    assert_eq!(login.account, "admin");
    assert_eq!(login.password, "SeCret");
}

#[test]
fn movement_requests() {
    for heading in 0..8 {
        let pkt = PacketBuilder::new(1).write_h(100).write_h(200).write_c(heading ^ 0x49).build();
        assert_eq!(parse_move_char(&pkt).heading, heading);
        let pkt = PacketBuilder::new(1).write_c(heading + 8).build();
        assert_eq!(parse_change_heading(&pkt).heading, heading);
    }
    // a packet without a heading byte reads zero: 0 ^ 0x49 = 0x49, low bits 1
    assert_eq!(parse_move_char(&[1]).heading, 1);
    assert_eq!(parse_change_heading(&[1]).heading, 0);
    let pkt = PacketBuilder::new(1).write_h(32800).write_h(32900).build();
    let portal = parse_enter_portal(&pkt);
    assert_eq!((portal.x, portal.y), (32800, 32900));
}

#[test]
fn skill_requests() {
    // row 2, column 1: skill 18, the default layout
    let pkt = PacketBuilder::new(1).write_c(2).write_c(1).write_d(77).write_h(10).write_h(20).build();
    let s = parse_use_skill(&pkt);
    assert_eq!((s.skill_id, s.target_id, s.target_x, s.target_y), (18, 77, 10, 20));
    assert_eq!(s.char_name, "");
    assert_eq!(s.bookmark_id, 0);

    // no data after the column
    let s = parse_use_skill(&[1, 2, 1]);
    assert_eq!((s.skill_id, s.target_id, s.target_x, s.target_y), (18, 0, 0, 0));
    let s = parse_use_skill(&[1]);
    assert_eq!(s.skill_id, 1);

    // call clan: 68 = 8 * 8 + 3 + 1
    let pkt = PacketBuilder::new(1).write_c(8).write_c(3).write_s(Some("Friend")).build();
    let s = parse_use_skill(&pkt);
    assert_eq!(s.skill_id, SKILL_CALL_CLAN);
    assert_eq!(s.char_name, "Friend");
    assert_eq!(s.target_id, 0);

    // true target: 70 = 8 * 8 + 5 + 1
    let pkt = PacketBuilder::new(1)
        .write_c(8)
        .write_c(5)
        .write_d(5)
        .write_h(6)
        .write_h(7)
        .write_s(Some("Mark"))
        .build();
    let s = parse_use_skill(&pkt);
    assert_eq!(s.skill_id, SKILL_TRUE_TARGET);
    assert_eq!((s.target_id, s.target_x, s.target_y), (5, 6, 7));
    assert_eq!(s.char_name, "Mark");

    // teleport: 5 = 0 * 8 + 4 + 1
    let pkt = PacketBuilder::new(1).write_c(0).write_c(4).write_h(4).write_d(1234).build();
    let s = parse_use_skill(&pkt);
    assert_eq!(s.skill_id, SKILL_TELEPORT);
    assert_eq!(s.bookmark_id, 1234);
    assert_eq!((s.target_id, s.target_x, s.target_y), (0, 0, 0));

    // fire wall: 49 = 6 * 8 + 0 + 1
    let pkt = PacketBuilder::new(1).write_c(6).write_c(0).write_h(11).write_h(12).build();
    let s = parse_use_skill(&pkt);
    assert_eq!(s.skill_id, SKILL_FIRE_WALL);
    assert_eq!((s.target_id, s.target_x, s.target_y), (0, 11, 12));

    // the largest grid position
    let s = parse_use_skill(&[1, 255, 255]);
    assert_eq!(s.skill_id, 255 * 8 + 255 + 1);
}
