use l1j_rust::db::character::{CharacterFullData, CharacterListData};
use l1j_rust::ecs::components::item::{ItemInstance, ItemTemplate};
use l1j_rust::ecs::components::npc::NpcTemplate;
use l1j_rust::ecs::components::position::Position;
use l1j_rust::protocol::opcodes::server;
use l1j_rust::protocol::server::char_create::{
    build_char_create_status, build_new_char_pack, checksum_of, REASON_OK,
};
use l1j_rust::protocol::server::char_list::{
    build_char_ack, build_char_amount, build_char_pack, build_char_syn, build_own_char_pack,
    build_own_char_status, build_own_char_status_at, game_time_at,
};
use l1j_rust::protocol::server::chat::{
    build_global_chat, build_normal_chat, build_server_message,
};
use l1j_rust::protocol::server::clan::{
    build_castle_master, build_char_title, build_clan_name, build_emblem, build_system_message,
    build_war,
};
use l1j_rust::protocol::server::combat::{
    build_attack_packet, build_do_action_gfx, build_hp_meter, hp_percent_of, ACTION_ATTACK,
    EFFECT_CLAW,
};
use l1j_rust::protocol::server::game_init::{
    build_ability, build_add_skill_empty, build_all_game_init_packets,
    build_all_game_init_packets_at, build_game_time, build_game_time_at, build_initial_ability,
    build_karma, build_light, build_own_char_attr_def, build_own_char_status2, build_spmr,
    build_weather, pack_stats,
};
use l1j_rust::protocol::server::inventory::{
    build_add_item, build_delete_inventory_item, build_inv_list, build_item_status,
};
use l1j_rust::protocol::server::login::{
    build_login_to_game, build_server_version_at, REASON_ACCOUNT_IN_USE,
};
use l1j_rust::protocol::server::movement::{build_change_heading, build_move_char};
use l1j_rust::protocol::server::npc_dialog::{
    build_select_list, build_shop_buy_list, build_shop_sell_list, build_show_html,
    build_simple_dialog, build_yes_no,
};
use l1j_rust::protocol::server::npc_pack::{build_npc_pack, build_remove_object, hp_bar_of};
use l1j_rust::protocol::server::skill::{
    build_add_skill, build_effect_location, build_paralysis, build_skill_brave,
    build_skill_haste, build_skill_icon_shield,
};
use l1j_rust::protocol::server::skill_effect::{build_attack_skill, build_range_skill};
use l1j_rust::protocol::server::teleport::{
    build_bookmark, build_effect_teleport, build_portal_teleport,
};

#[test]
fn test_portal_teleport_generates_packets() {
    let action = build_portal_teleport(
        100, 32800, 32800, 4, 0, 61, "TestChar", "", 0, false,
    );
    assert_eq!(action.player_packets.len(), 2); // MAPID + CHARPACK
    assert_eq!(action.new_x, 32800);
    assert_eq!(action.new_map_id, 4);
    assert!(!action.show_effect);
}

#[test]
fn test_effect_teleport_has_sound() {
    let action = build_effect_teleport(
        100, 32800, 32800, 4, 0, 61, "TestChar", "", 0, false,
    );
    assert_eq!(action.player_packets.len(), 3); // SOUND + MAPID + CHARPACK
    assert!(action.show_effect);
}

#[test]
fn test_bookmark_packet() {
    let pkt = build_bookmark("我的村莊", 4, 12345, 32800, 32800);
    assert!(!pkt.is_empty());
    assert_eq!(pkt[0], server::S_OPCODE_BOOKMARKS);
}

fn full_char() -> CharacterFullData {
    CharacterFullData {
        objid: 0x01020304,
        char_name: "Hero".into(),
        account_name: "acc".into(),
        clanname: "Clan".into(),
        clanid: 0,
        char_type: 1,
        sex: 0,
        lawful: -2,
        cur_hp: 50,
        max_hp: 60,
        cur_mp: 7,
        max_mp: 8,
        ac: -3,
        level: 200,
        exp: 1000,
        str_stat: 16,
        dex_stat: 12,
        con_stat: 14,
        wis_stat: 9,
        cha_stat: 12,
        int_stat: 8,
        loc_x: 32800,
        loc_y: 32900,
        map_id: 4,
        heading: 5,
        access_level: 0,
        gfxid: 61,
        food: 40,
        mons_kill: 3,
    }
}

#[test]
fn bookmark_layout() {
    let pkt = build_bookmark("ab", 4, 0x12345678, 32800, 32801);
    assert_eq!(
        pkt,
        vec![server::S_OPCODE_BOOKMARKS, b'a', b'b', 0, 4, 0, 0x78, 0x56, 0x34, 0x12, 0x20, 0x80, 0x21, 0x80]
    );
}

#[test]
fn teleport_packets_in_order() {
    let action = build_effect_teleport(100, 32800, 32801, 4, 2, 61, "T", "C", -1, true);
    assert_eq!(
        action.player_packets[0],
        vec![server::S_OPCODE_SKILLSOUNDGFX, 100, 0, 0, 0, 169, 0]
    );
    assert_eq!(
        action.player_packets[1],
        vec![server::S_OPCODE_MAPID, 4, 0, 1, 0, 0, 0, 0, 0, 0, 0, 0, 0, 0, 0, 0]
    );
    let own = vec![
        server::S_OPCODE_CHARPACK, 0x20, 0x80, 0x21, 0x80, 100, 0, 0, 0, 61, 0, 0, 2, 0, 0,
        1, 0, 0, 0, 0xff, 0xff, b'T', 0, 0, 4, 0, 0, 0, 0, b'C', 0, 0, 0xb0, 0xff, 0, 0, 0,
        0xff, 0xff, 0, 0,
    ];
    assert_eq!(action.player_packets[2], own);
    assert_eq!((action.new_x, action.new_y, action.new_map_id, action.new_heading), (32800, 32801, 4, 2));

    let action = build_portal_teleport(100, 32800, 32801, 4, 2, 61, "T", "C", -1, false);
    assert_eq!(action.player_packets[0][3], 0);
    assert_eq!(action.player_packets[1], own);
}

#[test]
fn character_creation_packets() {
    assert_eq!(
        build_char_create_status(REASON_OK),
        vec![server::S_OPCODE_NEWCHARWRONG, 2, 0, 0, 0, 0, 0, 0]
    );
    assert_eq!(checksum_of(1, 16, 12, 14, 9, 12, 8), 1 ^ 16 ^ 12 ^ 14 ^ 9 ^ 12 ^ 8);
    assert_eq!(checksum_of(0x1ff, 0, 0, 0, 0, 0, 0), 0xff);
    assert_eq!(checksum_of(-1, 0, 0, 0, 0, 0, 0), 0xff);
    let pkt = build_new_char_pack("N", 1, 0, 2, 16, 2, 10, 1, 16, 12, 14, 9, 12, 8, 20240101);
    let birthday = 20240101i32.to_le_bytes();
    assert_eq!(
        pkt,
        vec![
            server::S_OPCODE_NEWCHARPACK, b'N', 0, 0, 1, 0, 2, 0, 16, 0, 2, 0, 10, 1, 16, 12,
            14, 9, 12, 8, 0, birthday[0], birthday[1], birthday[2], birthday[3],
            (1 ^ 16 ^ 12 ^ 14 ^ 9 ^ 12 ^ 8) as u8,
        ]
    );
}

#[test]
fn character_list_packets() {
    assert_eq!(build_char_amount(2, 6), vec![server::S_OPCODE_CHARAMOUNT, 2, 6]);
    assert_eq!(build_char_syn(), vec![server::S_OPCODE_CHARSYNACK, 0x0a, 2, 0, 0, 0, 8, 0]);
    assert_eq!(build_char_ack(), vec![server::S_OPCODE_CHARSYNACK, 0x40, 0, 0, 0, 0, 0, 0]);
    let ch = CharacterListData {
        objid: 1,
        char_name: "A".into(),
        clanname: String::new(),
        char_type: 1,
        sex: 1,
        lawful: 3,
        cur_hp: 4,
        cur_mp: 5,
        ac: 6,
        level: 7,
        str_stat: 8,
        dex_stat: 9,
        con_stat: 10,
        wis_stat: 11,
        cha_stat: 12,
        int_stat: 13,
        access_level: 0,
        birthday: 1,
    };
    assert_eq!(
        build_char_pack(&ch),
        vec![
            server::S_OPCODE_CHARLIST, b'A', 0, 0, 1, 1, 3, 0, 4, 0, 5, 0, 6, 7, 8, 9, 10, 11,
            12, 13, 0, 1, 0, 0, 0, (7 ^ 8 ^ 9 ^ 10 ^ 11 ^ 12 ^ 13) as u8,
        ]
    );
}

#[test]
fn own_character_packets() {
    let ch = full_char();
    assert_eq!(game_time_at(0), 0);
    assert_eq!(game_time_at(299), 0);
    assert_eq!(game_time_at(300), 300);
    assert_eq!(game_time_at(1_700_000_123), 1_700_000_100);
    assert_eq!(game_time_at(u64::MAX), ((u64::MAX / 300 * 300) & 0xffff_ffff) as u32 as i32);
    let time = 1_700_000_100i32.to_le_bytes();
    assert_eq!(
        build_own_char_status_at(&ch, 1_700_000_123),
        vec![
            server::S_OPCODE_OWNCHARSTATUS, 4, 3, 2, 1, 127, 0xe8, 3, 0, 0, 16, 8, 9, 12, 14,
            12, 50, 0, 60, 0, 7, 0, 8, 0, 0xfd, time[0], time[1], time[2], time[3], 40, 0,
            0xfe, 0xff, 0, 0, 0, 0, 0, 0, 0, 0, 3, 0, 0, 0,
        ]
    );
    let now = build_own_char_status(&ch);
    assert_eq!(now.len(), 45);
    assert_eq!(now[..25], build_own_char_status_at(&ch, 0)[..25]);
    let pack = build_own_char_pack(&ch);
    assert_eq!(
        pack,
        vec![
            server::S_OPCODE_CHARPACK, 0x20, 0x80, 0x84, 0x80, 4, 3, 2, 1, 61, 0, 0, 5, 0, 0,
            1, 0, 0, 0, 0xfe, 0xff, b'H', b'e', b'r', b'o', 0, 0, 4, 0, 0, 0, 0, b'C', b'l',
            b'a', b'n', 0, 0, 0xb0, 0xff, 0, 0, 0, 0xff, 0xff, 0, 0,
        ]
    );
}

#[test]
fn chat_packets() {
    let mut normal = vec![server::S_OPCODE_NORMALCHAT, 0, 9, 0, 0, 0];
    normal.extend_from_slice(b"Bob: hi\0");
    assert_eq!(build_normal_chat(9, 0, "Bob", "hi"), normal);
    let mut shout = vec![server::S_OPCODE_NORMALCHAT, 2, 9, 0, 0, 0];
    shout.extend_from_slice(b"<Bob> hi\0\0\0\0\0");
    assert_eq!(build_normal_chat(9, 2, "Bob", "hi"), shout);
    let mut other = vec![server::S_OPCODE_NORMALCHAT, 5, 9, 0, 0, 0];
    other.extend_from_slice(b"Bob: hi\0");
    assert_eq!(build_normal_chat(9, 5, "Bob", "hi"), other);

    let mut world = vec![server::S_OPCODE_GLOBALCHAT, 3];
    world.extend_from_slice(b"[Bob] hi\0");
    assert_eq!(build_global_chat(3, "Bob", "hi"), world);
    let mut clan = vec![server::S_OPCODE_GLOBALCHAT, 4];
    clan.extend_from_slice(b"{Bob} hi\0");
    assert_eq!(build_global_chat(4, "Bob", "hi"), clan);
    let mut other = vec![server::S_OPCODE_GLOBALCHAT, 13];
    other.extend_from_slice(b"Bob: hi\0");
    assert_eq!(build_global_chat(13, "Bob", "hi"), other);

    let mut msg = vec![server::S_OPCODE_SERVERMSG, 9, 0, 0, 0, 0];
    msg.extend_from_slice(b"note\0");
    assert_eq!(build_server_message("note"), msg);
}

#[test]
fn clan_packets() {
    assert_eq!(build_clan_name(1, "ab", true), vec![server::S_OPCODE_CLANNAME, 1, 0, 0, 0, b'a', b'b', 0]);
    assert_eq!(build_clan_name(1, "ab", false), vec![server::S_OPCODE_CLANNAME, 1, 0, 0, 0, 0]);
    assert_eq!(build_war(1, "a", "b"), vec![server::S_OPCODE_WAR, 1, b'a', 0, b'b', 0]);
    assert_eq!(build_castle_master(2, 7), vec![server::S_OPCODE_CASTLEMASTER, 2, 0, 0, 0, 7]);
    assert_eq!(
        build_emblem(3, &[9, 8, 7]),
        vec![server::S_OPCODE_EMBLEM, 3, 0, 0, 0, 3, 0, 0, 0, 9, 8, 7]
    );
    assert_eq!(build_emblem(3, &[]), vec![server::S_OPCODE_EMBLEM, 3, 0, 0, 0, 0, 0, 0, 0]);
    assert_eq!(build_char_title(4, "t"), vec![server::S_OPCODE_CHARTITLE, 4, 0, 0, 0, b't', 0]);
    assert_eq!(
        build_system_message(84, &["x", "yz"]),
        vec![server::S_OPCODE_SERVERMSG, 9, 84, 0, 0, 0, b'x', 0, b'y', b'z', 0]
    );
    assert_eq!(build_system_message(85, &[]), vec![server::S_OPCODE_SERVERMSG, 9, 85, 0, 0, 0]);
}

#[test]
fn combat_packets() {
    assert_eq!(
        build_attack_packet(1, 2, ACTION_ATTACK, 300, 5, EFFECT_CLAW),
        vec![server::S_OPCODE_ATTACKPACKET, 1, 1, 0, 0, 0, 2, 0, 0, 0, 0x2c, 1, 5, 0, 0, 0, 0, 2]
    );
    assert_eq!(build_do_action_gfx(1, 8), vec![server::S_OPCODE_DOACTIONGFX, 1, 0, 0, 0, 8]);
    assert_eq!(
        l1j_rust::protocol::server::combat::build_hp_update(0, 40000),
        vec![server::S_OPCODE_HPUPDATE, 1, 0, 0xff, 0x7f]
    );
    assert_eq!(
        l1j_rust::protocol::server::combat::build_mp_update(10, 20),
        vec![server::S_OPCODE_MPUPDATE, 10, 0, 20, 0]
    );
    assert_eq!(hp_percent_of(50, 200), 25);
    assert_eq!(hp_percent_of(1, 3), 33);
    assert_eq!(hp_percent_of(300, 200), 100);
    assert_eq!(hp_percent_of(-5, 200), 0);
    assert_eq!(hp_percent_of(5, 0), 0);
    assert_eq!(hp_percent_of(5, -3), 0);
    assert_eq!(hp_percent_of(i32::MAX, 1), 100);
    assert_eq!(build_hp_meter(7, 50, 200), vec![server::S_OPCODE_HPMETER, 7, 0, 0, 0, 25, 0]);
}

#[test]
fn game_init_packets() {
    let ch = full_char();
    assert_eq!(build_spmr(1, 2), vec![server::S_OPCODE_SPMR, 1, 2, 0]);
    assert_eq!(
        build_own_char_status2(&ch),
        vec![server::S_OPCODE_OWNCHARSTATUS2, 16, 8, 9, 12, 14, 12, 0]
    );
    assert_eq!(pack_stats(8, 16), 144);
    assert_eq!(pack_stats(i32::MAX, i32::MAX), (i32::MAX as i64 * 17) as i32);
    assert_eq!(
        build_initial_ability(&ch),
        vec![server::S_OPCODE_CHARSYNACK, 4, 8 * 16 + 16, (12 * 16 + 9) as u8, (12 * 16 + 14) as u8, 0]
    );
    assert_eq!(build_weather(2), vec![server::S_OPCODE_WEATHER, 2]);
    assert_eq!(build_light(1, 3), vec![server::S_OPCODE_LIGHT, 1, 0, 0, 0, 3]);
    assert_eq!(build_game_time_at(600), vec![server::S_OPCODE_GAMETIME, 0x58, 2, 0, 0]);
    assert_eq!(build_game_time().len(), 5);
    let mut skills = vec![server::S_OPCODE_ADDSKILL, 32];
    skills.extend_from_slice(&[0u8; 36]);
    assert_eq!(build_add_skill_empty(), skills);
    assert_eq!(build_own_char_attr_def(&ch), vec![server::S_OPCODE_OWNCHARATTRDEF, 0, 0, 0, 0, 0, 0, 0, 0]);
    assert_eq!(build_karma(-1), vec![server::S_OPCODE_PACKETBOX, 0x57, 0xff, 0xff, 0xff, 0xff]);
    assert_eq!(
        l1j_rust::protocol::server::game_init::build_hp_update(50, 0),
        vec![server::S_OPCODE_HPUPDATE, 50, 0, 1, 0]
    );
    assert_eq!(
        l1j_rust::protocol::server::game_init::build_mp_update(-1, 2),
        vec![server::S_OPCODE_MPUPDATE, 0xff, 0xff, 2, 0]
    );
    assert_eq!(build_ability(3), vec![server::S_OPCODE_ABILITY, 0, 0, 0, 0, 0, 0, 0, 0]);
}

#[test]
fn game_init_sequence() {
    let ch = full_char();
    let packets = build_all_game_init_packets_at(&ch, 1, 900);
    let opcodes: Vec<u8> = packets.iter().map(|p| p[0]).collect();
    assert_eq!(
        opcodes,
        vec![
            server::S_OPCODE_LOGINTOGAME,
            server::S_OPCODE_OWNCHARSTATUS,
            server::S_OPCODE_MAPID,
            server::S_OPCODE_CHARPACK,
            server::S_OPCODE_SPMR,
            server::S_OPCODE_OWNCHARSTATUS2,
            server::S_OPCODE_CHARSYNACK,
            server::S_OPCODE_WEATHER,
            server::S_OPCODE_ADDSKILL,
            server::S_OPCODE_LIGHT,
            server::S_OPCODE_GAMETIME,
            server::S_OPCODE_PACKETBOX,
            server::S_OPCODE_HPUPDATE,
            server::S_OPCODE_MPUPDATE,
            server::S_OPCODE_OWNCHARATTRDEF,
            server::S_OPCODE_ABILITY,
            server::S_OPCODE_INVLIST,
        ]
    );
    assert_eq!(packets[0], build_login_to_game(0, 0));
    assert_eq!(packets[1], build_own_char_status_at(&ch, 900));
    assert_eq!(packets[7], vec![server::S_OPCODE_WEATHER, 1]);
    assert_eq!(packets[9], build_light(ch.objid, 0));
    assert_eq!(packets[10], build_game_time_at(900));
    assert_eq!(packets[16], vec![server::S_OPCODE_INVLIST, 0]);
    assert_eq!(build_all_game_init_packets(&ch, 1).len(), 17);
}

#[test]
fn login_packets() {
    assert_eq!(
        l1j_rust::protocol::server::init::build_server_version(),
        vec![server::S_OPCODE_SERVERVERSION]
    );
    assert_eq!(
        l1j_rust::protocol::server::init::build_login_result(REASON_ACCOUNT_IN_USE),
        vec![server::S_OPCODE_LOGINRESULT, 0x16, 0, 0]
    );
    assert_eq!(
        l1j_rust::protocol::server::login::build_login_result(REASON_ACCOUNT_IN_USE),
        vec![server::S_OPCODE_LOGINRESULT, 0x16, 0, 0, 0, 0, 0, 0, 0, 0, 0, 0, 0, 0, 0, 0, 0, 0, 0x8c, 0]
    );
    assert_eq!(
        build_server_version_at(1000, 1500),
        vec![
            server::S_OPCODE_SERVERVERSION, 0, 1, 0xdd, 0xf4, 0xcb, 0x07, 0xdd, 0xf4, 0xcb, 0x07,
            0x2d, 0x69, 0xfc, 0x77, 0xd9, 0xf4, 0xcb, 0x07, 0xe8, 3, 0, 0, 0, 0, 3, 0xc2, 0x7d,
            0x7f, 0x08, 0xf4, 1, 0, 0, 1, 0,
        ]
    );
    assert_eq!(l1j_rust::protocol::server::login::build_server_version(0).len(), 36);
    assert_eq!(
        build_login_to_game(5, 0x0102),
        vec![server::S_OPCODE_LOGINTOGAME, 3, 2, 1, 0, 0, 0x9c, 0x1f]
    );
    assert_eq!(
        build_login_to_game(0, 0x0102),
        vec![server::S_OPCODE_LOGINTOGAME, 3, 0x53, 1, 0, 0x8b, 0x9c, 0x1f]
    );
}

#[test]
fn movement_packets() {
    // heading 6 is east: the step came from x - 1
    assert_eq!(
        build_move_char(1, 101, 200, 6),
        vec![server::S_OPCODE_MOVEOBJECT, 1, 0, 0, 0, 100, 0, 200, 0, 6, 129, 0, 0, 0, 0]
    );
    // heading 3 is north-west: the step came from x + 1, y + 1
    assert_eq!(
        build_move_char(1, 100, 200, 3),
        vec![server::S_OPCODE_MOVEOBJECT, 1, 0, 0, 0, 101, 0, 201, 0, 3, 129, 0, 0, 0, 0]
    );
    assert_eq!(
        build_move_char(1, i32::MIN, i32::MAX, 7),
        vec![server::S_OPCODE_MOVEOBJECT, 1, 0, 0, 0, 0xff, 0xff, 0xfe, 0xff, 7, 129, 0, 0, 0, 0]
    );
    assert_eq!(build_change_heading(1, 4), vec![server::S_OPCODE_CHANGEHEADING, 1, 0, 0, 0, 4]);
}

#[test]
fn dialog_packets() {
    assert_eq!(build_show_html(1, "h"), vec![server::S_OPCODE_SHOWHTML, 1, 0, 0, 0, b'h', 0]);
    assert_eq!(
        build_shop_buy_list(1, &[(2, 3, 4), (5, 6, 7)]),
        vec![
            server::S_OPCODE_SHOWSHOPBUYLIST, 1, 0, 0, 0, 2, 0, 2, 0, 0, 0, 3, 0, 0, 0, 4, 0, 0,
            0, 5, 0, 0, 0, 6, 0, 0, 0, 7, 0, 0, 0,
        ]
    );
    assert_eq!(build_shop_buy_list(1, &[]), vec![server::S_OPCODE_SHOWSHOPBUYLIST, 1, 0, 0, 0, 0, 0]);
    assert_eq!(build_shop_sell_list(1), vec![server::S_OPCODE_SHOWSHOPSELLLIST, 1, 0, 0, 0]);
    assert_eq!(
        build_select_list(1, &[(2, "a".to_string()), (3, "bc".to_string())]),
        vec![
            server::S_OPCODE_SELECTLIST, 1, 0, 0, 0, 2, 0, 2, 0, 0, 0, b'a', 0, 3, 0, 0, 0,
            b'b', b'c', 0,
        ]
    );
    assert_eq!(build_yes_no(0x0102, 0x0304), vec![server::S_OPCODE_YES_NO, 4, 3, 2, 1, 0, 0]);
    assert_eq!(
        build_simple_dialog("Guard", "Halt!", &[("Leave", "bye"), ("Stay", "stay")]),
        "<html><body><center><b>Guard</b></center><br>Halt!<br><br>\
         <a action=\"bye\">Leave</a><br><a action=\"stay\">Stay</a><br></body></html>"
    );
    assert_eq!(
        build_simple_dialog("G", "m", &[]),
        "<html><body><center><b>G</b></center><br>m<br><br></body></html>"
    );
}

fn npc_template() -> NpcTemplate {
    NpcTemplate {
        npc_id: 45000,
        name: "Monster".to_string(),
        nameid: "$12".to_string(),
        impl_type: "L1Monster".to_string(),
        gfxid: 0x0102,
        level: 10,
        hp: 500,
        mp: 100,
        ac: 5,
        str_stat: 15, con_stat: 12, dex_stat: 14,
        wis_stat: 10, int_stat: 10, mr: 20,
        exp: 1000, lawful: -100,
        size: "small".to_string(),
        undead: 0, poison_atk: 0, paralysis_atk: 0,
        agro: true, agrososc: true, agrocoi: false,
        family: 0, agrofamily: 0, pickup_item: false,
        brave_speed: 0, passispeed: 640, atkspeed: 1020,
        atk_magic_speed: 0, tamable: false, teleport: false,
        doppel: false, hpr_interval: 12000, hpr: 3,
        mpr_interval: 12000, mpr: 2, ranged: 0, light_size: 2,
        change_head: false, damage_reduction: 0, hard: false,
        karma: 0, transform_id: 0, transform_gfxid: 0,
        cant_resurrect: false,
    }
}

#[test]
fn npc_packets() {
    assert_eq!(hp_bar_of(50, 100), 127);
    assert_eq!(hp_bar_of(100, 100), 255);
    assert_eq!(hp_bar_of(1, 3), 85);
    assert_eq!(hp_bar_of(0, 3), 0);
    assert_eq!(hp_bar_of(5, 0), 255);
    assert_eq!(hp_bar_of(5, -1), 255);
    assert_eq!(hp_bar_of(-1, 3), -85);
    assert_eq!(hp_bar_of(i32::MAX, 1), i32::MAX);
    let pos = Position { x: 32800, y: 32801, map_id: 4, heading: 5 };
    let pkt = build_npc_pack(0xffff_fffe, &pos, &npc_template(), 50, 100, 1);
    assert_eq!(
        pkt,
        vec![
            server::S_OPCODE_CHARPACK, 0x20, 0x80, 0x21, 0x80, 0xfe, 0xff, 0xff, 0xff, 2, 1, 0,
            5, 2, 0, 0xe8, 3, 0, 0, 0x9c, 0xff, b'$', b'1', b'2', 0, 0, 1, 0, 0, 0, 0, 0, 0, 0,
            127, 0, 10, 0xff, 0xff, 0,
        ]
    );
    assert_eq!(build_remove_object(7), vec![server::S_OPCODE_REMOVE_OBJECT, 7, 0, 0, 0]);
}

#[test]
fn skill_packets() {
    assert_eq!(build_add_skill(5), vec![server::S_OPCODE_ADDSKILL, 5, 0]);
    assert_eq!(
        l1j_rust::protocol::server::skill::build_skill_sound(1, 169),
        vec![server::S_OPCODE_SKILLSOUNDGFX, 1, 0, 0, 0, 169, 0]
    );
    assert_eq!(
        l1j_rust::protocol::server::skill_effect::build_skill_sound(1, 169),
        vec![server::S_OPCODE_SKILLSOUNDGFX, 1, 0, 0, 0, 169, 0]
    );
    assert_eq!(build_effect_location(1, 2, 3), vec![server::S_OPCODE_EFFECTLOCATION, 1, 0, 2, 0, 3, 0]);
    assert_eq!(build_skill_haste(1, 2, 300), vec![server::S_OPCODE_SKILLHASTE, 1, 0, 0, 0, 2, 0x2c, 1]);
    assert_eq!(build_skill_brave(1, 2, 300), vec![server::S_OPCODE_SKILLBRAVE, 1, 0, 0, 0, 2, 0x2c, 1]);
    assert_eq!(build_skill_icon_shield(2, 300), vec![server::S_OPCODE_SKILLICONSHIELD, 2, 0x2c, 1]);
    assert_eq!(build_paralysis(2, true), vec![server::S_OPCODE_PARALYSIS, 2, 1]);
    assert_eq!(build_paralysis(2, false), vec![server::S_OPCODE_PARALYSIS, 2, 0]);
    assert_eq!(
        build_attack_skill(1, 2, 3, 4, 5, 6, 7, 8, 9, 10, true),
        vec![
            server::S_OPCODE_ATTACKPACKET, 19, 1, 0, 0, 0, 2, 0, 0, 0, 3, 0, 4, 10, 0, 0, 0, 5,
            0, 6, 6, 0, 7, 0, 8, 0, 9, 0, 0, 0, 0,
        ]
    );
    assert_eq!(build_attack_skill(1, 2, 3, 4, 5, 6, 7, 8, 9, 10, false)[2..6], [0, 0, 0, 0]);
    assert_eq!(
        build_range_skill(1, 2, 3, 4, 5, 8, &[6, 7], 9),
        vec![
            server::S_OPCODE_RANGESKILLS, 19, 1, 0, 0, 0, 2, 0, 3, 0, 4, 9, 0, 0, 0, 5, 0, 8, 0,
            0, 2, 0, 6, 0, 0, 0, 0x20, 0, 7, 0, 0, 0, 0x20, 0,
        ]
    );
}

#[test]
fn inventory_packets() {
    let mut template = ItemTemplate::default();
    template.name = "Sword".to_string();
    template.ground_gfx_id = 0x0102;
    template.inv_gfx_id = 0x0304;
    template.use_type = 1;
    let mut item = ItemInstance::new(0x0a0b0c0d, 20);
    item.count = 2;
    item.enchant_level = 7;
    item.charge_count = 3;
    let mut entry = vec![0x0d, 0x0c, 0x0b, 0x0a, 2, 1, 1, 3, 4, 3, 1, 2, 0, 0, 0, 0];
    entry.extend_from_slice(b"+7 Sword\0");
    entry.extend_from_slice(&[0, 0x17, 0, 0, 0, 0, 0, 7, 0x0d, 0x0c, 0x0b, 0x0a]);
    entry.extend_from_slice(&[0, 0, 0, 0, 0, 0, 0, 0, 7, 0, 0, 0, 0]);
    let mut add = vec![server::S_OPCODE_ADDITEM];
    add.extend_from_slice(&entry);
    assert_eq!(build_add_item(&item, &template), add);

    // delete flag: sealed items 3, untradable items 2
    let mut sealed = item.clone();
    sealed.bless = 128;
    let pkt = build_add_item(&sealed, &template);
    assert_eq!(pkt[pkt.len() - 5], 3);
    let mut bound = template.clone();
    bound.tradable = false;
    let pkt = build_add_item(&item, &bound);
    assert_eq!(pkt[pkt.len() - 5], 2);

    let mut list = vec![server::S_OPCODE_INVLIST, 2];
    list.extend_from_slice(&entry);
    list.extend_from_slice(&entry);
    assert_eq!(
        build_inv_list(&[(item.clone(), template.clone()), (item.clone(), template.clone())]),
        list
    );
    assert_eq!(build_inv_list(&[]), vec![server::S_OPCODE_INVLIST, 0]);

    let mut status = vec![server::S_OPCODE_ITEMSTATUS, 0x0d, 0x0c, 0x0b, 0x0a];
    status.extend_from_slice(b"+7 Sword\0");
    status.extend_from_slice(&[2, 0, 0, 0, 0]);
    assert_eq!(build_item_status(&item, &template), status);
    assert_eq!(
        build_delete_inventory_item(0xffff_ffff),
        vec![server::S_OPCODE_DELETEINVENTORYITEM, 0xff, 0xff, 0xff, 0xff]
    );
}
