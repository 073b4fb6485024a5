use l1j_rust::db::account::{hash_password, AccountData};
use l1j_rust::network::cipher::Cipher;
use l1j_rust::network::codec::decode_length;
use l1j_rust::network::session::{
    check_login, classify, LoginOutcome, RequestKind, Session, SessionAction, SessionEvent,
    SessionPhase,
};
use l1j_rust::network::transport::{open_packet, pad_payload, seal_packet, MAX_SEALED_LEN};
use l1j_rust::protocol::opcodes::{client, server};
use l1j_rust::protocol::server::init::build_init_packet;

fn account(password: &str, online: i32, banned: i32) -> AccountData {
    AccountData {
        login: "user".into(),
        password: hash_password(password),
        access_level: 0,
        online,
        banned,
        character_slot: 0,
        online_status: 0,
    }
}

#[test]
fn login_outcomes() {
    assert_eq!(check_login(None, "pw"), LoginOutcome::BadCredentials);
    assert_eq!(check_login(Some(&account("pw", 0, 0)), "pw"), LoginOutcome::Accepted);
    assert_eq!(check_login(Some(&account("pw", 0, 0)), "PW"), LoginOutcome::BadCredentials);
    assert_eq!(check_login(Some(&account("pw", 1, 0)), "pw"), LoginOutcome::AlreadyOnline);
    assert_eq!(check_login(Some(&account("pw", 0, 1)), "pw"), LoginOutcome::Banned);
    assert_eq!(check_login(Some(&account("pw", 1, 1)), "pw"), LoginOutcome::Banned);
    assert_eq!(check_login(Some(&account("pw", 1, 1)), "no"), LoginOutcome::BadCredentials);
}

#[test]
fn opcodes_are_told_apart() {
    assert_eq!(classify(client::C_OPCODE_CLIENTVERSION), RequestKind::ClientVersion);
    assert_eq!(classify(client::C_OPCODE_LOGINPACKET), RequestKind::Login);
    assert_eq!(classify(client::C_OPCODE_AUTHLOGIN), RequestKind::Login);
    assert_eq!(classify(119), RequestKind::Login);
    assert_eq!(classify(210), RequestKind::Login);
    assert_eq!(classify(client::C_OPCODE_NEWCHAR), RequestKind::CreateCharacter);
    assert_eq!(classify(client::C_OPCODE_LOGINTOSERVER), RequestKind::SelectCharacter);
    assert_eq!(classify(client::C_OPCODE_MOVECHAR), RequestKind::Move);
    assert_eq!(classify(client::C_OPCODE_CHANGEHEADING), RequestKind::ChangeHeading);
    assert_eq!(classify(client::C_OPCODE_ATTACK), RequestKind::Attack);
    assert_eq!(classify(client::C_OPCODE_ARROWATTACK), RequestKind::Attack);
    assert_eq!(classify(client::C_OPCODE_PICKUPITEM), RequestKind::PickUp);
    assert_eq!(classify(client::C_OPCODE_USEITEM), RequestKind::UseItem);
    assert_eq!(classify(client::C_OPCODE_USESKILL), RequestKind::UseSkill);
    assert_eq!(classify(client::C_OPCODE_CHAT), RequestKind::Chat);
    for op in [
        client::C_OPCODE_CREATECLAN,
        client::C_OPCODE_LEAVECLAN,
        client::C_OPCODE_BANCLAN,
        client::C_OPCODE_WAR,
        client::C_OPCODE_RANK,
    ] {
        assert_eq!(classify(op), RequestKind::Clan);
    }
    for op in [
        client::C_OPCODE_ENTERPORTAL,
        client::C_OPCODE_BOOKMARK,
        client::C_OPCODE_BOOKMARKDELETE,
    ] {
        assert_eq!(classify(op), RequestKind::Teleport);
    }
    assert_eq!(classify(client::C_OPCODE_QUITGAME), RequestKind::Logout);
    assert_eq!(classify(0), RequestKind::Unknown);
    assert_eq!(classify(255), RequestKind::Unknown);
}

fn active_session() -> Session {
    let mut s = Session::new(3);
    assert_eq!(s.step(SessionEvent::HandshakeDone), SessionAction::Proceed);
    assert_eq!(
        s.step(SessionEvent::LoginChecked(LoginOutcome::Accepted)),
        SessionAction::AcceptLogin { code: 0 }
    );
    assert_eq!(
        s.step(SessionEvent::CharacterChosen { object_id: 77, owned: true }),
        SessionAction::EnterWorld { object_id: 77 }
    );
    assert_eq!(s.step(SessionEvent::WorldEntered), SessionAction::Proceed);
    s
}

#[test]
fn a_session_walks_through_its_phases() {
    let mut s = Session::new(3);
    assert_eq!(s.phase(), SessionPhase::Handshaking);
    assert_eq!(s.character(), None);
    s.step(SessionEvent::HandshakeDone);
    assert_eq!(s.phase(), SessionPhase::Authenticating);
    assert_eq!(
        s.step(SessionEvent::Request(RequestKind::Login)),
        SessionAction::Dispatch(RequestKind::Login)
    );
    s.step(SessionEvent::LoginChecked(LoginOutcome::Accepted));
    assert_eq!(s.phase(), SessionPhase::SelectingCharacter);
    s.step(SessionEvent::CharacterChosen { object_id: 77, owned: true });
    assert_eq!(s.phase(), SessionPhase::EnteringWorld);
    assert_eq!(s.character(), Some(77));
    s.step(SessionEvent::WorldEntered);
    assert_eq!(s.phase(), SessionPhase::Active);
    assert_eq!(
        s.step(SessionEvent::Request(RequestKind::Move)),
        SessionAction::Dispatch(RequestKind::Move)
    );
    assert_eq!(
        s.step(SessionEvent::Request(RequestKind::Logout)),
        SessionAction::Release { code: None, unregister: true, mark_offline: true }
    );
    assert!(s.is_closed());
    // a closed session stays closed and asks for nothing
    assert_eq!(s.step(SessionEvent::Request(RequestKind::Move)), SessionAction::Proceed);
    assert_eq!(s.step(SessionEvent::ConnectionLost), SessionAction::Proceed);
    assert_eq!(s.step(SessionEvent::HandshakeDone), SessionAction::Proceed);
    assert_eq!(s.phase(), SessionPhase::Closed);
}

#[test]
fn login_failures() {
    let mut s = Session::new(3);
    s.step(SessionEvent::HandshakeDone);
    // bad credentials may be tried again
    assert_eq!(
        s.step(SessionEvent::LoginChecked(LoginOutcome::BadCredentials)),
        SessionAction::RejectLogin { code: 0x08 }
    );
    assert_eq!(s.phase(), SessionPhase::Authenticating);
    // an account in use ends the session
    assert_eq!(
        s.step(SessionEvent::LoginChecked(LoginOutcome::AlreadyOnline)),
        SessionAction::Release { code: Some(0x16), unregister: false, mark_offline: false }
    );
    assert!(s.is_closed());

    let mut s = Session::new(3);
    s.step(SessionEvent::HandshakeDone);
    assert_eq!(
        s.step(SessionEvent::LoginChecked(LoginOutcome::Banned)),
        SessionAction::Release { code: Some(0x08), unregister: false, mark_offline: false }
    );
    assert!(s.is_closed());
}

#[test]
fn connection_loss_releases_what_the_phase_holds() {
    let release = |unregister: bool, mark_offline: bool| SessionAction::Release {
        code: None,
        unregister,
        mark_offline,
    };
    let mut s = Session::new(3);
    assert_eq!(s.step(SessionEvent::ConnectionLost), release(false, false));
    let mut s = Session::new(3);
    s.step(SessionEvent::HandshakeDone);
    assert_eq!(s.step(SessionEvent::ConnectionLost), release(false, false));
    let mut s = Session::new(3);
    s.step(SessionEvent::HandshakeDone);
    s.step(SessionEvent::LoginChecked(LoginOutcome::Accepted));
    assert_eq!(s.step(SessionEvent::ConnectionLost), release(false, true));
    let mut s = Session::new(3);
    s.step(SessionEvent::HandshakeDone);
    s.step(SessionEvent::LoginChecked(LoginOutcome::Accepted));
    s.step(SessionEvent::CharacterChosen { object_id: 1, owned: true });
    assert_eq!(s.step(SessionEvent::ConnectionLost), release(true, true));
    let mut s = active_session();
    assert_eq!(s.step(SessionEvent::ConnectionLost), release(true, true));
    assert!(s.is_closed());
}

#[test]
fn requests_outside_the_phase_are_discarded_until_the_limit() {
    let mut s = Session::new(2);
    s.step(SessionEvent::HandshakeDone);
    assert_eq!(s.step(SessionEvent::Request(RequestKind::Move)), SessionAction::Discard);
    assert_eq!(s.step(SessionEvent::Request(RequestKind::Unknown)), SessionAction::Discard);
    assert_eq!(s.phase(), SessionPhase::Authenticating);
    assert_eq!(
        s.step(SessionEvent::Request(RequestKind::Chat)),
        SessionAction::Release { code: None, unregister: false, mark_offline: false }
    );
    assert!(s.is_closed());

    // with no tolerance the first violation ends the session
    let mut s = Session::new(0);
    assert_eq!(
        s.step(SessionEvent::Request(RequestKind::Login)),
        SessionAction::Release { code: None, unregister: false, mark_offline: false }
    );

    // events out of place count as violations too
    let mut s = active_session();
    assert_eq!(s.step(SessionEvent::HandshakeDone), SessionAction::Discard);
    assert_eq!(s.step(SessionEvent::WorldEntered), SessionAction::Discard);
    assert_eq!(
        s.step(SessionEvent::LoginChecked(LoginOutcome::Accepted)),
        SessionAction::Discard
    );
    assert_eq!(
        s.step(SessionEvent::CharacterChosen { object_id: 5, owned: true }),
        SessionAction::Release { code: None, unregister: true, mark_offline: true }
    );
    assert_eq!(s.character(), Some(77));
}

#[test]
fn a_character_of_another_account_is_not_entered() {
    let mut s = Session::new(3);
    s.step(SessionEvent::HandshakeDone);
    s.step(SessionEvent::LoginChecked(LoginOutcome::Accepted));
    assert_eq!(
        s.step(SessionEvent::CharacterChosen { object_id: 9, owned: false }),
        SessionAction::Discard
    );
    assert_eq!(s.phase(), SessionPhase::SelectingCharacter);
    assert_eq!(s.character(), None);
    assert_eq!(
        s.step(SessionEvent::Request(RequestKind::CreateCharacter)),
        SessionAction::Dispatch(RequestKind::CreateCharacter)
    );
    assert_eq!(
        s.step(SessionEvent::Request(RequestKind::Logout)),
        SessionAction::Release { code: None, unregister: false, mark_offline: true }
    );
}

#[test]
fn each_phase_accepts_its_own_requests() {
    let all = [
        RequestKind::ClientVersion,
        RequestKind::Login,
        RequestKind::CreateCharacter,
        RequestKind::SelectCharacter,
        RequestKind::Move,
        RequestKind::ChangeHeading,
        RequestKind::Attack,
        RequestKind::PickUp,
        RequestKind::UseItem,
        RequestKind::UseSkill,
        RequestKind::Chat,
        RequestKind::Clan,
        RequestKind::Teleport,
    ];
    for (i, kind) in all.iter().enumerate() {
        let mut s = Session::new(100);
        s.step(SessionEvent::HandshakeDone);
        let expected = if i < 2 { SessionAction::Dispatch(*kind) } else { SessionAction::Discard };
        assert_eq!(s.step(SessionEvent::Request(*kind)), expected);

        let mut s = Session::new(100);
        s.step(SessionEvent::HandshakeDone);
        s.step(SessionEvent::LoginChecked(LoginOutcome::Accepted));
        let expected =
            if i == 2 || i == 3 { SessionAction::Dispatch(*kind) } else { SessionAction::Discard };
        assert_eq!(s.step(SessionEvent::Request(*kind)), expected);

        let mut s = active_session();
        let expected = if i >= 4 { SessionAction::Dispatch(*kind) } else { SessionAction::Discard };
        assert_eq!(s.step(SessionEvent::Request(*kind)), expected);

        let mut s = Session::new(100);
        assert_eq!(s.step(SessionEvent::Request(*kind)), SessionAction::Discard);
    }
}

#[test]
fn handshake_packet_carries_the_seed() {
    assert_eq!(
        build_init_packet(0x12345678),
        vec![
            server::S_OPCODE_INITPACKET, 0x78, 0x56, 0x34, 0x12, 0x9d, 0xd1, 0xd6, 0x7a, 0xf4,
            0x62, 0xe7, 0xa0, 0x66, 0x02, 0xfa,
        ]
    );
    assert_eq!(build_init_packet(0xffff_ffff)[1..5], [0xff, 0xff, 0xff, 0xff]);
}

#[test]
fn payloads_are_padded_to_four_bytes() {
    let padded = |bytes: &[u8]| {
        let mut v = bytes.to_vec();
        pad_payload(&mut v);
        v
    };
    assert_eq!(padded(&[]), vec![0, 0, 0, 0]);
    assert_eq!(padded(&[1]), vec![1, 0, 0, 0]);
    assert_eq!(padded(&[1, 2, 3]), vec![1, 2, 3, 0]);
    assert_eq!(padded(&[1, 2, 3, 4]), vec![1, 2, 3, 4]);
    assert_eq!(padded(&[1, 2, 3, 4, 5]), vec![1, 2, 3, 4, 5, 0, 0, 0]);
    assert_eq!(padded(&[9; 8]), vec![9; 8]);
}

#[test]
fn sealed_packets_are_opened_by_the_peer() {
    let mut server_side = Cipher::new(0x12345678);
    let mut client_side = Cipher::new(0x12345678);
    for len in [1usize, 2, 4, 5, 8, 11, 64] {
        let payload: Vec<u8> = (0..len).map(|i| (i * 7 + len) as u8).collect();
        let frame = seal_packet(&mut server_side, payload.clone());
        let body_len = decode_length(frame[0], frame[1]).unwrap();
        assert_eq!(body_len, frame.len() - 2);
        assert_eq!(body_len % 4, 0);
        assert!(body_len >= 4);
        let opened = open_packet(&mut client_side, frame[2..].to_vec()).unwrap();
        assert_eq!(&opened[..len], &payload[..]);
        assert!(opened[len..].iter().all(|b| *b == 0));
        assert_eq!(server_side.encrypt_key(), client_side.decrypt_key());
    }
}

#[test]
fn exact_sealed_frame() {
    let mut c = Cipher::new(0x11111111);
    assert_eq!(seal_packet(&mut c, vec![0xAA, 0xBB, 0xCC, 0xDD]), vec![6, 0, 0x63, 0x90, 0x99, 0x46]);
}

#[test]
fn short_bodies_are_not_opened() {
    let mut c = Cipher::new(5);
    let key = c.decrypt_key();
    assert_eq!(open_packet(&mut c, vec![1, 2, 3]), None);
    assert_eq!(open_packet(&mut c, vec![]), None);
    assert_eq!(c.decrypt_key(), key);
}

#[test]
fn largest_sealed_payload_fits_a_frame() {
    assert_eq!(MAX_SEALED_LEN, 65532);
    let mut server_side = Cipher::new(9);
    let mut client_side = Cipher::new(9);
    for len in [65529usize, 65530, 65532] {
        let payload = vec![3u8; len];
        let frame = seal_packet(&mut server_side, payload.clone());
        assert_eq!(frame.len(), 65534);
        assert_eq!(decode_length(frame[0], frame[1]), Some(65532));
        let opened = open_packet(&mut client_side, frame[2..].to_vec()).unwrap();
        assert_eq!(&opened[..len], &payload[..]);
    }
}
