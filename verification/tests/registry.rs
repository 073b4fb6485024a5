use l1j_rust::network::shared_state::{queued_count, OnlinePlayer, WorldState, VISIBLE_RANGE};
use tokio::sync::mpsc::{unbounded_channel, UnboundedReceiver};

fn player(id: i32, map_id: i32, x: i32, y: i32) -> (OnlinePlayer, UnboundedReceiver<Vec<u8>>) {
    let (tx, rx) = unbounded_channel();
    let p = OnlinePlayer {
        object_id: id,
        name: format!("P{}", id),
        x,
        y,
        map_id,
        heading: 0,
        gfx_id: 61,
        level: 1,
        lawful: 0,
        char_type: 1,
        sex: 0,
        clan_name: String::new(),
        title: String::new(),
        packet_tx: tx,
    };
    (p, rx)
}

fn ids(found: &[OnlinePlayer]) -> Vec<i32> {
    let mut ids: Vec<i32> = found.iter().map(|p| p.object_id).collect();
    ids.sort();
    ids
}

#[test]
fn register_and_unregister() {
    let mut world = WorldState::new();
    assert_eq!(world.player_count(), 0);
    let (p1, _r1) = player(1, 4, 100, 100);
    let (p2, _r2) = player(2, 4, 105, 100);
    world.add_player(p1);
    world.add_player(p2);
    assert_eq!(world.player_count(), 2);
    assert_eq!(world.get_player(1).map(|p| p.name.clone()), Some("P1".to_string()));
    assert!(world.get_player(3).is_none());
    // registering again under the same id replaces the record
    let (p1b, _r1b) = player(1, 4, 300, 300);
    world.add_player(p1b);
    assert_eq!(world.player_count(), 2);
    assert_eq!(world.get_player(1).map(|p| p.x), Some(300));
    world.remove_player(1);
    world.remove_player(99);
    assert_eq!(world.player_count(), 1);
    assert!(world.get_player(1).is_none());
}

#[test]
fn update_position_changes_position_and_heading_only() {
    let mut world = WorldState::new();
    let (p1, _r1) = player(1, 4, 100, 100);
    world.add_player(p1);
    world.update_position(1, 110, 120, 5);
    world.update_position(2, 1, 1, 1);
    let p = world.get_player(1).unwrap();
    assert_eq!((p.x, p.y, p.heading, p.map_id), (110, 120, 5, 4));
    assert_eq!(p.name, "P1");
    assert_eq!(p.gfx_id, 61);
    assert_eq!(world.player_count(), 1);
}

#[test]
fn nearby_applies_the_visibility_predicate() {
    let mut world = WorldState::new();
    let mut keep = Vec::new();
    let places = [
        (1, 4, 100, 100),
        (2, 4, 118, 82),  // exactly 18 away on both axes
        (3, 4, 119, 100), // 19 away on x
        (4, 4, 100, 81),  // 19 away on y
        (5, 5, 100, 100), // another map
        (6, 4, 90, 110),
    ];
    for (id, map, x, y) in places {
        let (p, rx) = player(id, map, x, y);
        keep.push(rx);
        world.add_player(p);
    }
    assert_eq!(ids(&world.get_nearby_players(4, 100, 100, 1)), vec![2, 6]);
    assert_eq!(ids(&world.get_nearby_players(4, 100, 100, 0)), vec![1, 2, 6]);
    assert_eq!(ids(&world.get_nearby_players(5, 100, 100, 0)), vec![5]);
    assert_eq!(ids(&world.get_nearby_players(5, 100, 100, 5)), Vec::<i32>::new());
    assert_eq!(ids(&world.get_nearby_players(6, 100, 100, 0)), Vec::<i32>::new());
    assert_eq!(ids(&world.get_nearby_players(4, i32::MAX, i32::MIN, 0)), Vec::<i32>::new());
    let found = world.get_nearby_players(4, 100, 100, 1);
    let two = found.iter().find(|p| p.object_id == 2).unwrap();
    assert_eq!((two.x, two.y, two.map_id), (118, 82, 4));
    assert_eq!(two.name, "P2");
    assert_eq!(VISIBLE_RANGE, 18);
}

#[test]
fn broadcast_reaches_the_nearby_players() {
    let mut world = WorldState::new();
    let (p1, mut r1) = player(1, 4, 100, 100);
    let (p2, mut r2) = player(2, 4, 110, 100);
    let (p3, mut r3) = player(3, 4, 500, 500);
    let (p4, mut r4) = player(4, 5, 100, 100);
    world.add_player(p1);
    world.add_player(p2);
    world.add_player(p3);
    world.add_player(p4);
    let served = world.broadcast_to_nearby(4, 100, 100, 1, &[9, 8, 7]);
    assert_eq!(served, vec![(2, true)]);
    assert_eq!(queued_count(&served), 1);
    assert_eq!(r2.try_recv().ok(), Some(vec![9, 8, 7]));
    assert!(r1.try_recv().is_err());
    assert!(r3.try_recv().is_err());
    assert!(r4.try_recv().is_err());
    let mut served = world.broadcast_to_nearby(4, 100, 100, 0, &[1]);
    served.sort();
    assert_eq!(served, vec![(1, true), (2, true)]);
    assert_eq!(queued_count(&served), 2);
    assert!(world.broadcast_to_nearby(7, 100, 100, 0, &[1]).is_empty());
    assert_eq!(r1.try_recv().ok(), Some(vec![1]));
    assert_eq!(r2.try_recv().ok(), Some(vec![1]));
}

#[test]
fn broadcast_passes_over_a_player_whose_session_is_gone() {
    let mut world = WorldState::new();
    let (p1, r1) = player(1, 4, 100, 100);
    let (p2, mut r2) = player(2, 4, 101, 100);
    world.add_player(p1);
    world.add_player(p2);
    drop(r1);
    let mut served = world.broadcast_to_nearby(4, 100, 100, 0, &[5]);
    served.sort();
    assert_eq!(served, vec![(1, false), (2, true)]);
    assert_eq!(queued_count(&served), 1);
    assert_eq!(r2.try_recv().ok(), Some(vec![5]));
    // the player stays registered until its own session unregisters it
    assert_eq!(world.player_count(), 2);
}

#[test]
fn a_copy_of_a_player_sends_to_the_same_session() {
    let mut world = WorldState::new();
    let (p1, mut r1) = player(1, 4, 100, 100);
    world.add_player(p1);
    let found = world.get_nearby_players(4, 100, 100, 0);
    assert_eq!(found.len(), 1);
    assert!(found[0].packet_tx.send(vec![3]).is_ok());
    assert_eq!(r1.try_recv().ok(), Some(vec![3]));
}

#[test]
fn queued_count_counts_the_successes() {
    assert_eq!(queued_count(&vec![]), 0);
    assert_eq!(queued_count(&vec![(1, false), (2, false)]), 0);
    assert_eq!(queued_count(&vec![(1, true), (2, false), (3, true), (4, true)]), 3);
}

#[test]
fn a_registered_player_keeps_its_channel() {
    let mut world = WorldState::new();
    let (p1, mut r1) = player(1, 4, 100, 100);
    let (p2, mut r2) = player(2, 4, 100, 100);
    world.add_player(p1);
    world.add_player(p2);
    world.update_position(1, 101, 101, 3);
    world.remove_player(2);
    assert!(world.get_player(1).unwrap().packet_tx.send(vec![7]).is_ok());
    assert_eq!(r1.try_recv().ok(), Some(vec![7]));
    assert!(r2.try_recv().is_err());
    // registering again under the same id stores the new channel
    let (p1b, mut r1b) = player(1, 4, 100, 100);
    world.add_player(p1b);
    assert_eq!(world.broadcast_to_nearby(4, 100, 100, 0, &[8]), vec![(1, true)]);
    assert_eq!(r1b.try_recv().ok(), Some(vec![8]));
    assert!(r1.try_recv().is_err());
}
