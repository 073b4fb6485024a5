use l1j_rust::world::map_data::{v1_flags, MapProperties, MapTileData};

#[test]
fn test_v1_passability() {
    let tiles = vec![0x00, 0x80, 0x10, 0x03];
    let map = MapTileData::from_v1(0, 100, 200, 2, 2, tiles, MapProperties::default());

    assert!(map.is_passable(100, 200));   // 0x00 - passable
    assert!(!map.is_passable(101, 200));  // 0x80 - impassable
    assert!(map.is_passable(100, 201));   // 0x10 - passable + safety
    assert!(map.is_safety_zone(100, 201));
    assert!(!map.is_passable(99, 199));   // out of bounds
}

#[test]
fn test_v2_passability() {
    let tiles = vec![0, 1, 4, 8];
    let map = MapTileData::from_v2(0, 100, 200, 2, 2, tiles, MapProperties::default());

    assert!(map.is_passable(100, 200));   // 0 - passable
    assert!(!map.is_passable(101, 200));  // 1 - impassable
    assert!(map.is_safety_zone(100, 201)); // 4 - safety
    assert!(map.is_combat_zone(101, 201)); // 8 - combat
}

#[test]
fn test_null_map() {
    let map = MapTileData::null_map(999);
    assert!(!map.is_passable(0, 0));
}

#[test]
fn bounds() {
    let map = MapTileData::from_v1(3, 100, 200, 2, 3, vec![0; 6], MapProperties::default());
    assert_eq!(map.map_id, 3);
    assert!(map.in_bounds(100, 200));
    assert!(map.in_bounds(101, 202));
    assert!(!map.in_bounds(102, 200));
    assert!(!map.in_bounds(100, 203));
    assert!(!map.in_bounds(99, 200));
    assert!(!map.in_bounds(100, 199));
    let huge = MapTileData::from_v1(3, i32::MAX, i32::MAX, i32::MAX, i32::MAX, vec![], MapProperties::default());
    assert!(huge.in_bounds(i32::MAX, i32::MAX));
    assert!(!huge.is_passable(i32::MAX, i32::MAX));
    assert!(!MapTileData::null_map(1).in_bounds(0, 0));
}

#[test]
fn tiles_are_stored_row_by_row() {
    let tiles = vec![0x00, 0x10, 0x20, 0x80, 0x30, 0x00];
    let map = MapTileData::from_v1(0, 10, 20, 3, 2, tiles, MapProperties::default());
    assert!(map.is_safety_zone(11, 20));
    assert!(map.is_combat_zone(12, 20));
    assert!(!map.is_passable(10, 21));
    assert!(map.is_safety_zone(11, 21) && map.is_combat_zone(11, 21));
    assert!(!map.is_safety_zone(12, 21));
}

#[test]
fn short_tile_list_is_impassable_beyond_its_end() {
    let map = MapTileData::from_v1(0, 0, 0, 2, 2, vec![0, 0, 0], MapProperties::default());
    assert!(map.is_passable(0, 1));
    assert!(!map.is_passable(1, 1));
    let map = MapTileData::from_v2(0, 0, 0, 2, 2, vec![0, 0, 0], MapProperties::default());
    assert!(map.is_passable(0, 1));
    assert!(!map.is_passable(1, 1));
}

#[test]
fn v2_impassable_values() {
    let tiles = vec![1, 9, 65, 69, 73, 2, 72, 0];
    let map = MapTileData::from_v2(0, 0, 0, 8, 1, tiles, MapProperties::default());
    for x in 0..5 {
        assert!(!map.is_passable(x, 0));
    }
    for x in 5..8 {
        assert!(map.is_passable(x, 0));
    }
    assert!(!map.is_passable(8, 0));
    assert!(!map.is_safety_zone(8, 0));
    assert!(!map.is_combat_zone(8, 0));
}

#[test]
fn null_map_has_no_zones() {
    let map = MapTileData::null_map(5);
    assert_eq!((map.map_id, map.width, map.height), (5, 0, 0));
    assert!(!map.is_safety_zone(0, 0));
    assert!(!map.is_combat_zone(0, 0));
    assert!(map.props.teleportable);
}

#[test]
fn default_properties() {
    let p = MapProperties::default();
    assert_eq!(p.map_id, 0);
    assert_eq!(p.locationname, "");
    assert!(!p.underwater);
    assert!(p.markable && p.teleportable && p.escapable && p.resurrection);
    assert!(p.painwand && p.death_penalty && p.take_pets && p.recall_pets);
    assert!(p.usable_item && p.usable_skill);
    assert_eq!(v1_flags::IMPASSABLE, 0x80);
}
