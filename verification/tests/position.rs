use l1j_rust::ecs::components::movement::Movement;
use l1j_rust::ecs::components::npc::AiState;
use l1j_rust::ecs::components::position::{heading_delta, Position};
use l1j_rust::ecs::components::visual::Visual;

#[test]
fn test_in_screen() {
    let a = Position::new(32800, 32800, 4);
    let b = Position::new(32810, 32810, 4);
    assert!(a.is_in_screen(&b));

    let c = Position::new(32830, 32830, 4);
    assert!(!a.is_in_screen(&c)); // > 18 tiles away
}

#[test]
fn test_different_map() {
    let a = Position::new(100, 100, 4);
    let b = Position::new(100, 100, 5);
    assert!(!a.is_in_screen(&b));
    assert_eq!(a.tile_distance(&b), i32::MAX);
}

#[test]
fn test_step() {
    let pos = Position::new(100, 100, 4);
    let moved = pos.step(6); // East
    assert_eq!(moved.x, 101);
    assert_eq!(moved.y, 100);
}

#[test]
fn screen_range_is_eighteen_on_each_axis() {
    let a = Position::new(0, 0, 1);
    assert!(a.is_in_screen(&Position::new(18, -18, 1)));
    assert!(!a.is_in_screen(&Position::new(19, 0, 1)));
    assert!(!a.is_in_screen(&Position::new(0, -19, 1)));
    assert!(!Position::new(i32::MIN, 0, 1).is_in_screen(&Position::new(i32::MAX, 0, 1)));
}

#[test]
fn tile_distance_is_the_larger_axis_distance() {
    let a = Position::new(10, 10, 1);
    assert_eq!(a.tile_distance(&Position::new(13, 5, 1)), 5);
    assert_eq!(a.tile_distance(&Position::new(3, 12, 1)), 7);
    assert_eq!(a.tile_distance(&a), 0);
}

#[test]
fn all_eight_headings() {
    assert_eq!(heading_delta(0), (0, 1));
    assert_eq!(heading_delta(1), (-1, 1));
    assert_eq!(heading_delta(2), (-1, 0));
    assert_eq!(heading_delta(3), (-1, -1));
    assert_eq!(heading_delta(4), (0, -1));
    assert_eq!(heading_delta(5), (1, -1));
    assert_eq!(heading_delta(6), (1, 0));
    assert_eq!(heading_delta(7), (1, 1));
    // only the low three bits count
    assert_eq!(heading_delta(8), (0, 1));
    assert_eq!(heading_delta(14), (1, 0));
    assert_eq!(heading_delta(-1), (1, 1));
    assert_eq!(heading_delta(-8), (0, 1));
    assert_eq!(heading_delta(i32::MIN), (0, 1));
    assert_eq!(heading_delta(i32::MAX), (1, 1));
}

#[test]
fn step_keeps_map_and_records_heading() {
    let p = Position::new(5, 5, 9).step(3);
    assert_eq!(p, Position { x: 4, y: 4, map_id: 9, heading: 3 });
    assert_eq!(Position::new(1, 2, 3).heading, 0);
}

#[test]
fn movement_cooldown() {
    let mut m = Movement::new();
    assert_eq!(m.pending_heading, -1);
    assert_eq!(m.move_delay_ticks, 1);
    assert!(m.can_move());
    m.cooldown_ticks = 2;
    assert!(!m.can_move());
    m.tick();
    assert_eq!(m.cooldown_ticks, 1);
    m.tick();
    assert!(m.can_move());
    m.tick();
    assert_eq!(m.cooldown_ticks, 0);
}

#[test]
fn visual_effective_gfx() {
    let mut v = Visual::new_npc(100, "name".to_string(), "$1".to_string());
    assert_eq!(v.effective_gfx(), 100);
    assert_eq!(v.name, "name");
    assert_eq!(v.nameid, "$1");
    assert_eq!(v.title, "");
    v.temp_gfx_id = 7;
    assert_eq!(v.effective_gfx(), 7);
}

#[test]
fn new_ai_state_is_idle_at_home() {
    let ai = AiState::new(10, 20);
    assert!(!ai.active);
    assert!(!ai.players_nearby);
    assert!(ai.hate_list.is_empty());
    assert_eq!(ai.target_id, 0);
    assert_eq!((ai.home_x, ai.home_y), (10, 20));
    assert_eq!(ai.sleep_ticks, 0);
}
