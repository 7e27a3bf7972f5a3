use sprite_motion::direction::{direction_spritesheet_row, Direction};
use sprite_motion::geometry::{Point, POSITION_MAX, POSITION_MIN};
use sprite_motion::input::HeldInputs;
use sprite_motion::player::{
    advance, steer, update_player, Player, FRAMES_PER_DIRECTION, PLAYER_MOVEMENT_SPEED,
};

fn player_at(x: i32, y: i32, direction: Direction, speed: i32, frame: i32) -> Player {
    Player { position: Point { x, y }, direction, speed, current_frame: frame }
}

fn keys(up: bool, down: bool, left: bool, right: bool) -> HeldInputs {
    HeldInputs { up, down, left, right }
}

#[test]
fn sheet_rows_of_the_four_directions() {
    assert_eq!(direction_spritesheet_row(Direction::Up), 3);
    assert_eq!(direction_spritesheet_row(Direction::Down), 0);
    assert_eq!(direction_spritesheet_row(Direction::Left), 1);
    assert_eq!(direction_spritesheet_row(Direction::Right), 2);
}

#[test]
fn unit_vectors_are_axis_aligned() {
    assert_eq!(Direction::Left.unit_vector(), (-1, 0));
    assert_eq!(Direction::Right.unit_vector(), (1, 0));
    assert_eq!(Direction::Up.unit_vector(), (0, -1));
    assert_eq!(Direction::Down.unit_vector(), (0, 1));
}

#[test]
fn new_player_rests_at_origin_facing_right() {
    let p = Player::new();
    assert_eq!(p, player_at(0, 0, Direction::Right, 0, 0));
    assert!(p.is_valid());
}

#[test]
fn constants_of_the_walk() {
    assert_eq!(PLAYER_MOVEMENT_SPEED, 5);
    assert_eq!(FRAMES_PER_DIRECTION, 3);
}

#[test]
fn down_from_rest_moves_and_animates() {
    let mut p = player_at(0, 0, Direction::Right, 0, 0);
    advance(&mut p, &keys(false, true, false, false));
    assert_eq!(p.position, Point { x: 0, y: PLAYER_MOVEMENT_SPEED });
    assert_eq!(p.direction, Direction::Down);
    assert_eq!(p.speed, PLAYER_MOVEMENT_SPEED);
    assert_eq!(p.current_frame, 1);
}

#[test]
fn last_frame_wraps_to_first() {
    let mut p = player_at(7, 7, Direction::Left, PLAYER_MOVEMENT_SPEED, 2);
    update_player(&mut p);
    assert_eq!(p.current_frame, 0);
    assert_eq!(p.position, Point { x: 2, y: 7 });
}

#[test]
fn frame_cycle_never_reaches_three() {
    let mut p = Player::new();
    let held = HeldInputs::only(Direction::Right);
    let mut seen = Vec::new();
    for _ in 0..7 {
        advance(&mut p, &held);
        assert!(p.current_frame >= 0 && p.current_frame < FRAMES_PER_DIRECTION);
        seen.push(p.current_frame);
    }
    assert_eq!(seen, vec![1, 2, 0, 1, 2, 0, 1]);
    assert_eq!(p.position, Point { x: 35, y: 0 });
}

#[test]
fn rest_leaves_position_and_frame_whatever_the_direction() {
    for direction in [Direction::Up, Direction::Down, Direction::Left, Direction::Right] {
        for frame in 0..3 {
            let before = player_at(-40, 12, direction, 0, frame);
            let mut p = before;
            update_player(&mut p);
            assert_eq!(p, before);
        }
    }
}

#[test]
fn single_input_moves_by_the_speed_along_its_axis() {
    let cases = [
        (Direction::Up, 100, 195),
        (Direction::Down, 100, 205),
        (Direction::Left, 95, 200),
        (Direction::Right, 105, 200),
    ];
    for (direction, x, y) in cases {
        let mut p = player_at(100, 200, Direction::Down, 0, 1);
        advance(&mut p, &HeldInputs::only(direction));
        assert_eq!(p.position, Point { x, y });
        assert_eq!(p.direction, direction);
        assert_eq!(p.speed, PLAYER_MOVEMENT_SPEED);
        assert_eq!(p.current_frame, 2);
    }
}

#[test]
fn idle_tick_stops_but_keeps_facing_and_frame() {
    let mut p = player_at(3, 4, Direction::Up, PLAYER_MOVEMENT_SPEED, 2);
    advance(&mut p, &HeldInputs::none());
    assert_eq!(p, player_at(3, 4, Direction::Up, 0, 2));
}

#[test]
fn repeated_idle_ticks_are_a_fixed_point() {
    let mut p = player_at(-9, 30, Direction::Left, PLAYER_MOVEMENT_SPEED, 1);
    advance(&mut p, &HeldInputs::none());
    let after_first = p;
    for _ in 0..10 {
        advance(&mut p, &HeldInputs::none());
        assert_eq!(p, after_first);
    }
}

#[test]
fn up_and_right_resolve_to_right() {
    let held = keys(true, false, false, true);
    assert_eq!(held.resolve(), Some(Direction::Right));
    let mut p = Player::new();
    advance(&mut p, &held);
    assert_eq!(p.direction, Direction::Right);
    assert_eq!(p.position, Point { x: PLAYER_MOVEMENT_SPEED, y: 0 });
}

#[test]
fn later_input_in_the_order_wins() {
    assert_eq!(keys(false, false, false, false).resolve(), None);
    assert_eq!(keys(true, false, false, false).resolve(), Some(Direction::Up));
    assert_eq!(keys(true, true, false, false).resolve(), Some(Direction::Down));
    assert_eq!(keys(true, true, true, false).resolve(), Some(Direction::Left));
    assert_eq!(keys(true, true, true, true).resolve(), Some(Direction::Right));
    assert_eq!(keys(false, true, true, false).resolve(), Some(Direction::Left));
    assert_eq!(keys(false, true, false, true).resolve(), Some(Direction::Right));
    assert_eq!(keys(true, false, true, false).resolve(), Some(Direction::Left));
}

#[test]
fn held_inputs_answer_for_each_direction() {
    let held = keys(false, true, true, false);
    assert!(!held.is_held(Direction::Up));
    assert!(held.is_held(Direction::Down));
    assert!(held.is_held(Direction::Left));
    assert!(!held.is_held(Direction::Right));
    assert_eq!(HeldInputs::none(), keys(false, false, false, false));
    assert_eq!(HeldInputs::only(Direction::Left), keys(false, false, true, false));
}

#[test]
fn opposite_inputs_never_cancel_or_go_diagonal() {
    let mut p = player_at(0, 0, Direction::Right, 0, 0);
    advance(&mut p, &keys(true, true, true, true));
    assert_eq!(p.position, Point { x: 5, y: 0 });
    let mut q = player_at(0, 0, Direction::Right, 0, 0);
    advance(&mut q, &keys(true, false, true, false));
    assert_eq!(q.position, Point { x: -5, y: 0 });
}

#[test]
fn steer_sets_speed_and_facing_only() {
    let mut p = player_at(8, 9, Direction::Up, 0, 2);
    steer(&mut p, &HeldInputs::only(Direction::Left));
    assert_eq!(p, player_at(8, 9, Direction::Left, PLAYER_MOVEMENT_SPEED, 2));
    steer(&mut p, &HeldInputs::none());
    assert_eq!(p, player_at(8, 9, Direction::Left, 0, 2));
}

#[test]
fn walking_stops_at_the_edge_of_the_grid() {
    let mut p = player_at(POSITION_MAX - 2, POSITION_MIN + 1, Direction::Right, 0, 0);
    advance(&mut p, &HeldInputs::only(Direction::Right));
    assert_eq!(p.position, Point { x: POSITION_MAX, y: POSITION_MIN + 1 });
    assert_eq!(p.current_frame, 1);
    advance(&mut p, &HeldInputs::only(Direction::Up));
    assert_eq!(p.position, Point { x: POSITION_MAX, y: POSITION_MIN });
    assert_eq!(p.current_frame, 2);
    assert!(p.is_valid());
}

#[test]
fn invalid_players_are_recognised() {
    assert!(player_at(0, 0, Direction::Up, 5, 2).is_valid());
    assert!(!player_at(0, 0, Direction::Up, 4, 0).is_valid());
    assert!(!player_at(0, 0, Direction::Up, 0, 3).is_valid());
    assert!(!player_at(0, 0, Direction::Up, 0, -1).is_valid());
    assert!(!player_at(POSITION_MAX + 1, 0, Direction::Up, 0, 0).is_valid());
    assert!(!player_at(0, POSITION_MIN - 1, Direction::Up, 0, 0).is_valid());
}
