use flappy_circle::collision::{
    check_collision, player_overlaps_pipe, player_touches_ground, Ground, Pipe,
    GROUND_HALF_HEIGHT, PIPE_HALF_HEIGHT, PIPE_HALF_WIDTH, PLAYER_FOOT, PLAYER_HALF_HEIGHT,
    PLAYER_HALF_WIDTH,
};
use flappy_circle::state::GameState;
use flappy_circle::units::FixedVec2;

const RUNNING: GameState = GameState { is_game_over: false };
const LOST: GameState = GameState { is_game_over: true };

fn floor() -> Vec<Ground> {
    vec![Ground { translation: FixedVec2::new(0, -2680) }]
}

fn one_pipe() -> Vec<Pipe> {
    vec![Pipe { translation: FixedVec2::new(4000, -2000) }]
}

#[test]
fn extents_are_in_tenths() {
    assert_eq!(PLAYER_FOOT, 500);
    assert_eq!(PLAYER_HALF_WIDTH, 450);
    assert_eq!(PLAYER_HALF_HEIGHT, 250);
    assert_eq!(GROUND_HALF_HEIGHT, 320);
    assert_eq!(PIPE_HALF_WIDTH, 480);
    assert_eq!(PIPE_HALF_HEIGHT, 1200);
}

#[test]
fn feet_level_with_floor_touch_it() {
    let tile = Ground { translation: FixedVec2::new(0, -2680) };
    assert!(player_touches_ground(&FixedVec2::new(0, -1860), &tile));
    assert!(!player_touches_ground(&FixedVec2::new(0, -1859), &tile));
    assert!(player_touches_ground(&FixedVec2::new(0, -1861), &tile));
    assert!(player_touches_ground(&FixedVec2::new(123_456, -5000), &tile));
}

#[test]
fn pipe_edges_are_inclusive() {
    let pipe = Pipe { translation: FixedVec2::new(4000, -2000) };
    let reach_x = PLAYER_HALF_WIDTH + PIPE_HALF_WIDTH;
    let reach_y = PLAYER_HALF_HEIGHT + PIPE_HALF_HEIGHT;
    assert_eq!(reach_x, 930);
    assert_eq!(reach_y, 1450);
    // left, right, lower, upper edge: contact counts, one step further does not
    assert!(player_overlaps_pipe(&FixedVec2::new(4000 - reach_x, -2000), &pipe));
    assert!(!player_overlaps_pipe(&FixedVec2::new(4000 - reach_x - 1, -2000), &pipe));
    assert!(player_overlaps_pipe(&FixedVec2::new(4000 + reach_x, -2000), &pipe));
    assert!(!player_overlaps_pipe(&FixedVec2::new(4000 + reach_x + 1, -2000), &pipe));
    assert!(player_overlaps_pipe(&FixedVec2::new(4000, -2000 - reach_y), &pipe));
    assert!(!player_overlaps_pipe(&FixedVec2::new(4000, -2000 - reach_y - 1), &pipe));
    assert!(player_overlaps_pipe(&FixedVec2::new(4000, -2000 + reach_y), &pipe));
    assert!(!player_overlaps_pipe(&FixedVec2::new(4000, -2000 + reach_y + 1), &pipe));
    // corner contact
    assert!(player_overlaps_pipe(&FixedVec2::new(4000 + reach_x, -2000 + reach_y), &pipe));
    assert!(!player_overlaps_pipe(&FixedVec2::new(4000 + reach_x + 1, -2000 + reach_y), &pipe));
    // centre
    assert!(player_overlaps_pipe(&FixedVec2::new(4000, -2000), &pipe));
}

#[test]
fn overlap_test_survives_extreme_coordinates() {
    let far = Pipe { translation: FixedVec2::new(i64::MAX, i64::MIN) };
    assert!(!player_overlaps_pipe(&FixedVec2::new(i64::MIN, i64::MAX), &far));
    assert!(player_overlaps_pipe(&FixedVec2::new(i64::MAX, i64::MIN), &far));
    let deep = Ground { translation: FixedVec2::new(0, i64::MIN) };
    assert!(!player_touches_ground(&FixedVec2::new(0, i64::MAX), &deep));
    assert!(player_touches_ground(&FixedVec2::new(0, i64::MIN), &deep));
    let high = Ground { translation: FixedVec2::new(0, i64::MAX) };
    assert!(player_touches_ground(&FixedVec2::new(0, i64::MAX), &high));
}

#[test]
fn collision_reports_floor_contact() {
    assert!(check_collision(&RUNNING, &FixedVec2::new(0, -1860), &floor(), &one_pipe()));
    assert!(!check_collision(&RUNNING, &FixedVec2::new(0, -1859), &floor(), &one_pipe()));
}

#[test]
fn collision_reports_pipe_contact() {
    assert!(check_collision(&RUNNING, &FixedVec2::new(3070, -600), &floor(), &one_pipe()));
    assert!(!check_collision(&RUNNING, &FixedVec2::new(3069, -600), &floor(), &one_pipe()));
    assert!(check_collision(&RUNNING, &FixedVec2::new(3070, -550), &floor(), &one_pipe()));
    assert!(!check_collision(&RUNNING, &FixedVec2::new(3070, -549), &floor(), &one_pipe()));
    assert!(!check_collision(&RUNNING, &FixedVec2::new(3070, -600), &floor(), &Vec::new()));
}

#[test]
fn collision_scans_every_obstacle() {
    let pipes = vec![
        Pipe { translation: FixedVec2::new(4000, -2000) },
        Pipe { translation: FixedVec2::new(8000, 2500) },
        Pipe { translation: FixedVec2::new(12000, -2000) },
    ];
    assert!(check_collision(&RUNNING, &FixedVec2::new(12000, -600), &floor(), &pipes));
    assert!(check_collision(&RUNNING, &FixedVec2::new(8000, 1050), &floor(), &pipes));
    assert!(!check_collision(&RUNNING, &FixedVec2::new(8000, 1049), &floor(), &pipes));
    let tiles = vec![
        Ground { translation: FixedVec2::new(0, -9000) },
        Ground { translation: FixedVec2::new(640, -2680) },
    ];
    assert!(check_collision(&RUNNING, &FixedVec2::new(0, -1860), &tiles, &Vec::new()));
}

#[test]
fn lost_game_reports_no_collision() {
    assert!(!check_collision(&LOST, &FixedVec2::new(0, -1860), &floor(), &one_pipe()));
    assert!(!check_collision(&LOST, &FixedVec2::new(4000, -2000), &floor(), &one_pipe()));
}

#[test]
fn empty_world_has_nothing_to_hit() {
    assert!(!check_collision(&RUNNING, &FixedVec2::new(0, i64::MIN), &Vec::new(), &Vec::new()));
}
