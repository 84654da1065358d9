use flappy_circle::motion::{
    apply_gravity, update_player_position, Velocity, GRAVITY, JUMP_SPEED, RUN_SPEED,
};
use flappy_circle::player::{spawn_player, update_velocity_on_space};
use flappy_circle::state::GameState;
use flappy_circle::units::{FixedVec2, UNIT};

fn fixed_tick(velocity: &mut Velocity, translation: &mut FixedVec2) {
    update_player_position(velocity, translation);
    apply_gravity(velocity);
}

#[test]
fn constants_are_tenths_of_world_units() {
    assert_eq!(UNIT, 10);
    assert_eq!(GRAVITY, 1);
    assert_eq!(JUMP_SPEED, 5 * UNIT);
    assert_eq!(RUN_SPEED, 2 * UNIT);
}

#[test]
fn position_moves_by_velocity() {
    let velocity = Velocity { value: FixedVec2::new(20, -13) };
    let mut translation = FixedVec2::new(100, 40);
    update_player_position(&velocity, &mut translation);
    assert_eq!(translation, FixedVec2::new(120, 27));
}

#[test]
fn gravity_takes_one_tenth_per_tick() {
    let mut velocity = Velocity { value: FixedVec2::new(20, 0) };
    apply_gravity(&mut velocity);
    assert_eq!(velocity.value, FixedVec2::new(20, -1));
    apply_gravity(&mut velocity);
    assert_eq!(velocity.value, FixedVec2::new(20, -2));
}

#[test]
fn free_fall_follows_closed_form() {
    let mut velocity = Velocity { value: FixedVec2::new(RUN_SPEED, -GRAVITY) };
    let start = FixedVec2::new(0, 1000);
    let mut translation = start;
    for n in 1..=200i64 {
        fixed_tick(&mut velocity, &mut translation);
        assert_eq!(translation.y, start.y - GRAVITY * (n * (n + 1) / 2));
        assert_eq!(translation.x, start.x + n * RUN_SPEED);
        assert_eq!(velocity.value.y, -GRAVITY - n * GRAVITY);
    }
    assert_eq!(translation.y, 1000 - 20100);
}

#[test]
fn fall_from_rest_lags_one_tick() {
    let player = spawn_player();
    let mut velocity = player.bundle.velocity;
    let mut translation = player.translation;
    fixed_tick(&mut velocity, &mut translation);
    assert_eq!(translation, FixedVec2::new(20, 0));
    assert_eq!(velocity.value.y, -1);
    for n in 1..=50i64 {
        fixed_tick(&mut velocity, &mut translation);
        assert_eq!(translation.y, -(n * (n + 1) / 2));
    }
    assert_eq!(translation, FixedVec2::new(51 * 20, -1275));
}

#[test]
fn jump_sets_vertical_velocity_whatever_it_was() {
    let running = GameState { is_game_over: false };
    for prior in [0i64, -1, -37, 50, 999, i64::MIN, i64::MAX] {
        let mut velocity = Velocity { value: FixedVec2::new(20, prior) };
        let mut atlas_index = 1usize;
        update_velocity_on_space(true, &running, &mut velocity, &mut atlas_index);
        assert_eq!(velocity.value, FixedVec2::new(20, 50));
        assert_eq!(atlas_index, 0);
    }
}

#[test]
fn jump_needs_key_and_running_game() {
    let running = GameState { is_game_over: false };
    let lost = GameState { is_game_over: true };
    let before = Velocity { value: FixedVec2::new(20, -7) };

    let mut velocity = before;
    let mut atlas_index = 1usize;
    update_velocity_on_space(false, &running, &mut velocity, &mut atlas_index);
    assert_eq!(velocity, before);
    assert_eq!(atlas_index, 1);

    update_velocity_on_space(true, &lost, &mut velocity, &mut atlas_index);
    assert_eq!(velocity, before);
    assert_eq!(atlas_index, 1);

    update_velocity_on_space(false, &lost, &mut velocity, &mut atlas_index);
    assert_eq!(velocity, before);
    assert_eq!(atlas_index, 1);
}
