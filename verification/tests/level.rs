use flappy_circle::collision::{Ground, Pipe};
use flappy_circle::level::{
    camera_follow_player, ground_at, pipe_at, setup_background, spawn_camera, spawn_ground,
    spawn_pipe, update_bg_position, Background, GameCamera, BACKGROUND_Y, GROUND_COUNT,
    PIPE_COUNT, PIPE_HIGH_Y, PIPE_LOW_Y,
};
use flappy_circle::motion::Velocity;
use flappy_circle::player::{spawn_player, Player, PlayerBundle};
use flappy_circle::motion::Gravity;
use flappy_circle::animation::{AnimationIndices, AnimationTimer};
use flappy_circle::units::FixedVec2;

#[test]
fn ground_tiles_stand_in_a_row() {
    let ground = spawn_ground();
    assert_eq!(ground.len(), 100);
    assert_eq!(GROUND_COUNT, 100);
    assert_eq!(ground[0], Ground { translation: FixedVec2::new(-3200, -2680) });
    assert_eq!(ground[5], Ground { translation: FixedVec2::new(0, -2680) });
    assert_eq!(ground[99], Ground { translation: FixedVec2::new(60160, -2680) });
    for (i, tile) in ground.iter().enumerate() {
        assert_eq!(*tile, Ground { translation: FixedVec2::new(640 * (i as i64 - 5), -2680) });
        assert_eq!(*tile, ground_at(i as u32));
    }
}

#[test]
fn ground_at_takes_any_index() {
    assert_eq!(ground_at(0).translation, FixedVec2::new(-3200, -2680));
    assert_eq!(ground_at(u32::MAX).translation, FixedVec2::new(640 * (4_294_967_295 - 5), -2680));
}

#[test]
fn pipes_stand_at_even_distances_low_or_high() {
    let pipes = spawn_pipe();
    assert_eq!(pipes.len(), 100);
    assert_eq!(PIPE_COUNT, 100);
    for (i, pipe) in pipes.iter().enumerate() {
        assert_eq!(pipe.translation.x, 4000 + 4000 * i as i64);
        assert!(pipe.translation.y == -2000 || pipe.translation.y == 2500);
    }
    assert_eq!(pipes[0].translation.x, 4000);
    assert_eq!(pipes[99].translation.x, 400_000);
}

#[test]
fn pipe_at_follows_the_coin() {
    assert_eq!(PIPE_LOW_Y, -2000);
    assert_eq!(PIPE_HIGH_Y, 2500);
    assert_eq!(pipe_at(0, true), Pipe { translation: FixedVec2::new(4000, -2000) });
    assert_eq!(pipe_at(0, false), Pipe { translation: FixedVec2::new(4000, 2500) });
    assert_eq!(pipe_at(7, false), Pipe { translation: FixedVec2::new(32000, 2500) });
    assert_eq!(pipe_at(u32::MAX, true).translation.x, 4000 + 4000 * 4_294_967_295);
}

#[test]
fn camera_and_backdrop_start_over_the_origin() {
    assert_eq!(spawn_camera(), GameCamera { translation: FixedVec2::new(0, 0) });
    assert_eq!(BACKGROUND_Y, 1000);
    assert_eq!(setup_background(), Background { translation: FixedVec2::new(0, 1000) });
}

#[test]
fn camera_follows_player_along_x_only() {
    let mut camera = GameCamera { translation: FixedVec2::new(10, 77) };
    camera_follow_player(Some(FixedVec2::new(1240, -1891)), &mut camera);
    assert_eq!(camera.translation, FixedVec2::new(1240, 77));
    camera_follow_player(None, &mut camera);
    assert_eq!(camera.translation, FixedVec2::new(1240, 77));
}

#[test]
fn backdrop_follows_camera_along_x_only() {
    let camera = GameCamera { translation: FixedVec2::new(1240, 77) };
    let mut background = setup_background();
    update_bg_position(&camera, &mut background);
    assert_eq!(background.translation, FixedVec2::new(1240, 1000));
}

#[test]
fn fresh_player_runs_right_from_the_origin() {
    let bundle = PlayerBundle::default();
    assert_eq!(bundle, PlayerBundle {
        velocity: Velocity { value: FixedVec2::new(20, 0) },
        gravity: Gravity,
        player: Player,
    });
    let player = spawn_player();
    assert_eq!(player.bundle, bundle);
    assert_eq!(player.translation, FixedVec2::new(0, 0));
    assert_eq!(player.indices, AnimationIndices { first: 0, last: 1 });
    assert_eq!(player.timer, AnimationTimer { elapsed_nanos: 0, period_nanos: 300_000_000 });
    assert_eq!(player.atlas_index, 0);
}
