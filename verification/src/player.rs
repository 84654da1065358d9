//! The player: what it is made of, how it is spawned and how it jumps.

use vstd::prelude::*;
use crate::animation::{
    elapsed_after_tick, next_frame, rings_on_tick, AnimationIndices, AnimationTimer,
    ANIMATION_PERIOD_NANOS,
};
use crate::motion::{
    can_fall, can_move, kinematics, tick, Gravity, Kinematics, Velocity, GRAVITY, JUMP_SPEED,
    RUN_SPEED,
};
use crate::state::GameState;
use crate::units::FixedVec2;

verus! {

/// Marks the body that the player steers.
#[derive(Clone, Copy, Debug, PartialEq, Eq, Structural)]
pub struct Player;

/// What makes a body a player: a velocity, gravity acting on it, and the player's mark.
#[derive(Clone, Copy, Debug, PartialEq, Eq, Structural)]
pub struct PlayerBundle {
    pub velocity: Velocity,
    pub gravity: Gravity,
    pub player: Player,
}

/// The player as it lives in the world: its bundle, its place and its animation.
#[derive(Clone, Copy, Debug, PartialEq, Eq, Structural)]
pub struct PlayerEntity {
    pub bundle: PlayerBundle,
    pub translation: FixedVec2,
    pub indices: AnimationIndices,
    pub timer: AnimationTimer,
    pub atlas_index: usize,
}

/// The bundle of a fresh player: running to the right, neither rising nor falling.
pub open spec fn fresh_bundle() -> PlayerBundle {
    PlayerBundle {
        velocity: Velocity { value: FixedVec2 { x: RUN_SPEED, y: 0 } },
        gravity: Gravity,
        player: Player,
    }
}

/// The player as every round starts it: at the origin, on the first of its two
/// frames, its animation timer not yet run.
pub open spec fn fresh_player() -> PlayerEntity {
    PlayerEntity {
        bundle: fresh_bundle(),
        translation: FixedVec2 { x: 0, y: 0 },
        indices: AnimationIndices { first: 0, last: 1 },
        timer: AnimationTimer { elapsed_nanos: 0, period_nanos: ANIMATION_PERIOD_NANOS },
        atlas_index: 0,
    }
}

impl Default for PlayerBundle {
    fn default() -> (bundle: Self)
        ensures
            bundle == fresh_bundle(),
    {
        PlayerBundle {
            velocity: Velocity { value: FixedVec2::new(RUN_SPEED, 0) },
            gravity: Gravity,
            player: Player,
        }
    }
}

impl PlayerEntity {
    /// The strip of frames is not empty and the frame shown does not lie beyond its end.
    pub open spec fn wf(&self) -> bool {
        self.indices.first <= self.indices.last && self.atlas_index <= self.indices.last
    }

    /// Position and velocity as unbounded integers.
    pub open spec fn motion(&self) -> Kinematics {
        kinematics(self.translation, self.bundle.velocity)
    }

    /// Whether one more fixed tick keeps position and velocity inside the machine range.
    pub open spec fn can_tick(&self) -> bool {
        can_move(self.translation, self.bundle.velocity) && can_fall(self.bundle.velocity)
    }

    /// The player moved by its velocity.
    pub open spec fn moved(&self) -> PlayerEntity {
        PlayerEntity {
            translation: FixedVec2 {
                x: (self.translation.x + self.bundle.velocity.value.x) as i64,
                y: (self.translation.y + self.bundle.velocity.value.y) as i64,
            },
            ..*self
        }
    }

    /// The player after gravity has acted on its velocity.
    pub open spec fn fallen(&self) -> PlayerEntity {
        PlayerEntity {
            bundle: PlayerBundle {
                velocity: Velocity {
                    value: FixedVec2 {
                        x: self.bundle.velocity.value.x,
                        y: (self.bundle.velocity.value.y - GRAVITY) as i64,
                    },
                },
                ..self.bundle
            },
            ..*self
        }
    }

    /// The player right after a jump.
    pub open spec fn jumped(&self) -> PlayerEntity {
        PlayerEntity {
            bundle: PlayerBundle {
                velocity: Velocity {
                    value: FixedVec2 { x: self.bundle.velocity.value.x, y: JUMP_SPEED },
                },
                ..self.bundle
            },
            atlas_index: 0,
            ..*self
        }
    }

    /// The player after `delta_nanos` nanoseconds of animation.
    pub open spec fn animated(&self, delta_nanos: u64) -> PlayerEntity {
        PlayerEntity {
            timer: AnimationTimer {
                elapsed_nanos: elapsed_after_tick(
                    self.timer.elapsed_nanos,
                    self.timer.period_nanos,
                    delta_nanos,
                ) as u64,
                period_nanos: self.timer.period_nanos,
            },
            atlas_index: if rings_on_tick(
                self.timer.elapsed_nanos,
                self.timer.period_nanos,
                delta_nanos,
            ) {
                next_frame(self.indices, self.atlas_index) as usize
            } else {
                self.atlas_index
            },
            ..*self
        }
    }

    /// Tells whether one more fixed tick keeps the player inside the machine range.
    pub fn check_can_tick(&self) -> (ok: bool)
        ensures
            ok == self.can_tick(),
    {
        let x: i128 = self.translation.x as i128 + self.bundle.velocity.value.x as i128;
        let y: i128 = self.translation.y as i128 + self.bundle.velocity.value.y as i128;
        let vy: i128 = self.bundle.velocity.value.y as i128 - GRAVITY as i128;
        i64::MIN as i128 <= x && x <= i64::MAX as i128 && i64::MIN as i128 <= y && y
            <= i64::MAX as i128 && i64::MIN as i128 <= vy
    }
}

/// A move followed by gravity is one tick of the body, as long as the machine range holds it.
pub proof fn lemma_move_then_fall_is_tick(player: PlayerEntity)
    requires
        player.can_tick(),
    ensures
        player.moved().fallen().motion() == tick(player.motion()),
{
}

/// Makes the player of a new round.
pub fn spawn_player() -> (player: PlayerEntity)
    ensures
        player == fresh_player(),
        player.wf(),
{
    let animation_indices = AnimationIndices { first: 0, last: 1 };
    PlayerEntity {
        bundle: PlayerBundle::default(),
        translation: FixedVec2::new(0, 0),
        indices: animation_indices,
        timer: AnimationTimer::repeating(ANIMATION_PERIOD_NANOS),
        atlas_index: animation_indices.first,
    }
}

/// Makes the player jump when the jump key has just gone down in a running
/// game: the vertical velocity becomes the jump speed whatever it was, and the
/// animation starts over at frame zero. Otherwise nothing changes.
pub fn update_velocity_on_space(
    jump_pressed: bool,
    game_state: &GameState,
    velocity: &mut Velocity,
    atlas_index: &mut usize,
)
    ensures
        final(velocity).value.x == old(velocity).value.x,
        !game_state.is_game_over && jump_pressed ==> final(velocity).value.y == JUMP_SPEED
            && *final(atlas_index) == 0,
        !(!game_state.is_game_over && jump_pressed) ==> *final(velocity) == *old(velocity)
            && *final(atlas_index) == *old(atlas_index),
{
    if !game_state.is_game_over && jump_pressed {
        velocity.value.y = JUMP_SPEED;
        *atlas_index = 0;
    }
}

} // verus!
