//! The scenery of a round: camera, backdrop, floor and pipes.

use vstd::prelude::*;
use crate::collision::{Ground, Pipe};
use crate::units::{FixedVec2, UNIT};

verus! {

/// Number of floor tiles laid out.
pub const GROUND_COUNT: u32 = 100;

/// Distance between the centres of two neighbouring floor tiles.
pub const GROUND_SPACING: i64 = 64 * UNIT;

/// Number of tiles that lie to the left of the origin.
pub const GROUND_LEAD: i64 = 5;

/// Height at which the centres of the floor tiles lie.
pub const GROUND_Y: i64 = -268 * UNIT;

/// Number of pipes set up.
pub const PIPE_COUNT: u32 = 100;

/// Where the first pipe stands.
pub const PIPE_START_X: i64 = 400 * UNIT;

/// Distance between two neighbouring pipes.
pub const PIPE_SPACING: i64 = 400 * UNIT;

/// Height of the centre of a pipe that rises from the floor.
pub const PIPE_LOW_Y: i64 = -200 * UNIT;

/// Height of the centre of a pipe that hangs from above.
pub const PIPE_HIGH_Y: i64 = 250 * UNIT;

/// Height of the centre of the backdrop.
pub const BACKGROUND_Y: i64 = 100 * UNIT;

/// Marks the camera, and says where it looks.
#[derive(Clone, Copy, Debug, PartialEq, Eq, Structural)]
pub struct GameCamera {
    pub translation: FixedVec2,
}

/// The backdrop, placed by its centre.
#[derive(Clone, Copy, Debug, PartialEq, Eq, Structural)]
pub struct Background {
    pub translation: FixedVec2,
}

/// The `i`-th floor tile, counted from the left.
pub open spec fn ground_tile(i: int) -> Ground {
    Ground {
        translation: FixedVec2 { x: (GROUND_SPACING * (i - GROUND_LEAD)) as i64, y: GROUND_Y },
    }
}

/// The `i`-th pipe, counted from the left, rising from the floor if `low`, else hanging from above.
pub open spec fn pipe(i: int, low: bool) -> Pipe {
    Pipe {
        translation: FixedVec2 {
            x: (PIPE_START_X + PIPE_SPACING * i) as i64,
            y: if low {
                PIPE_LOW_Y
            } else {
                PIPE_HIGH_Y
            },
        },
    }
}

/// The floor as it is laid out: every tile in its place, from left to right.
pub open spec fn ground_row() -> Seq<Ground> {
    Seq::new(GROUND_COUNT as nat, |i: int| ground_tile(i))
}

/// `pipes` is a full row of pipes, each in its place and either low or high.
pub open spec fn is_pipe_row(pipes: Seq<Pipe>) -> bool {
    &&& pipes.len() == PIPE_COUNT
    &&& forall|i: int|
        0 <= i < PIPE_COUNT ==> #[trigger] pipes[i] == pipe(i, true) || pipes[i] == pipe(i, false)
}

/// Draws a fair coin with `rand::random`.
///
/// Trusted: nothing is claimed of the outcome, which differs from call to call.
/// The call returns unless the system's source of randomness cannot be opened.
#[verifier::external_body]
fn flip_coin() -> bool {
    rand::random()
}

/// Places the `i`-th floor tile.
pub fn ground_at(i: u32) -> (tile: Ground)
    ensures
        tile == ground_tile(i as int),
{
    Ground { translation: FixedVec2::new(GROUND_SPACING * (i as i64 - GROUND_LEAD), GROUND_Y) }
}

/// Places the `i`-th pipe, low or high as the coin fell.
pub fn pipe_at(i: u32, low: bool) -> (placed: Pipe)
    ensures
        placed == pipe(i as int, low),
{
    let y: i64 = if low {
        PIPE_LOW_Y
    } else {
        PIPE_HIGH_Y
    };
    Pipe { translation: FixedVec2::new(PIPE_START_X + PIPE_SPACING * (i as i64), y) }
}

/// Lays out the floor: a row of tiles that starts a few tiles left of the origin.
pub fn spawn_ground() -> (ground: Vec<Ground>)
    ensures
        ground@ == ground_row(),
{
    let mut ground: Vec<Ground> = Vec::new();
    let mut i: u32 = 0;
    while i < GROUND_COUNT
        invariant
            i <= GROUND_COUNT,
            ground@.len() == i,
            forall|j: int| 0 <= j < i ==> #[trigger] ground@[j] == ground_tile(j),
        decreases GROUND_COUNT - i,
    {
        ground.push(ground_at(i));
        i = i + 1;
    }
    assert(ground@ =~= ground_row());
    ground
}

/// Sets up the pipes at even distances, each one low or high by the flip of a coin.
pub fn spawn_pipe() -> (pipes: Vec<Pipe>)
    ensures
        is_pipe_row(pipes@),
{
    let mut pipes: Vec<Pipe> = Vec::new();
    let mut i: u32 = 0;
    while i < PIPE_COUNT
        invariant
            i <= PIPE_COUNT,
            pipes@.len() == i,
            forall|j: int|
                0 <= j < i ==> #[trigger] pipes@[j] == pipe(j, true) || pipes@[j] == pipe(j, false),
        decreases PIPE_COUNT - i,
    {
        let low = flip_coin();
        pipes.push(pipe_at(i, low));
        i = i + 1;
    }
    pipes
}

/// Puts the camera over the origin.
pub fn spawn_camera() -> (camera: GameCamera)
    ensures
        camera.translation == (FixedVec2 { x: 0, y: 0 }),
{
    GameCamera { translation: FixedVec2::new(0, 0) }
}

/// Hangs the backdrop above the origin.
pub fn setup_background() -> (background: Background)
    ensures
        background.translation == (FixedVec2 { x: 0, y: BACKGROUND_Y }),
{
    Background { translation: FixedVec2::new(0, BACKGROUND_Y) }
}

/// Lets the camera follow the player along the horizontal axis. With no player
/// to follow the camera stays where it is.
pub fn camera_follow_player(player: Option<FixedVec2>, camera: &mut GameCamera)
    ensures
        final(camera).translation.y == old(camera).translation.y,
        final(camera).translation.x == match player {
            Some(target) => target.x,
            None => old(camera).translation.x,
        },
{
    if let Some(target) = player {
        camera.translation.x = target.x;
    }
}

/// Keeps the backdrop centred under the camera along the horizontal axis.
pub fn update_bg_position(camera: &GameCamera, background: &mut Background)
    ensures
        final(background).translation.x == camera.translation.x,
        final(background).translation.y == old(background).translation.y,
{
    background.translation.x = camera.translation.x;
}

} // verus!
