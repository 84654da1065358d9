//! Contact between the player and the obstacles.
//!
//! Every comparison is inclusive: two edges that exactly meet are in contact.

use vstd::prelude::*;
use crate::state::GameState;
use crate::units::{FixedVec2, UNIT};

verus! {

/// Factor by which the player's sprite is enlarged.
pub const BIRD_SCALE: i64 = 1;

/// Factor by which a ground tile is enlarged.
pub const GROUND_SCALE: i64 = 2;

/// Factor by which a pipe is widened.
pub const PIPE_SCALE_X: i64 = 3;

/// Factor by which a pipe is heightened.
pub const PIPE_SCALE_Y: i64 = 5;

/// Distance from the player's centre down to its feet.
pub const PLAYER_FOOT: i64 = 50 * BIRD_SCALE * UNIT;

/// Half the width of the box that the player presents to a pipe.
pub const PLAYER_HALF_WIDTH: i64 = 45 * BIRD_SCALE * UNIT;

/// Half the height of the box that the player presents to a pipe.
pub const PLAYER_HALF_HEIGHT: i64 = 25 * BIRD_SCALE * UNIT;

/// Distance from the centre of a ground tile up to its surface.
pub const GROUND_HALF_HEIGHT: i64 = 16 * GROUND_SCALE * UNIT;

/// Half the width of a pipe.
pub const PIPE_HALF_WIDTH: i64 = 16 * PIPE_SCALE_X * UNIT;

/// Half the height of a pipe.
pub const PIPE_HALF_HEIGHT: i64 = 24 * PIPE_SCALE_Y * UNIT;

/// A tile of the floor, placed by its centre.
#[derive(Clone, Copy, Debug, PartialEq, Eq, Structural)]
pub struct Ground {
    pub translation: FixedVec2,
}

/// A pipe, placed by its centre.
#[derive(Clone, Copy, Debug, PartialEq, Eq, Structural)]
pub struct Pipe {
    pub translation: FixedVec2,
}

/// The player's feet are at or below the surface of the tile.
pub open spec fn touches_ground(player: FixedVec2, ground: Ground) -> bool {
    player.y - PLAYER_FOOT <= ground.translation.y + GROUND_HALF_HEIGHT
}

/// The player's box and the pipe's box share at least one point.
pub open spec fn overlaps_pipe(player: FixedVec2, pipe: Pipe) -> bool {
    &&& player.x + PLAYER_HALF_WIDTH >= pipe.translation.x - PIPE_HALF_WIDTH
    &&& player.x - PLAYER_HALF_WIDTH <= pipe.translation.x + PIPE_HALF_WIDTH
    &&& player.y + PLAYER_HALF_HEIGHT >= pipe.translation.y - PIPE_HALF_HEIGHT
    &&& player.y - PLAYER_HALF_HEIGHT <= pipe.translation.y + PIPE_HALF_HEIGHT
}

/// The player touches one of the tiles.
pub open spec fn touches_any_ground(player: FixedVec2, ground: Seq<Ground>) -> bool {
    exists|i: int| 0 <= i < ground.len() && touches_ground(player, #[trigger] ground[i])
}

/// The player overlaps one of the pipes.
pub open spec fn overlaps_any_pipe(player: FixedVec2, pipes: Seq<Pipe>) -> bool {
    exists|i: int| 0 <= i < pipes.len() && overlaps_pipe(player, #[trigger] pipes[i])
}

/// The player is in contact with the floor or with a pipe.
pub open spec fn collides(player: FixedVec2, ground: Seq<Ground>, pipes: Seq<Pipe>) -> bool {
    touches_any_ground(player, ground) || overlaps_any_pipe(player, pipes)
}

/// Tests the player against one ground tile.
pub fn player_touches_ground(player: &FixedVec2, ground: &Ground) -> (hit: bool)
    ensures
        hit == touches_ground(*player, *ground),
{
    let player_y: i128 = player.y as i128 - PLAYER_FOOT as i128;
    let ground_y: i128 = ground.translation.y as i128 + GROUND_HALF_HEIGHT as i128;
    player_y <= ground_y
}

/// Tests the player against one pipe.
pub fn player_overlaps_pipe(player: &FixedVec2, pipe: &Pipe) -> (hit: bool)
    ensures
        hit == overlaps_pipe(*player, *pipe),
{
    let pipe_x: i128 = pipe.translation.x as i128;
    let pipe_y: i128 = pipe.translation.y as i128;
    let player_x: i128 = player.x as i128;
    let player_y: i128 = player.y as i128;
    let pipe_half_w: i128 = PIPE_HALF_WIDTH as i128;
    let pipe_half_h: i128 = PIPE_HALF_HEIGHT as i128;
    let player_half_w: i128 = PLAYER_HALF_WIDTH as i128;
    let player_half_h: i128 = PLAYER_HALF_HEIGHT as i128;
    if player_x + player_half_w >= pipe_x - pipe_half_w && player_x - player_half_w <= pipe_x
        + pipe_half_w {
        player_y + player_half_h >= pipe_y - pipe_half_h && player_y - player_half_h <= pipe_y
            + pipe_half_h
    } else {
        false
    }
}

/// Decides whether the player has just lost: scans the floor, then the pipes,
/// and reports the first contact. A game that is already lost reports nothing.
pub fn check_collision(
    game_state: &GameState,
    player: &FixedVec2,
    ground: &Vec<Ground>,
    pipes: &Vec<Pipe>,
) -> (hit: bool)
    ensures
        hit == (!game_state.is_game_over && collides(*player, ground@, pipes@)),
{
    if game_state.is_game_over {
        return false;
    }
    let mut g: usize = 0;
    while g < ground.len()
        invariant
            !game_state.is_game_over,
            g <= ground@.len(),
            forall|i: int| 0 <= i < g ==> !touches_ground(*player, #[trigger] ground@[i]),
        decreases ground@.len() - g,
    {
        if player_touches_ground(player, &ground[g]) {
            assert(touches_ground(*player, ground@[g as int]));
            return true;
        }
        g = g + 1;
    }
    let mut p: usize = 0;
    while p < pipes.len()
        invariant
            !game_state.is_game_over,
            p <= pipes@.len(),
            !touches_any_ground(*player, ground@),
            forall|i: int| 0 <= i < p ==> !overlaps_pipe(*player, #[trigger] pipes@[i]),
        decreases pipes@.len() - p,
    {
        if player_overlaps_pipe(player, &pipes[p]) {
            assert(overlaps_pipe(*player, pipes@[p as int]));
            return true;
        }
        p = p + 1;
    }
    false
}

/// Exact edge contact with the floor counts: feet level with the surface of a tile touch it.
pub proof fn law_ground_contact_is_inclusive(player: FixedVec2, ground: Ground)
    requires
        player.y - PLAYER_FOOT == ground.translation.y + GROUND_HALF_HEIGHT,
    ensures
        touches_ground(player, ground),
{
}

/// Exact edge contact with a pipe counts: a player whose box meets the pipe's box
/// in any of the four edges, while the boxes overlap along the other axis, overlaps it.
pub proof fn law_pipe_contact_is_inclusive(player: FixedVec2, pipe: Pipe)
    requires
        ({
            let dx = player.x - pipe.translation.x;
            let dy = player.y - pipe.translation.y;
            let reach_x = PLAYER_HALF_WIDTH + PIPE_HALF_WIDTH;
            let reach_y = PLAYER_HALF_HEIGHT + PIPE_HALF_HEIGHT;
            ||| (dx == reach_x || dx == -reach_x) && -reach_y <= dy <= reach_y
            ||| (dy == reach_y || dy == -reach_y) && -reach_x <= dx <= reach_x
        }),
    ensures
        overlaps_pipe(player, pipe),
{
}

} // verus!
