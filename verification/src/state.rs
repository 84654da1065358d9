//! The flag that tells a running game from a lost one, and the two signals that flip it.

use vstd::prelude::*;

verus! {

/// Whether the game has been lost and waits for a restart.
#[derive(Clone, Copy, Debug, PartialEq, Eq, Structural)]
pub struct GameState {
    pub is_game_over: bool,
}

/// Signal that the player has hit something.
#[derive(Clone, Copy, Debug, PartialEq, Eq, Structural)]
pub struct GameOverEvent;

/// Signal that a new round is asked for.
#[derive(Clone, Copy, Debug, PartialEq, Eq, Structural)]
pub struct RestartEvent;

/// Marks the message shown while the game is lost.
#[derive(Clone, Copy, Debug, PartialEq, Eq, Structural)]
pub struct GameOverText;

/// How many messages handling `events` signals puts on screen: one when the
/// first signal of a running game arrives, none otherwise.
pub open spec fn messages_spawned(state: GameState, events: nat) -> nat {
    if !state.is_game_over && events > 0 {
        1
    } else {
        0
    }
}

/// The flag after `events` signals have been handled.
pub open spec fn after_game_over_events(state: GameState, events: nat) -> GameState {
    GameState { is_game_over: state.is_game_over || events > 0 }
}

/// Handles the pending game-over signals one by one. The first one that finds
/// the game running ends it and asks for one message; the flag guards against
/// any further one. Returns the number of messages to put on screen.
pub fn handle_game_over(
    game_state: &mut GameState,
    game_over_events: &Vec<GameOverEvent>,
) -> (spawned: usize)
    ensures
        *final(game_state) == after_game_over_events(*old(game_state), game_over_events@.len()),
        spawned == messages_spawned(*old(game_state), game_over_events@.len()),
{
    let mut spawned: usize = 0;
    let mut i: usize = 0;
    while i < game_over_events.len()
        invariant
            i <= game_over_events@.len(),
            *game_state == after_game_over_events(*old(game_state), i as nat),
            spawned == messages_spawned(*old(game_state), i as nat),
        decreases game_over_events@.len() - i,
    {
        if !game_state.is_game_over {
            game_state.is_game_over = true;
            spawned = spawned + 1;
        }
        i = i + 1;
    }
    spawned
}

/// Whether a restart signal is to be sent: the restart key counts only while the game is lost.
pub fn check_for_restart(restart_pressed: bool, game_state: &GameState) -> (send: bool)
    ensures
        send == (game_state.is_game_over && restart_pressed),
{
    game_state.is_game_over && restart_pressed
}

/// Losing is idempotent: once a game-over signal has been handled, handling
/// further ones neither changes the flag nor asks for another message.
pub proof fn law_game_over_is_idempotent(state: GameState, first: nat, second: nat)
    requires
        first > 0,
    ensures
        after_game_over_events(state, first).is_game_over,
        messages_spawned(after_game_over_events(state, first), second) == 0,
        after_game_over_events(after_game_over_events(state, first), second)
            == after_game_over_events(state, first),
        messages_spawned(state, first) <= 1,
{
}

} // verus!
