//! The whole game as one value, and the steps that the schedule takes on it.

use vstd::prelude::*;
use crate::animation::animate_sprite;
use crate::collision::{check_collision, collides, Ground, Pipe};
use crate::level::{
    camera_follow_player, ground_row, is_pipe_row, setup_background, spawn_camera, spawn_ground,
    spawn_pipe, update_bg_position, Background, GameCamera, BACKGROUND_Y,
};
use crate::motion::{apply_gravity, can_fall, can_move, tick, update_player_position};
use crate::player::{
    fresh_player, lemma_move_then_fall_is_tick, spawn_player, update_velocity_on_space,
    PlayerEntity,
};
use crate::state::{
    after_game_over_events, check_for_restart, handle_game_over, messages_spawned, GameOverEvent,
    GameOverText, GameState, RestartEvent,
};
use crate::units::FixedVec2;

verus! {

/// Everything that lives in a game: the flag, the pending signals and the entities.
#[derive(Debug, PartialEq, Eq)]
pub struct World {
    pub game_state: GameState,
    pub game_over_events: Vec<GameOverEvent>,
    pub restart_events: Vec<RestartEvent>,
    pub player: Option<PlayerEntity>,
    pub game_over_texts: Vec<GameOverText>,
    pub camera: Option<GameCamera>,
    pub background: Option<Background>,
    pub ground: Vec<Ground>,
    pub pipes: Vec<Pipe>,
}

/// A world as the contracts see it: signals and messages by their number, rows as sequences.
pub struct WorldView {
    pub is_game_over: bool,
    pub game_over_events: nat,
    pub restart_events: nat,
    pub player: Option<PlayerEntity>,
    pub game_over_texts: nat,
    pub camera: Option<GameCamera>,
    pub background: Option<Background>,
    pub ground: Seq<Ground>,
    pub pipes: Seq<Pipe>,
}

impl View for World {
    type V = WorldView;

    open spec fn view(&self) -> WorldView {
        WorldView {
            is_game_over: self.game_state.is_game_over,
            game_over_events: self.game_over_events@.len(),
            restart_events: self.restart_events@.len(),
            player: self.player,
            game_over_texts: self.game_over_texts@.len(),
            camera: self.camera,
            background: self.background,
            ground: self.ground@,
            pipes: self.pipes@,
        }
    }
}

impl WorldView {
    /// The message is on screen exactly while the game is lost, once; and the
    /// player, if there is one, is well formed.
    pub open spec fn wf(self) -> bool {
        &&& self.game_over_texts == (if self.is_game_over {
            1nat
        } else {
            0nat
        })
        &&& self.player matches Some(player) ==> player.wf()
    }

    /// Number of players alive.
    pub open spec fn player_count(self) -> nat {
        if self.player is Some {
            1
        } else {
            0
        }
    }

    /// Whether a fixed update keeps the player inside the machine range.
    pub open spec fn can_fixed_update(self) -> bool {
        self.player matches Some(player) ==> player.can_tick()
    }

    /// The world before anything is set up: a running game with nothing in it.
    pub open spec fn empty() -> WorldView {
        WorldView {
            is_game_over: false,
            game_over_events: 0,
            restart_events: 0,
            player: None,
            game_over_texts: 0,
            camera: None,
            background: None,
            ground: Seq::empty(),
            pipes: Seq::empty(),
        }
    }

    /// Whether the scenery stands as `setup_level` leaves it.
    pub open spec fn has_level(self) -> bool {
        &&& self.camera == Some(GameCamera { translation: FixedVec2 { x: 0, y: 0 } })
        &&& self.background == Some(
            Background { translation: FixedVec2 { x: 0, y: BACKGROUND_Y } },
        )
        &&& self.ground == ground_row()
        &&& is_pipe_row(self.pipes)
    }

    /// A new player takes the place of any player there was.
    pub open spec fn after_spawn_player(self) -> WorldView {
        WorldView { player: Some(fresh_player()), ..self }
    }

    /// The player moves by its velocity.
    pub open spec fn after_player_move(self) -> WorldView {
        match self.player {
            Some(player) => WorldView { player: Some(player.moved()), ..self },
            None => self,
        }
    }

    /// Gravity acts on the player.
    pub open spec fn after_gravity(self) -> WorldView {
        match self.player {
            Some(player) => WorldView { player: Some(player.fallen()), ..self },
            None => self,
        }
    }

    /// Whether the player of a running game is in contact with the floor or a pipe.
    pub open spec fn player_collides(self) -> bool {
        &&& !self.is_game_over
        &&& self.player matches Some(player)
        &&& collides(player.translation, self.ground, self.pipes)
    }

    /// On contact the player leaves the world and one game-over signal is sent.
    pub open spec fn after_collision_check(self) -> WorldView {
        if self.player_collides() {
            WorldView { player: None, game_over_events: self.game_over_events + 1, ..self }
        } else {
            self
        }
    }

    /// The camera takes over the player's horizontal position.
    pub open spec fn after_camera_follow(self) -> WorldView {
        match (self.player, self.camera) {
            (Some(player), Some(camera)) => WorldView {
                camera: Some(
                    GameCamera {
                        translation: FixedVec2 { x: player.translation.x, y: camera.translation.y },
                    },
                ),
                ..self
            },
            _ => self,
        }
    }

    /// The backdrop takes over the camera's horizontal position.
    pub open spec fn after_bg_update(self) -> WorldView {
        match (self.camera, self.background) {
            (Some(camera), Some(background)) => WorldView {
                background: Some(
                    Background {
                        translation: FixedVec2 {
                            x: camera.translation.x,
                            y: background.translation.y,
                        },
                    },
                ),
                ..self
            },
            _ => self,
        }
    }

    /// One fixed tick: move, gravity, collision, camera, backdrop, in this order.
    pub open spec fn after_fixed_update(self) -> WorldView {
        self.after_player_move().after_gravity().after_collision_check().after_camera_follow()
            .after_bg_update()
    }

    /// The player of a running game jumps if the jump key has just gone down.
    pub open spec fn after_jump_input(self, jump_pressed: bool) -> WorldView {
        match self.player {
            Some(player) if !self.is_game_over && jump_pressed => WorldView {
                player: Some(player.jumped()),
                ..self
            },
            _ => self,
        }
    }

    /// All pending game-over signals are handled: the game is lost if there was
    /// one, and the message appears if the game was still running.
    pub open spec fn after_game_over_handling(self) -> WorldView {
        let state = GameState { is_game_over: self.is_game_over };
        WorldView {
            is_game_over: after_game_over_events(state, self.game_over_events).is_game_over,
            game_over_texts: self.game_over_texts + messages_spawned(state, self.game_over_events),
            game_over_events: 0,
            ..self
        }
    }

    /// A restart signal is sent if the restart key has just gone down in a lost game.
    pub open spec fn after_restart_input(self, restart_pressed: bool) -> WorldView {
        if self.is_game_over && restart_pressed {
            WorldView { restart_events: self.restart_events + 1, ..self }
        } else {
            self
        }
    }

    /// The player's animation runs for `delta_nanos` nanoseconds.
    pub open spec fn after_animation(self, delta_nanos: u64) -> WorldView {
        match self.player {
            Some(player) => WorldView { player: Some(player.animated(delta_nanos)), ..self },
            None => self,
        }
    }

    /// A pending restart signal starts a new round: the game runs again, the
    /// message and any player left are gone, a new player stands at the start.
    pub open spec fn after_restart_handling(self) -> WorldView {
        if self.restart_events > 0 {
            WorldView {
                is_game_over: false,
                game_over_texts: 0,
                player: Some(fresh_player()),
                restart_events: 0,
                ..self
            }
        } else {
            self
        }
    }

    /// One frame: jump, game over, restart key, animation, restart, in this order.
    pub open spec fn after_update(
        self,
        jump_pressed: bool,
        restart_pressed: bool,
        delta_nanos: u64,
    ) -> WorldView {
        self.after_jump_input(jump_pressed).after_game_over_handling().after_restart_input(
            restart_pressed,
        ).after_animation(delta_nanos).after_restart_handling()
    }
}

/// The game as a whole: what it puts into a world and in which order it runs its steps.
#[derive(Clone, Copy, Debug, PartialEq, Eq, Structural)]
pub struct GamePlugin;

impl GamePlugin {
    /// Makes the world that the game starts from: running, no signal pending, nothing spawned.
    pub fn build(&self) -> (world: World)
        ensures
            world@ == WorldView::empty(),
            world@.wf(),
    {
        World {
            game_state: GameState { is_game_over: false },
            game_over_events: Vec::new(),
            restart_events: Vec::new(),
            player: None,
            game_over_texts: Vec::new(),
            camera: None,
            background: None,
            ground: Vec::new(),
            pipes: Vec::new(),
        }
    }
}

impl World {
    /// Tells whether the world is well formed.
    pub fn check_well_formed(&self) -> (ok: bool)
        ensures
            ok == self@.wf(),
    {
        let texts: usize = if self.game_state.is_game_over {
            1
        } else {
            0
        };
        let player_ok = match &self.player {
            Some(player) => player.indices.first <= player.indices.last && player.atlas_index
                <= player.indices.last,
            None => true,
        };
        self.game_over_texts.len() == texts && player_ok
    }

    /// Sets up the scenery: camera, backdrop, floor and pipes. Everything else stays.
    pub fn setup_level(&mut self)
        ensures
            final(self)@.has_level(),
            final(self)@ == (WorldView {
                camera: final(self)@.camera,
                background: final(self)@.background,
                ground: final(self)@.ground,
                pipes: final(self)@.pipes,
                ..old(self)@
            }),
    {
        self.camera = Some(spawn_camera());
        self.background = Some(setup_background());
        self.ground = spawn_ground();
        self.pipes = spawn_pipe();
    }

    /// Puts a new player at the start.
    pub fn spawn_player(&mut self)
        ensures
            final(self)@ == old(self)@.after_spawn_player(),
    {
        self.player = Some(spawn_player());
    }

    /// What runs once before the first frame: the scenery, then the player.
    pub fn startup(&mut self)
        ensures
            final(self)@.has_level(),
            final(self)@.player == Some(fresh_player()),
            final(self)@ == (WorldView {
                camera: final(self)@.camera,
                background: final(self)@.background,
                ground: final(self)@.ground,
                pipes: final(self)@.pipes,
                player: final(self)@.player,
                ..old(self)@
            }),
            old(self)@.wf() ==> final(self)@.wf(),
    {
        self.setup_level();
        self.spawn_player();
    }

    /// Moves the player by its velocity.
    pub fn update_player_position(&mut self)
        requires
            old(self)@.player matches Some(player) ==> can_move(
                player.translation,
                player.bundle.velocity,
            ),
        ensures
            final(self)@ == old(self)@.after_player_move(),
    {
        if let Some(player) = self.player {
            let mut moved = player;
            update_player_position(&moved.bundle.velocity, &mut moved.translation);
            self.player = Some(moved);
        }
    }

    /// Lets gravity act on the player.
    pub fn apply_gravity(&mut self)
        requires
            old(self)@.player matches Some(player) ==> can_fall(player.bundle.velocity),
        ensures
            final(self)@ == old(self)@.after_gravity(),
    {
        if let Some(player) = self.player {
            let mut fallen = player;
            apply_gravity(&mut fallen.bundle.velocity);
            self.player = Some(fallen);
        }
    }

    /// Tests the player against floor and pipes. On contact the player is
    /// removed at once and a game-over signal is sent.
    pub fn check_collision(&mut self)
        ensures
            final(self)@ == old(self)@.after_collision_check(),
    {
        let hit = match &self.player {
            Some(player) => check_collision(
                &self.game_state,
                &player.translation,
                &self.ground,
                &self.pipes,
            ),
            None => false,
        };
        if hit {
            self.game_over_events.push(GameOverEvent);
            self.player = None;
        }
    }

    /// Lets the camera follow the player along the horizontal axis.
    pub fn camera_follow_player(&mut self)
        ensures
            final(self)@ == old(self)@.after_camera_follow(),
    {
        if let Some(camera) = self.camera {
            let target = match &self.player {
                Some(player) => Some(player.translation),
                None => None,
            };
            let mut following = camera;
            camera_follow_player(target, &mut following);
            self.camera = Some(following);
        }
    }

    /// Keeps the backdrop under the camera.
    pub fn update_bg_position(&mut self)
        ensures
            final(self)@ == old(self)@.after_bg_update(),
    {
        if let Some(camera) = self.camera {
            if let Some(background) = self.background {
                let mut centred = background;
                update_bg_position(&camera, &mut centred);
                self.background = Some(centred);
            }
        }
    }

    /// Tells whether a fixed update keeps the player inside the machine range.
    pub fn check_can_fixed_update(&self) -> (ok: bool)
        ensures
            ok == self@.can_fixed_update(),
    {
        match &self.player {
            Some(player) => player.check_can_tick(),
            None => true,
        }
    }

    /// One fixed tick of the simulation: move, gravity, collision, camera, backdrop.
    pub fn fixed_update(&mut self)
        requires
            old(self)@.can_fixed_update(),
        ensures
            final(self)@ == old(self)@.after_fixed_update(),
            old(self)@.wf() ==> final(self)@.wf(),
    {
        self.update_player_position();
        self.apply_gravity();
        self.check_collision();
        self.camera_follow_player();
        self.update_bg_position();
    }

    /// Makes the player jump if the jump key has just gone down in a running game.
    pub fn update_velocity_on_space(&mut self, jump_pressed: bool)
        ensures
            final(self)@ == old(self)@.after_jump_input(jump_pressed),
    {
        if let Some(player) = self.player {
            let mut jumping = player;
            update_velocity_on_space(
                jump_pressed,
                &self.game_state,
                &mut jumping.bundle.velocity,
                &mut jumping.atlas_index,
            );
            self.player = Some(jumping);
        }
    }

    /// Handles the pending game-over signals: the first one that finds the game
    /// running ends it and puts the message on screen; none puts a second one there.
    pub fn handle_game_over(&mut self)
        ensures
            final(self)@ == old(self)@.after_game_over_handling(),
    {
        let spawned = handle_game_over(&mut self.game_state, &self.game_over_events);
        if spawned > 0 {
            self.game_over_texts.push(GameOverText);
        }
        self.game_over_events.clear();
    }

    /// Sends a restart signal if the restart key has just gone down in a lost game.
    pub fn check_for_restart(&mut self, restart_pressed: bool)
        ensures
            final(self)@ == old(self)@.after_restart_input(restart_pressed),
    {
        if check_for_restart(restart_pressed, &self.game_state) {
            self.restart_events.push(RestartEvent);
        }
    }

    /// Runs the player's animation for `delta_nanos` nanoseconds.
    pub fn animate_sprite(&mut self, delta_nanos: u64)
        requires
            old(self)@.player matches Some(player) ==> player.indices.can_advance(
                player.atlas_index,
            ),
        ensures
            final(self)@ == old(self)@.after_animation(delta_nanos),
    {
        if let Some(player) = self.player {
            let mut animated = player;
            animate_sprite(
                delta_nanos,
                &animated.indices,
                &mut animated.timer,
                &mut animated.atlas_index,
            );
            self.player = Some(animated);
        }
    }

    /// Starts a new round if a restart signal is pending: the game runs again,
    /// the message and any player left over are removed, a new player is
    /// spawned and the signals are cleared. Floor and pipes stay as they are.
    pub fn handle_restart_event(&mut self)
        ensures
            final(self)@ == old(self)@.after_restart_handling(),
    {
        if self.restart_events.len() > 0 {
            self.game_state.is_game_over = false;
            self.player = None;
            self.game_over_texts.clear();
            self.spawn_player();
            self.restart_events.clear();
        }
    }

    /// One frame: jump, game over, restart key, animation, restart.
    pub fn update(&mut self, jump_pressed: bool, restart_pressed: bool, delta_nanos: u64)
        requires
            old(self)@.wf(),
        ensures
            final(self)@ == old(self)@.after_update(jump_pressed, restart_pressed, delta_nanos),
            final(self)@.wf(),
    {
        self.update_velocity_on_space(jump_pressed);
        self.handle_game_over();
        self.check_for_restart(restart_pressed);
        self.animate_sprite(delta_nanos);
        self.handle_restart_event();
    }
}

/// Both schedules keep a well-formed world well formed: the message stays on
/// screen exactly while the game is lost, and never twice; no more than one player lives.
pub proof fn law_schedules_keep_world_well_formed(
    w: WorldView,
    jump_pressed: bool,
    restart_pressed: bool,
    delta_nanos: u64,
)
    requires
        w.wf(),
    ensures
        w.after_fixed_update().wf(),
        w.after_update(jump_pressed, restart_pressed, delta_nanos).wf(),
        w.after_fixed_update().player_count() <= 1,
        w.after_update(jump_pressed, restart_pressed, delta_nanos).player_count() <= 1,
{
}

/// A fixed update that ends without contact advances the player by exactly one
/// tick of free fall; one that ends in contact removes the player and sends one signal.
pub proof fn law_fixed_update_ticks_player(w: WorldView, player: PlayerEntity)
    requires
        w.player == Some(player),
        player.can_tick(),
    ensures
        ({
            let next = w.after_fixed_update();
            let flown = player.moved().fallen();
            let hit = !w.is_game_over && collides(flown.translation, w.ground, w.pipes);
            &&& flown.motion() == tick(player.motion())
            &&& !hit ==> next.player == Some(flown) && next.game_over_events == w.game_over_events
            &&& hit ==> next.player is None && next.game_over_events == w.game_over_events + 1
        }),
{
    lemma_move_then_fall_is_tick(player);
}

/// Losing is idempotent. Once a game-over signal has been handled the message
/// is on screen once; neither further signals nor further collision checks
/// add a second one.
pub proof fn law_game_over_message_is_not_duplicated(w: WorldView, later_events: nat)
    requires
        w.wf(),
        w.game_over_events > 0,
    ensures
        ({
            let lost = w.after_game_over_handling();
            let again = (WorldView {
                game_over_events: later_events,
                ..lost
            }).after_game_over_handling();
            &&& lost.is_game_over
            &&& lost.game_over_texts == 1
            &&& lost.after_collision_check() == lost
            &&& again.is_game_over
            &&& again.game_over_texts == 1
        }),
{
}

/// After a restart the game runs and exactly one player lives: the fresh one.
pub proof fn law_restart_starts_a_new_round(w: WorldView)
    requires
        w.restart_events > 0,
    ensures
        !w.after_restart_handling().is_game_over,
        w.after_restart_handling().player_count() == 1,
        w.after_restart_handling().player == Some(fresh_player()),
        w.after_restart_handling().game_over_texts == 0,
        w.after_restart_handling().restart_events == 0,
{
}

/// The restart key, pressed in a lost game, brings a running game with exactly
/// one player within the same frame.
pub proof fn law_restart_key_revives_lost_game(w: WorldView, jump_pressed: bool, delta_nanos: u64)
    requires
        w.wf(),
        w.is_game_over,
    ensures
        !w.after_update(jump_pressed, true, delta_nanos).is_game_over,
        w.after_update(jump_pressed, true, delta_nanos).player_count() == 1,
        w.after_update(jump_pressed, true, delta_nanos).player == Some(fresh_player()),
{
}

} // verus!
