//! Headless rules of a side-scrolling arcade game: a bird that falls, jumps over
//! pipes, dies on contact and starts over.
//!
//! Every length is a fixed-point number counted in tenths of a world unit, so
//! that the gravity step of one tenth per tick is exact.

pub mod units;
pub mod motion;
pub mod state;
pub mod collision;
pub mod animation;
pub mod player;
pub mod level;
pub mod world;

pub use animation::{AnimationIndices, AnimationTimer};
pub use collision::{Ground, Pipe};
pub use level::{Background, GameCamera};
pub use motion::{Gravity, Velocity};
pub use player::{Player, PlayerBundle, PlayerEntity};
pub use state::{GameOverEvent, GameOverText, GameState, RestartEvent};
pub use units::FixedVec2;
pub use world::{GamePlugin, World};
