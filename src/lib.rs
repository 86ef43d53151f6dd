//! A single-screen shooting game: the player moves up and down a fixed lane
//! on the left, enemies drift in from the right, and a shot removes the
//! nearest enemy whose band covers the player's height.
//!
//! Coordinates are fixed-point: one step is a third of a screen unit, so that
//! every speed and size of the game is a whole number of steps.

pub mod enemy;
pub mod geometry;
pub mod helpers;
pub mod player;
pub mod state;

pub use enemy::{Enemy, ENEMY_SIZE, ENEMY_SPEED, ENEMY_SPAWN_DENOMINATOR, ENEMY_SPAWN_NUMERATOR};
pub use geometry::{Point, Shape, SCREEN_HEIGHT, SCREEN_WIDTH, STEPS_PER_UNIT};
pub use helpers::{draw_line, LINE_WIDTH, LINE_X};
pub use player::{Dir, Shooter, PLAYER_SIZE, PLAYER_SPEED, PLAYER_X_POS, PLAYER_Y_MAX};
pub use state::{Key, State, HIT_TOLERANCE};
