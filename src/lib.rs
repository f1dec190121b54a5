//! Core rules of a small avoidance game: a player box slides along the bottom
//! of the window, enemy boxes fall from the top on a fixed period, and contact
//! ends the game until a restart.
//!
//! Lengths are integers in micro-pixels, durations in microseconds and speeds
//! in pixels per second, so that a speed is also a number of length units per
//! microsecond and a displacement is exactly `speed * elapsed`.

pub mod geometry;
pub mod motion;
pub mod params;
pub mod spawn;
pub mod world;

pub use geometry::{collide, Point, Size, Velocity};
pub use motion::{clamp_player_x, inner_half_span, integrate, player_velocity};
pub use spawn::{random_spawn_x, SpawnTimer};
pub use world::{Enemy, GameState, Player, TickInput, TickReport, WindowSize, World};
pub use params::{
    ENEMY_HEIGHT, ENEMY_SPAWN_PERIOD, ENEMY_SPEED, ENEMY_WIDTH, PLAYER_HEIGHT,
    PLAYER_SPEED, PLAYER_START_Y, PLAYER_WIDTH, UNITS_PER_PIXEL,
};
