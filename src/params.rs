use vstd::prelude::*;

verus! {

/// Length units in one pixel.
pub const UNITS_PER_PIXEL: i64 = 1_000_000;

/// Width and height of the player box.
pub const PLAYER_WIDTH: i64 = 50 * UNITS_PER_PIXEL;

pub const PLAYER_HEIGHT: i64 = 50 * UNITS_PER_PIXEL;

/// Horizontal speed of the player while a direction key is held, in pixels per second.
pub const PLAYER_SPEED: i64 = 500;

/// Height at which the player starts, relative to the window centre.
pub const PLAYER_START_Y: i64 = -250 * UNITS_PER_PIXEL;

/// Width and height of an enemy box.
pub const ENEMY_WIDTH: i64 = 40 * UNITS_PER_PIXEL;

pub const ENEMY_HEIGHT: i64 = 40 * UNITS_PER_PIXEL;

/// Falling speed of an enemy, in pixels per second.
pub const ENEMY_SPEED: i64 = 300;

/// Time between two enemy spawns, in microseconds.
pub const ENEMY_SPAWN_PERIOD: u64 = 750_000;

} // verus!
