use vstd::prelude::*;

use crate::geometry::{Point, Velocity};
use crate::params::{PLAYER_SPEED, PLAYER_WIDTH};

verus! {

/// `v` saturated into the range of `i64`.
pub open spec fn saturate(v: int) -> i64 {
    if v > i64::MAX {
        i64::MAX
    } else if v < i64::MIN {
        i64::MIN
    } else {
        v as i64
    }
}

/// One coordinate advanced by `speed * elapsed`, saturated at the limits of `i64`.
pub open spec fn advanced_coord(c: i64, speed: i64, elapsed: u64) -> i64 {
    saturate(c + speed * elapsed)
}

/// `p` moved at velocity `v` for `elapsed` microseconds.
pub open spec fn advanced(p: Point, v: Velocity, elapsed: u64) -> Point {
    Point { x: advanced_coord(p.x, v.x, elapsed), y: advanced_coord(p.y, v.y, elapsed) }
}

/// Horizontal direction chosen by the held keys: -1, 0 or +1.
pub open spec fn direction(left_held: bool, right_held: bool) -> int {
    (if right_held {
        1int
    } else {
        0int
    }) - (if left_held {
        1int
    } else {
        0int
    })
}

/// Velocity of the player for the held keys: full speed towards the one
/// direction held, zero when both or neither are held.
pub open spec fn player_velocity_for(left_held: bool, right_held: bool) -> Velocity {
    Velocity { x: (direction(left_held, right_held) * PLAYER_SPEED) as i64, y: 0 }
}

/// Largest distance from the centre line at which the centre of a box of
/// width `body_width` keeps the box inside a window of width `window_width`.
pub open spec fn inner_half_span_of(window_width: i64, body_width: i64) -> i64 {
    ((window_width - body_width) / 2) as i64
}

/// `x` clamped to the horizontal range in which the player stays inside the window.
pub open spec fn clamped_player_x(x: i64, window_width: i64) -> i64 {
    let m: i64 = inner_half_span_of(window_width, PLAYER_WIDTH);
    if x < -m {
        (-m) as i64
    } else if x > m {
        m
    } else {
        x
    }
}

fn advance_coord(c: i64, speed: i64, elapsed: u64) -> (r: i64)
    ensures
        r == advanced_coord(c, speed, elapsed),
{
    let s: i128 = speed as i128;
    let e: i128 = elapsed as i128;
    assert(-0x8000_0000_0000_0000 * 0xffff_ffff_ffff_ffff <= s * e <= 0x7fff_ffff_ffff_ffff
        * 0xffff_ffff_ffff_ffff) by (nonlinear_arith)
        requires
            -0x8000_0000_0000_0000 <= s <= 0x7fff_ffff_ffff_ffff,
            0 <= e <= 0xffff_ffff_ffff_ffff,
    ;
    let moved: i128 = c as i128 + s * e;
    if moved > i64::MAX as i128 {
        i64::MAX
    } else if moved < i64::MIN as i128 {
        i64::MIN
    } else {
        moved as i64
    }
}

/// Moves `p` at velocity `v` for `elapsed` microseconds. A coordinate that
/// would leave the range of `i64` stops at its limit.
pub fn integrate(p: Point, v: Velocity, elapsed: u64) -> (r: Point)
    ensures
        r == advanced(p, v, elapsed),
{
    Point { x: advance_coord(p.x, v.x, elapsed), y: advance_coord(p.y, v.y, elapsed) }
}

/// Velocity of the player from the state of the left and right keys.
pub fn player_velocity(left_held: bool, right_held: bool) -> (r: Velocity)
    ensures
        r == player_velocity_for(left_held, right_held),
{
    let mut x: i64 = 0;
    if left_held {
        x = x - PLAYER_SPEED;
    }
    if right_held {
        x = x + PLAYER_SPEED;
    }
    Velocity { x, y: 0 }
}

/// Half of the free width that a box of width `body_width` leaves in a
/// window of width `window_width`, rounded towards zero.
pub fn inner_half_span(window_width: i64, body_width: i64) -> (r: i64)
    requires
        0 <= body_width <= window_width,
    ensures
        r == inner_half_span_of(window_width, body_width),
        0 <= r,
        2 * r <= window_width - body_width,
{
    (window_width - body_width) / 2
}

/// Clamps the player's horizontal position so that the player box stays
/// inside a window of width `window_width`.
pub fn clamp_player_x(x: i64, window_width: i64) -> (r: i64)
    requires
        PLAYER_WIDTH <= window_width,
    ensures
        r == clamped_player_x(x, window_width),
        2 * r <= window_width - PLAYER_WIDTH,
        -(window_width - PLAYER_WIDTH) <= 2 * r,
        -inner_half_span_of(window_width, PLAYER_WIDTH) <= x <= inner_half_span_of(
            window_width,
            PLAYER_WIDTH,
        ) ==> r == x,
{
    let m: i64 = inner_half_span(window_width, PLAYER_WIDTH);
    if x < -m {
        -m
    } else if x > m {
        m
    } else {
        x
    }
}

} // verus!
