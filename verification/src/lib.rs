//! Core simulation logic for a two-paddle ball-bounce game.
//!
//! The playfield is a bounded rectangle centred on the origin.  A ball moves
//! across it, bounces off the top and bottom edges and off the two paddles,
//! and a point is scored whenever it passes a paddle and reaches a left or
//! right edge.  All geometry is carried in integer milli-units (one unit of
//! the playfield is 1000 milli-units), and time in whole milliseconds, so a
//! velocity stored in units per second is exactly the number of milli-units
//! the position changes per millisecond.

use vstd::prelude::*;

pub mod ball;
pub mod frame;
pub mod players;

verus! {

/// Ball radius: 15 units.
pub const RADIUS: i64 = 15_000;

/// Half the height of a paddle: 100 units.
pub const PADDLE_HALF_HEIGHT: i64 = 100_000;

/// Horizontal offset from a paddle's centre to its collision face: 7.5 units.
pub const PADDLE_FACE_OFFSET: i64 = 7_500;

/// Speed given to the ball on launch and on every bounce, in units per
/// second (equivalently, milli-units per millisecond).
pub const BALL_SPEED: i64 = 500;

/// Vertical paddle speed, in units per second.
pub const PADDLE_SPEED: i64 = 450;

/// Largest paddle speed the simulation admits, in units per second.
pub const PADDLE_SPEED_MAX: i64 = 1_000;

/// Delay between a ball being spawned and it starting to move, in
/// milliseconds.
pub const LAUNCH_DELAY: i64 = 3_000;

/// Largest frame delta the simulation admits, in milliseconds.
pub const DT_MAX: i64 = 1_000_000;

/// Largest window dimension the simulation admits, in milli-units.
pub const DIM_MAX: i64 = 1_000_000_000;

/// Largest coordinate magnitude accepted on entry to a frame, in
/// milli-units.
pub const POS_MAX: i64 = 1_000_000_000_000_000;

/// Largest coordinate magnitude a single frame can produce from an
/// in-range one: no entity moves faster than `PADDLE_SPEED_MAX` units per
/// second, so one frame adds at most `PADDLE_SPEED_MAX * DT_MAX`
/// milli-units.
pub const POS_STEP_MAX: i64 = POS_MAX + PADDLE_SPEED_MAX * DT_MAX;

/// A 2D point or vector in milli-units (for velocities: milli-units per
/// millisecond).
#[derive(Clone, Copy, PartialEq, Eq, Structural, Debug)]
pub struct Vec2 {
    pub x: i64,
    pub y: i64,
}

/// Current playfield extent: full window width and height in milli-units.
/// The field is centred on the origin, so each edge lies at half the
/// corresponding dimension.
#[derive(Clone, Copy, PartialEq, Eq, Structural, Debug)]
pub struct Bounds {
    pub width: i64,
    pub height: i64,
}

/// Session score counters, never reset while the simulation runs.
#[derive(Clone, Copy, PartialEq, Eq, Structural, Debug)]
pub struct Scores {
    pub player1: u32,
    pub player2: u32,
}

/// Which of the four logical movement keys are held this frame.
#[derive(Clone, Copy, PartialEq, Eq, Structural, Debug)]
pub struct InputState {
    pub p1_up: bool,
    pub p1_down: bool,
    pub p2_up: bool,
    pub p2_down: bool,
}

/// Both coordinates of `v` are at most `m` in magnitude.
pub open spec fn pos_within(v: Vec2, m: i64) -> bool {
    -m <= v.x <= m && -m <= v.y <= m
}

/// Both components of a velocity are at most `BALL_SPEED` in magnitude.
pub open spec fn speed_within(v: Vec2) -> bool {
    -BALL_SPEED <= v.x <= BALL_SPEED && -BALL_SPEED <= v.y <= BALL_SPEED
}

/// A playfield large enough to hold the ball — each half-extent exceeds
/// the ball's radius — within machine limits.
pub open spec fn wf_bounds(b: Bounds) -> bool {
    &&& RADIUS < half(b.width) && b.width <= DIM_MAX
    &&& RADIUS < half(b.height) && b.height <= DIM_MAX
}

/// Half of a window dimension, in milli-units; the distance from the
/// centre of the playfield to an edge.
pub open spec fn half(v: i64) -> int {
    v / 2
}

} // verus!
