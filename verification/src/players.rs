//! Paddle controller: spawning the two paddles, input-driven vertical
//! movement clamped to the playfield, and horizontal repositioning on
//! window resize.

use vstd::prelude::*;

use crate::Bounds;
use crate::InputState;
use crate::Vec2;
use crate::half;
use crate::pos_within;
use crate::wf_bounds;
use crate::DIM_MAX;
use crate::DT_MAX;
use crate::PADDLE_HALF_HEIGHT;
use crate::PADDLE_SPEED;
use crate::PADDLE_SPEED_MAX;
use crate::POS_MAX;
use crate::POS_STEP_MAX;

verus! {

/// One paddle.  `id` is 1 for the left paddle and 2 for the right one;
/// `speed` is its vertical speed in units per second.
#[derive(Clone, Copy, PartialEq, Eq, Structural, Debug)]
pub struct Player {
    pub id: u16,
    pub position: Vec2,
    pub speed: i64,
}

/// The two paddles of a session.
#[derive(Clone, Copy, PartialEq, Eq, Structural, Debug)]
pub struct Players {
    pub player1: Player,
    pub player2: Player,
}

/// A paddle's speed is nonnegative and within the admitted cap.
pub open spec fn wf_player(p: Player) -> bool {
    0 <= p.speed <= PADDLE_SPEED_MAX
}

/// The left slot holds paddle 1, the right slot paddle 2, and both have
/// admissible speeds.
pub open spec fn wf_players(ps: Players) -> bool {
    &&& ps.player1.id == 1
    &&& ps.player2.id == 2
    &&& wf_player(ps.player1)
    &&& wf_player(ps.player2)
}

/// Horizontal home position of a paddle for a window of width `width`:
/// nine tenths of the way from the centre to the edge.  Paddle 1 sits at
/// the negated value, paddle 2 at the value itself.
pub open spec fn paddle_home_x(width: i64) -> int {
    half(width) * 9 / 10
}

/// The paddles after one resize event carrying `new_width`: both paddles
/// move to their home x-position for the new width; y-positions, ids and
/// speeds are untouched.
pub open spec fn spec_handle_resize(ps: Players, new_width: i64) -> Players {
    Players {
        player1: Player {
            position: Vec2 { x: (-paddle_home_x(new_width)) as i64, y: ps.player1.position.y },
            ..ps.player1
        },
        player2: Player {
            position: Vec2 { x: paddle_home_x(new_width) as i64, y: ps.player2.position.y },
            ..ps.player2
        },
    }
}

/// The y-position of one paddle after one frame of input.  Each key
/// tests the position as it stands when the key is handled: the "up"
/// key moves the paddle up when it has not yet passed the upper clamp
/// line, then the "down" key moves it down when it has not passed the
/// lower one.
pub open spec fn move_paddle_y(y: i64, speed: i64, up: bool, down: bool, bound_y: int, dt: i64) -> i64 {
    let y1: int = if up && y <= bound_y {
        y + speed * dt
    } else {
        y as int
    };
    let y2: int = if down && y1 >= -bound_y {
        y1 - speed * dt
    } else {
        y1
    };
    y2 as i64
}

/// The paddles after one frame of input-driven movement: each paddle's
/// y-position moves by `speed * dt` per held key whose clamp test against
/// the line `half(height) - PADDLE_HALF_HEIGHT` passes; x-positions, ids
/// and speeds are untouched.
pub open spec fn spec_controls(ps: Players, input: InputState, bounds: Bounds, dt: i64) -> Players {
    let bound_y = half(bounds.height) - PADDLE_HALF_HEIGHT;
    Players {
        player1: Player {
            position: Vec2 {
                x: ps.player1.position.x,
                y: move_paddle_y(
                    ps.player1.position.y,
                    ps.player1.speed,
                    input.p1_up,
                    input.p1_down,
                    bound_y,
                    dt,
                ),
            },
            ..ps.player1
        },
        player2: Player {
            position: Vec2 {
                x: ps.player2.position.x,
                y: move_paddle_y(
                    ps.player2.position.y,
                    ps.player2.speed,
                    input.p2_up,
                    input.p2_down,
                    bound_y,
                    dt,
                ),
            },
            ..ps.player2
        },
    }
}

/// Creates the two paddles for a window of the given bounds: paddle 1 at
/// its home x-position on the left, paddle 2 on the right, both centred
/// vertically and moving at `PADDLE_SPEED`.
pub fn spawn_players(bounds: &Bounds) -> (ps: Players)
    requires
        0 <= bounds.width <= DIM_MAX,
    ensures
        wf_players(ps),
        ps.player1.position.x == -paddle_home_x(bounds.width),
        ps.player2.position.x == paddle_home_x(bounds.width),
        ps.player1.position.y == 0,
        ps.player2.position.y == 0,
        ps.player1.speed == PADDLE_SPEED,
        ps.player2.speed == PADDLE_SPEED,
{
    let home: i64 = bounds.width / 2 * 9 / 10;
    Players {
        player1: Player { id: 1, position: Vec2 { x: -home, y: 0 }, speed: PADDLE_SPEED },
        player2: Player { id: 2, position: Vec2 { x: home, y: 0 }, speed: PADDLE_SPEED },
    }
}

/// Applies one resize event: recomputes both paddles' x-positions for the
/// new window width, leaving everything else as it was.
pub fn handle_resize(ps: &mut Players, new_width: i64)
    requires
        0 <= new_width <= DIM_MAX,
    ensures
        *final(ps) == spec_handle_resize(*old(ps), new_width),
        final(ps).player1.position.x == -paddle_home_x(new_width),
        final(ps).player2.position.x == paddle_home_x(new_width),
{
    let home: i64 = new_width / 2 * 9 / 10;
    ps.player1.position.x = -home;
    ps.player2.position.x = home;
}

/// Applies one frame of input: moves each paddle up while its "up" key is
/// held and it has not passed the upper clamp line, then down likewise.
pub fn controls(ps: &mut Players, input: &InputState, bounds: &Bounds, dt: i64)
    requires
        0 <= dt <= DT_MAX,
        0 <= bounds.height <= DIM_MAX,
        wf_players(*old(ps)),
        pos_within(old(ps).player1.position, POS_MAX),
        pos_within(old(ps).player2.position, POS_MAX),
    ensures
        *final(ps) == spec_controls(*old(ps), *input, *bounds, dt),
        wf_players(*final(ps)),
        pos_within(final(ps).player1.position, POS_STEP_MAX),
        pos_within(final(ps).player2.position, POS_STEP_MAX),
{
    let bound_y: i64 = bounds.height / 2 - PADDLE_HALF_HEIGHT;
    proof {
        let s1 = old(ps).player1.speed;
        let s2 = old(ps).player2.speed;
        assert(s1 * dt <= PADDLE_SPEED_MAX * DT_MAX && 0 <= s1 * dt) by (nonlinear_arith)
            requires
                0 <= s1 <= PADDLE_SPEED_MAX,
                0 <= dt <= DT_MAX,
        ;
        assert(s2 * dt <= PADDLE_SPEED_MAX * DT_MAX && 0 <= s2 * dt) by (nonlinear_arith)
            requires
                0 <= s2 <= PADDLE_SPEED_MAX,
                0 <= dt <= DT_MAX,
        ;
    }
    let amount1: i64 = ps.player1.speed * dt;
    if input.p1_up && ps.player1.position.y <= bound_y {
        ps.player1.position.y = ps.player1.position.y + amount1;
    }
    if input.p1_down && ps.player1.position.y >= -bound_y {
        ps.player1.position.y = ps.player1.position.y - amount1;
    }
    let amount2: i64 = ps.player2.speed * dt;
    if input.p2_up && ps.player2.position.y <= bound_y {
        ps.player2.position.y = ps.player2.position.y + amount2;
    }
    if input.p2_down && ps.player2.position.y >= -bound_y {
        ps.player2.position.y = ps.player2.position.y - amount2;
    }
}

/// Resize is idempotent: a second resize event with the same width leaves
/// the paddles exactly where the first one put them.
pub proof fn lemma_resize_idempotent(ps: Players, new_width: i64)
    ensures
        spec_handle_resize(spec_handle_resize(ps, new_width), new_width) == spec_handle_resize(
            ps,
            new_width,
        ),
{
}

/// The paddle of `p` stays within the clamp band for `bounds`, widened by
/// the largest overshoot a single frame can add.  Movement tests the
/// position as it stands before the move, so one frame may carry a
/// paddle at most `speed * DT_MAX` past a clamp line; no sequence of
/// frames carries it further.
pub open spec fn paddle_in_band(p: Player, bounds: Bounds) -> bool {
    let bound_y = half(bounds.height) - PADDLE_HALF_HEIGHT;
    -bound_y - p.speed * DT_MAX <= p.position.y <= bound_y + p.speed * DT_MAX
}

/// Clamp law: one frame of input-driven movement keeps each paddle inside
/// its widened clamp band, whatever keys are held.  Applied frame after
/// frame, this bounds the paddles after any sequence of updates.
pub proof fn lemma_paddle_clamped(ps: Players, input: InputState, bounds: Bounds, dt: i64)
    requires
        0 <= dt <= DT_MAX,
        wf_players(ps),
        paddle_in_band(ps.player1, bounds),
        paddle_in_band(ps.player2, bounds),
    ensures
        paddle_in_band(spec_controls(ps, input, bounds, dt).player1, bounds),
        paddle_in_band(spec_controls(ps, input, bounds, dt).player2, bounds),
{
    assert(ps.player1.speed * dt <= ps.player1.speed * DT_MAX && 0 <= ps.player1.speed * dt)
        by (nonlinear_arith)
        requires
            0 <= ps.player1.speed,
            0 <= dt <= DT_MAX,
    ;
    assert(ps.player2.speed * dt <= ps.player2.speed * DT_MAX && 0 <= ps.player2.speed * dt)
        by (nonlinear_arith)
        requires
            0 <= ps.player2.speed,
            0 <= dt <= DT_MAX,
    ;
}

} // verus!
