//! Ball simulator: delayed launch, linear movement, wall bounce, goal
//! detection with respawn and scoring, and paddle bounce.

use vstd::prelude::*;

use crate::players::Player;
use crate::players::Players;
use crate::Bounds;
use crate::Scores;
use crate::Vec2;
use crate::half;
use crate::pos_within;
use crate::speed_within;
use crate::wf_bounds;
use crate::BALL_SPEED;
use crate::DIM_MAX;
use crate::DT_MAX;
use crate::LAUNCH_DELAY;
use crate::PADDLE_FACE_OFFSET;
use crate::PADDLE_HALF_HEIGHT;
use crate::POS_MAX;
use crate::POS_STEP_MAX;
use crate::RADIUS;

verus! {

/// The ball.  At most one exists at a time; on a goal the whole record is
/// replaced by a fresh one rather than mutated in place.  `timer_elapsed`
/// counts the milliseconds the one-shot launch timer has run; once it
/// reaches `LAUNCH_DELAY` the ball takes `start_velocity` as its velocity
/// and `launched` is set, after which the timer never fires again.
#[derive(Clone, Copy, PartialEq, Eq, Structural, Debug)]
pub struct Ball {
    pub position: Vec2,
    pub velocity: Vec2,
    pub start_velocity: Vec2,
    pub timer_elapsed: i64,
    pub launched: bool,
}

/// Both velocities are within `BALL_SPEED` per component and the launch
/// timer has run for less than its full delay.
pub open spec fn wf_ball(b: Ball) -> bool {
    &&& speed_within(b.velocity)
    &&& speed_within(b.start_velocity)
    &&& 0 <= b.timer_elapsed < LAUNCH_DELAY
}

/// A freshly spawned ball: at the origin, motionless, with its launch
/// timer at zero and the given start velocity held for when it fires.
pub open spec fn fresh_ball(start_velocity: Vec2) -> Ball {
    Ball {
        position: Vec2 { x: 0, y: 0 },
        velocity: Vec2 { x: 0, y: 0 },
        start_velocity,
        timer_elapsed: 0,
        launched: false,
    }
}

/// The ball after its launch timer ticks by `dt`: while unlaunched the
/// elapsed time grows, and the tick that reaches `LAUNCH_DELAY` sets the
/// velocity to the start velocity and resets the timer so that it never
/// fires again.  A launched ball is untouched.
pub open spec fn spec_start_ball(b: Ball, dt: i64) -> Ball {
    if b.launched {
        b
    } else if b.timer_elapsed + dt >= LAUNCH_DELAY {
        Ball { velocity: b.start_velocity, timer_elapsed: 0, launched: true, ..b }
    } else {
        Ball { timer_elapsed: (b.timer_elapsed + dt) as i64, ..b }
    }
}

/// The ball after moving for `dt` milliseconds: each coordinate advances
/// by `velocity * dt` (a velocity in units per second is exactly the
/// milli-units covered per millisecond); nothing else changes.
pub open spec fn spec_ball_movement(b: Ball, dt: i64) -> Ball {
    Ball {
        position: Vec2 {
            x: (b.position.x + b.velocity.x * dt) as i64,
            y: (b.position.y + b.velocity.y * dt) as i64,
        },
        ..b
    }
}

/// The ball after the wall check: reaching the upper edge band
/// (`y >= half(height) - RADIUS`) sets the vertical velocity to
/// `-BALL_SPEED`, reaching the lower band sets it to `BALL_SPEED`; the
/// bounce speed is a fixed constant, not a reflection of the incoming
/// speed.  The lower check runs second and wins if both bands overlap.
pub open spec fn spec_roof_collision(b: Ball, bounds: Bounds) -> Ball {
    let bound_y = half(bounds.height);
    let vy1: int = if b.position.y >= bound_y - RADIUS {
        -BALL_SPEED
    } else {
        b.velocity.y as int
    };
    let vy2: int = if b.position.y <= -bound_y + RADIUS {
        BALL_SPEED as int
    } else {
        vy1
    };
    Ball { velocity: Vec2 { x: b.velocity.x, y: vy2 as i64 }, ..b }
}

/// The ball and scores after the goal check.  Reaching the right edge
/// (`x >= half(width)`) scores for player 1 and replaces the ball by a
/// fresh one aimed back to the left; reaching the left edge scores for
/// player 2 and aims the fresh ball to the right.  Both edges are checked
/// against the incoming position, the left check second.
pub open spec fn spec_goal_collision(b: Ball, scores: Scores, bounds: Bounds) -> (Ball, Scores) {
    let bound_x = half(bounds.width);
    let x = b.position.x;
    let right: (Ball, Scores) = if x >= bound_x {
        (
            fresh_ball(Vec2 { x: (-BALL_SPEED) as i64, y: BALL_SPEED }),
            Scores { player1: (scores.player1 + 1) as u32, player2: scores.player2 },
        )
    } else {
        (b, scores)
    };
    if x <= -bound_x {
        (
            fresh_ball(Vec2 { x: BALL_SPEED, y: (-BALL_SPEED) as i64 }),
            Scores { player1: right.1.player1, player2: (right.1.player2 + 1) as u32 },
        )
    } else {
        right
    }
}

/// The ball's horizontal velocity after it meets one paddle.  Paddle 1
/// deflects the ball to the right when the ball's left extent has crossed
/// the paddle's collision face and the ball's centre lies strictly within
/// the paddle's vertical span; paddle 2 mirrors this, deflecting to the
/// left.  The deflection is a fixed constant speed away from the paddle.
pub open spec fn paddle_deflect(ball_pos: Vec2, vx: int, p: Player) -> int {
    let vx1: int = if p.id == 1 && ball_pos.x - RADIUS <= p.position.x + PADDLE_FACE_OFFSET
        && p.position.y - PADDLE_HALF_HEIGHT < ball_pos.y < p.position.y + PADDLE_HALF_HEIGHT {
        BALL_SPEED as int
    } else {
        vx
    };
    if p.id == 2 && ball_pos.x + RADIUS >= p.position.x - PADDLE_FACE_OFFSET
        && p.position.y - PADDLE_HALF_HEIGHT < ball_pos.y < p.position.y + PADDLE_HALF_HEIGHT {
        -BALL_SPEED
    } else {
        vx1
    }
}

/// The ball after the paddle check: its horizontal velocity passes
/// through the deflection test of paddle 1, then of paddle 2; nothing
/// else changes.
pub open spec fn spec_player_collision(b: Ball, ps: Players) -> Ball {
    Ball {
        velocity: Vec2 {
            x: paddle_deflect(
                b.position,
                paddle_deflect(b.position, b.velocity.x as int, ps.player1),
                ps.player2,
            ) as i64,
            y: b.velocity.y,
        },
        ..b
    }
}

/// Creates the session's first ball: fresh at the origin, to be launched
/// toward the upper right at `BALL_SPEED` on each axis.
pub fn spawn_ball() -> (b: Ball)
    ensures
        b == fresh_ball((Vec2 { x: BALL_SPEED, y: BALL_SPEED })),
        wf_ball(b),
{
    Ball {
        position: Vec2 { x: 0, y: 0 },
        velocity: Vec2 { x: 0, y: 0 },
        start_velocity: Vec2 { x: BALL_SPEED, y: BALL_SPEED },
        timer_elapsed: 0,
        launched: false,
    }
}

/// Ticks the launch timer by `dt`; the tick that completes the delay
/// launches the ball.
pub fn start_ball(b: &mut Ball, dt: i64)
    requires
        0 <= dt <= DT_MAX,
        wf_ball(*old(b)),
    ensures
        *final(b) == spec_start_ball(*old(b), dt),
        wf_ball(*final(b)),
{
    if !b.launched {
        let elapsed: i64 = b.timer_elapsed + dt;
        if elapsed >= LAUNCH_DELAY {
            b.velocity = b.start_velocity;
            b.timer_elapsed = 0;
            b.launched = true;
        } else {
            b.timer_elapsed = elapsed;
        }
    }
}

/// Advances the ball's position by `velocity * dt`.  While the ball is
/// unlaunched its velocity is zero, so this leaves it in place.
pub fn ball_movement(b: &mut Ball, dt: i64)
    requires
        0 <= dt <= DT_MAX,
        wf_ball(*old(b)),
        pos_within(old(b).position, POS_MAX),
    ensures
        *final(b) == spec_ball_movement(*old(b), dt),
        wf_ball(*final(b)),
        pos_within(final(b).position, POS_STEP_MAX),
{
    proof {
        let vx = old(b).velocity.x;
        let vy = old(b).velocity.y;
        assert(-BALL_SPEED * DT_MAX <= vx * dt <= BALL_SPEED * DT_MAX) by (nonlinear_arith)
            requires
                -BALL_SPEED <= vx <= BALL_SPEED,
                0 <= dt <= DT_MAX,
        ;
        assert(-BALL_SPEED * DT_MAX <= vy * dt <= BALL_SPEED * DT_MAX) by (nonlinear_arith)
            requires
                -BALL_SPEED <= vy <= BALL_SPEED,
                0 <= dt <= DT_MAX,
        ;
    }
    b.position.x = b.position.x + b.velocity.x * dt;
    b.position.y = b.position.y + b.velocity.y * dt;
}

/// Bounces the ball off the top and bottom edges of the playfield.
pub fn handle_roof_collision(b: &mut Ball, bounds: &Bounds)
    requires
        0 <= bounds.height <= DIM_MAX,
        wf_ball(*old(b)),
    ensures
        *final(b) == spec_roof_collision(*old(b), *bounds),
        wf_ball(*final(b)),
        final(b).position == old(b).position,
{
    let bound_y: i64 = bounds.height / 2;
    if b.position.y >= bound_y - RADIUS {
        b.velocity.y = -BALL_SPEED;
    }
    if b.position.y <= -bound_y + RADIUS {
        b.velocity.y = BALL_SPEED;
    }
}

/// Checks the goal edges: scores the point and replaces the ball by a
/// fresh one aimed at the scoring player's opponent.
pub fn handle_goal_collision(b: &mut Ball, scores: &mut Scores, bounds: &Bounds)
    requires
        0 <= bounds.width <= DIM_MAX,
        wf_ball(*old(b)),
        old(scores).player1 < u32::MAX,
        old(scores).player2 < u32::MAX,
    ensures
        (*final(b), *final(scores)) == spec_goal_collision(*old(b), *old(scores), *bounds),
        wf_ball(*final(b)),
{
    let bound_x: i64 = bounds.width / 2;
    let x: i64 = b.position.x;
    if x >= bound_x {
        scores.player1 = scores.player1 + 1;
        *b = Ball {
            position: Vec2 { x: 0, y: 0 },
            velocity: Vec2 { x: 0, y: 0 },
            start_velocity: Vec2 { x: -BALL_SPEED, y: BALL_SPEED },
            timer_elapsed: 0,
            launched: false,
        };
    }
    if x <= -bound_x {
        scores.player2 = scores.player2 + 1;
        *b = Ball {
            position: Vec2 { x: 0, y: 0 },
            velocity: Vec2 { x: 0, y: 0 },
            start_velocity: Vec2 { x: BALL_SPEED, y: -BALL_SPEED },
            timer_elapsed: 0,
            launched: false,
        };
    }
}

/// Bounces the ball off whichever paddle it currently overlaps.
pub fn handle_player_collision(b: &mut Ball, players: &Players)
    requires
        wf_ball(*old(b)),
        pos_within(old(b).position, POS_STEP_MAX),
        pos_within(players.player1.position, POS_STEP_MAX),
        pos_within(players.player2.position, POS_STEP_MAX),
    ensures
        *final(b) == spec_player_collision(*old(b), *players),
        wf_ball(*final(b)),
        final(b).position == old(b).position,
{
    let ball_x: i64 = b.position.x;
    let ball_y: i64 = b.position.y;

    let p1 = &players.player1;
    if p1.id == 1 {
        if ball_x - RADIUS <= p1.position.x + PADDLE_FACE_OFFSET
            && ball_y < p1.position.y + PADDLE_HALF_HEIGHT
            && ball_y > p1.position.y - PADDLE_HALF_HEIGHT {
            b.velocity.x = BALL_SPEED;
        }
    }
    if p1.id == 2 {
        if ball_x + RADIUS >= p1.position.x - PADDLE_FACE_OFFSET
            && ball_y < p1.position.y + PADDLE_HALF_HEIGHT
            && ball_y > p1.position.y - PADDLE_HALF_HEIGHT {
            b.velocity.x = -BALL_SPEED;
        }
    }

    let p2 = &players.player2;
    if p2.id == 1 {
        if ball_x - RADIUS <= p2.position.x + PADDLE_FACE_OFFSET
            && ball_y < p2.position.y + PADDLE_HALF_HEIGHT
            && ball_y > p2.position.y - PADDLE_HALF_HEIGHT {
            b.velocity.x = BALL_SPEED;
        }
    }
    if p2.id == 2 {
        if ball_x + RADIUS >= p2.position.x - PADDLE_FACE_OFFSET
            && ball_y < p2.position.y + PADDLE_HALF_HEIGHT
            && ball_y > p2.position.y - PADDLE_HALF_HEIGHT {
            b.velocity.x = -BALL_SPEED;
        }
    }
}

/// Wall bounce law: after the wall check the vertical velocity is
/// `-BALL_SPEED` exactly on and beyond the upper edge band,
/// `BALL_SPEED` exactly on and beyond the lower one, and untouched
/// strictly between them; nothing else about the ball changes, and a
/// well-formed ball stays well formed (so the vertical speed never
/// exceeds `BALL_SPEED` in magnitude).
pub proof fn lemma_wall_bounce(b: Ball, bounds: Bounds)
    requires
        wf_bounds(bounds),
    ensures
        ({
            let r = spec_roof_collision(b, bounds);
            let edge = half(bounds.height) - RADIUS;
            &&& b.position.y >= edge ==> r.velocity.y == -BALL_SPEED
            &&& b.position.y <= -edge ==> r.velocity.y == BALL_SPEED
            &&& -edge < b.position.y < edge ==> r.velocity.y == b.velocity.y
            &&& r.velocity.x == b.velocity.x
            &&& r.position == b.position
            &&& r.start_velocity == b.start_velocity
            &&& r.timer_elapsed == b.timer_elapsed
            &&& r.launched == b.launched
            &&& wf_ball(b) ==> wf_ball(r)
        }),
{
}

/// Goal law: a ball on or beyond the right edge scores exactly one point,
/// for player 1, and is replaced by a fresh motionless ball whose start
/// velocity points back to the left; the left edge mirrors this for
/// player 2.  A ball strictly between the edges changes nothing.  Under
/// well-formed bounds the two edges exclude each other, so exactly one
/// counter moves on any goal.
pub proof fn lemma_goal_event(b: Ball, scores: Scores, bounds: Bounds)
    requires
        wf_bounds(bounds),
        scores.player1 < u32::MAX,
        scores.player2 < u32::MAX,
    ensures
        ({
            let r = spec_goal_collision(b, scores, bounds);
            let bound_x = half(bounds.width);
            &&& b.position.x >= bound_x ==> r.0 == fresh_ball(
                (Vec2 { x: (-BALL_SPEED) as i64, y: BALL_SPEED }),
            ) && r.1.player1 == scores.player1 + 1 && r.1.player2 == scores.player2
            &&& b.position.x <= -bound_x ==> r.0 == fresh_ball(
                (Vec2 { x: BALL_SPEED, y: (-BALL_SPEED) as i64 }),
            ) && r.1.player2 == scores.player2 + 1 && r.1.player1 == scores.player1
            &&& (b.position.x >= bound_x || b.position.x <= -bound_x) ==> r.1.player1
                + r.1.player2 == scores.player1 + scores.player2 + 1 && r.0.velocity == (Vec2 {
                x: 0,
                y: 0,
            }) && !r.0.launched && r.0.timer_elapsed == 0
            &&& -bound_x < b.position.x < bound_x ==> r == (b, scores)
        }),
{
}

/// The ball after a whole sequence of launch-timer ticks, applied oldest
/// first.
pub open spec fn spec_tick_seq(b: Ball, dts: Seq<i64>) -> Ball
    decreases dts.len(),
{
    if dts.len() == 0 {
        b
    } else {
        spec_tick_seq(spec_start_ball(b, dts[0]), dts.drop_first())
    }
}

/// The total time a sequence of ticks covers, in milliseconds.
pub open spec fn total_ms(dts: Seq<i64>) -> int
    decreases dts.len(),
{
    if dts.len() == 0 {
        0
    } else {
        dts[0] + total_ms(dts.drop_first())
    }
}

/// Launch timer law, general form: ticking a launched ball changes
/// nothing, however often; ticking an unlaunched one accumulates exactly
/// the elapsed time while the total stays below the launch delay, and the
/// moment the total reaches it the ball is launched with its start
/// velocity, the timer reset — a transition that therefore happens at
/// most once per ball.
pub proof fn lemma_launch_timer(b: Ball, dts: Seq<i64>)
    requires
        0 <= b.timer_elapsed < LAUNCH_DELAY,
        forall|i: int| 0 <= i < dts.len() ==> 0 <= #[trigger] dts[i],
    ensures
        ({
            let r = spec_tick_seq(b, dts);
            &&& b.launched ==> r == b
            &&& (!b.launched && b.timer_elapsed + total_ms(dts) < LAUNCH_DELAY) ==> r == (Ball {
                timer_elapsed: (b.timer_elapsed + total_ms(dts)) as i64,
                ..b
            })
            &&& (!b.launched && b.timer_elapsed + total_ms(dts) >= LAUNCH_DELAY) ==> r == (Ball {
                velocity: b.start_velocity,
                timer_elapsed: 0,
                launched: true,
                ..b
            })
        }),
    decreases dts.len(),
{
    if dts.len() > 0 {
        assert(0 <= dts[0]);
        let rest = dts.drop_first();
        assert(forall|i: int| 0 <= i < rest.len() ==> 0 <= #[trigger] rest[i]) by {
            assert(forall|i: int| 0 <= i < rest.len() ==> rest[i] == #[trigger] dts[i + 1]);
        }
        lemma_launch_timer(spec_start_ball(b, dts[0]), rest);
        lemma_total_ms_nonneg(rest);
    }
}

/// The total of a sequence of nonnegative ticks is nonnegative.
pub proof fn lemma_total_ms_nonneg(dts: Seq<i64>)
    requires
        forall|i: int| 0 <= i < dts.len() ==> 0 <= #[trigger] dts[i],
    ensures
        0 <= total_ms(dts),
    decreases dts.len(),
{
    if dts.len() > 0 {
        let rest = dts.drop_first();
        assert(forall|i: int| 0 <= i < rest.len() ==> rest[i] == #[trigger] dts[i + 1]);
        lemma_total_ms_nonneg(rest);
    }
}

/// Launch timer law for a fresh ball: it stays motionless while the total
/// simulated time is below the launch delay and carries its start
/// velocity from the tick that reaches the delay onward; its position
/// never moves through any tick.
pub proof fn lemma_launch_timer_fresh(start_velocity: Vec2, dts: Seq<i64>)
    requires
        forall|i: int| 0 <= i < dts.len() ==> 0 <= #[trigger] dts[i],
    ensures
        ({
            let r = spec_tick_seq(fresh_ball(start_velocity), dts);
            &&& total_ms(dts) < LAUNCH_DELAY ==> r.velocity == (Vec2 { x: 0, y: 0 })
                && !r.launched
            &&& total_ms(dts) >= LAUNCH_DELAY ==> r.velocity == start_velocity && r.launched
            &&& r.position == (Vec2 { x: 0, y: 0 })
            &&& r.start_velocity == start_velocity
        }),
{
    lemma_launch_timer(fresh_ball(start_velocity), dts);
}

} // verus!
