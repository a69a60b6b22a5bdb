//! One simulation frame: the paddle controller runs first, then the ball
//! simulator in its fixed order — launch timer, movement, wall check,
//! goal check, paddle check.  The order matters: the goal check runs
//! before the paddle check, so a ball on a goal edge scores even if a
//! paddle's overlap zone nominally covers it that instant.

use vstd::prelude::*;

use crate::ball::spec_ball_movement;
use crate::ball::spec_goal_collision;
use crate::ball::spec_player_collision;
use crate::ball::spec_roof_collision;
use crate::ball::spec_start_ball;
use crate::ball::wf_ball;
use crate::ball::Ball;
use crate::players::spec_controls;
use crate::players::wf_players;
use crate::players::Players;
use crate::Bounds;
use crate::InputState;
use crate::Scores;
use crate::pos_within;
use crate::wf_bounds;
use crate::DT_MAX;
use crate::POS_MAX;
use crate::POS_STEP_MAX;

verus! {

/// The whole simulation state after one frame with input `input` and
/// frame delta `dt`: the paddles move first, then the ball ticks its
/// launch timer, moves, bounces off walls, passes the goal check and
/// finally the paddle check against the already-moved paddles.
pub open spec fn spec_step_frame(
    ball: Ball,
    players: Players,
    scores: Scores,
    input: InputState,
    bounds: Bounds,
    dt: i64,
) -> (Ball, Players, Scores) {
    let ps = spec_controls(players, input, bounds, dt);
    let b1 = spec_start_ball(ball, dt);
    let b2 = spec_ball_movement(b1, dt);
    let b3 = spec_roof_collision(b2, bounds);
    let goal = spec_goal_collision(b3, scores, bounds);
    let b5 = spec_player_collision(goal.0, ps);
    (b5, ps, goal.1)
}

/// Advances the simulation by one frame, mutating the ball, the paddles
/// and the scores in place.  Well-formedness is preserved, so in
/// particular no velocity component ever exceeds `BALL_SPEED` in
/// magnitude, however many frames run.
pub fn step_frame(
    ball: &mut Ball,
    players: &mut Players,
    scores: &mut Scores,
    input: &InputState,
    bounds: &Bounds,
    dt: i64,
)
    requires
        0 <= dt <= DT_MAX,
        wf_bounds(*bounds),
        wf_ball(*old(ball)),
        pos_within(old(ball).position, POS_MAX),
        wf_players(*old(players)),
        pos_within(old(players).player1.position, POS_MAX),
        pos_within(old(players).player2.position, POS_MAX),
        old(scores).player1 < u32::MAX,
        old(scores).player2 < u32::MAX,
    ensures
        (*final(ball), *final(players), *final(scores)) == spec_step_frame(
            *old(ball),
            *old(players),
            *old(scores),
            *input,
            *bounds,
            dt,
        ),
        wf_ball(*final(ball)),
        wf_players(*final(players)),
        pos_within(final(ball).position, POS_STEP_MAX),
        pos_within(final(players).player1.position, POS_STEP_MAX),
        pos_within(final(players).player2.position, POS_STEP_MAX),
{
    crate::players::controls(players, input, bounds, dt);
    crate::ball::start_ball(ball, dt);
    crate::ball::ball_movement(ball, dt);
    crate::ball::handle_roof_collision(ball, bounds);
    crate::ball::handle_goal_collision(ball, scores, bounds);
    crate::ball::handle_player_collision(ball, players);
}

} // verus!
