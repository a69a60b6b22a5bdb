//! End-to-end checks of the simulation core on concrete values.  All
//! geometry is in milli-units (1 unit = 1000 milli-units) and all times
//! in milliseconds.

use pong::ball::{
    ball_movement, handle_goal_collision, handle_player_collision, handle_roof_collision,
    spawn_ball, start_ball,
};
use pong::frame::step_frame;
use pong::players::{controls, handle_resize, spawn_players};
use pong::{Bounds, InputState, Scores, Vec2};

fn field() -> Bounds {
    // An 800 x 600 unit playfield.
    Bounds { width: 800_000, height: 600_000 }
}

fn no_input() -> InputState {
    InputState { p1_up: false, p1_down: false, p2_up: false, p2_down: false }
}

#[test]
fn spawn_ball_initial_state() {
    let b = spawn_ball();
    assert_eq!(b.position, Vec2 { x: 0, y: 0 });
    assert_eq!(b.velocity, Vec2 { x: 0, y: 0 });
    assert_eq!(b.start_velocity, Vec2 { x: 500, y: 500 });
    assert_eq!(b.timer_elapsed, 0);
    assert!(!b.launched);
}

#[test]
fn launch_timer_holds_before_delay() {
    let mut b = spawn_ball();
    start_ball(&mut b, 1_000);
    start_ball(&mut b, 1_000);
    start_ball(&mut b, 999);
    assert_eq!(b.velocity, Vec2 { x: 0, y: 0 });
    assert!(!b.launched);
    assert_eq!(b.timer_elapsed, 2_999);
}

#[test]
fn launch_timer_fires_exactly_once() {
    let mut b = spawn_ball();
    start_ball(&mut b, 1_000);
    start_ball(&mut b, 1_000);
    start_ball(&mut b, 999);
    start_ball(&mut b, 1);
    assert_eq!(b.velocity, Vec2 { x: 500, y: 500 });
    assert!(b.launched);
    assert_eq!(b.timer_elapsed, 0);
    // Once fired, further ticks change nothing.
    start_ball(&mut b, 5_000);
    assert_eq!(b.velocity, Vec2 { x: 500, y: 500 });
    assert_eq!(b.timer_elapsed, 0);
    assert!(b.launched);
}

#[test]
fn launch_timer_fires_in_one_tick() {
    let mut b = spawn_ball();
    start_ball(&mut b, 3_000);
    assert!(b.launched);
    assert_eq!(b.velocity, Vec2 { x: 500, y: 500 });
}

#[test]
fn movement_is_noop_before_launch() {
    let mut b = spawn_ball();
    start_ball(&mut b, 1_000);
    ball_movement(&mut b, 500);
    assert_eq!(b.position, Vec2 { x: 0, y: 0 });
}

#[test]
fn movement_advances_by_velocity_times_dt() {
    let mut b = spawn_ball();
    start_ball(&mut b, 3_000);
    ball_movement(&mut b, 600);
    assert_eq!(b.position, Vec2 { x: 300_000, y: 300_000 });
}

#[test]
fn wall_bounce_at_top_edge() {
    // Upper band starts at height/2 - radius = 285 units.
    let mut b = spawn_ball();
    start_ball(&mut b, 3_000);
    b.position = Vec2 { x: 0, y: 285_000 };
    handle_roof_collision(&mut b, &field());
    assert_eq!(b.velocity, Vec2 { x: 500, y: -500 });
}

#[test]
fn wall_bounce_not_below_top_edge() {
    let mut b = spawn_ball();
    start_ball(&mut b, 3_000);
    b.position = Vec2 { x: 0, y: 284_999 };
    handle_roof_collision(&mut b, &field());
    assert_eq!(b.velocity, Vec2 { x: 500, y: 500 });
}

#[test]
fn wall_bounce_at_bottom_edge() {
    let mut b = spawn_ball();
    start_ball(&mut b, 3_000);
    b.velocity = Vec2 { x: 500, y: -500 };
    b.position = Vec2 { x: 0, y: -285_000 };
    handle_roof_collision(&mut b, &field());
    assert_eq!(b.velocity, Vec2 { x: 500, y: 500 });
}

#[test]
fn scenario_launch_then_wall_flip() {
    // 800 x 600 field, ball spawns at the origin with start velocity
    // (500, 500); after exactly 3 s the velocity becomes (500, 500), and
    // once the position has advanced to y >= 285 units the vertical
    // velocity flips to -500.
    let bounds = field();
    let mut b = spawn_ball();
    start_ball(&mut b, 3_000);
    assert_eq!(b.velocity, Vec2 { x: 500, y: 500 });
    ball_movement(&mut b, 600);
    assert!(b.position.y >= 285_000);
    handle_roof_collision(&mut b, &bounds);
    assert_eq!(b.velocity.y, -500);
    assert_eq!(b.velocity.x, 500);
}

#[test]
fn scenario_right_goal_scores_player1() {
    // Ball at x = 395 units moving right crosses the x >= 400 edge: player
    // 1 scores and the ball respawns with start velocity (-500, 500).
    let bounds = field();
    let mut b = spawn_ball();
    start_ball(&mut b, 3_000);
    b.position = Vec2 { x: 395_000, y: 0 };
    let mut scores = Scores { player1: 0, player2: 0 };
    handle_goal_collision(&mut b, &mut scores, &bounds);
    assert_eq!(scores, Scores { player1: 0, player2: 0 });
    ball_movement(&mut b, 10);
    assert_eq!(b.position.x, 400_000);
    handle_goal_collision(&mut b, &mut scores, &bounds);
    assert_eq!(scores, Scores { player1: 1, player2: 0 });
    assert_eq!(b.position, Vec2 { x: 0, y: 0 });
    assert_eq!(b.velocity, Vec2 { x: 0, y: 0 });
    assert_eq!(b.start_velocity, Vec2 { x: -500, y: 500 });
    assert_eq!(b.timer_elapsed, 0);
    assert!(!b.launched);
}

#[test]
fn left_goal_scores_player2() {
    let bounds = field();
    let mut b = spawn_ball();
    start_ball(&mut b, 3_000);
    b.position = Vec2 { x: -400_000, y: 10_000 };
    let mut scores = Scores { player1: 3, player2: 7 };
    handle_goal_collision(&mut b, &mut scores, &bounds);
    assert_eq!(scores, Scores { player1: 3, player2: 8 });
    assert_eq!(b.start_velocity, Vec2 { x: 500, y: -500 });
    assert_eq!(b.velocity, Vec2 { x: 0, y: 0 });
    assert!(!b.launched);
}

#[test]
fn no_goal_strictly_inside_edges() {
    let bounds = field();
    let mut b = spawn_ball();
    start_ball(&mut b, 3_000);
    b.position = Vec2 { x: 399_999, y: 0 };
    let mut scores = Scores { player1: 0, player2: 0 };
    handle_goal_collision(&mut b, &mut scores, &bounds);
    assert_eq!(scores, Scores { player1: 0, player2: 0 });
    assert_eq!(b.position, Vec2 { x: 399_999, y: 0 });
    assert!(b.launched);
}

#[test]
fn scenario_left_paddle_deflects_ball() {
    // Paddle 1 at x = -360, y = 50; a ball at (-345, 30) satisfies
    // ball.x - 15 = -360 <= paddle.x + 7.5 = -352.5 and lies within the
    // paddle's vertical span, so its horizontal velocity becomes +500.
    let bounds = field();
    let mut ps = spawn_players(&bounds);
    assert_eq!(ps.player1.position.x, -360_000);
    ps.player1.position.y = 50_000;
    let mut b = spawn_ball();
    start_ball(&mut b, 3_000);
    b.velocity = Vec2 { x: -500, y: 500 };
    b.position = Vec2 { x: -345_000, y: 30_000 };
    handle_player_collision(&mut b, &ps);
    assert_eq!(b.velocity, Vec2 { x: 500, y: 500 });
}

#[test]
fn left_paddle_face_test_has_no_lower_bound() {
    // The overlap test only compares the ball's left extent against the
    // paddle's face, so a ball already past the face (here at x = -392.5,
    // giving -407.5 <= -352.5) still deflects.
    let bounds = field();
    let mut ps = spawn_players(&bounds);
    ps.player1.position.y = 50_000;
    let mut b = spawn_ball();
    start_ball(&mut b, 3_000);
    b.velocity = Vec2 { x: -500, y: 500 };
    b.position = Vec2 { x: -392_500, y: 30_000 };
    handle_player_collision(&mut b, &ps);
    assert_eq!(b.velocity.x, 500);
}

#[test]
fn paddle_vertical_span_is_strict() {
    let bounds = field();
    let mut ps = spawn_players(&bounds);
    ps.player1.position.y = 50_000;
    let mut b = spawn_ball();
    start_ball(&mut b, 3_000);
    b.velocity = Vec2 { x: -500, y: 500 };
    // Exactly at paddle.y + 100 units: outside the strict span, no bounce.
    b.position = Vec2 { x: -345_000, y: 150_000 };
    handle_player_collision(&mut b, &ps);
    assert_eq!(b.velocity.x, -500);
    // One milli-unit inside the span: bounce.
    b.position = Vec2 { x: -345_000, y: 149_999 };
    handle_player_collision(&mut b, &ps);
    assert_eq!(b.velocity.x, 500);
}

#[test]
fn right_paddle_deflects_ball() {
    let bounds = field();
    let ps = spawn_players(&bounds);
    assert_eq!(ps.player2.position.x, 360_000);
    let mut b = spawn_ball();
    start_ball(&mut b, 3_000);
    b.position = Vec2 { x: 345_000, y: 0 };
    handle_player_collision(&mut b, &ps);
    assert_eq!(b.velocity, Vec2 { x: -500, y: 500 });
}

#[test]
fn spawn_players_home_positions() {
    let ps = spawn_players(&field());
    assert_eq!(ps.player1.id, 1);
    assert_eq!(ps.player2.id, 2);
    assert_eq!(ps.player1.position, Vec2 { x: -360_000, y: 0 });
    assert_eq!(ps.player2.position, Vec2 { x: 360_000, y: 0 });
    assert_eq!(ps.player1.speed, 450);
    assert_eq!(ps.player2.speed, 450);
}

#[test]
fn controls_move_at_speed_times_dt() {
    let bounds = field();
    let mut ps = spawn_players(&bounds);
    let input = InputState { p1_up: true, p1_down: false, p2_up: false, p2_down: true };
    controls(&mut ps, &input, &bounds, 100);
    assert_eq!(ps.player1.position.y, 45_000);
    assert_eq!(ps.player2.position.y, -45_000);
    assert_eq!(ps.player1.position.x, -360_000);
    assert_eq!(ps.player2.position.x, 360_000);
}

#[test]
fn controls_clamp_has_one_frame_lag() {
    // The clamp line for a 600 unit tall field is at 200 units.  A paddle
    // exactly on the line still moves once, because the check reads the
    // pre-movement position; it is then blocked on the next frame.
    let bounds = field();
    let mut ps = spawn_players(&bounds);
    ps.player1.position.y = 200_000;
    let input = InputState { p1_up: true, p1_down: false, p2_up: false, p2_down: false };
    controls(&mut ps, &input, &bounds, 100);
    assert_eq!(ps.player1.position.y, 245_000);
    controls(&mut ps, &input, &bounds, 100);
    assert_eq!(ps.player1.position.y, 245_000);
}

#[test]
fn controls_block_below_lower_clamp_line() {
    let bounds = field();
    let mut ps = spawn_players(&bounds);
    ps.player2.position.y = -200_001;
    let input = InputState { p1_up: false, p1_down: false, p2_up: false, p2_down: true };
    controls(&mut ps, &input, &bounds, 100);
    assert_eq!(ps.player2.position.y, -200_001);
}

#[test]
fn controls_opposed_keys_cancel() {
    let bounds = field();
    let mut ps = spawn_players(&bounds);
    let input = InputState { p1_up: true, p1_down: true, p2_up: false, p2_down: false };
    controls(&mut ps, &input, &bounds, 1_000);
    assert_eq!(ps.player1.position.y, 0);
}

#[test]
fn resize_repositions_both_paddles() {
    let mut ps = spawn_players(&field());
    ps.player1.position.y = 12_345;
    handle_resize(&mut ps, 500_000);
    assert_eq!(ps.player1.position.x, -225_000);
    assert_eq!(ps.player2.position.x, 225_000);
    // y-positions are untouched by a resize.
    assert_eq!(ps.player1.position.y, 12_345);
}

#[test]
fn resize_is_idempotent() {
    let mut once = spawn_players(&field());
    handle_resize(&mut once, 1_000_000);
    let mut twice = spawn_players(&field());
    handle_resize(&mut twice, 1_000_000);
    handle_resize(&mut twice, 1_000_000);
    assert_eq!(once, twice);
    assert_eq!(once.player1.position.x, -450_000);
    assert_eq!(once.player2.position.x, 450_000);
}

#[test]
fn resize_truncates_toward_zero() {
    let mut ps = spawn_players(&field());
    // half(1_000_010) = 500_005; times 9, divided by 10, truncated.
    handle_resize(&mut ps, 1_000_010);
    assert_eq!(ps.player2.position.x, 450_004);
}

#[test]
fn step_frame_runs_whole_update_order() {
    // One 3 s frame from the initial state: the ball launches, travels
    // (1500, 1500) units, trips the wall check, then the goal check
    // (x >= 400 units), so player 1 scores and a fresh ball aimed left
    // is in play by the end of the frame.
    let bounds = field();
    let mut ball = spawn_ball();
    let mut players = spawn_players(&bounds);
    let mut scores = Scores { player1: 0, player2: 0 };
    step_frame(&mut ball, &mut players, &mut scores, &no_input(), &bounds, 3_000);
    assert_eq!(scores, Scores { player1: 1, player2: 0 });
    assert_eq!(ball.position, Vec2 { x: 0, y: 0 });
    assert_eq!(ball.velocity, Vec2 { x: 0, y: 0 });
    assert_eq!(ball.start_velocity, Vec2 { x: -500, y: 500 });
    assert!(!ball.launched);
    assert_eq!(players, spawn_players(&bounds));
}

#[test]
fn step_frame_scores_accumulate() {
    let bounds = field();
    let mut ball = spawn_ball();
    let mut players = spawn_players(&bounds);
    let mut scores = Scores { player1: 0, player2: 0 };
    step_frame(&mut ball, &mut players, &mut scores, &no_input(), &bounds, 3_000);
    // The respawned ball launches again and flies toward the left edge.
    step_frame(&mut ball, &mut players, &mut scores, &no_input(), &bounds, 3_000);
    assert_eq!(scores, Scores { player1: 1, player2: 1 });
    assert_eq!(ball.start_velocity, Vec2 { x: 500, y: -500 });
}

#[test]
fn ball_velocity_magnitude_stays_bounded() {
    let bounds = field();
    let mut ball = spawn_ball();
    let mut players = spawn_players(&bounds);
    let mut scores = Scores { player1: 0, player2: 0 };
    for _ in 0..200 {
        step_frame(&mut ball, &mut players, &mut scores, &no_input(), &bounds, 16);
        assert!(ball.velocity.x.abs() <= 500);
        assert!(ball.velocity.y.abs() <= 500);
    }
}
