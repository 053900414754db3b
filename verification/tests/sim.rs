use pong::ball::{Ball, SERVE_SPEED};
use pong::game::{MatchInput, MatchState, BALL_START_Y};
use pong::geometry::{collide, Aabb, Edge, Vec2I};
use pong::paddle::{Paddle, PaddleInput, Side, PADDLE_BOUND};
use pong::scoring::Scoreboard;
use pong::text::score_line;

fn released() -> MatchInput {
    MatchInput::released()
}

fn live_ball(x: i64, y: i64, vx: i64, vy: i64) -> Ball {
    Ball { pos: Vec2I { x, y }, vel: Vec2I { x: vx, y: vy }, ramp_rate: 50, rally_start_ms: 0 }
}

#[test]
fn paddle_stays_in_bounds_however_long_up_is_held() {
    let mut p = Paddle::new(Side::Left);
    let held = PaddleInput { up: true, down: false };
    for _ in 0..10 {
        p.step(held, 1_000_000);
        assert!(-PADDLE_BOUND <= p.y && p.y <= PADDLE_BOUND);
    }
    assert_eq!(p.y, PADDLE_BOUND);
    let held_down = PaddleInput { up: false, down: true };
    for _ in 0..10 {
        p.step(held_down, 1_000_000);
        assert!(-PADDLE_BOUND <= p.y && p.y <= PADDLE_BOUND);
    }
    assert_eq!(p.y, -PADDLE_BOUND);
}

#[test]
fn paddle_moves_by_speed_times_delta() {
    let mut p = Paddle::new(Side::Right);
    p.step(PaddleInput { up: true, down: false }, 16);
    // 450_000 milli-pixels per second for 16 ms.
    assert_eq!(p.y, 7_200);
    p.step(PaddleInput { up: false, down: true }, 16);
    assert_eq!(p.y, 0);
}

#[test]
fn both_keys_held_cancel_out() {
    let mut state = MatchState::new();
    let input = MatchInput {
        left: PaddleInput { up: true, down: true },
        right: PaddleInput { up: false, down: false },
    };
    state.tick_with(input, 16, 16, 1, 1);
    assert_eq!(state.paddle_left.y, 0);
    assert_eq!(state.paddle_right.y, 0);
}

#[test]
fn dead_ball_is_pinned_to_center() {
    let mut b = Ball::new(Vec2I { x: 123, y: -456 });
    b.advance(16, 100);
    assert_eq!(b.pos, Vec2I { x: 0, y: 0 });
    assert_eq!(b.vel, Vec2I { x: 0, y: 0 });
    b.advance(16, 200);
    assert_eq!(b.pos, Vec2I { x: 0, y: 0 });
}

#[test]
fn first_tick_serves_from_center() {
    // The match starts with a dead ball at (0, -50): one tick with no
    // input pins it to the center and re-serves it diagonally.
    let mut state = MatchState::new();
    assert_eq!(state.ball.pos, Vec2I { x: 0, y: BALL_START_Y });
    let line = state.tick_with(released(), 16, 16, 1, -1);
    assert_eq!(state.ball.pos, Vec2I { x: 0, y: 0 });
    assert_eq!(state.ball.vel, Vec2I { x: SERVE_SPEED, y: -SERVE_SPEED });
    assert_eq!(state.scoreboard.score_left, 0);
    assert_eq!(state.scoreboard.score_right, 0);
    assert_eq!(line, "0 - 0");
}

#[test]
fn random_serve_is_one_of_four_diagonals() {
    for _ in 0..20 {
        let mut state = MatchState::new();
        state.tick(released(), 16, 16);
        assert_eq!(state.ball.vel.x.abs(), SERVE_SPEED);
        assert_eq!(state.ball.vel.y.abs(), SERVE_SPEED);
        assert_eq!(state.ball.pos, Vec2I { x: 0, y: 0 });
    }
}

#[test]
fn right_goal_scores_for_left_player_and_kills_ball() {
    let mut state = MatchState::new();
    state.ball = live_ball(440_000, 0, SERVE_SPEED, SERVE_SPEED);
    let line = state.tick_with(released(), 0, 0, 1, 1);
    assert_eq!(state.scoreboard.score_left, 1);
    assert_eq!(state.scoreboard.score_right, 0);
    assert_eq!(state.ball.vel, Vec2I { x: 0, y: 0 });
    assert_eq!(line, "1 - 0");
    // The serve timer restarted the rally clock on the dead ball.
    assert_eq!(state.ball.rally_start_ms, 0);
}

#[test]
fn left_goal_scores_for_right_player() {
    let mut state = MatchState::new();
    state.ball = live_ball(-440_000, 0, -SERVE_SPEED, SERVE_SPEED);
    let line = state.tick_with(released(), 0, 0, 1, 1);
    assert_eq!(state.scoreboard.score_left, 0);
    assert_eq!(state.scoreboard.score_right, 1);
    assert_eq!(state.ball.vel, Vec2I { x: 0, y: 0 });
    assert_eq!(line, "0 - 1");
}

#[test]
fn top_wall_reflects_downward_only() {
    let mut state = MatchState::new();
    state.ball = live_ball(0, 310_000, SERVE_SPEED, SERVE_SPEED);
    state.tick_with(released(), 0, 0, 1, 1);
    // Moving up into the top wall: the y velocity flips, x is kept.
    assert_eq!(state.ball.vel, Vec2I { x: SERVE_SPEED, y: -SERVE_SPEED });
    assert_eq!(state.scoreboard.score_left, 0);
    assert_eq!(state.scoreboard.score_right, 0);
}

#[test]
fn no_reflection_when_moving_away_from_wall() {
    let mut state = MatchState::new();
    // Overlapping the top wall but already moving down: no double bounce.
    state.ball = live_ball(0, 310_000, SERVE_SPEED, -SERVE_SPEED);
    state.tick_with(released(), 0, 0, 1, 1);
    assert_eq!(state.ball.vel, Vec2I { x: SERVE_SPEED, y: -SERVE_SPEED });
}

#[test]
fn ramp_multiplier_is_one_at_rally_start() {
    let mut b = live_ball(0, 0, SERVE_SPEED, SERVE_SPEED);
    // Zero elapsed rally time, 200 ms of frame time: the ball moves by
    // exactly velocity * delta with no speed-up.
    b.advance(200, 0);
    assert_eq!(b.pos, Vec2I { x: 60_000, y: 60_000 });
}

#[test]
fn ramp_multiplier_grows_with_rally_time() {
    let mut b = live_ball(0, 0, SERVE_SPEED, SERVE_SPEED);
    // Ten seconds into the rally the multiplier is 10_000^2/50_000 + 1 = 2001.
    b.advance(200, 10_000);
    assert_eq!(b.pos, Vec2I { x: 120_060_000, y: 120_060_000 });
}

#[test]
fn frame_time_is_clamped_before_the_ball_moves() {
    let mut b = live_ball(0, 0, SERVE_SPEED, SERVE_SPEED);
    // A 5-second frame is clamped to 200 ms, so the ball cannot tunnel.
    b.advance(5_000, 0);
    assert_eq!(b.pos, Vec2I { x: 60_000, y: 60_000 });
}

#[test]
fn collide_reports_the_struck_side() {
    let wall = Aabb { center: Vec2I { x: 0, y: 0 }, size: Vec2I { x: 60, y: 60 } };
    let from_left = Aabb { center: Vec2I { x: -35, y: 0 }, size: Vec2I { x: 20, y: 20 } };
    assert_eq!(collide(&from_left, &wall), Some(Edge::Left));
    let from_right = Aabb { center: Vec2I { x: 35, y: 0 }, size: Vec2I { x: 20, y: 20 } };
    assert_eq!(collide(&from_right, &wall), Some(Edge::Right));
    let from_below = Aabb { center: Vec2I { x: 0, y: -35 }, size: Vec2I { x: 20, y: 20 } };
    assert_eq!(collide(&from_below, &wall), Some(Edge::Bottom));
    let from_above = Aabb { center: Vec2I { x: 0, y: 35 }, size: Vec2I { x: 20, y: 20 } };
    assert_eq!(collide(&from_above, &wall), Some(Edge::Top));
}

#[test]
fn collide_misses_and_containment_give_none() {
    let wall = Aabb { center: Vec2I { x: 0, y: 0 }, size: Vec2I { x: 60, y: 60 } };
    let far = Aabb { center: Vec2I { x: 200, y: 0 }, size: Vec2I { x: 20, y: 20 } };
    assert_eq!(collide(&far, &wall), None);
    // Exactly touching edges do not overlap strictly.
    let touching = Aabb { center: Vec2I { x: 40, y: 0 }, size: Vec2I { x: 20, y: 20 } };
    assert_eq!(collide(&touching, &wall), None);
    let inside = Aabb { center: Vec2I { x: 0, y: 0 }, size: Vec2I { x: 20, y: 20 } };
    assert_eq!(collide(&inside, &wall), None);
}

#[test]
fn collide_tie_breaks_toward_the_x_axis() {
    let wall = Aabb { center: Vec2I { x: 0, y: 0 }, size: Vec2I { x: 60, y: 60 } };
    // Equal penetration on both axes: the x-axis verdict wins.
    let corner = Aabb { center: Vec2I { x: -35, y: -35 }, size: Vec2I { x: 20, y: 20 } };
    assert_eq!(collide(&corner, &wall), Some(Edge::Left));
    // Strictly smaller y penetration: the y-axis verdict wins.
    let shallow_y = Aabb { center: Vec2I { x: -35, y: -38 }, size: Vec2I { x: 20, y: 20 } };
    assert_eq!(collide(&shallow_y, &wall), Some(Edge::Bottom));
}

#[test]
fn score_line_prints_left_score_first() {
    let sb = Scoreboard { score_left: 12, score_right: 3 };
    assert_eq!(score_line(&sb), "12 - 3");
    let zero = Scoreboard { score_left: 0, score_right: 0 };
    assert_eq!(score_line(&zero), "0 - 0");
    let big = Scoreboard { score_left: 105, score_right: 99 };
    assert_eq!(score_line(&big), "105 - 99");
}

#[test]
fn paddle_blocks_and_reflects_an_incoming_ball() {
    let mut state = MatchState::new();
    // Just touching the left paddle's right face, moving left.
    state.ball = live_ball(-400_000, 0, -SERVE_SPEED, SERVE_SPEED);
    state.tick_with(released(), 0, 0, 1, 1);
    assert_eq!(state.ball.vel, Vec2I { x: SERVE_SPEED, y: SERVE_SPEED });
    assert_eq!(state.scoreboard.score_left, 0);
    assert_eq!(state.scoreboard.score_right, 0);
}

#[test]
fn scores_never_decrease_over_many_ticks() {
    let mut state = MatchState::new();
    let mut last = (0u32, 0u32);
    let mut now: u64 = 0;
    for i in 0..200 {
        now += 16;
        let input = if i % 3 == 0 {
            MatchInput {
                left: PaddleInput { up: true, down: false },
                right: PaddleInput { up: false, down: true },
            }
        } else {
            released()
        };
        state.tick(input, 16, now);
        let sb = (state.scoreboard.score_left, state.scoreboard.score_right);
        assert!(sb.0 >= last.0 && sb.1 >= last.1);
        last = sb;
        assert!(state.paddle_left.y.abs() <= PADDLE_BOUND);
        assert!(state.paddle_right.y.abs() <= PADDLE_BOUND);
    }
}
