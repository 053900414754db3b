//! The match: simulation state and the fixed-order tick.
//!
//! One tick runs, in order: paddle movement, ball advancement, collision
//! resolution with scoring and the serve, the serve timer, and finally
//! the scoreboard line for the display.

use vstd::prelude::*;

use crate::ball::{Ball, ELAPSED_MS_MAX, SERVE_SPEED};
use crate::geometry::{Aabb, Vec2I};
use crate::paddle::{direction, Paddle, PaddleInput, Side, DELTA_MS_MAX};
use crate::scoring::{
    collision_step, collision_step_with, reset_rally_timer, resolve_all, Collider, ColliderKind,
    Scoreboard,
};
use crate::text::{score_line, spec_score_line};

verus! {

/// Play-field width in milli-pixels.
pub const FIELD_W: i64 = 900_000;

/// Play-field height in milli-pixels.
pub const FIELD_H: i64 = 600_000;

/// Thickness of the boundary walls in milli-pixels.
pub const WALL_THICKNESS: i64 = 50_000;

/// Paddle sprite width in milli-pixels.
pub const PADDLE_W: i64 = 30_000;

/// Paddle sprite height in milli-pixels.
pub const PADDLE_H: i64 = 120_000;

/// Horizontal distance of each paddle's center from the field center.
pub const PADDLE_X: i64 = 425_000;

/// Horizontal distance of each goal wall's center from the field center.
pub const GOAL_X: i64 = 475_000;

/// Vertical distance of the top and bottom walls' centers from the
/// field center.
pub const WALL_Y: i64 = 325_000;

/// Height of the two goal walls.
pub const GOAL_H: i64 = FIELD_H + WALL_THICKNESS;

/// Width of the top and bottom walls.
pub const WALL_W: i64 = FIELD_W + WALL_THICKNESS;

/// Vertical position the ball starts at.
pub const BALL_START_Y: i64 = -50_000;

/// Ball positions handed to a tick must stay within this bound, which
/// leaves room for one maximal displacement below `COORD_MAX`.
pub const POS_LIMIT: i64 = 4_000_000_000_000_000;

/// The key state of both paddles for one tick.
#[derive(Clone, Copy, Debug, PartialEq, Eq, Structural)]
pub struct MatchInput {
    pub left: PaddleInput,
    pub right: PaddleInput,
}

impl MatchInput {
    /// No key held on either side.
    pub fn released() -> (r: MatchInput)
        ensures
            r == (MatchInput {
                left: PaddleInput { up: false, down: false },
                right: PaddleInput { up: false, down: false },
            }),
    {
        MatchInput { left: PaddleInput::released(), right: PaddleInput::released() }
    }
}

/// The whole simulation state of one match.
#[derive(Clone, Copy, Debug, PartialEq, Eq, Structural)]
pub struct MatchState {
    pub paddle_left: Paddle,
    pub paddle_right: Paddle,
    pub ball: Ball,
    pub scoreboard: Scoreboard,
}

/// The colliders the ball is tested against, in their fixed iteration
/// order: the two paddles, the two goal walls, then the bottom and top
/// walls.  The paddle boxes track the paddles' live positions.
pub open spec fn spec_colliders(left: Paddle, right: Paddle) -> Seq<Collider> {
    seq![
        Collider {
            kind: ColliderKind::Paddle,
            bbox: Aabb {
                center: Vec2I { x: (-PADDLE_X) as i64, y: left.y },
                size: Vec2I { x: PADDLE_W, y: PADDLE_H },
            },
        },
        Collider {
            kind: ColliderKind::Paddle,
            bbox: Aabb {
                center: Vec2I { x: PADDLE_X, y: right.y },
                size: Vec2I { x: PADDLE_W, y: PADDLE_H },
            },
        },
        Collider {
            kind: ColliderKind::LeftGoal,
            bbox: Aabb {
                center: Vec2I { x: (-GOAL_X) as i64, y: 0i64 },
                size: Vec2I { x: WALL_THICKNESS, y: GOAL_H },
            },
        },
        Collider {
            kind: ColliderKind::RightGoal,
            bbox: Aabb {
                center: Vec2I { x: GOAL_X, y: 0i64 },
                size: Vec2I { x: WALL_THICKNESS, y: GOAL_H },
            },
        },
        Collider {
            kind: ColliderKind::Solid,
            bbox: Aabb {
                center: Vec2I { x: 0i64, y: (-WALL_Y) as i64 },
                size: Vec2I { x: WALL_W, y: WALL_THICKNESS },
            },
        },
        Collider {
            kind: ColliderKind::Solid,
            bbox: Aabb {
                center: Vec2I { x: 0i64, y: WALL_Y },
                size: Vec2I { x: WALL_W, y: WALL_THICKNESS },
            },
        },
    ]
}

/// Build the collider list for the given paddle positions.
pub fn colliders(left: &Paddle, right: &Paddle) -> (r: Vec<Collider>)
    requires
        left.wf(),
        right.wf(),
    ensures
        r@ == spec_colliders(*left, *right),
        forall|i: int| 0 <= i < r@.len() ==> (#[trigger] r@[i]).bbox.wf(),
{
    let mut v: Vec<Collider> = Vec::new();
    v.push(Collider {
        kind: ColliderKind::Paddle,
        bbox: Aabb {
            center: Vec2I { x: -PADDLE_X, y: left.y },
            size: Vec2I { x: PADDLE_W, y: PADDLE_H },
        },
    });
    v.push(Collider {
        kind: ColliderKind::Paddle,
        bbox: Aabb {
            center: Vec2I { x: PADDLE_X, y: right.y },
            size: Vec2I { x: PADDLE_W, y: PADDLE_H },
        },
    });
    v.push(Collider {
        kind: ColliderKind::LeftGoal,
        bbox: Aabb {
            center: Vec2I { x: -GOAL_X, y: 0 },
            size: Vec2I { x: WALL_THICKNESS, y: GOAL_H },
        },
    });
    v.push(Collider {
        kind: ColliderKind::RightGoal,
        bbox: Aabb {
            center: Vec2I { x: GOAL_X, y: 0 },
            size: Vec2I { x: WALL_THICKNESS, y: GOAL_H },
        },
    });
    v.push(Collider {
        kind: ColliderKind::Solid,
        bbox: Aabb {
            center: Vec2I { x: 0, y: -WALL_Y },
            size: Vec2I { x: WALL_W, y: WALL_THICKNESS },
        },
    });
    v.push(Collider {
        kind: ColliderKind::Solid,
        bbox: Aabb {
            center: Vec2I { x: 0, y: WALL_Y },
            size: Vec2I { x: WALL_W, y: WALL_THICKNESS },
        },
    });
    proof {
        assert(v@ =~= spec_colliders(*left, *right));
    }
    v
}

impl MatchState {
    /// The match state is well formed: both paddles on their own side
    /// and inside the play range, and a well-formed ball.
    pub open spec fn wf(self) -> bool {
        &&& self.paddle_left.wf()
        &&& self.paddle_right.wf()
        &&& self.paddle_left.side == Side::Left
        &&& self.paddle_right.side == Side::Right
        &&& self.ball.wf()
    }

    /// The state at match start: centered paddles, zero scores, and a
    /// dead ball below the center, waiting for the first serve.
    pub fn new() -> (r: MatchState)
        ensures
            r.wf(),
            r.paddle_left == (Paddle { speed: crate::paddle::PADDLE_SPEED, side: Side::Left, y: 0i64 }),
            r.paddle_right == (Paddle {
                speed: crate::paddle::PADDLE_SPEED,
                side: Side::Right,
                y: 0i64,
            }),
            r.ball.pos == (Vec2I { x: 0i64, y: BALL_START_Y }),
            r.ball.is_dead(),
            r.ball.rally_start_ms == 0,
            r.scoreboard == (Scoreboard { score_left: 0u32, score_right: 0u32 }),
    {
        MatchState {
            paddle_left: Paddle::new(Side::Left),
            paddle_right: Paddle::new(Side::Right),
            ball: Ball::new(Vec2I { x: 0, y: BALL_START_Y }),
            scoreboard: Scoreboard::new(),
        }
    }

    /// A tick may run only under these machine limits: a bounded frame
    /// time, a rally time that fits the ramp arithmetic, bounded ball
    /// coordinates, and scores with room for the tick's colliders.
    pub open spec fn tick_enabled(self, delta_ms: u64, now_ms: u64) -> bool {
        &&& delta_ms <= DELTA_MS_MAX
        &&& self.ball.rally_start_ms <= now_ms
        &&& now_ms - self.ball.rally_start_ms <= ELAPSED_MS_MAX
        &&& -POS_LIMIT <= self.ball.pos.x <= POS_LIMIT
        &&& -POS_LIMIT <= self.ball.pos.y <= POS_LIMIT
        &&& self.scoreboard.score_left + 6 <= u32::MAX
        &&& self.scoreboard.score_right + 6 <= u32::MAX
    }

    /// One simulation tick with the serve signs handed in, so the whole
    /// step is deterministic.  In order: both paddles move under their
    /// key state and are clamped to the play range; the ball advances
    /// (or is pinned to the center while dead); the collision pass
    /// re-serves a dead ball with velocity `(sx * S, sy * S)`, reflects
    /// and scores; the serve timer restarts the rally clock while the
    /// ball is dead; and the scoreboard line is rendered.
    pub fn tick_with(
        &mut self,
        input: MatchInput,
        delta_ms: u64,
        now_ms: u64,
        sx: i64,
        sy: i64,
    ) -> (line: String)
        requires
            old(self).wf(),
            old(self).tick_enabled(delta_ms, now_ms),
            sx == 1 || sx == -1,
            sy == 1 || sy == -1,
        ensures
            final(self).wf(),
            final(self).paddle_left.y == crate::paddle::clamp_to_bound(
                old(self).paddle_left.y + direction(input.left) * (
                (old(self).paddle_left.speed * delta_ms) / 1000),
            ),
            final(self).paddle_right.y == crate::paddle::clamp_to_bound(
                old(self).paddle_right.y + direction(input.right) * (
                (old(self).paddle_right.speed * delta_ms) / 1000),
            ),
            ({
                let moved = moved_ball(old(self).ball, delta_ms, now_ms);
                let v0x = if old(self).ball.vel.x == 0 {
                    sx * SERVE_SPEED
                } else {
                    old(self).ball.vel.x as int
                };
                let v0y = if old(self).ball.vel.x == 0 {
                    sy * SERVE_SPEED
                } else {
                    old(self).ball.vel.y as int
                };
                let r = resolve_all(
                    moved.spec_bbox(),
                    v0x,
                    v0y,
                    old(self).scoreboard.score_left as int,
                    old(self).scoreboard.score_right as int,
                    spec_colliders(final(self).paddle_left, final(self).paddle_right),
                );
                &&& final(self).ball.pos == moved.pos
                &&& final(self).ball.vel.x == r.0
                &&& final(self).ball.vel.y == r.1
                &&& final(self).scoreboard.score_left == r.2
                &&& final(self).scoreboard.score_right == r.3
                &&& final(self).ball.rally_start_ms == if r.0 == 0 {
                    now_ms
                } else {
                    old(self).ball.rally_start_ms
                }
            }),
            final(self).scoreboard.score_left >= old(self).scoreboard.score_left,
            final(self).scoreboard.score_right >= old(self).scoreboard.score_right,
            line@ == spec_score_line(final(self).scoreboard),
    {
        self.paddle_left.step(input.left, delta_ms);
        self.paddle_right.step(input.right, delta_ms);
        self.ball.advance(delta_ms, now_ms);
        let cols = colliders(&self.paddle_left, &self.paddle_right);
        collision_step_with(&mut self.ball, &mut self.scoreboard, &cols, sx, sy);
        reset_rally_timer(&mut self.ball, now_ms);
        score_line(&self.scoreboard)
    }

    /// One simulation tick, drawing the serve signs at random.  The
    /// paddles, the ball's position, the serve timer and the scoreboard
    /// line behave exactly as in `tick_with`; a live ball's collision
    /// outcome is deterministic, while a dead ball is re-served with one
    /// of the four diagonal velocities before the collision pass.
    pub fn tick(&mut self, input: MatchInput, delta_ms: u64, now_ms: u64) -> (line: String)
        requires
            old(self).wf(),
            old(self).tick_enabled(delta_ms, now_ms),
        ensures
            final(self).wf(),
            final(self).paddle_left.y == crate::paddle::clamp_to_bound(
                old(self).paddle_left.y + direction(input.left) * (
                (old(self).paddle_left.speed * delta_ms) / 1000),
            ),
            final(self).paddle_right.y == crate::paddle::clamp_to_bound(
                old(self).paddle_right.y + direction(input.right) * (
                (old(self).paddle_right.speed * delta_ms) / 1000),
            ),
            final(self).ball.pos == moved_ball(old(self).ball, delta_ms, now_ms).pos,
            !old(self).ball.is_dead() ==> ({
                let r = resolve_all(
                    moved_ball(old(self).ball, delta_ms, now_ms).spec_bbox(),
                    old(self).ball.vel.x as int,
                    old(self).ball.vel.y as int,
                    old(self).scoreboard.score_left as int,
                    old(self).scoreboard.score_right as int,
                    spec_colliders(final(self).paddle_left, final(self).paddle_right),
                );
                &&& final(self).ball.vel.x == r.0
                &&& final(self).ball.vel.y == r.1
                &&& final(self).scoreboard.score_left == r.2
                &&& final(self).scoreboard.score_right == r.3
            }),
            old(self).ball.is_dead() ==> (exists|sx: int, sy: int|
                {
                    &&& (sx == 1 || sx == -1)
                    &&& (sy == 1 || sy == -1)
                    &&& ({
                        let r = #[trigger] resolve_all(
                            moved_ball(old(self).ball, delta_ms, now_ms).spec_bbox(),
                            sx * SERVE_SPEED,
                            sy * SERVE_SPEED,
                            old(self).scoreboard.score_left as int,
                            old(self).scoreboard.score_right as int,
                            spec_colliders(final(self).paddle_left, final(self).paddle_right),
                        );
                        &&& final(self).ball.vel.x == r.0
                        &&& final(self).ball.vel.y == r.1
                        &&& final(self).scoreboard.score_left == r.2
                        &&& final(self).scoreboard.score_right == r.3
                    })
                }),
            final(self).ball.rally_start_ms == if final(self).ball.vel.x == 0 {
                now_ms
            } else {
                old(self).ball.rally_start_ms
            },
            final(self).scoreboard.score_left >= old(self).scoreboard.score_left,
            final(self).scoreboard.score_right >= old(self).scoreboard.score_right,
            line@ == spec_score_line(final(self).scoreboard),
    {
        self.paddle_left.step(input.left, delta_ms);
        self.paddle_right.step(input.right, delta_ms);
        self.ball.advance(delta_ms, now_ms);
        let cols = colliders(&self.paddle_left, &self.paddle_right);
        collision_step(&mut self.ball, &mut self.scoreboard, &cols);
        reset_rally_timer(&mut self.ball, now_ms);
        score_line(&self.scoreboard)
    }
}

/// The ball as the movement stage leaves it: pinned to the center while
/// dead, advanced by the ramped displacement while live.
pub open spec fn moved_ball(b: Ball, delta_ms: u64, now_ms: u64) -> Ball {
    if b.vel.y == 0 {
        Ball { pos: Vec2I { x: 0i64, y: 0i64 }, ..b }
    } else {
        let d = crate::ball::clamp_delta(delta_ms as int);
        let e = now_ms - b.rally_start_ms;
        Ball {
            pos: Vec2I {
                x: (b.pos.x + crate::ball::axis_disp(b.vel.x as int, d, e)) as i64,
                y: (b.pos.y + crate::ball::axis_disp(b.vel.y as int, d, e)) as i64,
            },
            ..b
        }
    }
}

} // verus!
