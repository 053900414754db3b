//! Ball kinematics: per-tick advancement with a rally-time speed ramp.
//!
//! A live ball (nonzero velocity) advances by `velocity * delta * m`,
//! where the ramp multiplier `m = elapsed_ms^2 / (ramp_rate * 1000) + 1`
//! grows with the time since the rally started.  A dead ball (zero
//! velocity, waiting to be served) is pinned to the center of the field.
//! All arithmetic is exact over milli-pixels; the multiplier is carried
//! as the rational `(elapsed_ms^2 + ramp_rate * 1000) / (ramp_rate * 1000)`.

use vstd::arithmetic::div_mod::{lemma_div_is_ordered, lemma_div_pos_is_pos};
use vstd::prelude::*;

use crate::geometry::{Aabb, Vec2I, COORD_MAX};

verus! {

/// Serve speed on each axis, in milli-pixels per second.
pub const SERVE_SPEED: i64 = 300_000;

/// Ramp rate: the number of seconds of rally after which the elapsed
/// time's square equals the ramp denominator.
pub const RAMP_RATE: i64 = 50;

/// Denominator of the ramp multiplier: `RAMP_RATE * 1000`.
pub const RAMP_DEN: i64 = RAMP_RATE * 1000;

/// Denominator of a per-tick axis displacement: the ramp denominator
/// times the 1000 that converts milliseconds to seconds.
pub const MOVE_DEN: i64 = RAMP_DEN * 1000;

/// A frame time is clamped to this many milliseconds before the ball
/// moves, so a slow frame cannot tunnel the ball through a collider.
pub const MAX_DELTA_MS: u64 = 200;

/// Upper bound on the rally time fed to the ramp, so its square fits
/// comfortably in the arithmetic below.
pub const ELAPSED_MS_MAX: u64 = 10_000_000;

/// Largest ramp numerator: `ELAPSED_MS_MAX^2 + RAMP_DEN`.
pub const NUMER_MAX: u64 = ELAPSED_MS_MAX * ELAPSED_MS_MAX + 50_000;

/// Ball edge length in milli-pixels.
pub const BALL_SIZE: i64 = 30_000;

/// Largest one-tick displacement magnitude on one axis:
/// `SERVE_SPEED * MAX_DELTA_MS * NUMER_MAX / MOVE_DEN`, rounded down.
pub const DISP_MAX: i64 = 120_000_000_060_000;

/// The ball: position and velocity in milli-pixels, the constant ramp
/// rate, and the time at which the current rally started.
#[derive(Clone, Copy, Debug, PartialEq, Eq, Structural)]
pub struct Ball {
    pub pos: Vec2I,
    pub vel: Vec2I,
    pub ramp_rate: i64,
    pub rally_start_ms: u64,
}

/// `delta_ms` clamped to at most `MAX_DELTA_MS`.
pub open spec fn clamp_delta(delta_ms: int) -> int {
    if delta_ms > MAX_DELTA_MS {
        MAX_DELTA_MS as int
    } else {
        delta_ms
    }
}

/// Numerator of the ramp multiplier after `elapsed_ms` milliseconds of
/// rally; the denominator is `RAMP_DEN`, so the multiplier starts at
/// exactly 1 and grows with the square of the elapsed time.
pub open spec fn ramp_numer(elapsed_ms: int) -> int {
    elapsed_ms * elapsed_ms + RAMP_DEN
}

/// Displacement of one axis in one tick: `v * delta_ms * m / 1000` with
/// the ramp multiplier `m`, rounded toward zero.
pub open spec fn axis_disp(v: int, delta_ms: int, elapsed_ms: int) -> int {
    if v >= 0 {
        (v * delta_ms * ramp_numer(elapsed_ms)) / (MOVE_DEN as int)
    } else {
        -(((-v) * delta_ms * ramp_numer(elapsed_ms)) / (MOVE_DEN as int))
    }
}

/// At the start of a rally the ramp multiplier is exactly 1: the
/// displacement over a tick is the plain `velocity * delta` product,
/// with no speed-up immediately after a serve.
pub proof fn lemma_no_ramp_at_rally_start(v: int, delta_ms: int)
    requires
        delta_ms >= 0,
    ensures
        ramp_numer(0) == RAMP_DEN,
        axis_disp(v, delta_ms, 0) == if v >= 0 {
            (v * delta_ms) / 1000
        } else {
            -(((-v) * delta_ms) / 1000)
        },
{
    assert(ramp_numer(0) == RAMP_DEN);
    let m = if v >= 0 {
        v * delta_ms
    } else {
        (-v) * delta_ms
    };
    assert(m >= 0) by (nonlinear_arith)
        requires
            delta_ms >= 0,
            m == if v >= 0 {
                v * delta_ms
            } else {
                (-v) * delta_ms
            },
    ;
    assert(m * RAMP_DEN == RAMP_DEN * m) by (nonlinear_arith);
    vstd::arithmetic::div_mod::lemma_div_denominator(m * RAMP_DEN, RAMP_DEN as int, 1000);
    vstd::arithmetic::div_mod::lemma_div_multiples_vanish(m, RAMP_DEN as int);
    assert((m * RAMP_DEN) / (MOVE_DEN as int) == m / 1000);
}

/// Magnitude of one axis displacement, computed exactly in 128 bits.
fn axis_move_mag(mag: u64, delta_ms: u64, numer: u64) -> (r: u64)
    requires
        mag <= SERVE_SPEED,
        delta_ms <= MAX_DELTA_MS,
        numer <= NUMER_MAX,
    ensures
        r == (mag * delta_ms * numer) / (MOVE_DEN as int),
        r <= DISP_MAX,
{
    proof {
        assert(0 <= mag * delta_ms <= SERVE_SPEED * MAX_DELTA_MS) by (nonlinear_arith)
            requires
                0 <= mag <= SERVE_SPEED,
                0 <= delta_ms <= MAX_DELTA_MS,
        ;
    }
    let pair: u128 = (mag as u128) * (delta_ms as u128);
    proof {
        assert(0 <= pair * numer <= 60_000_000 * NUMER_MAX) by (nonlinear_arith)
            requires
                0 <= pair <= 60_000_000,
                0 <= numer <= NUMER_MAX,
        ;
    }
    let wide: u128 = pair * (numer as u128);
    proof {
        lemma_div_is_ordered(wide as int, 60_000_000 * NUMER_MAX, MOVE_DEN as int);
        lemma_div_pos_is_pos(wide as int, MOVE_DEN as int);
        assert((60_000_000 * NUMER_MAX) as int / (MOVE_DEN as int) == DISP_MAX as int);
    }
    let q: u128 = wide / 50_000_000u128;
    q as u64
}

impl Ball {
    /// The ball is well formed: both velocity components bounded by the
    /// serve speed, the components zero only together (a dead ball has
    /// velocity exactly `(0, 0)`), and the fixed ramp rate.
    pub open spec fn wf(self) -> bool {
        &&& -SERVE_SPEED <= self.vel.x <= SERVE_SPEED
        &&& -SERVE_SPEED <= self.vel.y <= SERVE_SPEED
        &&& (self.vel.x == 0 <==> self.vel.y == 0)
        &&& self.ramp_rate == RAMP_RATE
    }

    /// The ball is dead: it sits between points, waiting to be served.
    pub open spec fn is_dead(self) -> bool {
        self.vel.x == 0 && self.vel.y == 0
    }

    /// A dead ball at the given position.
    pub fn new(pos: Vec2I) -> (r: Ball)
        ensures
            r == (Ball { pos, vel: Vec2I { x: 0i64, y: 0i64 }, ramp_rate: RAMP_RATE, rally_start_ms: 0u64 }),
            r.wf(),
            r.is_dead(),
    {
        Ball { pos, vel: Vec2I { x: 0, y: 0 }, ramp_rate: RAMP_RATE, rally_start_ms: 0 }
    }

    /// The ball's bounding box.
    pub open spec fn spec_bbox(self) -> Aabb {
        Aabb { center: self.pos, size: Vec2I { x: BALL_SIZE, y: BALL_SIZE } }
    }

    /// The ball's bounding box.
    pub fn bbox(&self) -> (r: Aabb)
        ensures
            r == self.spec_bbox(),
    {
        Aabb { center: self.pos, size: Vec2I { x: BALL_SIZE, y: BALL_SIZE } }
    }

    /// Advance the ball for one tick.  A live ball moves by its velocity
    /// times the clamped frame time times the ramp multiplier; a dead
    /// ball is pinned to the center `(0, 0)` until it is re-served.
    pub fn advance(&mut self, delta_ms: u64, now_ms: u64)
        requires
            old(self).wf(),
            old(self).rally_start_ms <= now_ms,
            now_ms - old(self).rally_start_ms <= ELAPSED_MS_MAX,
            -COORD_MAX <= old(self).pos.x <= COORD_MAX,
            -COORD_MAX <= old(self).pos.y <= COORD_MAX,
        ensures
            final(self).vel == old(self).vel,
            final(self).ramp_rate == old(self).ramp_rate,
            final(self).rally_start_ms == old(self).rally_start_ms,
            final(self).wf(),
            old(self).vel.y == 0 ==> final(self).pos == (Vec2I { x: 0i64, y: 0i64 }),
            old(self).vel.y != 0 ==> {
                let d = clamp_delta(delta_ms as int);
                let e = now_ms - old(self).rally_start_ms;
                &&& final(self).pos.x == old(self).pos.x + axis_disp(old(self).vel.x as int, d, e)
                &&& final(self).pos.y == old(self).pos.y + axis_disp(old(self).vel.y as int, d, e)
            },
            old(self).pos.x - DISP_MAX <= final(self).pos.x <= old(self).pos.x + DISP_MAX
                || final(self).pos.x == 0,
            old(self).pos.y - DISP_MAX <= final(self).pos.y <= old(self).pos.y + DISP_MAX
                || final(self).pos.y == 0,
    {
        if self.vel.y != 0 {
            let d: u64 = if delta_ms > MAX_DELTA_MS {
                MAX_DELTA_MS
            } else {
                delta_ms
            };
            let elapsed: u64 = now_ms - self.rally_start_ms;
            proof {
                assert(elapsed * elapsed <= ELAPSED_MS_MAX * ELAPSED_MS_MAX) by (nonlinear_arith)
                    requires
                        0 <= elapsed <= ELAPSED_MS_MAX,
                ;
            }
            let numer: u64 = elapsed * elapsed + 50_000;
            let mx: u64 = if self.vel.x >= 0 {
                self.vel.x as u64
            } else {
                (-self.vel.x) as u64
            };
            let my: u64 = if self.vel.y >= 0 {
                self.vel.y as u64
            } else {
                (-self.vel.y) as u64
            };
            let qx: u64 = axis_move_mag(mx, d, numer);
            let qy: u64 = axis_move_mag(my, d, numer);
            let dx: i64 = if self.vel.x >= 0 {
                qx as i64
            } else {
                -(qx as i64)
            };
            let dy: i64 = if self.vel.y >= 0 {
                qy as i64
            } else {
                -(qy as i64)
            };
            self.pos = Vec2I { x: self.pos.x + dx, y: self.pos.y + dy };
        } else {
            self.pos = Vec2I { x: 0, y: 0 };
        }
    }
}

} // verus!
