//! Paddle input handling: per-tick vertical movement with clamping.
//!
//! Each paddle has two designated keys.  The held keys give a direction in
//! `{-1, 0, +1}`; the paddle's vertical position advances by
//! `direction * speed * delta` and is then clamped to the symmetric range
//! `[-PADDLE_BOUND, PADDLE_BOUND]` — half the play-field height minus half
//! the paddle height.

use vstd::prelude::*;

verus! {

/// Half the play-field height (300 000 milli-pixels) minus half the paddle
/// height (60 000 milli-pixels): the paddle center stays in
/// `[-PADDLE_BOUND, PADDLE_BOUND]`.
pub const PADDLE_BOUND: i64 = 240_000;

/// Vertical paddle speed in milli-pixels per second.
pub const PADDLE_SPEED: i64 = 450_000;

/// Upper bound on a paddle's configured speed, so the per-tick
/// displacement fits in `i64`.
pub const PADDLE_SPEED_MAX: i64 = 1_000_000;

/// Upper bound on the frame time handed to one tick, in milliseconds.
pub const DELTA_MS_MAX: u64 = 1_000_000;

/// Which side of the field a paddle defends.
#[derive(Clone, Copy, Debug, PartialEq, Eq, Structural)]
pub enum Side {
    Left,
    Right,
}

/// A paddle: configured speed (milli-pixels per second), defended side,
/// and current vertical center position (milli-pixels).
#[derive(Clone, Copy, Debug, PartialEq, Eq, Structural)]
pub struct Paddle {
    pub speed: i64,
    pub side: Side,
    pub y: i64,
}

/// The held state of one paddle's two designated keys for one tick.
#[derive(Clone, Copy, Debug, PartialEq, Eq, Structural)]
pub struct PaddleInput {
    pub up: bool,
    pub down: bool,
}

impl PaddleInput {
    /// No key held.
    pub fn released() -> (r: PaddleInput)
        ensures
            r == (PaddleInput { up: false, down: false }),
    {
        PaddleInput { up: false, down: false }
    }
}

/// Direction derived from the held keys: the up key counts `+1`, the down
/// key `-1`; both or neither held gives `0`.
pub open spec fn direction(input: PaddleInput) -> int {
    (if input.up {
        1int
    } else {
        0int
    }) + (if input.down {
        -1int
    } else {
        0int
    })
}

/// `v` clamped to `[-PADDLE_BOUND, PADDLE_BOUND]`.
pub open spec fn clamp_to_bound(v: int) -> int {
    if v > PADDLE_BOUND {
        PADDLE_BOUND as int
    } else if v < -PADDLE_BOUND {
        -PADDLE_BOUND as int
    } else {
        v
    }
}

impl Paddle {
    /// The paddle is well formed: non-negative bounded speed and a
    /// position inside the play range.
    pub open spec fn wf(self) -> bool {
        &&& 0 <= self.speed <= PADDLE_SPEED_MAX
        &&& -PADDLE_BOUND <= self.y <= PADDLE_BOUND
    }

    /// A paddle at the vertical center of its side.
    pub fn new(side: Side) -> (r: Paddle)
        ensures
            r == (Paddle { speed: PADDLE_SPEED, side, y: 0i64 }),
            r.wf(),
    {
        Paddle { speed: PADDLE_SPEED, side, y: 0 }
    }

    /// Advance the paddle for one tick of `delta_ms` milliseconds under
    /// the given key state, clamping the position to the play range.
    ///
    /// The position never leaves `[-PADDLE_BOUND, PADDLE_BOUND]`, however
    /// long a key is held, and both keys held together cancel out.
    pub fn step(&mut self, input: PaddleInput, delta_ms: u64)
        requires
            old(self).wf(),
            delta_ms <= DELTA_MS_MAX,
        ensures
            final(self).y == clamp_to_bound(
                old(self).y + direction(input) * ((old(self).speed * delta_ms) / 1000),
            ),
            -PADDLE_BOUND <= final(self).y <= PADDLE_BOUND,
            final(self).speed == old(self).speed,
            final(self).side == old(self).side,
            final(self).wf(),
    {
        let mut dir: i64 = 0;
        if input.up {
            dir = dir + 1;
        }
        if input.down {
            dir = dir - 1;
        }
        let sp: i64 = self.speed;
        proof {
            assert(0 <= sp * delta_ms <= PADDLE_SPEED_MAX * DELTA_MS_MAX) by (nonlinear_arith)
                requires
                    0 <= sp <= PADDLE_SPEED_MAX,
                    0 <= delta_ms <= DELTA_MS_MAX,
            ;
        }
        let travel: i64 = (sp * (delta_ms as i64)) / 1000;
        let moved: i64 = if dir == 1 {
            self.y + travel
        } else if dir == -1 {
            self.y - travel
        } else {
            self.y
        };
        proof {
            assert(moved == old(self).y + direction(input) * travel);
        }
        self.y = if moved > PADDLE_BOUND {
            PADDLE_BOUND
        } else if moved < -PADDLE_BOUND {
            -PADDLE_BOUND
        } else {
            moved
        };
        proof {
            assert(self.y == clamp_to_bound(moved as int));
        }
    }
}

} // verus!
