//! Collision resolution, scoring, the serve, and the serve timer.
//!
//! Once per tick, after the ball has moved: a dead ball is re-served with
//! a random diagonal velocity; then the ball is tested against every
//! collider in order.  A hit reflects the velocity on the struck axis,
//! but only when the ball is moving toward that surface; a hit on a goal
//! collider awards the point to the opposite player and kills the ball.

use vstd::prelude::*;

use rand::seq::SliceRandom;

use crate::ball::{Ball, SERVE_SPEED};
use crate::geometry::{collide, spec_collide, Aabb, Edge, Vec2I, COORD_MAX};

verus! {

/// What a collider is: a plain wall, a paddle, or one of the two goals.
/// A hit on the left goal scores for the right player and vice versa.
#[derive(Clone, Copy, Debug, PartialEq, Eq, Structural)]
pub enum ColliderKind {
    Solid,
    Paddle,
    LeftGoal,
    RightGoal,
}

/// A collider: its kind and its bounding box.
#[derive(Clone, Copy, Debug, PartialEq, Eq, Structural)]
pub struct Collider {
    pub kind: ColliderKind,
    pub bbox: Aabb,
}

/// The match score.  `score_left` belongs to the player defending the
/// left side, who scores when the ball reaches the right goal.
#[derive(Clone, Copy, Debug, PartialEq, Eq, Structural)]
pub struct Scoreboard {
    pub score_left: u32,
    pub score_right: u32,
}

impl Scoreboard {
    /// A fresh scoreboard with both scores zero.
    pub fn new() -> (r: Scoreboard)
        ensures
            r == (Scoreboard { score_left: 0u32, score_right: 0u32 }),
    {
        Scoreboard { score_left: 0, score_right: 0 }
    }
}

/// The x velocity after a hit on edge `e`: negated only when the ball is
/// moving toward that surface, unchanged otherwise.
pub open spec fn reflected_vx(vx: int, e: Edge) -> int {
    if (e == Edge::Left && vx > 0) || (e == Edge::Right && vx < 0) {
        -vx
    } else {
        vx
    }
}

/// The y velocity after a hit on edge `e`: negated only when the ball is
/// moving toward that surface, unchanged otherwise.
pub open spec fn reflected_vy(vy: int, e: Edge) -> int {
    if (e == Edge::Top && vy < 0) || (e == Edge::Bottom && vy > 0) {
        -vy
    } else {
        vy
    }
}

/// Outcome of resolving one collider: the ball's velocity and the two
/// scores, as `(vx, vy, score_left, score_right)`.  A miss changes
/// nothing; a hit reflects the velocity on the struck axis if the ball
/// moves toward it; a hit on a goal then awards the point to the
/// opposite player and zeroes the velocity.
pub open spec fn resolve_one(
    vx: int,
    vy: int,
    sl: int,
    sr: int,
    hit: Option<Edge>,
    kind: ColliderKind,
) -> (int, int, int, int) {
    match hit {
        Option::None => (vx, vy, sl, sr),
        Option::Some(e) => match kind {
            ColliderKind::LeftGoal => (0, 0, sl, sr + 1),
            ColliderKind::RightGoal => (0, 0, sl + 1, sr),
            _ => (reflected_vx(vx, e), reflected_vy(vy, e), sl, sr),
        },
    }
}

/// Resolve the ball against every collider of `cs` in order, threading
/// the velocity and the scores through; the ball's box is fixed for the
/// whole pass.
pub open spec fn resolve_all(
    bbox: Aabb,
    vx: int,
    vy: int,
    sl: int,
    sr: int,
    cs: Seq<Collider>,
) -> (int, int, int, int)
    decreases cs.len(),
{
    if cs.len() == 0 {
        (vx, vy, sl, sr)
    } else {
        let r = resolve_one(vx, vy, sl, sr, spec_collide(bbox, cs[0].bbox), cs[0].kind);
        resolve_all(bbox, r.0, r.1, r.2, r.3, cs.drop_first())
    }
}

/// Reflection never acts against a surface the ball is moving away from:
/// on each axis the velocity is negated exactly when the ball moves
/// toward the struck edge, and is left unchanged otherwise, so one tick
/// cannot bounce the ball back into a collider it is leaving.
pub proof fn lemma_reflection_only_toward(vx: int, vy: int, e: Edge)
    ensures
        reflected_vx(vx, e) == if (e == Edge::Left && vx > 0) || (e == Edge::Right && vx < 0) {
            -vx
        } else {
            vx
        },
        reflected_vy(vy, e) == if (e == Edge::Top && vy < 0) || (e == Edge::Bottom && vy > 0) {
            -vy
        } else {
            vy
        },
        !(e == Edge::Left && vx > 0) && !(e == Edge::Right && vx < 0) ==> reflected_vx(vx, e) == vx,
        !(e == Edge::Top && vy < 0) && !(e == Edge::Bottom && vy > 0) ==> reflected_vy(vy, e) == vy,
{
}

/// Resolving one collider moves the scores by at most one, never down,
/// and a hit on a goal collider increments exactly the opposite player's
/// score while every non-goal outcome leaves both scores unchanged.
pub proof fn lemma_goal_scores_exactly_one(
    vx: int,
    vy: int,
    sl: int,
    sr: int,
    hit: Option<Edge>,
    kind: ColliderKind,
)
    ensures
        ({
            let r = resolve_one(vx, vy, sl, sr, hit, kind);
            &&& r.2 >= sl
            &&& r.3 >= sr
            &&& r.2 + r.3 <= sl + sr + 1
            &&& (hit is Some && kind == ColliderKind::LeftGoal ==> r.2 == sl && r.3 == sr + 1
                && r.0 == 0 && r.1 == 0)
            &&& (hit is Some && kind == ColliderKind::RightGoal ==> r.2 == sl + 1 && r.3 == sr
                && r.0 == 0 && r.1 == 0)
            &&& (hit is None || kind == ColliderKind::Solid || kind == ColliderKind::Paddle
                ==> r.2 == sl && r.3 == sr)
        }),
{
}

/// The number of colliders of `cs` of kind `kind` that the ball's box
/// overlaps.  Hits depend only on the fixed box, never on the velocity
/// threaded through the pass.
pub open spec fn count_goal_hits(bbox: Aabb, cs: Seq<Collider>, kind: ColliderKind) -> int
    decreases cs.len(),
{
    if cs.len() == 0 {
        0
    } else {
        (if spec_collide(bbox, cs[0].bbox) is Some && cs[0].kind == kind {
            1int
        } else {
            0int
        }) + count_goal_hits(bbox, cs.drop_first(), kind)
    }
}

/// Scoring is exact: over a whole collider pass, each player's score
/// grows by precisely the number of hits on the goal they attack —
/// `score_left` by the hits on the right goal, `score_right` by the
/// hits on the left goal — and by nothing else.
pub proof fn lemma_scores_count_goal_hits(
    bbox: Aabb,
    vx: int,
    vy: int,
    sl: int,
    sr: int,
    cs: Seq<Collider>,
)
    ensures
        resolve_all(bbox, vx, vy, sl, sr, cs).2 == sl + count_goal_hits(
            bbox,
            cs,
            ColliderKind::RightGoal,
        ),
        resolve_all(bbox, vx, vy, sl, sr, cs).3 == sr + count_goal_hits(
            bbox,
            cs,
            ColliderKind::LeftGoal,
        ),
    decreases cs.len(),
{
    if cs.len() != 0 {
        let r1 = resolve_one(vx, vy, sl, sr, spec_collide(bbox, cs[0].bbox), cs[0].kind);
        lemma_scores_count_goal_hits(bbox, r1.0, r1.1, r1.2, r1.3, cs.drop_first());
    }
}

/// Over a whole collider pass the scores are monotonic: neither score
/// ever decreases, and together they grow by at most one per collider.
pub proof fn lemma_scores_monotonic(
    bbox: Aabb,
    vx: int,
    vy: int,
    sl: int,
    sr: int,
    cs: Seq<Collider>,
)
    ensures
        ({
            let r = resolve_all(bbox, vx, vy, sl, sr, cs);
            &&& r.2 >= sl
            &&& r.3 >= sr
            &&& r.2 + r.3 <= sl + sr + cs.len()
        }),
    decreases cs.len(),
{
    if cs.len() != 0 {
        let r1 = resolve_one(vx, vy, sl, sr, spec_collide(bbox, cs[0].bbox), cs[0].kind);
        lemma_scores_monotonic(bbox, r1.0, r1.1, r1.2, r1.3, cs.drop_first());
    }
}

/// A collider pass keeps the velocity well formed: both components stay
/// bounded by the serve speed and become zero only together.
pub proof fn lemma_resolve_preserves_velocity(
    bbox: Aabb,
    vx: int,
    vy: int,
    sl: int,
    sr: int,
    cs: Seq<Collider>,
)
    requires
        -SERVE_SPEED <= vx <= SERVE_SPEED,
        -SERVE_SPEED <= vy <= SERVE_SPEED,
        vx == 0 <==> vy == 0,
    ensures
        ({
            let r = resolve_all(bbox, vx, vy, sl, sr, cs);
            &&& -SERVE_SPEED <= r.0 <= SERVE_SPEED
            &&& -SERVE_SPEED <= r.1 <= SERVE_SPEED
            &&& (r.0 == 0 <==> r.1 == 0)
        }),
    decreases cs.len(),
{
    if cs.len() != 0 {
        let r1 = resolve_one(vx, vy, sl, sr, spec_collide(bbox, cs[0].bbox), cs[0].kind);
        lemma_resolve_preserves_velocity(bbox, r1.0, r1.1, r1.2, r1.3, cs.drop_first());
    }
}

/// The velocity of a freshly served ball: `(sx * S, sy * S)` for the
/// serve speed `S` and the two random signs.  It is always one of the
/// four diagonal combinations `(±S, ±S)` — never zero and never any
/// other magnitude.
pub fn serve_velocity(sx: i64, sy: i64) -> (v: Vec2I)
    requires
        sx == 1 || sx == -1,
        sy == 1 || sy == -1,
    ensures
        v.x == sx * SERVE_SPEED,
        v.y == sy * SERVE_SPEED,
        v.x == SERVE_SPEED || v.x == -SERVE_SPEED,
        v.y == SERVE_SPEED || v.y == -SERVE_SPEED,
        v.x != 0 && v.y != 0,
{
    Vec2I {
        x: if sx == 1 {
            SERVE_SPEED
        } else {
            -SERVE_SPEED
        },
        y: if sy == 1 {
            SERVE_SPEED
        } else {
            -SERVE_SPEED
        },
    }
}

/// Relies on `rand::seq::SliceRandom::choose`: on a non-empty slice it
/// returns `Some` of a uniformly chosen element, so the result is one of
/// the two listed signs.
#[verifier::external_body]
fn random_sign() -> (r: i64)
    ensures
        r == 1i64 || r == -1i64,
{
    *[1i64, -1i64].choose(&mut rand::thread_rng()).unwrap_or(&1i64)
}

/// Resolve collisions and scoring for one tick, with the serve signs
/// handed in: a dead ball is first re-served with velocity
/// `(sx * S, sy * S)`, then the ball is tested against every collider in
/// order.  The outcome is exactly the `resolve_all` pass over the
/// (possibly re-served) velocity; the ball's position and rally timer
/// are untouched, and the scores never decrease.
pub fn collision_step_with(
    ball: &mut Ball,
    sb: &mut Scoreboard,
    colliders: &Vec<Collider>,
    sx: i64,
    sy: i64,
)
    requires
        old(ball).wf(),
        -COORD_MAX <= old(ball).pos.x <= COORD_MAX,
        -COORD_MAX <= old(ball).pos.y <= COORD_MAX,
        forall|i: int| 0 <= i < colliders@.len() ==> (#[trigger] colliders@[i]).bbox.wf(),
        sx == 1 || sx == -1,
        sy == 1 || sy == -1,
        old(sb).score_left + colliders@.len() <= u32::MAX,
        old(sb).score_right + colliders@.len() <= u32::MAX,
    ensures
        ({
            let v0x = if old(ball).vel.x == 0 {
                sx * SERVE_SPEED
            } else {
                old(ball).vel.x as int
            };
            let v0y = if old(ball).vel.x == 0 {
                sy * SERVE_SPEED
            } else {
                old(ball).vel.y as int
            };
            let r = resolve_all(
                old(ball).spec_bbox(),
                v0x,
                v0y,
                old(sb).score_left as int,
                old(sb).score_right as int,
                colliders@,
            );
            &&& final(ball).vel.x == r.0
            &&& final(ball).vel.y == r.1
            &&& final(sb).score_left == r.2
            &&& final(sb).score_right == r.3
        }),
        final(ball).pos == old(ball).pos,
        final(ball).ramp_rate == old(ball).ramp_rate,
        final(ball).rally_start_ms == old(ball).rally_start_ms,
        final(ball).wf(),
        final(sb).score_left >= old(sb).score_left,
        final(sb).score_right >= old(sb).score_right,
{
    let bbox = ball.bbox();
    let mut vx: i64 = ball.vel.x;
    let mut vy: i64 = ball.vel.y;
    if vx == 0 {
        let v = serve_velocity(sx, sy);
        vx = v.x;
        vy = v.y;
    }
    let ghost v0x: int = vx as int;
    let ghost v0y: int = vy as int;
    let mut sl: u32 = sb.score_left;
    let mut sr: u32 = sb.score_right;
    let ghost sl0: int = sl as int;
    let ghost sr0: int = sr as int;
    let ghost target = resolve_all(bbox, v0x, v0y, sl0, sr0, colliders@);
    let mut i: usize = 0;
    proof {
        assert(colliders@.skip(0) =~= colliders@);
    }
    while i < colliders.len()
        invariant
            0 <= i <= colliders@.len(),
            forall|j: int| 0 <= j < colliders@.len() ==> (#[trigger] colliders@[j]).bbox.wf(),
            bbox.wf(),
            bbox == old(ball).spec_bbox(),
            -SERVE_SPEED <= vx <= SERVE_SPEED,
            -SERVE_SPEED <= vy <= SERVE_SPEED,
            vx == 0 <==> vy == 0,
            sl0 <= sl <= sl0 + i,
            sr0 <= sr <= sr0 + i,
            sl0 + colliders@.len() <= u32::MAX,
            sr0 + colliders@.len() <= u32::MAX,
            resolve_all(bbox, vx as int, vy as int, sl as int, sr as int, colliders@.skip(i as int))
                == target,
        decreases colliders@.len() - i,
    {
        let c = colliders[i];
        let ghost rest = colliders@.skip(i as int);
        proof {
            assert(rest[0] == colliders@[i as int]);
            assert(rest.drop_first() =~= colliders@.skip(i as int + 1));
        }
        let hit = collide(&bbox, &c.bbox);
        let ghost pre = (vx as int, vy as int, sl as int, sr as int);
        if let Some(e) = hit {
            let reflect_x: bool = (e == Edge::Left && vx > 0) || (e == Edge::Right && vx < 0);
            let reflect_y: bool = (e == Edge::Top && vy < 0) || (e == Edge::Bottom && vy > 0);
            if reflect_x {
                vx = -vx;
            }
            if reflect_y {
                vy = -vy;
            }
            match c.kind {
                ColliderKind::LeftGoal => {
                    sr = sr + 1;
                    vx = 0;
                    vy = 0;
                },
                ColliderKind::RightGoal => {
                    sl = sl + 1;
                    vx = 0;
                    vy = 0;
                },
                _ => {},
            }
        }
        proof {
            assert((vx as int, vy as int, sl as int, sr as int) == resolve_one(
                pre.0,
                pre.1,
                pre.2,
                pre.3,
                spec_collide(bbox, colliders@[i as int].bbox),
                colliders@[i as int].kind,
            ));
        }
        i = i + 1;
    }
    proof {
        assert(colliders@.skip(colliders@.len() as int) =~= Seq::<Collider>::empty());
    }
    ball.vel = Vec2I { x: vx, y: vy };
    sb.score_left = sl;
    sb.score_right = sr;
}

/// Resolve collisions and scoring for one tick, drawing the two serve
/// signs at random.  Whatever the random outcome: a live ball is
/// resolved deterministically; a dead ball is re-served with one of the
/// four diagonal velocities `(±S, ±S)` before the pass; the ball's
/// position and rally timer are untouched, the velocity stays well
/// formed, and the scores never decrease.
pub fn collision_step(ball: &mut Ball, sb: &mut Scoreboard, colliders: &Vec<Collider>)
    requires
        old(ball).wf(),
        -COORD_MAX <= old(ball).pos.x <= COORD_MAX,
        -COORD_MAX <= old(ball).pos.y <= COORD_MAX,
        forall|i: int| 0 <= i < colliders@.len() ==> (#[trigger] colliders@[i]).bbox.wf(),
        old(sb).score_left + colliders@.len() <= u32::MAX,
        old(sb).score_right + colliders@.len() <= u32::MAX,
    ensures
        !old(ball).is_dead() ==> ({
            let r = resolve_all(
                old(ball).spec_bbox(),
                old(ball).vel.x as int,
                old(ball).vel.y as int,
                old(sb).score_left as int,
                old(sb).score_right as int,
                colliders@,
            );
            &&& final(ball).vel.x == r.0
            &&& final(ball).vel.y == r.1
            &&& final(sb).score_left == r.2
            &&& final(sb).score_right == r.3
        }),
        old(ball).is_dead() ==> (exists|sx: int, sy: int|
            {
                &&& (sx == 1 || sx == -1)
                &&& (sy == 1 || sy == -1)
                &&& ({
                    let r = #[trigger] resolve_all(
                        old(ball).spec_bbox(),
                        sx * SERVE_SPEED,
                        sy * SERVE_SPEED,
                        old(sb).score_left as int,
                        old(sb).score_right as int,
                        colliders@,
                    );
                    &&& final(ball).vel.x == r.0
                    &&& final(ball).vel.y == r.1
                    &&& final(sb).score_left == r.2
                    &&& final(sb).score_right == r.3
                })
            }),
        final(ball).pos == old(ball).pos,
        final(ball).ramp_rate == old(ball).ramp_rate,
        final(ball).rally_start_ms == old(ball).rally_start_ms,
        final(ball).wf(),
        final(sb).score_left >= old(sb).score_left,
        final(sb).score_right >= old(sb).score_right,
{
    let sx = random_sign();
    let sy = random_sign();
    collision_step_with(ball, sb, colliders, sx, sy);
}

/// Serve timer: while the ball is dead, keep the rally start pinned to
/// the current time, so the ramp multiplier starts from zero when the
/// next rally begins.
pub fn reset_rally_timer(ball: &mut Ball, now_ms: u64)
    ensures
        final(ball).rally_start_ms == if old(ball).vel.x == 0 {
            now_ms
        } else {
            old(ball).rally_start_ms
        },
        final(ball).pos == old(ball).pos,
        final(ball).vel == old(ball).vel,
        final(ball).ramp_rate == old(ball).ramp_rate,
        old(ball).wf() ==> final(ball).wf(),
{
    if ball.vel.x == 0 {
        ball.rally_start_ms = now_ms;
    }
}

} // verus!
