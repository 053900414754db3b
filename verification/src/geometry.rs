//! Axis-aligned bounding-box overlap testing.
//!
//! Boxes are given by their center and size in milli-pixels.  To avoid
//! halving the sizes, all edge coordinates are handled doubled: the left
//! edge of a box sits at `2 * center - size`.  The overlap test reports
//! which side of the second box the first box struck, picking the axis of
//! smaller penetration when both axes penetrate.

use vstd::prelude::*;

verus! {

/// Coordinates may not exceed this bound in magnitude, so that doubled
/// edge coordinates and penetration depths stay within `i64`.
pub const COORD_MAX: i64 = 0x10_0000_0000_0000;

/// Box sizes may not exceed this bound.
pub const SIZE_MAX: i64 = 0x10_0000_0000_0000;

/// A point or displacement in the plane, in milli-pixels.
#[derive(Clone, Copy, Debug, PartialEq, Eq, Structural)]
pub struct Vec2I {
    pub x: i64,
    pub y: i64,
}

/// An axis-aligned box: center position and full extents, in milli-pixels.
#[derive(Clone, Copy, Debug, PartialEq, Eq, Structural)]
pub struct Aabb {
    pub center: Vec2I,
    pub size: Vec2I,
}

/// The side of the stationary box that the moving box struck.
#[derive(Clone, Copy, Debug, PartialEq, Eq, Structural)]
pub enum Edge {
    Left,
    Right,
    Top,
    Bottom,
}

impl Aabb {
    /// Left edge coordinate, doubled.
    pub open spec fn min_x2(self) -> int {
        2 * self.center.x - self.size.x
    }

    /// Right edge coordinate, doubled.
    pub open spec fn max_x2(self) -> int {
        2 * self.center.x + self.size.x
    }

    /// Bottom edge coordinate, doubled.
    pub open spec fn min_y2(self) -> int {
        2 * self.center.y - self.size.y
    }

    /// Top edge coordinate, doubled.
    pub open spec fn max_y2(self) -> int {
        2 * self.center.y + self.size.y
    }

    /// The box is well formed: coordinates bounded, extents non-negative
    /// and bounded.
    pub open spec fn wf(self) -> bool {
        &&& -COORD_MAX <= self.center.x <= COORD_MAX
        &&& -COORD_MAX <= self.center.y <= COORD_MAX
        &&& 0 <= self.size.x <= SIZE_MAX
        &&& 0 <= self.size.y <= SIZE_MAX
    }
}

/// The two boxes strictly overlap on both axes.
pub open spec fn overlaps(a: Aabb, b: Aabb) -> bool {
    &&& a.min_x2() < b.max_x2()
    &&& a.max_x2() > b.min_x2()
    &&& a.min_y2() < b.max_y2()
    &&& a.max_y2() > b.min_y2()
}

/// Which vertical side of `b` the box `a` penetrates, if `a` straddles
/// exactly one of `b`'s vertical edges.  `None` when `a` spans `b` or sits
/// inside it on this axis.
pub open spec fn x_edge(a: Aabb, b: Aabb) -> Option<Edge> {
    if a.min_x2() < b.min_x2() && a.max_x2() > b.min_x2() && a.max_x2() < b.max_x2() {
        Some(Edge::Left)
    } else if a.min_x2() > b.min_x2() && a.min_x2() < b.max_x2() && a.max_x2() > b.max_x2() {
        Some(Edge::Right)
    } else {
        None
    }
}

/// Penetration depth on the x axis, meaningful when `x_edge` is `Some`.
pub open spec fn x_depth(a: Aabb, b: Aabb) -> int {
    if a.min_x2() < b.min_x2() {
        a.max_x2() - b.min_x2()
    } else {
        b.max_x2() - a.min_x2()
    }
}

/// Which horizontal side of `b` the box `a` penetrates, if `a` straddles
/// exactly one of `b`'s horizontal edges.
pub open spec fn y_edge(a: Aabb, b: Aabb) -> Option<Edge> {
    if a.min_y2() < b.min_y2() && a.max_y2() > b.min_y2() && a.max_y2() < b.max_y2() {
        Some(Edge::Bottom)
    } else if a.min_y2() > b.min_y2() && a.min_y2() < b.max_y2() && a.max_y2() > b.max_y2() {
        Some(Edge::Top)
    } else {
        None
    }
}

/// Penetration depth on the y axis, meaningful when `y_edge` is `Some`.
pub open spec fn y_depth(a: Aabb, b: Aabb) -> int {
    if a.min_y2() < b.min_y2() {
        a.max_y2() - b.min_y2()
    } else {
        b.max_y2() - a.min_y2()
    }
}

/// The collision verdict for box `a` against box `b`: `None` when the
/// boxes do not strictly overlap or when neither axis has a dominant
/// edge, otherwise the struck side of `b`, the axis of smaller
/// penetration winning ties in favour of the x axis.
pub open spec fn spec_collide(a: Aabb, b: Aabb) -> Option<Edge> {
    if overlaps(a, b) {
        match (x_edge(a, b), y_edge(a, b)) {
            (Some(xe), Some(ye)) => if y_depth(a, b) < x_depth(a, b) {
                Some(ye)
            } else {
                Some(xe)
            },
            (Some(xe), None) => Some(xe),
            (None, Some(ye)) => Some(ye),
            (None, None) => None,
        }
    } else {
        None
    }
}

/// Axis-aligned overlap test between the moving box `a` and the
/// stationary box `b`, reporting the dominant penetration edge.
pub fn collide(a: &Aabb, b: &Aabb) -> (r: Option<Edge>)
    requires
        a.wf(),
        b.wf(),
    ensures
        r == spec_collide(*a, *b),
{
    let a_min_x: i64 = 2 * a.center.x - a.size.x;
    let a_max_x: i64 = 2 * a.center.x + a.size.x;
    let a_min_y: i64 = 2 * a.center.y - a.size.y;
    let a_max_y: i64 = 2 * a.center.y + a.size.y;
    let b_min_x: i64 = 2 * b.center.x - b.size.x;
    let b_max_x: i64 = 2 * b.center.x + b.size.x;
    let b_min_y: i64 = 2 * b.center.y - b.size.y;
    let b_max_y: i64 = 2 * b.center.y + b.size.y;
    if a_min_x < b_max_x && a_max_x > b_min_x && a_min_y < b_max_y && a_max_y > b_min_y {
        let x_hit: Option<Edge> = if a_min_x < b_min_x && a_max_x > b_min_x && a_max_x < b_max_x {
            Some(Edge::Left)
        } else if a_min_x > b_min_x && a_min_x < b_max_x && a_max_x > b_max_x {
            Some(Edge::Right)
        } else {
            None
        };
        let y_hit: Option<Edge> = if a_min_y < b_min_y && a_max_y > b_min_y && a_max_y < b_max_y {
            Some(Edge::Bottom)
        } else if a_min_y > b_min_y && a_min_y < b_max_y && a_max_y > b_max_y {
            Some(Edge::Top)
        } else {
            None
        };
        match (x_hit, y_hit) {
            (Some(xe), Some(ye)) => {
                let xd: i64 = if a_min_x < b_min_x {
                    a_max_x - b_min_x
                } else {
                    b_max_x - a_min_x
                };
                let yd: i64 = if a_min_y < b_min_y {
                    a_max_y - b_min_y
                } else {
                    b_max_y - a_min_y
                };
                if yd < xd {
                    Some(ye)
                } else {
                    Some(xe)
                }
            },
            (Some(xe), None) => Some(xe),
            (None, Some(ye)) => Some(ye),
            (None, None) => None,
        }
    } else {
        None
    }
}

} // verus!
