use vstd::prelude::*;
use crate::transform::Transform;

verus! {

/// The side of the moving box through which it entered the other one.
#[derive(Clone, Copy, Debug, PartialEq, Eq, Structural)]
pub enum Side {
    Left,
    Right,
    Top,
    Bottom,
}

pub open spec fn min(a: int, b: int) -> int {
    if a <= b {
        a
    } else {
        b
    }
}

pub open spec fn max(a: int, b: int) -> int {
    if a >= b {
        a
    } else {
        b
    }
}

/// The interiors of the two boxes intersect. Boxes that only touch, and boxes
/// of zero width or height, do not overlap.
pub open spec fn overlaps(a: Transform, b: Transform) -> bool {
    &&& max(a.left(), b.left()) < min(a.right(), b.right())
    &&& max(a.top(), b.top()) < min(a.bottom(), b.bottom())
}

/// How far `a` reaches into `b` through each of its sides.
pub open spec fn depth_left(a: Transform, b: Transform) -> int {
    b.right() - a.left()
}

pub open spec fn depth_right(a: Transform, b: Transform) -> int {
    a.right() - b.left()
}

pub open spec fn depth_top(a: Transform, b: Transform) -> int {
    b.bottom() - a.top()
}

pub open spec fn depth_bottom(a: Transform, b: Transform) -> int {
    a.bottom() - b.top()
}

/// The side of shallowest penetration; ties go to the first of left, right,
/// top, bottom.
pub open spec fn contact_side(a: Transform, b: Transform) -> Option<Side> {
    if !overlaps(a, b) {
        None
    } else {
        let l = depth_left(a, b);
        let r = depth_right(a, b);
        let t = depth_top(a, b);
        let d = depth_bottom(a, b);
        let m = min(min(l, r), min(t, d));
        if m == l {
            Some(Side::Left)
        } else if m == r {
            Some(Side::Right)
        } else if m == t {
            Some(Side::Top)
        } else {
            Some(Side::Bottom)
        }
    }
}

/// Narrow-phase test between two axis-aligned boxes.
pub struct Collider {}

impl Collider {
    /// Reports whether `rect1` overlaps `rect2` and, if so, the side of `rect1`
    /// with the shallowest penetration.
    pub fn aabb(rect1: &Transform, rect2: &Transform) -> (r: Option<Side>)
        requires
            rect1.wf(),
            rect2.wf(),
        ensures
            r == contact_side(*rect1, *rect2),
    {
        if !Collider::check_overlap(rect1, rect2) {
            return None;
        }
        proof {
            rect1.lemma_extent_bounds();
            rect2.lemma_extent_bounds();
        }
        let overlap_left = Collider::calculate_overlap(rect2.xw(), rect1.x());
        let overlap_right = Collider::calculate_overlap(rect1.xw(), rect2.x());
        let overlap_top = Collider::calculate_overlap(rect2.yh(), rect1.y());
        let overlap_bottom = Collider::calculate_overlap(rect1.yh(), rect2.y());
        let horizontal = if overlap_left <= overlap_right {
            overlap_left
        } else {
            overlap_right
        };
        let vertical = if overlap_top <= overlap_bottom {
            overlap_top
        } else {
            overlap_bottom
        };
        let min_overlap = if horizontal <= vertical {
            horizontal
        } else {
            vertical
        };
        if min_overlap == overlap_left {
            Some(Side::Left)
        } else if min_overlap == overlap_right {
            Some(Side::Right)
        } else if min_overlap == overlap_top {
            Some(Side::Top)
        } else {
            Some(Side::Bottom)
        }
    }

    fn check_overlap(rect1: &Transform, rect2: &Transform) -> (r: bool)
        requires
            rect1.wf(),
            rect2.wf(),
        ensures
            r == overlaps(*rect1, *rect2),
    {
        let left = if rect1.x() >= rect2.x() {
            rect1.x()
        } else {
            rect2.x()
        };
        let right = if rect1.xw() <= rect2.xw() {
            rect1.xw()
        } else {
            rect2.xw()
        };
        let top = if rect1.y() >= rect2.y() {
            rect1.y()
        } else {
            rect2.y()
        };
        let bottom = if rect1.yh() <= rect2.yh() {
            rect1.yh()
        } else {
            rect2.yh()
        };
        left < right && top < bottom
    }

    fn calculate_overlap(high: i64, low: i64) -> (r: i64)
        requires
            -4 * crate::transform::COORD_LIMIT <= high <= 4 * crate::transform::COORD_LIMIT,
            -4 * crate::transform::COORD_LIMIT <= low <= 4 * crate::transform::COORD_LIMIT,
        ensures
            r == high - low,
    {
        high - low
    }
}

} // verus!
