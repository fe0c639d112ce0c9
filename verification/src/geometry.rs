//! Geometry primitives: circle-circle intersection and axis-aligned box
//! overlap depth.

use vstd::prelude::*;
use crate::math::{Vec2, V2};
use crate::{COORD_LIMIT, POS_LIMIT};

verus! {

/// True iff the squared centre distance is strictly below the squared sum
/// of the radii: touching circles do not count as colliding.
pub open spec fn circles_intersect_spec(pos1: V2, rad1: int, pos2: V2, rad2: int) -> bool {
    let dx = pos1.x - pos2.x;
    let dy = pos1.y - pos2.y;
    dx * dx + dy * dy < (rad1 + rad2) * (rad1 + rad2)
}

/// Circle-circle hit test over squared distances, avoiding any square root.
pub fn circles_intersect(pos1: Vec2, rad1: i64, pos2: Vec2, rad2: i64) -> (hit: bool)
    requires
        pos1.bounded(2 * POS_LIMIT as int),
        pos2.bounded(2 * POS_LIMIT as int),
        -COORD_LIMIT <= rad1 <= COORD_LIMIT,
        -COORD_LIMIT <= rad2 <= COORD_LIMIT,
    ensures
        hit == circles_intersect_spec(pos1@, rad1 as int, pos2@, rad2 as int),
{
    let dx: i128 = pos1.x as i128 - pos2.x as i128;
    let dy: i128 = pos1.y as i128 - pos2.y as i128;
    let rad_sum: i128 = rad1 as i128 + rad2 as i128;
    proof {
        assert(dx * dx <= 0x1000_0000_0000_0000_0000_0000_0000_0000) by (nonlinear_arith)
            requires -0x4000_0000_0000_0000 <= dx <= 0x4000_0000_0000_0000
        ;
        assert(dy * dy <= 0x1000_0000_0000_0000_0000_0000_0000_0000) by (nonlinear_arith)
            requires -0x4000_0000_0000_0000 <= dy <= 0x4000_0000_0000_0000
        ;
        assert(0 <= dx * dx) by (nonlinear_arith);
        assert(0 <= dy * dy) by (nonlinear_arith);
        assert(rad_sum * rad_sum <= 0x4_0000_0000_0000_0000_0000) by (nonlinear_arith)
            requires -0x200_0000_0000 <= rad_sum <= 0x200_0000_0000
        ;
        assert(0 <= rad_sum * rad_sum) by (nonlinear_arith);
    }
    dx * dx + dy * dy < rad_sum * rad_sum
}

/// Symmetry of the circle test: the pair may be given in either order.
pub proof fn lemma_circles_intersect_symmetric(pos1: V2, rad1: int, pos2: V2, rad2: int)
    ensures
        circles_intersect_spec(pos1, rad1, pos2, rad2) == circles_intersect_spec(
            pos2,
            rad2,
            pos1,
            rad1,
        ),
{
    let dx = pos1.x - pos2.x;
    let dy = pos1.y - pos2.y;
    assert(dx * dx == (-dx) * (-dx)) by (nonlinear_arith);
    assert(dy * dy == (-dy) * (-dy)) by (nonlinear_arith);
}

/// The overlap depth of two axis-aligned boxes along one axis: the half
/// sizes added, less the centre distance. Both components positive means
/// the boxes intersect.
pub open spec fn aabb_overlap_spec(size_a: V2, pos_a: V2, size_b: V2, pos_b: V2) -> V2 {
    V2 {
        x: size_a.x / 2 + size_b.x / 2 - vstd::math::abs(pos_a.x - pos_b.x),
        y: size_a.y / 2 + size_b.y / 2 - vstd::math::abs(pos_a.y - pos_b.y),
    }
}

/// Penetration depth of two axis-aligned boxes, one component per axis.
/// Sizes are full widths and heights; the half sizes are derived here.
pub fn aabb_overlap(size_a: Vec2, pos_a: Vec2, size_b: Vec2, pos_b: Vec2) -> (overlap: Vec2)
    requires
        0 <= size_a.x <= COORD_LIMIT,
        0 <= size_a.y <= COORD_LIMIT,
        0 <= size_b.x <= COORD_LIMIT,
        0 <= size_b.y <= COORD_LIMIT,
        pos_a.bounded(POS_LIMIT as int),
        pos_b.bounded(POS_LIMIT as int),
    ensures
        overlap@ == aabb_overlap_spec(size_a@, pos_a@, size_b@, pos_b@),
{
    let dx: i64 = pos_a.x - pos_b.x;
    let dy: i64 = pos_a.y - pos_b.y;
    let adx: i64 = if dx < 0 { -dx } else { dx };
    let ady: i64 = if dy < 0 { -dy } else { dy };
    Vec2 { x: size_a.x / 2 + size_b.x / 2 - adx, y: size_a.y / 2 + size_b.y / 2 - ady }
}

/// Symmetry of the overlap: swapping the two boxes leaves both components
/// unchanged.
pub proof fn lemma_aabb_overlap_symmetric(size_a: V2, pos_a: V2, size_b: V2, pos_b: V2)
    ensures
        aabb_overlap_spec(size_a, pos_a, size_b, pos_b) == aabb_overlap_spec(
            size_b,
            pos_b,
            size_a,
            pos_a,
        ),
{
}

} // verus!
