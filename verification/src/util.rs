use vstd::prelude::*;
use crate::fixed::{sat, sat_abs, signum, spec_signum, Fixed};
use crate::vec2::{Coord, FVec2, IVec2, Segment};

verus! {

/// Below this tangent a direction counts as horizontal: 0.41.
pub const TANGENT_HORIZONTAL: i64 = 410_000;

/// Below this tangent a direction counts as diagonal, at or above it as vertical: 2.41.
pub const TANGENT_DIAGONAL: i64 = 2_410_000;

/// The least horizontal extent that the tangent is taken over: 0.01.
pub const TANGENT_EPSILON: i64 = 10_000;

pub open spec fn spec_smooth_step(t: Fixed) -> Fixed {
    Fixed::spec_from_int(3).spec_mul(t).spec_mul(t).spec_sub(
        Fixed::spec_from_int(2).spec_mul(t).spec_mul(t).spec_mul(t),
    )
}

/// The cubic `3t^2 - 2t^3`, which eases from 0 at `t = 0` to 1 at `t = 1`.
pub fn smooth_step(t: Fixed) -> (r: Fixed)
    ensures
        r == spec_smooth_step(t),
{
    Fixed::from_int(3).mul(t).mul(t).sub(Fixed::from_int(2).mul(t).mul(t).mul(t))
}

pub open spec fn spec_abs_int(a: int) -> int {
    if a < 0 {
        -a
    } else {
        a
    }
}

/// Chebyshev distance: the number of king moves that cover `vec`.
pub open spec fn spec_king_distance(vec: IVec2) -> Coord {
    let ax = sat(spec_abs_int(vec.x as int));
    let ay = sat(spec_abs_int(vec.y as int));
    if ax >= ay {
        ax
    } else {
        ay
    }
}

/// Chebyshev distance: the larger of the two absolute components.
pub fn king_distance(vec: IVec2) -> (r: Coord)
    ensures
        r == spec_king_distance(vec),
        r >= 0,
{
    let ax: i64 = sat_abs(vec.x);
    let ay: i64 = sat_abs(vec.y);
    if ax >= ay {
        ax
    } else {
        ay
    }
}

/// Chebyshev distance in the continuous world.
pub open spec fn spec_king_distance_fixed(vec: FVec2) -> Fixed {
    vec.x.spec_abs().spec_max(vec.y.spec_abs())
}

/// Chebyshev distance in the continuous world.
pub fn king_distance_fixed(vec: FVec2) -> (r: Fixed)
    ensures
        r == spec_king_distance_fixed(vec),
        r.raw >= 0,
{
    vec.x.abs().max(vec.y.abs())
}

/// The ratio of the vertical to the horizontal extent of `vec`, the horizontal
/// extent taken as at least 0.01.
pub open spec fn spec_tangent(vec: FVec2) -> Fixed {
    vec.y.spec_abs().spec_div(vec.x.spec_abs().spec_max(Fixed { raw: TANGENT_EPSILON }))
}

/// One of the eight compass directions, or no move at all for the zero vector.
pub open spec fn spec_vec_to_dir(vec: FVec2) -> IVec2 {
    let tangent = spec_tangent(vec);
    if tangent.raw < TANGENT_HORIZONTAL {
        IVec2 { x: spec_signum(vec.x.raw as int) as i64, y: 0 }
    } else if tangent.raw < TANGENT_DIAGONAL {
        IVec2 { x: spec_signum(vec.x.raw as int) as i64, y: spec_signum(vec.y.raw as int) as i64 }
    } else {
        IVec2 { x: 0, y: spec_signum(vec.y.raw as int) as i64 }
    }
}

/// Normalizes an arbitrary vector to one of the nine steps of the grid.
pub fn vec_to_dir(vec: FVec2) -> (r: IVec2)
    ensures
        r == spec_vec_to_dir(vec),
        -1 <= r.x <= 1,
        -1 <= r.y <= 1,
{
    let tangent = vec.y.abs().div(vec.x.abs().max(Fixed::from_raw(TANGENT_EPSILON)));
    if tangent.raw < TANGENT_HORIZONTAL {
        IVec2 { x: signum(vec.x.raw), y: 0 }
    } else if tangent.raw < TANGENT_DIAGONAL {
        IVec2 { x: signum(vec.x.raw), y: signum(vec.y.raw) }
    } else {
        IVec2 { x: 0, y: signum(vec.y.raw) }
    }
}

/// Distance from the point `p` to the segment `s`: to the nearest end where the foot of
/// the perpendicular from `p` lies beyond it, and else to that foot.
pub open spec fn spec_dist_to_segment(p: FVec2, s: Segment) -> Fixed {
    let dir = s.1.spec_sub(s.0);
    if dir == FVec2::spec_zero() {
        p.spec_sub(s.0).spec_len()
    } else {
        let t = p.spec_sub(s.0).spec_dot(dir).spec_div(dir.spec_len_sqr());
        if t.raw < 0 {
            p.spec_sub(s.0).spec_len()
        } else if t.raw > crate::fixed::SCALE {
            p.spec_sub(s.1).spec_len()
        } else {
            p.spec_sub(s.0.spec_add(dir.spec_scale(t))).spec_len()
        }
    }
}

/// Calculates the distance from a point to a segment.
pub fn dist_to_segment(p: FVec2, s: Segment) -> (r: Fixed)
    ensures
        r == spec_dist_to_segment(p, s),
        r.raw >= 0,
{
    let dir = s.1.sub(s.0);
    if dir.x.raw == 0 && dir.y.raw == 0 {
        // Segment is a point
        return p.sub(s.0).len();
    }
    let t = p.sub(s.0).dot(dir).div(dir.len_sqr());
    if t.raw < 0 {
        // Point is closer to the first end
        p.sub(s.0).len()
    } else if t.raw > crate::fixed::SCALE {
        // Point is closer to the second end
        p.sub(s.1).len()
    } else {
        // Point's projection falls on the segment
        let proj = s.0.add(dir.scale(t));
        p.sub(proj).len()
    }
}

} // verus!
