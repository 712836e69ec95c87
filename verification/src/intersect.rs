//! The verdict on a ray and a triangle, once the arithmetic is done.
//!
//! Solving the system of a ray and a triangle's plane takes fractional
//! arithmetic, which the caller does. What decides between hit and miss is a
//! cascade of comparisons on the solution, and that cascade is here.

use crate::interval::Interval;
use crate::scalar::{Scalar, ONE_BITS};
use vstd::prelude::*;

verus! {

/// The solution of the system of a ray and a triangle.
#[derive(Clone, Copy, Debug)]
pub struct Solution {
    /// The determinant of the system.
    pub det: Scalar,
    /// The first barycentric coordinate of the meeting point.
    pub u: Scalar,
    /// The second barycentric coordinate of the meeting point.
    pub v: Scalar,
    /// The sum of the two coordinates, as the caller's arithmetic rounds it.
    pub u_plus_v: Scalar,
    /// The ray parameter of the meeting point.
    pub t: Scalar,
}

/// The ray runs along the triangle's plane, as far as `epsilon` can tell:
/// the determinant lies strictly between `-epsilon` and `epsilon`.
pub open spec fn parallel(det: Scalar, epsilon: Scalar) -> bool {
    epsilon.neg().lt(det) && det.lt(epsilon)
}

/// The meeting point lies off the triangle: a coordinate is below zero, the
/// first is above one, or their sum is above one.
pub open spec fn outside(s: Solution) -> bool {
    let zero = Scalar { bits: 0 };
    let one = Scalar { bits: ONE_BITS };
    s.u.lt(zero) || one.lt(s.u) || s.v.lt(zero) || one.lt(s.u_plus_v)
}

/// The ray hits the triangle inside `range`.
pub open spec fn hits(s: Solution, range: Interval, epsilon: Scalar) -> bool {
    !parallel(s.det, epsilon) && !outside(s) && range.contains(s.t)
}

/// Decides whether the ray hits the triangle inside `t_range`.
pub fn triangle_hit(s: &Solution, t_range: &Interval, epsilon: Scalar) -> (hit: bool)
    ensures
        hit == hits(*s, *t_range, epsilon),
{
    let zero = Scalar::zero();
    let one = Scalar::one();
    if epsilon.negated().less_than(&s.det) && s.det.less_than(&epsilon) {
        return false;
    }
    if s.u.less_than(&zero) || one.less_than(&s.u) {
        return false;
    }
    if s.v.less_than(&zero) || one.less_than(&s.u_plus_v) {
        return false;
    }
    t_range.is_contained(s.t)
}

/// Whether the ray meets the outward side of a surface: `facing`, the inner
/// product of the ray's direction and the surface normal, is below zero.
pub fn front_face(facing: Scalar) -> (front: bool)
    ensures
        front == facing.lt(Scalar { bits: 0 }),
{
    facing.less_than(&Scalar::zero())
}

/// A hit lies inside the range, so never on one of its bounds, and its
/// parameter is a number.
pub proof fn hit_is_inside(s: Solution, range: Interval, epsilon: Scalar)
    requires
        hits(s, range, epsilon),
    ensures
        range.contains(s.t),
        s.t != range.t_min,
        s.t != range.t_max,
        !s.t.nan(),
{
}

} // verus!
