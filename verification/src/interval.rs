//! The admissible range of a ray parameter.

use crate::scalar::{Scalar, INFINITY_BITS};
use vstd::prelude::*;

verus! {

/// An open range of ray parameters: a hit at `t` counts only where
/// `t_min < t < t_max`.
#[derive(Clone, Copy, Debug)]
pub struct Interval {
    pub t_min: Scalar,
    pub t_max: Scalar,
}

impl Interval {
    /// The lower bound lies below the upper bound.
    pub open spec fn wf(self) -> bool {
        self.t_min.lt(self.t_max)
    }

    /// `t` lies strictly between the bounds.
    pub open spec fn contains(self, t: Scalar) -> bool {
        self.t_min.lt(t) && t.lt(self.t_max)
    }

    /// The range of everything in front of the ray's origin: from zero to
    /// infinity.
    pub fn new() -> (range: Interval)
        ensures
            range.t_min.bits == 0,
            range.t_max.bits == INFINITY_BITS,
            range.wf(),
    {
        Interval { t_min: Scalar::zero(), t_max: Scalar::infinity() }
    }

    /// The range between `t_min` and `t_max`.
    pub fn initialize(t_min: Scalar, t_max: Scalar) -> (range: Interval)
        requires
            t_min.lt(t_max),
        ensures
            range.t_min == t_min,
            range.t_max == t_max,
            range.wf(),
    {
        Interval { t_min, t_max }
    }

    /// Whether `t` lies strictly between the bounds.
    pub fn is_contained(&self, t: Scalar) -> (r: bool)
        ensures
            r == self.contains(t),
    {
        self.t_min.less_than(&t) && t.less_than(&self.t_max)
    }
}

/// The bounds themselves are outside the range, and so is anything that is
/// not a number.
pub proof fn bounds_are_excluded(range: Interval, t: Scalar)
    ensures
        !range.contains(range.t_min),
        !range.contains(range.t_max),
        t.nan() ==> !range.contains(t),
{
}

} // verus!
