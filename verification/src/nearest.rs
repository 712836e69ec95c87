//! Nearest-hit resolution over the members of a scene.
//!
//! Each member of a scene answers a ray with the parameter at which the ray
//! meets it, or with no hit. The scan below picks the member that the ray
//! meets first inside the admissible range; of several members met at the
//! same parameter, the one that comes first in the scene wins.

use crate::interval::Interval;
use crate::scalar::Scalar;
use vstd::prelude::*;

verus! {

/// Member `i` was hit at a parameter inside `range`.
pub open spec fn candidate(hits: Seq<Option<Scalar>>, range: Interval, i: int) -> bool {
    &&& 0 <= i < hits.len()
    &&& hits[i] is Some
    &&& range.contains(hits[i]->0)
}

/// Member `i` is the nearest hit among the first `n` members: it is a
/// candidate, no candidate is hit earlier, and every candidate before it in
/// the scene is hit strictly later.
pub open spec fn nearest_among(
    hits: Seq<Option<Scalar>>,
    range: Interval,
    n: int,
    i: int,
) -> bool {
    &&& i < n
    &&& candidate(hits, range, i)
    &&& forall|j: int|
        0 <= j < n && #[trigger] candidate(hits, range, j) ==> {
            &&& !(hits[j]->0).lt(hits[i]->0)
            &&& j < i ==> (hits[i]->0).lt(hits[j]->0)
        }
}

/// Member `i` is the nearest hit of the whole scene.
pub open spec fn nearest(hits: Seq<Option<Scalar>>, range: Interval, i: int) -> bool {
    nearest_among(hits, range, hits.len() as int, i)
}

/// Scans the answers of all members in scene order and returns the index of
/// the nearest hit inside `t_range`, or `None` where no member was hit there.
///
/// The scan narrows the range as it goes: once a member is accepted, only a
/// strictly nearer hit can replace it.
pub fn nearest_hit(hits: &Vec<Option<Scalar>>, t_range: &Interval) -> (best: Option<usize>)
    ensures
        match best {
            Some(i) => nearest(hits@, *t_range, i as int),
            None => forall|j: int| !candidate(hits@, *t_range, j),
        },
{
    let mut window: Interval = *t_range;
    let mut best: Option<usize> = None;
    let mut i: usize = 0;
    while i < hits.len()
        invariant
            i <= hits.len(),
            window.t_min == t_range.t_min,
            match best {
                Some(b) => {
                    &&& nearest_among(hits@, *t_range, i as int, b as int)
                    &&& window.t_max == hits@[b as int]->0
                },
                None => {
                    &&& window.t_max == t_range.t_max
                    &&& forall|j: int| 0 <= j < i ==> !candidate(hits@, *t_range, j)
                },
            },
        decreases hits.len() - i,
    {
        match hits[i] {
            Some(t) => {
                if window.is_contained(t) {
                    window.t_max = t;
                    best = Some(i);
                }
            },
            None => {},
        }
        i += 1;
    }
    best
}

/// At most one member is the nearest hit.
pub proof fn nearest_is_unique(hits: Seq<Option<Scalar>>, range: Interval, i: int, j: int)
    requires
        nearest(hits, range, i),
        nearest(hits, range, j),
    ensures
        i == j,
{
}

/// Where any member is hit inside the range, some member is the nearest hit.
pub proof fn nearest_exists(hits: Seq<Option<Scalar>>, range: Interval, j: int)
    requires
        candidate(hits, range, j),
    ensures
        exists|i: int| nearest(hits, range, i),
    decreases hits.len(),
{
    let n = hits.len() as int;
    let front = hits.drop_last();
    let last = n - 1;
    assert forall|k: int| candidate(front, range, k) <==> k < last && candidate(
        hits,
        range,
        k,
    ) by {}
    if exists|k: int| candidate(front, range, k) {
        let k = choose|k: int| candidate(front, range, k);
        nearest_exists(front, range, k);
        let b = choose|b: int| nearest(front, range, b);
        if candidate(hits, range, last) && (hits[last]->0).lt(hits[b]->0) {
            assert forall|m: int| 0 <= m < n && #[trigger] candidate(hits, range, m) implies {
                &&& !(hits[m]->0).lt(hits[last]->0)
                &&& m < last ==> (hits[last]->0).lt(hits[m]->0)
            } by {
                if m < last {
                    assert(candidate(front, range, m));
                }
            }
            assert(nearest(hits, range, last));
        } else {
            assert forall|m: int| 0 <= m < n && #[trigger] candidate(hits, range, m) implies {
                &&& !(hits[m]->0).lt(hits[b]->0)
                &&& m < b ==> (hits[b]->0).lt(hits[m]->0)
            } by {
                if m < last {
                    assert(candidate(front, range, m));
                }
            }
            assert(nearest(hits, range, b));
        }
    } else {
        assert(j == last);
        assert(nearest(hits, range, last));
    }
}

} // verus!
