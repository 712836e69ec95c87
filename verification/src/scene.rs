//! Scenes: ordered collections of surfaces that a ray can be tested against.
//!
//! What a surface is, and how a ray meets it, is for the implementor of
//! [`Hitable`] to say. A scene asks every member in turn and keeps the nearest
//! answer: the rule of [`crate::nearest`], applied to whatever the members
//! answered.

use crate::interval::Interval;
use crate::nearest::{candidate, nearest, nearest_hit};
use crate::scalar::Scalar;
use vstd::prelude::*;

verus! {

/// One hit of a ray on a surface: the ray parameter at which it happens, and
/// what else the surface has to say about it.
pub struct Hitrecord<S> {
    pub t: Scalar,
    pub surface: S,
}

/// Anything that a ray can be tested against.
pub trait Hitable {
    /// The rays that the surface understands.
    type Ray;

    /// What the surface reports of a hit besides its parameter.
    type Surface;

    /// The hit of `ray` on the surface inside `t_range`, or `None` where the
    /// ray misses or meets the surface outside the range.
    fn is_hit(&self, ray: &Self::Ray, t_range: &Interval) -> Option<Hitrecord<Self::Surface>>;
}

/// An ordered collection of surfaces of one kind.
pub struct Scene<T> {
    pub hitable_list: Vec<T>,
}

/// The ray parameters of a list of answers.
pub open spec fn parameters<S>(answers: Seq<Option<Hitrecord<S>>>) -> Seq<Option<Scalar>> {
    Seq::new(
        answers.len(),
        |i: int|
            match answers[i] {
                Some(h) => Some(h.t),
                None => None,
            },
    )
}

/// `hit` is what a scene makes of the `answers` of its members: the answer of
/// the member that is the nearest hit inside `range`, or nothing where no
/// member was hit inside `range`.
pub open spec fn chosen<S>(
    answers: Seq<Option<Hitrecord<S>>>,
    range: Interval,
    hit: Option<Hitrecord<S>>,
) -> bool {
    match hit {
        Some(h) => exists|i: int| #[trigger]
            nearest(parameters(answers), range, i) && answers[i] == Some(h),
        None => forall|i: int| !candidate(parameters(answers), range, i),
    }
}

impl<T: Hitable> Scene<T> {
    /// `answers` are answers that the members gave, in scene order, to `ray`
    /// and `range`.
    pub open spec fn answered(
        self,
        ray: &T::Ray,
        range: &Interval,
        answers: Seq<Option<Hitrecord<T::Surface>>>,
    ) -> bool {
        &&& answers.len() == self.hitable_list@.len()
        &&& forall|i: int|
            0 <= i < answers.len() ==> call_ensures(
                T::is_hit,
                (&self.hitable_list@[i], ray, range),
                #[trigger] answers[i],
            )
    }

    /// A scene without members.
    pub fn new() -> (scene: Scene<T>)
        ensures
            scene.hitable_list@.len() == 0,
    {
        Scene { hitable_list: Vec::new() }
    }

    /// Appends `member` behind the members already held.
    pub fn add(&mut self, member: T)
        ensures
            final(self).hitable_list@ == old(self).hitable_list@.push(member),
    {
        self.hitable_list.push(member);
    }
}

impl<T: Hitable> Hitable for Scene<T> {
    type Ray = T::Ray;

    type Surface = T::Surface;

    /// Asks every member in scene order and returns the answer of the member
    /// that is hit nearest inside `t_range`; of members hit at the same
    /// parameter, the answer of the first.
    fn is_hit(&self, ray: &T::Ray, t_range: &Interval) -> (hit: Option<Hitrecord<T::Surface>>)
        ensures
            exists|answers: Seq<Option<Hitrecord<T::Surface>>>| #[trigger]
                self.answered(ray, t_range, answers) && chosen(answers, *t_range, hit),
            hit matches Some(h) ==> t_range.contains(h.t),
    {
        let mut found: Vec<Option<Hitrecord<T::Surface>>> = Vec::new();
        let mut hits: Vec<Option<Scalar>> = Vec::new();
        let mut i: usize = 0;
        while i < self.hitable_list.len()
            invariant
                i <= self.hitable_list@.len(),
                found@.len() == i,
                hits@ == parameters(found@),
                forall|k: int|
                    0 <= k < i ==> call_ensures(
                        T::is_hit,
                        (&self.hitable_list@[k], ray, t_range),
                        #[trigger] found@[k],
                    ),
            decreases self.hitable_list@.len() - i,
        {
            let answer = self.hitable_list[i].is_hit(ray, t_range);
            let t = match &answer {
                Some(h) => Some(h.t),
                None => None,
            };
            found.push(answer);
            hits.push(t);
            assert(hits@ =~= parameters(found@));
            i += 1;
        }
        let ghost answers = found@;
        assert(self.answered(ray, t_range, answers));
        match nearest_hit(&hits, t_range) {
            Some(b) => {
                let hit = found.swap_remove(b);
                assert(nearest(parameters(answers), *t_range, b as int));
                assert(chosen(answers, *t_range, hit));
                hit
            },
            None => {
                assert(chosen(answers, *t_range, None));
                None
            },
        }
    }
}

} // verus!
