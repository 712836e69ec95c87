//! Trace jobs, and what becomes of a job once its ray has been cast.
//!
//! A job stands for one ray of one pixel. Casting the ray, and asking the
//! material what it does with the light, is the caller's work; the rule that
//! turns the result into the pixel's fate is [`do_job`]. The ray itself, with
//! whatever colour it has gathered, is a value of the caller's own type `R`.

use crate::interval::Interval;
use vstd::prelude::*;

verus! {

/// The number of bounces allowed where nothing else is configured.
pub const DEFAULT_MAX_DEPTH: usize = 50;

/// One unit of trace work.
#[derive(Debug)]
pub struct Job<R> {
    /// Row of the pixel that the job works for.
    pub row: usize,
    /// Column of that pixel.
    pub col: usize,
    /// Number of bounces that led to this job; 0 for the ray from the camera.
    pub depth: usize,
    /// The ray to cast.
    pub ray: R,
    /// The range in which a hit along the ray counts.
    pub interv: Interval,
}

/// What casting a job's ray found.
#[derive(Debug)]
pub enum Traced<R> {
    /// The ray hit nothing inside its range.
    Miss,
    /// The ray hit a surface whose material gives a final colour.
    Absorbed,
    /// The ray hit a surface whose material sends a new ray on.
    Scattered(R, Interval),
    /// The work on the job broke down.
    Failed,
}

/// How a pixel gets its final colour.
#[derive(Clone, Copy, Debug, PartialEq, Eq, Structural)]
pub enum Outcome {
    /// The colour of the background behind the last ray.
    Background,
    /// The colour that the last material gave.
    Surface,
    /// Black: the bounces were used up.
    Exhausted,
    /// The colour that marks a failed pixel.
    Failed,
}

/// What becomes of a job.
#[derive(Debug)]
pub enum Step<R> {
    /// The pixel's colour is settled; its chain of jobs ends.
    Settle(Outcome),
    /// The chain goes on with the given job.
    Bounce(Job<R>),
}

impl<R> Job<R> {
    /// The job that follows `self` along the ray `ray`: one bounce deeper,
    /// for the same pixel.
    pub open spec fn bounced(self, ray: R, interv: Interval) -> Job<R> {
        Job { row: self.row, col: self.col, depth: (self.depth + 1) as usize, ray, interv }
    }

    /// The first job of a pixel: the ray from the camera.
    pub fn new(row: usize, col: usize, ray: R, interv: Interval) -> (job: Job<R>)
        ensures
            job == (Job { row, col, depth: 0, ray, interv }),
    {
        Job { row, col, depth: 0, ray, interv }
    }

    /// Turns the job into the one that follows it after a bounce.
    pub fn update(&mut self, new_ray: R, new_interv: Interval)
        requires
            old(self).depth < usize::MAX,
        ensures
            *final(self) == old(self).bounced(new_ray, new_interv),
    {
        self.ray = new_ray;
        self.interv = new_interv;
        self.depth = self.depth + 1;
    }
}

/// The fate of `job` after `traced`, with at most `max_depth` bounces: a miss,
/// a final colour and a failure settle the pixel; a scattered ray goes on as
/// a new job while bounces are left, and settles the pixel as exhausted once
/// they are used up.
pub open spec fn next_step<R>(job: Job<R>, traced: Traced<R>, max_depth: usize) -> Step<R> {
    match traced {
        Traced::Miss => Step::Settle(Outcome::Background),
        Traced::Absorbed => Step::Settle(Outcome::Surface),
        Traced::Failed => Step::Settle(Outcome::Failed),
        Traced::Scattered(ray, interv) => if job.depth < max_depth {
            Step::Bounce(job.bounced(ray, interv))
        } else {
            Step::Settle(Outcome::Exhausted)
        },
    }
}

/// Decides what becomes of `job` now that its ray has been cast.
pub fn do_job<R>(job: Job<R>, traced: Traced<R>, max_depth: usize) -> (step: Step<R>)
    ensures
        step == next_step(job, traced, max_depth),
{
    match traced {
        Traced::Miss => Step::Settle(Outcome::Background),
        Traced::Absorbed => Step::Settle(Outcome::Surface),
        Traced::Failed => Step::Settle(Outcome::Failed),
        Traced::Scattered(ray, interv) => {
            if job.depth < max_depth {
                let mut next = job;
                next.update(ray, interv);
                Step::Bounce(next)
            } else {
                Step::Settle(Outcome::Exhausted)
            }
        },
    }
}

/// A follow-up job works for the pixel of the job it follows, lies one bounce
/// deeper, and stays within the allowed depth.
pub proof fn bounce_stays_with_pixel<R>(job: Job<R>, traced: Traced<R>, max_depth: usize)
    ensures
        match next_step(job, traced, max_depth) {
            Step::Bounce(next) => {
                &&& next.row == job.row
                &&& next.col == job.col
                &&& next.depth == job.depth + 1
                &&& next.depth <= max_depth
            },
            Step::Settle(_) => true,
        },
{
}

} // verus!
