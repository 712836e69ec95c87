//! The bookkeeping of a render: which pixel has a job waiting, which is being
//! traced, and which is finished.
//!
//! The scheduler holds the queue of pending jobs and one slot of state for
//! each pixel. It starts with the first job of every pixel in the queue.
//! Workers take jobs with [`Scheduler::next`], cast the ray, and report back
//! with [`Scheduler::finish`]. A pixel never has more than one job alive, so
//! whoever holds a pixel's job is alone in writing that pixel; and when
//! nothing is left to do, every pixel has been written. The scheduler itself
//! is a plain value: sharing it between workers, under a lock, is the
//! caller's business.

use crate::interval::Interval;
use crate::job::{do_job, next_step, Job, Outcome, Step, Traced};
use std::collections::VecDeque;
use vstd::arithmetic::div_mod::{
    lemma_fundamental_div_mod, lemma_mod_bound, lemma_multiply_divide_lt,
};
use vstd::prelude::*;

verus! {

/// The state of one pixel.
#[derive(Clone, Copy, Debug, PartialEq, Eq, Structural)]
pub enum Slot {
    /// A job for the pixel waits in the queue; it lies this many bounces deep.
    Queued(usize),
    /// A worker holds the pixel's job, which lies this many bounces deep.
    Tracing(usize),
    /// The pixel has its final colour.
    Done,
}

/// What the scheduler made of a worker's report.
#[derive(Clone, Copy, Debug, PartialEq, Eq, Structural)]
pub enum Report {
    /// The report was for no job that a worker holds; nothing has changed.
    Refused,
    /// A follow-up job was queued; the pixel is not finished.
    Bounced,
    /// The pixel is finished and is to be written in the given way.
    Settled(Outcome),
}

/// The queue of pending jobs and the state of every pixel of a frame.
pub struct Scheduler<R> {
    width: usize,
    height: usize,
    max_depth: usize,
    queue: VecDeque<Job<R>>,
    slots: Vec<Slot>,
    tracing: usize,
}

/// The mathematical content of a [`Scheduler`].
pub struct SchedulerView<R> {
    pub width: usize,
    pub height: usize,
    pub max_depth: usize,
    /// The pending jobs, the next one to hand out first.
    pub queue: Seq<Job<R>>,
    /// The state of every pixel, row by row.
    pub slots: Seq<Slot>,
}

/// The place of the pixel at `row` and `col` in a row-by-row list of the
/// pixels of a frame that is `width` pixels wide.
pub open spec fn pixel_index(width: usize, row: usize, col: usize) -> int {
    row * width + col
}

/// The number of slots of `slots` that are being traced.
pub open spec fn count_tracing(slots: Seq<Slot>) -> nat
    decreases slots.len(),
{
    if slots.len() == 0 {
        0
    } else {
        count_tracing(slots.drop_last()) + if slots.last() is Tracing {
            1nat
        } else {
            0nat
        }
    }
}

/// The most steps that the chain of one pixel can still take: a queued job
/// must be handed out and reported, and each bounce that is left can make
/// that happen once more.
pub open spec fn slot_budget(slot: Slot, max_depth: usize) -> nat {
    match slot {
        Slot::Done => 0,
        Slot::Queued(depth) => if depth <= max_depth {
            (2 * (max_depth - depth) + 2) as nat
        } else {
            0
        },
        Slot::Tracing(depth) => if depth <= max_depth {
            (2 * (max_depth - depth) + 1) as nat
        } else {
            0
        },
    }
}

/// The most steps that the chains of all pixels can still take.
pub open spec fn budget(slots: Seq<Slot>, max_depth: usize) -> nat
    decreases slots.len(),
{
    if slots.len() == 0 {
        0
    } else {
        budget(slots.drop_last(), max_depth) + slot_budget(slots.last(), max_depth)
    }
}

impl<R> SchedulerView<R> {
    /// The pixel at `row` and `col` lies inside the frame.
    pub open spec fn in_frame(self, row: usize, col: usize) -> bool {
        row < self.height && col < self.width
    }

    /// The place of the pixel that `job` works for.
    pub open spec fn index_of(self, job: Job<R>) -> int {
        pixel_index(self.width, job.row, job.col)
    }

    /// The state of the pixel at `row` and `col`.
    pub open spec fn slot(self, row: usize, col: usize) -> Slot {
        self.slots[pixel_index(self.width, row, col)]
    }

    /// Some pending job works for the pixel at place `p`.
    pub open spec fn has_pending(self, p: int) -> bool {
        exists|i: int| 0 <= i < self.queue.len() && self.index_of(#[trigger] self.queue[i]) == p
    }

    /// The books are in order:
    /// there is one slot for each pixel of the frame, and their number fits
    /// the machine;
    /// every pending job works for a pixel of the frame whose slot says
    /// `Queued` at the job's depth, and lies within the allowed depth;
    /// no two pending jobs work for the same pixel;
    /// every slot that says `Queued` has its job in the queue;
    /// every job that a worker holds lies within the allowed depth.
    pub open spec fn wf(self) -> bool {
        &&& self.slots.len() == self.width * self.height
        &&& self.width * self.height <= usize::MAX
        &&& forall|i: int|
            0 <= i < self.queue.len() ==> {
                let job = #[trigger] self.queue[i];
                &&& self.in_frame(job.row, job.col)
                &&& job.depth <= self.max_depth
                &&& self.slots[self.index_of(job)] == Slot::Queued(job.depth)
            }
        &&& forall|i: int, j: int|
            0 <= i < j < self.queue.len() ==> self.index_of(#[trigger] self.queue[i])
                != self.index_of(#[trigger] self.queue[j])
        &&& forall|p: int|
            0 <= p < self.slots.len() && #[trigger] self.slots[p] is Queued ==> self.has_pending(p)
        &&& forall|p: int|
            0 <= p < self.slots.len() ==> match #[trigger] self.slots[p] {
                Slot::Tracing(depth) => depth <= self.max_depth,
                _ => true,
            }
    }

    /// A worker holds `job`: its pixel lies in the frame, and the pixel's slot
    /// says that it is being traced at the job's depth.
    pub open spec fn holds(self, job: Job<R>) -> bool {
        &&& self.in_frame(job.row, job.col)
        &&& self.slots[self.index_of(job)] == Slot::Tracing(job.depth)
    }

    /// Nothing is left to do: no job is pending and no pixel is being traced.
    pub open spec fn finished(self) -> bool {
        &&& self.queue.len() == 0
        &&& forall|p: int| 0 <= p < self.slots.len() ==> !(#[trigger] self.slots[p] is Tracing)
    }

    /// The books after the job at the head of the queue, if there is one, was
    /// handed to a worker.
    pub open spec fn next(self) -> SchedulerView<R> {
        if self.queue.len() > 0 {
            let job = self.queue[0];
            SchedulerView {
                queue: self.queue.drop_first(),
                slots: self.slots.update(self.index_of(job), Slot::Tracing(job.depth)),
                ..self
            }
        } else {
            self
        }
    }

    /// The books after a worker reported `traced` for `job`: where a worker
    /// holds the job, a follow-up job joins the end of the queue, or the
    /// pixel is done.
    pub open spec fn finish(self, job: Job<R>, traced: Traced<R>) -> SchedulerView<R> {
        if self.holds(job) {
            match next_step(job, traced, self.max_depth) {
                Step::Bounce(next) => SchedulerView {
                    queue: self.queue.push(next),
                    slots: self.slots.update(self.index_of(job), Slot::Queued(next.depth)),
                    ..self
                },
                Step::Settle(_) => SchedulerView {
                    slots: self.slots.update(self.index_of(job), Slot::Done),
                    ..self
                },
            }
        } else {
            self
        }
    }

    /// The answer to a worker that reports `traced` for `job`.
    pub open spec fn report(self, job: Job<R>, traced: Traced<R>) -> Report {
        if self.holds(job) {
            match next_step(job, traced, self.max_depth) {
                Step::Bounce(_) => Report::Bounced,
                Step::Settle(outcome) => Report::Settled(outcome),
            }
        } else {
            Report::Refused
        }
    }
}

/// The first job of the pixel at place `p` of a frame that is `width` pixels
/// wide: the ray `ray` from the camera, to be cast within `interv`.
pub open spec fn first_job<R>(width: usize, p: int, ray: R, interv: Interval) -> Job<R> {
    Job {
        row: (p / (width as int)) as usize,
        col: (p % (width as int)) as usize,
        depth: 0,
        ray,
        interv,
    }
}

/// The books at the start of a render: the first job of every pixel waits in
/// the queue, row by row, each with its ray from `rays`.
pub open spec fn started<R>(
    width: usize,
    height: usize,
    max_depth: usize,
    rays: Seq<R>,
    interv: Interval,
) -> SchedulerView<R> {
    SchedulerView {
        width,
        height,
        max_depth,
        queue: Seq::new(rays.len(), |p: int| first_job(width, p, rays[p], interv)),
        slots: Seq::new(rays.len(), |p: int| Slot::Queued(0)),
    }
}

/// Every place in the list of slots belongs to a pixel of the frame: the one
/// in row `p / width` and column `p % width`.
pub proof fn pixel_of_index(width: usize, height: usize, p: int)
    requires
        0 <= p < width * height,
    ensures
        width > 0,
        0 <= p / (width as int) < height,
        0 <= p % (width as int) < width,
        pixel_index(width, (p / (width as int)) as usize, (p % (width as int)) as usize) == p,
{
    assert(width > 0) by (nonlinear_arith)
        requires
            0 < width * height,
    ;
    let w = width as int;
    lemma_fundamental_div_mod(p, w);
    lemma_mod_bound(p, w);
    lemma_multiply_divide_lt(p, w, height as int);
    assert(0 <= p / w) by (nonlinear_arith)
        requires
            0 <= p,
            0 < w,
    ;
    assert(w * (p / w) == (p / w) * w) by (nonlinear_arith);
}

/// At the start of a render the books are in order.
pub proof fn started_is_well_formed<R>(
    width: usize,
    height: usize,
    max_depth: usize,
    rays: Seq<R>,
    interv: Interval,
)
    requires
        rays.len() == width * height,
        width * height <= usize::MAX,
    ensures
        started(width, height, max_depth, rays, interv).wf(),
        count_tracing(started(width, height, max_depth, rays, interv).slots) == 0,
{
    let books = started(width, height, max_depth, rays, interv);
    assert forall|i: int| 0 <= i < books.queue.len() implies {
        let job = #[trigger] books.queue[i];
        &&& books.in_frame(job.row, job.col)
        &&& job.depth <= books.max_depth
        &&& books.slots[books.index_of(job)] == Slot::Queued(job.depth)
        &&& books.index_of(job) == i
    } by {
        pixel_of_index(width, height, i);
    }
    assert forall|p: int|
        0 <= p < books.slots.len() && #[trigger] books.slots[p] is Queued implies books.has_pending(
        p,
    ) by {
        assert(books.index_of(books.queue[p]) == p);
    }
    count_tracing_bounds(books.slots);
}

/// At the start of a render every pixel has its full budget: with `n` pixels
/// and at most `max_depth` bounces, no more than `n * (2 * max_depth + 2)`
/// jobs handed out and reports taken lie ahead.
pub proof fn started_budget(n: nat, max_depth: usize)
    ensures
        budget(Seq::new(n, |p: int| Slot::Queued(0)), max_depth) == n * (2 * max_depth + 2),
    decreases n,
{
    let slots = Seq::new(n, |p: int| Slot::Queued(0));
    if n > 0 {
        started_budget((n - 1) as nat, max_depth);
        assert(slots.drop_last() =~= Seq::new((n - 1) as nat, |p: int| Slot::Queued(0)));
        assert(n * (2 * max_depth + 2) == (n - 1) * (2 * max_depth + 2) + (2 * max_depth + 2))
            by (nonlinear_arith);
    } else {
        assert(n * (2 * max_depth + 2) == 0) by (nonlinear_arith)
            requires
                n == 0,
        ;
    }
}

/// A pixel of the frame has a place in the list of slots.
pub proof fn pixel_index_in_range(width: usize, height: usize, row: usize, col: usize)
    requires
        row < height,
        col < width,
    ensures
        0 <= row * width <= pixel_index(width, row, col) < width * height,
{
    assert(row * width + width <= height * width) by (nonlinear_arith)
        requires
            row + 1 <= height,
    ;
    assert(width * height == height * width) by (nonlinear_arith);
    assert(0 <= row * width) by (nonlinear_arith);
}

/// Two pixels of one frame that share a place are the same pixel.
pub proof fn pixel_index_is_injective(
    width: usize,
    row: usize,
    col: usize,
    other_row: usize,
    other_col: usize,
)
    requires
        col < width,
        other_col < width,
        pixel_index(width, row, col) == pixel_index(width, other_row, other_col),
    ensures
        row == other_row,
        col == other_col,
{
    if row < other_row {
        assert(row * width + width <= other_row * width) by (nonlinear_arith)
            requires
                row + 1 <= other_row,
        ;
    }
    if other_row < row {
        assert(other_row * width + width <= row * width) by (nonlinear_arith)
            requires
                other_row + 1 <= row,
        ;
    }
}

/// Changing one slot changes the number of traced slots, and the budget, by
/// what the old and the new state of that slot contribute.
pub proof fn update_changes_one_slot(slots: Seq<Slot>, p: int, slot: Slot, max_depth: usize)
    requires
        0 <= p < slots.len(),
    ensures
        count_tracing(slots.update(p, slot)) + (if slots[p] is Tracing {
            1nat
        } else {
            0nat
        }) == count_tracing(slots) + (if slot is Tracing {
            1nat
        } else {
            0nat
        }),
        budget(slots.update(p, slot), max_depth) + slot_budget(slots[p], max_depth) == budget(
            slots,
            max_depth,
        ) + slot_budget(slot, max_depth),
    decreases slots.len(),
{
    let changed = slots.update(p, slot);
    if p == slots.len() - 1 {
        assert(changed.drop_last() =~= slots.drop_last());
    } else {
        update_changes_one_slot(slots.drop_last(), p, slot, max_depth);
        assert(changed.drop_last() =~= slots.drop_last().update(p, slot));
    }
}

/// No slot is being traced exactly where the count of traced slots is zero,
/// and the count never exceeds the number of slots.
pub proof fn count_tracing_bounds(slots: Seq<Slot>)
    ensures
        count_tracing(slots) <= slots.len(),
        count_tracing(slots) == 0 <==> forall|p: int|
            0 <= p < slots.len() ==> !(#[trigger] slots[p] is Tracing),
    decreases slots.len(),
{
    if slots.len() > 0 {
        count_tracing_bounds(slots.drop_last());
        let front = slots.drop_last();
        if count_tracing(slots) == 0 {
            assert forall|p: int| 0 <= p < slots.len() implies !(#[trigger] slots[p] is Tracing) by {
                if p < front.len() {
                    assert(front[p] == slots[p]);
                }
            }
        } else if !(slots.last() is Tracing) {
            let p = choose|p: int| 0 <= p < front.len() && #[trigger] front[p] is Tracing;
            assert(slots[p] is Tracing);
        }
    }
}

/// Handing out a job keeps the books in order, and spends one step of the
/// budget where there is a job to hand out.
pub proof fn next_keeps_order<R>(before: SchedulerView<R>)
    requires
        before.wf(),
    ensures
        before.next().wf(),
        before.queue.len() > 0 ==> before.next().holds(before.queue[0]),
        before.queue.len() > 0 ==> budget(before.next().slots, before.max_depth) + 1 == budget(
            before.slots,
            before.max_depth,
        ),
{
    if before.queue.len() > 0 {
        let after = before.next();
        let job = before.queue[0];
        let p = before.index_of(job);
        pixel_index_in_range(before.width, before.height, job.row, job.col);
        update_changes_one_slot(before.slots, p, Slot::Tracing(job.depth), before.max_depth);
        assert forall|i: int| 0 <= i < after.queue.len() implies {
            let job = #[trigger] after.queue[i];
            &&& after.in_frame(job.row, job.col)
            &&& job.depth <= after.max_depth
            &&& after.slots[after.index_of(job)] == Slot::Queued(job.depth)
        } by {
            let waiting = before.queue[i + 1];
            assert(after.queue[i] == waiting);
            pixel_index_in_range(before.width, before.height, waiting.row, waiting.col);
        }
        assert forall|i: int, j: int| 0 <= i < j < after.queue.len() implies after.index_of(
            #[trigger] after.queue[i],
        ) != after.index_of(#[trigger] after.queue[j]) by {
            assert(after.queue[i] == before.queue[i + 1]);
            assert(after.queue[j] == before.queue[j + 1]);
        }
        assert forall|q: int|
            0 <= q < after.slots.len() && #[trigger] after.slots[q] is Queued implies after.has_pending(
            q,
        ) by {
            assert(before.slots[q] is Queued);
            assert(before.has_pending(q));
            let i = choose|i: int|
                0 <= i < before.queue.len() && before.index_of(#[trigger] before.queue[i]) == q;
            assert(after.queue[i - 1] == before.queue[i]);
            assert(after.index_of(after.queue[i - 1]) == q);
        }
    }
}

/// Taking a report keeps the books in order, and spends at least one step of
/// the budget where a worker holds the job.
pub proof fn finish_keeps_order<R>(before: SchedulerView<R>, job: Job<R>, traced: Traced<R>)
    requires
        before.wf(),
    ensures
        before.finish(job, traced).wf(),
        before.holds(job) ==> budget(before.finish(job, traced).slots, before.max_depth) < budget(
            before.slots,
            before.max_depth,
        ),
{
    if before.holds(job) {
        let after = before.finish(job, traced);
        let p = before.index_of(job);
        pixel_index_in_range(before.width, before.height, job.row, job.col);
        assert(before.slots[p] == Slot::Tracing(job.depth));
        update_changes_one_slot(before.slots, p, after.slots[p], before.max_depth);
        assert(after.slots =~= before.slots.update(p, after.slots[p]));
        assert forall|q: int|
            0 <= q < after.slots.len() && #[trigger] after.slots[q] is Queued implies after.has_pending(
            q,
        ) by {
            if q == p {
                assert(after.index_of(after.queue[after.queue.len() - 1]) == q);
            } else {
                assert(before.has_pending(q));
                let i = choose|i: int|
                    0 <= i < before.queue.len() && before.index_of(#[trigger] before.queue[i]) == q;
                assert(after.index_of(after.queue[i]) == q);
            }
        }
        assert forall|i: int, j: int| 0 <= i < j < after.queue.len() implies after.index_of(
            #[trigger] after.queue[i],
        ) != after.index_of(#[trigger] after.queue[j]) by {
            assert(after.queue[i] == before.queue[i]);
            if j < before.queue.len() {
                assert(after.queue[j] == before.queue[j]);
            }
        }
        assert forall|i: int| 0 <= i < after.queue.len() implies {
            let job = #[trigger] after.queue[i];
            &&& after.in_frame(job.row, job.col)
            &&& job.depth <= after.max_depth
            &&& after.slots[after.index_of(job)] == Slot::Queued(job.depth)
        } by {
            if i < before.queue.len() {
                let waiting = before.queue[i];
                assert(after.queue[i] == waiting);
                pixel_index_in_range(before.width, before.height, waiting.row, waiting.col);
            }
        }
    }
}

/// Whoever holds a pixel's job is alone with that pixel: no pending job works
/// for it.
pub proof fn holder_is_alone<R>(books: SchedulerView<R>, job: Job<R>)
    requires
        books.wf(),
        books.holds(job),
    ensures
        !books.has_pending(books.index_of(job)),
{
    pixel_index_in_range(books.width, books.height, job.row, job.col);
}

/// A finished pixel stays finished, whatever is handed out or reported
/// afterwards; and a report for it is refused.
pub proof fn done_is_final<R>(books: SchedulerView<R>, job: Job<R>, traced: Traced<R>, p: int)
    requires
        books.wf(),
        0 <= p < books.slots.len(),
        books.slots[p] == Slot::Done,
    ensures
        books.next().slots[p] == Slot::Done,
        books.finish(job, traced).slots[p] == Slot::Done,
        books.index_of(job) == p ==> books.report(job, traced) == Report::Refused,
{
    if books.queue.len() > 0 {
        let head = books.queue[0];
        pixel_index_in_range(books.width, books.height, head.row, head.col);
    }
    if books.in_frame(job.row, job.col) {
        pixel_index_in_range(books.width, books.height, job.row, job.col);
    }
}

/// Once the render is over, every pixel is finished.
pub proof fn finished_means_done<R>(books: SchedulerView<R>)
    requires
        books.wf(),
        books.finished(),
    ensures
        forall|p: int| 0 <= p < books.slots.len() ==> #[trigger] books.slots[p] == Slot::Done,
{
    assert forall|p: int| 0 <= p < books.slots.len() implies #[trigger] books.slots[p]
        == Slot::Done by {
        if books.slots[p] is Queued {
            assert(books.has_pending(p));
        }
    }
}

/// A report changes the slot of the reported job's pixel and no other.
pub proof fn finish_touches_one_pixel<R>(
    books: SchedulerView<R>,
    job: Job<R>,
    traced: Traced<R>,
    p: int,
)
    requires
        books.wf(),
        0 <= p < books.slots.len(),
        p != books.index_of(job),
    ensures
        books.finish(job, traced).slots[p] == books.slots[p],
{
    if books.in_frame(job.row, job.col) {
        pixel_index_in_range(books.width, books.height, job.row, job.col);
    }
}

impl<R> View for Scheduler<R> {
    type V = SchedulerView<R>;

    closed spec fn view(&self) -> SchedulerView<R> {
        SchedulerView {
            width: self.width,
            height: self.height,
            max_depth: self.max_depth,
            queue: self.queue@,
            slots: self.slots@,
        }
    }
}

impl<R> Scheduler<R> {
    /// The books are in order, and the scheduler's own count of traced pixels
    /// agrees with them.
    #[verifier::type_invariant]
    closed spec fn inv(&self) -> bool {
        &&& self@.wf()
        &&& self.tracing == count_tracing(self.slots@)
    }

    /// A scheduler at the start of a render: the first job of every pixel is
    /// queued, row by row, and the pixel at place `p` gets the ray `rays[p]`.
    /// `None` unless there is exactly one ray for each pixel of the frame.
    pub fn new(
        width: usize,
        height: usize,
        max_depth: usize,
        rays: Vec<R>,
        interv: Interval,
    ) -> (made: Option<Scheduler<R>>)
        ensures
            made is Some <==> rays@.len() == width * height,
            match made {
                Some(scheduler) => {
                    &&& scheduler@ == started(width, height, max_depth, rays@, interv)
                    &&& scheduler@.wf()
                },
                None => true,
            },
    {
        let count: usize = rays.len();
        let total: usize = match width.checked_mul(height) {
            Some(total) => total,
            None => {
                return None;
            },
        };
        if count != total {
            return None;
        }
        let ghost given = rays@;
        let mut rays = rays;
        let mut queue: VecDeque<Job<R>> = VecDeque::new();
        let mut slots: Vec<Slot> = Vec::new();
        let mut p: usize = total;
        while p > 0
            invariant
                p <= total,
                total == width * height,
                given.len() == total,
                rays@ == given.take(p as int),
                queue@ == Seq::new(
                    (total - p) as nat,
                    |k: int| first_job(width, p + k, given[p + k], interv),
                ),
                slots@ == Seq::new((total - p) as nat, |k: int| Slot::Queued(0)),
            decreases p,
        {
            proof {
                pixel_of_index(width, height, p - 1);
            }
            p = p - 1;
            let ray = rays.pop().unwrap();
            let job = Job::new(p / width, p % width, ray, interv);
            queue.push_front(job);
            slots.push(Slot::Queued(0));
            proof {
                assert(rays@ =~= given.take(p as int));
                assert(queue@ =~= Seq::new(
                    (total - p) as nat,
                    |k: int| first_job(width, p + k, given[p + k], interv),
                ));
                assert(slots@ =~= Seq::new((total - p) as nat, |k: int| Slot::Queued(0)));
            }
        }
        proof {
            started_is_well_formed(width, height, max_depth, given, interv);
            assert(queue@ =~= started(width, height, max_depth, given, interv).queue);
            assert(slots@ =~= started(width, height, max_depth, given, interv).slots);
        }
        Some(Scheduler { width, height, max_depth, queue, slots, tracing: 0 })
    }

    /// Takes the parts of the scheduler out, leaving a scheduler for an empty
    /// frame in its place, so that the parts can be changed one after the
    /// other and put back together.
    fn take(&mut self) -> (parts: Scheduler<R>)
        ensures
            parts == *old(self),
            final(self)@.wf(),
    {
        let queue: VecDeque<Job<R>> = VecDeque::new();
        assert(queue@ =~= Seq::<Job<R>>::empty());
        let mut parts = Scheduler {
            width: 0,
            height: 0,
            max_depth: 0,
            queue,
            slots: Vec::new(),
            tracing: 0,
        };
        core::mem::swap(self, &mut parts);
        parts
    }

    /// The width of the frame.
    pub fn width(&self) -> (width: usize)
        ensures
            width == self@.width,
    {
        self.width
    }

    /// The height of the frame.
    pub fn height(&self) -> (height: usize)
        ensures
            height == self@.height,
    {
        self.height
    }

    /// The number of bounces that a pixel's chain may take.
    pub fn max_depth(&self) -> (max_depth: usize)
        ensures
            max_depth == self@.max_depth,
    {
        self.max_depth
    }

    /// The number of pending jobs.
    pub fn pending(&self) -> (pending: usize)
        ensures
            pending == self@.queue.len(),
    {
        self.queue.len()
    }

    /// The state of the pixel at `row` and `col`, or `None` where the frame
    /// has no such pixel.
    pub fn slot(&self, row: usize, col: usize) -> (slot: Option<Slot>)
        ensures
            self@.wf(),
            slot == if self@.in_frame(row, col) {
                Some(self@.slot(row, col))
            } else {
                None
            },
    {
        proof {
            use_type_invariant(self);
        }
        if row < self.height && col < self.width {
            proof {
                pixel_index_in_range(self.width, self.height, row, col);
            }
            Some(self.slots[row * self.width + col])
        } else {
            None
        }
    }

    /// Hands out the job that has waited longest, or `None` where no job is
    /// pending. The pixel of the job counts as being traced from now on.
    pub fn next(&mut self) -> (job: Option<Job<R>>)
        ensures
            old(self)@.wf(),
            final(self)@.wf(),
            final(self)@ == old(self)@.next(),
            match job {
                Some(job) => {
                    &&& old(self)@.queue.len() > 0
                    &&& job == old(self)@.queue[0]
                    &&& final(self)@.holds(job)
                },
                None => old(self)@.queue.len() == 0,
            },
    {
        let ghost before = self@;
        proof {
            use_type_invariant(&*self);
            next_keeps_order(before);
        }
        let Scheduler { width, height, max_depth, mut queue, mut slots, tracing } = self.take();
        match queue.pop_front() {
            None => {
                *self = Scheduler { width, height, max_depth, queue, slots, tracing };
                None
            },
            Some(job) => {
                proof {
                    let changed = before.slots.update(
                        before.index_of(job),
                        Slot::Tracing(job.depth),
                    );
                    pixel_index_in_range(width, height, job.row, job.col);
                    update_changes_one_slot(
                        before.slots,
                        before.index_of(job),
                        Slot::Tracing(job.depth),
                        max_depth,
                    );
                    count_tracing_bounds(changed);
                    assert(queue@ =~= before.queue.drop_first());
                }
                let p: usize = job.row * width + job.col;
                slots[p] = Slot::Tracing(job.depth);
                *self = Scheduler { width, height, max_depth, queue, slots, tracing: tracing + 1 };
                Some(job)
            },
        }
    }

    /// Takes a worker's report on `job`. Unless a worker holds `job`, the
    /// report is refused and nothing changes. Otherwise the job's fate is
    /// decided: either a follow-up job joins the end of the queue, or the
    /// pixel is done and the caller, alone, writes it.
    pub fn finish(&mut self, job: Job<R>, traced: Traced<R>) -> (report: Report)
        ensures
            old(self)@.wf(),
            final(self)@.wf(),
            final(self)@ == old(self)@.finish(job, traced),
            report == old(self)@.report(job, traced),
    {
        proof {
            use_type_invariant(&*self);
        }
        if !(job.row < self.height && job.col < self.width) {
            return Report::Refused;
        }
        proof {
            pixel_index_in_range(self.width, self.height, job.row, job.col);
        }
        let p: usize = job.row * self.width + job.col;
        match self.slots[p] {
            Slot::Tracing(depth) => {
                if depth != job.depth {
                    return Report::Refused;
                }
            },
            _ => {
                return Report::Refused;
            },
        }
        let ghost before = self@;
        proof {
            finish_keeps_order(before, job, traced);
            count_tracing_bounds(before.slots);
            assert(before.slots[p as int] is Tracing);
        }
        let Scheduler { width, height, max_depth, mut queue, mut slots, tracing } = self.take();
        match do_job(job, traced, max_depth) {
            Step::Bounce(next) => {
                proof {
                    update_changes_one_slot(
                        before.slots,
                        p as int,
                        Slot::Queued(next.depth),
                        max_depth,
                    );
                }
                slots[p] = Slot::Queued(next.depth);
                queue.push_back(next);
                *self = Scheduler { width, height, max_depth, queue, slots, tracing: tracing - 1 };
                Report::Bounced
            },
            Step::Settle(outcome) => {
                proof {
                    update_changes_one_slot(before.slots, p as int, Slot::Done, max_depth);
                }
                slots[p] = Slot::Done;
                *self = Scheduler { width, height, max_depth, queue, slots, tracing: tracing - 1 };
                Report::Settled(outcome)
            },
        }
    }

    /// Whether the render is over: no job is pending and no worker holds one.
    pub fn is_finished(&self) -> (finished: bool)
        ensures
            self@.wf(),
            finished == self@.finished(),
    {
        proof {
            use_type_invariant(self);
            count_tracing_bounds(self.slots@);
        }
        self.queue.len() == 0 && self.tracing == 0
    }
}

} // verus!
