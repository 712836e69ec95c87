use raytracer::interval::Interval;
use raytracer::job::{do_job, Job, Outcome, Step, Traced, DEFAULT_MAX_DEPTH};
use raytracer::scalar::Scalar;
use raytracer::scheduler::{Report, Scheduler, Slot};

/// A stand-in for casting a ray: what is found depends on the pixel and on
/// the ray's number alone.
fn cast(job: &Job<u32>) -> Traced<u32> {
    let seed = (job.row * 7 + job.col * 3) as u32 + job.ray;
    match seed % 5 {
        0 => Traced::Miss,
        1 => Traced::Absorbed,
        _ => Traced::Scattered(job.ray + 1, Interval::new()),
    }
}

fn scheduler(width: usize, height: usize, max_depth: usize) -> Scheduler<u32> {
    let rays: Vec<u32> = (0..(width * height) as u32).map(|p| 10 * p).collect();
    Scheduler::new(width, height, max_depth, rays, Interval::new()).unwrap()
}

/// Renders a frame with `workers` workers that take turns, and returns how
/// each pixel was settled and how many reports it took.
fn render(
    width: usize,
    height: usize,
    max_depth: usize,
    workers: usize,
) -> (Vec<Option<Outcome>>, usize) {
    let mut scheduler = scheduler(width, height, max_depth);
    let mut frame: Vec<Option<Outcome>> = vec![None; width * height];
    let mut reports = 0;
    let mut held: Vec<Job<u32>> = Vec::new();
    while !scheduler.is_finished() {
        while held.len() < workers {
            match scheduler.next() {
                Some(job) => held.push(job),
                None => break,
            }
        }
        let job = held.pop().unwrap();
        let (row, col) = (job.row, job.col);
        let traced = cast(&job);
        reports += 1;
        match scheduler.finish(job, traced) {
            Report::Settled(outcome) => {
                assert!(frame[row * width + col].is_none());
                frame[row * width + col] = Some(outcome);
            }
            Report::Bounced => {}
            Report::Refused => panic!("a held job was refused"),
        }
    }
    assert!(held.is_empty());
    (frame, reports)
}

#[test]
fn job_new_starts_at_depth_zero() {
    let job = Job::new(3, 4, 'r', Interval::new());
    assert_eq!((job.row, job.col, job.depth, job.ray), (3, 4, 0, 'r'));
    assert_eq!(job.interv.t_min.bits, 0);
    assert_eq!(job.interv.t_max.bits, f32::INFINITY.to_bits());
}

#[test]
fn job_update_goes_one_bounce_deeper() {
    let mut job = Job::new(3, 4, 'r', Interval::new());
    let range = Interval::initialize(
        Scalar::from_bits(0.001f32.to_bits()),
        Scalar::from_bits(9.0f32.to_bits()),
    );
    job.update('s', range);
    assert_eq!((job.row, job.col, job.depth, job.ray), (3, 4, 1, 's'));
    assert_eq!(job.interv.t_min.bits, 0.001f32.to_bits());
    assert_eq!(job.interv.t_max.bits, 9.0f32.to_bits());
    job.update('t', range);
    assert_eq!(job.depth, 2);
}

#[test]
fn default_depth_is_fifty() {
    assert_eq!(DEFAULT_MAX_DEPTH, 50);
}

#[test]
fn do_job_settles_a_miss_with_the_background() {
    let job = Job::new(1, 2, 0u32, Interval::new());
    assert!(matches!(do_job(job, Traced::Miss, 5), Step::Settle(Outcome::Background)));
}

#[test]
fn do_job_settles_an_absorbed_ray_with_the_surface() {
    let job = Job::new(1, 2, 0u32, Interval::new());
    assert!(matches!(do_job(job, Traced::Absorbed, 5), Step::Settle(Outcome::Surface)));
}

#[test]
fn do_job_settles_a_failure_as_failed() {
    let job = Job::new(1, 2, 0u32, Interval::new());
    assert!(matches!(do_job(job, Traced::Failed, 5), Step::Settle(Outcome::Failed)));
}

#[test]
fn do_job_bounces_while_depth_is_left() {
    let job = Job::new(1, 2, 10u32, Interval::new());
    match do_job(job, Traced::Scattered(11, Interval::new()), 1) {
        Step::Bounce(next) => {
            assert_eq!((next.row, next.col, next.depth, next.ray), (1, 2, 1, 11));
            assert!(matches!(
                do_job(next, Traced::Scattered(12, Interval::new()), 1),
                Step::Settle(Outcome::Exhausted)
            ));
        }
        Step::Settle(_) => panic!("the first bounce was refused"),
    }
}

#[test]
fn do_job_with_no_depth_never_bounces() {
    let job = Job::new(0, 0, 10u32, Interval::new());
    assert!(matches!(
        do_job(job, Traced::Scattered(11, Interval::new()), 0),
        Step::Settle(Outcome::Exhausted)
    ));
}

#[test]
fn do_job_hands_the_new_range_on() {
    let job = Job::new(0, 0, 10u32, Interval::new());
    let range = Interval::initialize(
        Scalar::from_bits(0.5f32.to_bits()),
        Scalar::from_bits(2.0f32.to_bits()),
    );
    match do_job(job, Traced::Scattered(11, range), 3) {
        Step::Bounce(next) => {
            assert_eq!(next.interv.t_min.bits, 0.5f32.to_bits());
            assert_eq!(next.interv.t_max.bits, 2.0f32.to_bits());
        }
        Step::Settle(_) => panic!("the first bounce was refused"),
    }
}

#[test]
fn scheduler_starts_with_every_pixel_queued() {
    let scheduler = scheduler(3, 2, 9);
    assert_eq!(scheduler.width(), 3);
    assert_eq!(scheduler.height(), 2);
    assert_eq!(scheduler.max_depth(), 9);
    assert_eq!(scheduler.pending(), 6);
    assert!(!scheduler.is_finished());
    for row in 0..2 {
        for col in 0..3 {
            assert_eq!(scheduler.slot(row, col), Some(Slot::Queued(0)));
        }
    }
    assert_eq!(scheduler.slot(2, 0), None);
    assert_eq!(scheduler.slot(0, 3), None);
}

#[test]
fn scheduler_hands_first_jobs_out_row_by_row() {
    let mut scheduler = scheduler(3, 2, 9);
    for p in 0..6 {
        let job = scheduler.next().unwrap();
        assert_eq!((job.row, job.col, job.depth, job.ray), (p / 3, p % 3, 0, 10 * p as u32));
        assert_eq!(job.interv.t_min.bits, 0);
        assert_eq!(job.interv.t_max.bits, f32::INFINITY.to_bits());
    }
    assert!(scheduler.next().is_none());
    assert!(!scheduler.is_finished());
}

#[test]
fn scheduler_needs_one_ray_for_each_pixel() {
    assert!(Scheduler::new(2, 2, 1, vec![0u32; 3], Interval::new()).is_none());
    assert!(Scheduler::new(2, 2, 1, vec![0u32; 5], Interval::new()).is_none());
    assert!(Scheduler::new(2, 2, 1, vec![0u32; 4], Interval::new()).is_some());
    assert!(Scheduler::new(0, 2, 1, vec![0u32; 1], Interval::new()).is_none());
}

#[test]
fn scheduler_is_not_made_for_a_frame_beyond_counting() {
    assert!(Scheduler::<u32>::new(usize::MAX, 2, 1, Vec::new(), Interval::new()).is_none());
    assert!(Scheduler::<u32>::new(2, usize::MAX, 1, Vec::new(), Interval::new()).is_none());
    assert!(Scheduler::<u32>::new(usize::MAX, 0, 1, Vec::new(), Interval::new()).is_some());
    assert!(Scheduler::<u32>::new(0, usize::MAX, 1, Vec::new(), Interval::new()).is_some());
}

#[test]
fn scheduler_of_an_empty_frame_is_finished() {
    let scheduler: Scheduler<u32> = Scheduler::new(0, 0, 1, Vec::new(), Interval::new()).unwrap();
    assert!(scheduler.is_finished());
    assert_eq!(scheduler.pending(), 0);
    assert_eq!(scheduler.slot(0, 0), None);
}

#[test]
fn scheduler_follows_one_pixel_to_its_end() {
    let mut scheduler = scheduler(1, 1, 1);
    assert_eq!(scheduler.slot(0, 0), Some(Slot::Queued(0)));
    assert_eq!(scheduler.pending(), 1);
    assert!(!scheduler.is_finished());

    let job = scheduler.next().unwrap();
    assert_eq!((job.row, job.col, job.depth, job.ray), (0, 0, 0, 0));
    assert_eq!(scheduler.slot(0, 0), Some(Slot::Tracing(0)));
    assert_eq!(scheduler.pending(), 0);
    assert!(!scheduler.is_finished());
    assert!(scheduler.next().is_none());

    assert_eq!(scheduler.finish(job, Traced::Scattered(41, Interval::new())), Report::Bounced);
    assert_eq!(scheduler.slot(0, 0), Some(Slot::Queued(1)));
    assert_eq!(scheduler.pending(), 1);

    let job = scheduler.next().unwrap();
    assert_eq!((job.row, job.col, job.depth, job.ray), (0, 0, 1, 41));
    assert_eq!(scheduler.slot(0, 0), Some(Slot::Tracing(1)));
    assert_eq!(
        scheduler.finish(job, Traced::Scattered(42, Interval::new())),
        Report::Settled(Outcome::Exhausted)
    );
    assert_eq!(scheduler.slot(0, 0), Some(Slot::Done));
    assert!(scheduler.is_finished());
}

#[test]
fn scheduler_queues_bounces_behind_what_waits() {
    let mut scheduler = scheduler(2, 2, 3);
    let first = scheduler.next().unwrap();
    assert_eq!(first.ray, 0);
    assert_eq!(scheduler.finish(first, Traced::Scattered(7, Interval::new())), Report::Bounced);
    assert_eq!(scheduler.next().unwrap().ray, 10);
    assert_eq!(scheduler.next().unwrap().ray, 20);
    assert_eq!(scheduler.next().unwrap().ray, 30);
    let bounced = scheduler.next().unwrap();
    assert_eq!((bounced.row, bounced.col, bounced.depth, bounced.ray), (0, 0, 1, 7));
    assert!(scheduler.next().is_none());
}

#[test]
fn scheduler_refuses_reports_for_jobs_nobody_holds() {
    let mut scheduler = scheduler(2, 2, 3);
    assert_eq!(scheduler.finish(Job::new(0, 0, 0, Interval::new()), Traced::Miss), Report::Refused);
    assert_eq!(scheduler.finish(Job::new(5, 5, 0, Interval::new()), Traced::Miss), Report::Refused);
    assert_eq!(scheduler.finish(Job::new(0, 2, 0, Interval::new()), Traced::Miss), Report::Refused);
    assert_eq!(scheduler.slot(0, 0), Some(Slot::Queued(0)));
    assert_eq!(scheduler.pending(), 4);
    let job = scheduler.next().unwrap();
    let mut forged = Job::new(0, 0, 0, Interval::new());
    forged.update(0, Interval::new());
    assert_eq!(scheduler.finish(forged, Traced::Miss), Report::Refused);
    assert_eq!(scheduler.finish(Job::new(0, 1, 0, Interval::new()), Traced::Miss), Report::Refused);
    assert_eq!(scheduler.slot(0, 0), Some(Slot::Tracing(0)));
    assert_eq!(scheduler.finish(job, Traced::Absorbed), Report::Settled(Outcome::Surface));
    assert_eq!(scheduler.finish(Job::new(0, 0, 0, Interval::new()), Traced::Miss), Report::Refused);
    assert_eq!(scheduler.slot(0, 0), Some(Slot::Done));
    assert_eq!(scheduler.slot(0, 1), Some(Slot::Queued(0)));
}

#[test]
fn scheduler_reports_a_failed_pixel_and_goes_on() {
    let mut scheduler = scheduler(2, 1, 3);
    let job = scheduler.next().unwrap();
    assert_eq!(scheduler.finish(job, Traced::Failed), Report::Settled(Outcome::Failed));
    assert!(!scheduler.is_finished());
    let job = scheduler.next().unwrap();
    assert_eq!(scheduler.finish(job, Traced::Miss), Report::Settled(Outcome::Background));
    assert!(scheduler.is_finished());
}

#[test]
fn scheduler_is_not_finished_while_a_job_is_out() {
    let mut scheduler = scheduler(1, 1, 3);
    let job = scheduler.next().unwrap();
    assert_eq!(scheduler.pending(), 0);
    assert!(!scheduler.is_finished());
    assert_eq!(scheduler.finish(job, Traced::Miss), Report::Settled(Outcome::Background));
    assert!(scheduler.is_finished());
}

#[test]
fn render_settles_every_pixel_once() {
    let (frame, reports) = render(4, 3, 6, 2);
    assert_eq!(frame.len(), 12);
    assert!(frame.iter().all(|p| p.is_some()));
    assert!(reports >= 12);
    assert!(reports <= 12 * 7);
}

#[test]
fn render_stays_within_the_bounce_limit() {
    for max_depth in [0, 1, 2, 5] {
        let (frame, reports) = render(6, 5, max_depth, 3);
        assert!(frame.iter().all(|p| p.is_some()));
        assert!(reports <= 30 * (max_depth + 1));
    }
    let (frame, reports) = render(6, 5, 0, 3);
    assert_eq!(reports, 30);
    assert!(frame.iter().all(|p| *p != Some(Outcome::Failed)));
}

#[test]
fn render_does_not_depend_on_the_number_of_workers() {
    let (alone, reports) = render(5, 4, 8, 1);
    for workers in [2, 3, 4, 7, 20, 100] {
        let (frame, n) = render(5, 4, 8, workers);
        assert_eq!(frame, alone);
        assert_eq!(n, reports);
    }
}

#[test]
fn render_of_an_empty_frame_is_over_at_once() {
    let (frame, reports) = render(0, 0, 8, 3);
    assert!(frame.is_empty());
    assert_eq!(reports, 0);
    let (frame, reports) = render(0, 5, 8, 3);
    assert!(frame.is_empty());
    assert_eq!(reports, 0);
}
