use raytracer::image::Image;
use raytracer::interval::Interval;
use raytracer::job::{Job, Outcome, Traced};
use raytracer::pixel::Pix;
use raytracer::scalar::Scalar;
use raytracer::scheduler::{Report, Scheduler};

type Vec3 = [f32; 3];

fn add(a: Vec3, b: Vec3) -> Vec3 {
    [a[0] + b[0], a[1] + b[1], a[2] + b[2]]
}

fn sub(a: Vec3, b: Vec3) -> Vec3 {
    [a[0] - b[0], a[1] - b[1], a[2] - b[2]]
}

fn scale(a: Vec3, k: f32) -> Vec3 {
    [a[0] * k, a[1] * k, a[2] * k]
}

fn unit(a: Vec3) -> Vec3 {
    let l = (a[0] * a[0] + a[1] * a[1] + a[2] * a[2]).sqrt();
    [a[0] / l, a[1] / l, a[2] / l]
}

struct Screen {
    start_point: Vec3,
    horizontal: Vec3,
    vertical: Vec3,
}

fn screen(w_len: f32, h_len: f32) -> Screen {
    let horizontal = [w_len, 0.0, 0.0];
    let vertical = [0.0, h_len, 0.0];
    let mut start_point = [0.0, 0.0, 0.0];
    start_point = sub(start_point, scale(horizontal, 0.5));
    start_point = add(start_point, scale(vertical, 0.5));
    Screen { start_point, horizontal, vertical }
}

fn direction(screen: &Screen, camera: Vec3, row: usize, col: usize, width: usize, height: usize) -> Vec3 {
    let u = col as f32 / width as f32;
    let v = row as f32 / height as f32;
    sub(add(sub(screen.start_point, camera), scale(screen.horizontal, u)), scale(screen.vertical, v))
}

fn gradient_color(direction: Vec3) -> Vec3 {
    let t = 0.5 * (unit(direction)[1] + 1.0);
    add(scale([1.0, 1.0, 1.0], 1.0 - t), scale([0.5, 0.7, 1.0], t))
}

fn channel(x: f32) -> u8 {
    Scalar::from_bits((255.99 * x).to_bits()).to_u8()
}

fn quantize(color: Vec3) -> Pix {
    let mut pix = Pix::new();
    pix.set(channel(color[0]), channel(color[1]), channel(color[2]));
    pix
}

/// The gradient render, with the pixels worked off by `workers` workers that
/// take turns.
fn gradient_render(width: usize, height: usize, workers: usize) -> String {
    let screen = screen(4.0, 2.0);
    let camera = [0.0, 0.0, 1.0];
    let mut image = Image::new(width, height);
    let mut rays: Vec<Vec3> = Vec::new();
    for row in 0..height {
        for col in 0..width {
            rays.push(direction(&screen, camera, row, col, width, height));
        }
    }
    let mut scheduler = Scheduler::new(width, height, 0, rays, Interval::new()).unwrap();
    let mut held: Vec<Job<Vec3>> = Vec::new();
    while !scheduler.is_finished() {
        while held.len() < workers {
            match scheduler.next() {
                Some(job) => held.push(job),
                None => break,
            }
        }
        let job = held.pop().unwrap();
        let (row, col, ray) = (job.row, job.col, job.ray);
        match scheduler.finish(job, Traced::Miss) {
            Report::Settled(Outcome::Background) => image[row][col] = quantize(gradient_color(ray)),
            _ => panic!("a miss must settle the pixel with the background"),
        }
    }
    image.get_p3()
}

#[test]
fn gradient_render_of_two_by_two() {
    assert_eq!(
        gradient_render(2, 2, 1),
        "P3\n2 2\n255\n165 201 255\n146 190 255\n191 217 255\n191 217 255\n"
    );
}

#[test]
fn gradient_render_is_the_same_on_every_run() {
    let first = gradient_render(2, 2, 1);
    for _ in 0..5 {
        assert_eq!(gradient_render(2, 2, 1), first);
    }
}

#[test]
fn gradient_render_is_the_same_for_every_number_of_workers() {
    let alone = gradient_render(2, 2, 1);
    for workers in [2, 3, 4, 16] {
        assert_eq!(gradient_render(2, 2, workers), alone);
    }
    let alone = gradient_render(20, 10, 1);
    for workers in [2, 7, 200] {
        assert_eq!(gradient_render(20, 10, workers), alone);
    }
}
