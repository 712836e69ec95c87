use raytracer::interval::Interval;
use raytracer::nearest::nearest_hit;
use raytracer::scalar::Scalar;

fn s(x: f32) -> Scalar {
    Scalar::from_bits(x.to_bits())
}

fn hits(ts: &[Option<f32>]) -> Vec<Option<Scalar>> {
    ts.iter().map(|t| t.map(s)).collect()
}

#[test]
fn nearest_of_nothing_is_nothing() {
    assert_eq!(nearest_hit(&Vec::new(), &Interval::new()), None);
    assert_eq!(nearest_hit(&hits(&[None, None]), &Interval::new()), None);
}

#[test]
fn nearest_picks_the_smallest_parameter() {
    let answers = hits(&[Some(3.0), Some(1.0), None, Some(2.0)]);
    assert_eq!(nearest_hit(&answers, &Interval::new()), Some(1));
}

#[test]
fn nearest_keeps_the_first_of_equals() {
    let answers = hits(&[Some(2.0), Some(1.0), Some(1.0), Some(1.0)]);
    assert_eq!(nearest_hit(&answers, &Interval::new()), Some(1));
    let answers = hits(&[Some(1.0), Some(1.0)]);
    assert_eq!(nearest_hit(&answers, &Interval::new()), Some(0));
}

#[test]
fn nearest_ignores_what_lies_outside_the_range() {
    let range = Interval::initialize(s(1.0), s(4.0));
    let answers = hits(&[Some(0.5), Some(1.0), Some(4.0), Some(3.0), Some(9.0)]);
    assert_eq!(nearest_hit(&answers, &range), Some(3));
    let answers = hits(&[Some(0.5), Some(1.0), Some(4.0), Some(9.0)]);
    assert_eq!(nearest_hit(&answers, &range), None);
}

#[test]
fn nearest_ignores_what_is_no_number() {
    let answers = hits(&[Some(f32::NAN), Some(2.0), Some(f32::NAN)]);
    assert_eq!(nearest_hit(&answers, &Interval::new()), Some(1));
    let answers = hits(&[Some(f32::NAN)]);
    assert_eq!(nearest_hit(&answers, &Interval::new()), None);
}

#[test]
fn nearest_agrees_with_a_plain_search() {
    let values = [5.0f32, 0.25, 7.5, 0.25, 3.0, -1.0, 0.0, 100.0, 0.125, 0.125];
    let range = Interval::initialize(s(0.0), s(50.0));
    for len in 0..=values.len() {
        for start in 0..values.len() {
            let ts: Vec<Option<f32>> =
                (0..len).map(|k| Some(values[(start + 3 * k) % values.len()])).collect();
            let mut expected: Option<usize> = None;
            for (i, t) in ts.iter().enumerate() {
                let t = t.unwrap();
                if t > 0.0 && t < 50.0 {
                    match expected {
                        Some(b) if !(t < ts[b].unwrap()) => {}
                        _ => expected = Some(i),
                    }
                }
            }
            assert_eq!(nearest_hit(&hits(&ts), &range), expected);
        }
    }
}
