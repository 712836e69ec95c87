use raytracer::interval::Interval;
use raytracer::scalar::{Scalar, EPSILON_BITS, INFINITY_BITS, ONE_BITS, SIGN_BIT};

fn s(x: f32) -> Scalar {
    Scalar::from_bits(x.to_bits())
}

fn samples() -> Vec<f32> {
    vec![
        0.0,
        -0.0,
        1.0,
        -1.0,
        0.5,
        -0.5,
        2.0,
        -2.0,
        1.0e-6,
        -1.0e-6,
        f32::EPSILON,
        -f32::EPSILON,
        f32::MIN_POSITIVE,
        -f32::MIN_POSITIVE,
        f32::from_bits(1),
        f32::from_bits(1 | 0x8000_0000),
        f32::MAX,
        f32::MIN,
        f32::INFINITY,
        f32::NEG_INFINITY,
        f32::NAN,
        f32::from_bits(0xFFC0_0001),
        f32::from_bits(0x7F80_0001),
        3.25,
        255.99,
        -1.0e30,
        1.0e30,
    ]
}

#[test]
fn constants_are_the_patterns_of_the_values() {
    assert_eq!(Scalar::zero().to_bits(), 0.0f32.to_bits());
    assert_eq!(Scalar::one().to_bits(), 1.0f32.to_bits());
    assert_eq!(Scalar::infinity().to_bits(), f32::INFINITY.to_bits());
    assert_eq!(Scalar::epsilon().to_bits(), f32::EPSILON.to_bits());
    assert_eq!(ONE_BITS, 1.0f32.to_bits());
    assert_eq!(EPSILON_BITS, f32::EPSILON.to_bits());
    assert_eq!(INFINITY_BITS, f32::INFINITY.to_bits());
    assert_eq!(SIGN_BIT, (-0.0f32).to_bits());
}

#[test]
fn from_bits_and_to_bits_are_inverse() {
    for x in samples() {
        assert_eq!(s(x).to_bits(), x.to_bits());
    }
    assert_eq!(Scalar::from_bits(0xDEAD_BEEF).bits, 0xDEAD_BEEF);
}

#[test]
fn less_than_agrees_with_the_machine() {
    for a in samples() {
        for b in samples() {
            assert_eq!(s(a).less_than(&s(b)), a < b, "{} < {}", a, b);
        }
    }
}

#[test]
fn is_nan_agrees_with_the_machine() {
    for a in samples() {
        assert_eq!(s(a).is_nan(), a.is_nan(), "{}", a);
    }
}

#[test]
fn negated_agrees_with_the_machine() {
    for a in samples() {
        assert_eq!(s(a).negated().to_bits(), (-a).to_bits(), "{}", a);
    }
}

#[test]
fn to_u8_agrees_with_the_machine() {
    for a in samples() {
        assert_eq!(s(a).to_u8(), a as u8, "{}", a);
    }
    for k in 0..=2600 {
        let x = k as f32 / 10.0;
        assert_eq!(s(x).to_u8(), x as u8, "{}", x);
        assert_eq!(s(-x).to_u8(), 0, "{}", -x);
    }
    let mut bits: u32 = 0;
    while bits < 0x7FC0_0000 {
        let x = f32::from_bits(bits);
        assert_eq!(s(x).to_u8(), x as u8, "{}", x);
        assert_eq!(Scalar::from_bits(bits | 0x8000_0000).to_u8(), 0);
        bits += 0x0000_7FF1;
    }
}

#[test]
fn to_u8_at_the_edges() {
    assert_eq!(s(0.0).to_u8(), 0);
    assert_eq!(s(-0.0).to_u8(), 0);
    assert_eq!(s(0.999_999_9).to_u8(), 0);
    assert_eq!(s(1.0).to_u8(), 1);
    assert_eq!(s(1.999_999_9).to_u8(), 1);
    assert_eq!(s(2.0).to_u8(), 2);
    assert_eq!(s(127.5).to_u8(), 127);
    assert_eq!(s(128.0).to_u8(), 128);
    assert_eq!(s(254.999_98).to_u8(), 254);
    assert_eq!(s(255.0).to_u8(), 255);
    assert_eq!(s(255.99).to_u8(), 255);
    assert_eq!(s(256.0).to_u8(), 255);
    assert_eq!(s(1.0e9).to_u8(), 255);
    assert_eq!(s(f32::INFINITY).to_u8(), 255);
    assert_eq!(s(f32::NEG_INFINITY).to_u8(), 0);
    assert_eq!(s(f32::NAN).to_u8(), 0);
    assert_eq!(s(-3.5).to_u8(), 0);
}

#[test]
fn zeros_are_not_ordered() {
    assert!(!s(0.0).less_than(&s(-0.0)));
    assert!(!s(-0.0).less_than(&s(0.0)));
}

#[test]
fn nothing_is_below_itself() {
    for a in samples() {
        assert!(!s(a).less_than(&s(a)));
    }
}

#[test]
fn interval_new_runs_from_zero_to_infinity() {
    let range = Interval::new();
    assert_eq!(f32::from_bits(range.t_min.to_bits()), 0.0);
    assert_eq!(f32::from_bits(range.t_max.to_bits()), f32::INFINITY);
}

#[test]
fn interval_initialize_keeps_the_bounds() {
    let range = Interval::initialize(s(0.001), s(50.0));
    assert_eq!(range.t_min.to_bits(), 0.001f32.to_bits());
    assert_eq!(range.t_max.to_bits(), 50.0f32.to_bits());
}

#[test]
fn interval_excludes_its_bounds() {
    let range = Interval::initialize(s(1.0), s(2.0));
    assert!(!range.is_contained(s(1.0)));
    assert!(!range.is_contained(s(2.0)));
    assert!(range.is_contained(s(1.5)));
    assert!(range.is_contained(f32_next(1.0)));
    assert!(range.is_contained(f32_prev(2.0)));
    let range = Interval::new();
    assert!(!range.is_contained(s(0.0)));
    assert!(!range.is_contained(s(-0.0)));
    assert!(!range.is_contained(s(f32::INFINITY)));
    assert!(range.is_contained(s(f32::MAX)));
    assert!(range.is_contained(s(f32::MIN_POSITIVE)));
}

fn f32_next(x: f32) -> Scalar {
    Scalar::from_bits(x.to_bits() + 1)
}

fn f32_prev(x: f32) -> Scalar {
    Scalar::from_bits(x.to_bits() - 1)
}

#[test]
fn interval_excludes_what_is_outside() {
    let range = Interval::initialize(s(-1.0), s(1.0));
    assert!(range.is_contained(s(0.0)));
    assert!(range.is_contained(s(-0.5)));
    assert!(!range.is_contained(s(-1.5)));
    assert!(!range.is_contained(s(1.5)));
    assert!(!range.is_contained(s(f32::NAN)));
    assert!(!range.is_contained(s(f32::INFINITY)));
}

#[test]
fn interval_agrees_with_the_machine() {
    for lo in samples() {
        for hi in samples() {
            if !(lo < hi) {
                continue;
            }
            let range = Interval::initialize(s(lo), s(hi));
            for t in samples() {
                assert_eq!(range.is_contained(s(t)), t > lo && t < hi);
            }
        }
    }
}
