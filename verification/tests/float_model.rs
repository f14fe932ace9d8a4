//! The measure model against the double-precision semantics it encodes.

use trellis::{FloatBits, TrellisFloat};

fn m(x: f64) -> FloatBits {
    FloatBits::from_bits(x.to_bits())
}

fn lt(a: f64, b: f64) -> bool {
    m(a).lt(&m(b))
}

#[test]
fn measure_order_matches_double_order() {
    let samples: [f64; 12] = [
        f64::NEG_INFINITY,
        -2.0,
        -1.0,
        -0.5,
        -0.0,
        0.0,
        0.5,
        1.0,
        2.0,
        1.0e300,
        f64::INFINITY,
        f64::EPSILON,
    ];
    for &a in samples.iter() {
        for &b in samples.iter() {
            assert_eq!(lt(a, b), a < b, "order of {a} and {b}");
        }
    }
}

#[test]
fn measure_order_rejects_nan() {
    assert!(!lt(f64::NAN, 1.0));
    assert!(!lt(1.0, f64::NAN));
    assert!(!lt(f64::NAN, f64::NAN));
    assert!(!lt(f64::NAN, f64::INFINITY));
}

#[test]
fn measure_order_on_signed_zeroes() {
    assert!(!lt(-0.0, 0.0));
    assert!(!lt(0.0, -0.0));
    assert!(lt(-0.0, 1.0));
    assert!(lt(-1.0, -0.0));
}

#[test]
fn measure_classifies_infinities() {
    assert!(m(f64::INFINITY).is_infinite());
    assert!(m(f64::NEG_INFINITY).is_infinite());
    assert!(!m(1.0).is_infinite());
    assert!(!m(f64::NAN).is_infinite());
    assert!(m(f64::INFINITY).is_sign_positive());
    assert!(!m(f64::NEG_INFINITY).is_sign_positive());
    assert!(m(0.0).is_sign_positive());
    assert!(!m(-0.0).is_sign_positive());
}

#[test]
fn measure_constants_match_double_constants() {
    assert_eq!(FloatBits::infinity().bits(), f64::INFINITY.to_bits());
    assert_eq!(FloatBits::epsilon().bits(), f64::EPSILON.to_bits());
    assert_eq!(m(0.25).bits(), 0.25f64.to_bits());
}
