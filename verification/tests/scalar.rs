use ppmpa::ray::{Flt, INFINITY_BITS, NEARLY0_BITS, ONE_BITS, SIGN_BIT};

fn f(x: f64) -> Flt {
    Flt::from_bits(x.to_bits())
}

fn samples() -> Vec<f64> {
    vec![
        0.0,
        -0.0,
        1.0,
        -1.0,
        0.1,
        0.3,
        -0.3,
        0.0001,
        0.002,
        2.5,
        -2.5,
        1.0e-310,
        -1.0e-310,
        f64::MIN_POSITIVE,
        f64::EPSILON,
        1.0 + f64::EPSILON,
        1.0 - f64::EPSILON / 2.0,
        f64::MAX,
        f64::MIN,
        f64::INFINITY,
        f64::NEG_INFINITY,
        f64::NAN,
        -f64::NAN,
        f64::from_bits(0x7FF0_0000_0000_0001),
        f64::from_bits(0xFFFF_FFFF_FFFF_FFFF),
    ]
}

#[test]
fn test_bits_round_trip() {
    for x in samples() {
        assert_eq!(f(x).to_bits(), x.to_bits());
    }
}

#[test]
fn test_constants_are_the_numbers() {
    assert_eq!(ONE_BITS, 1.0f64.to_bits());
    assert_eq!(NEARLY0_BITS, 0.0001f64.to_bits());
    assert_eq!(INFINITY_BITS, f64::INFINITY.to_bits());
    assert_eq!(SIGN_BIT, (-0.0f64).to_bits());
    assert_eq!(Flt::zero().to_bits(), 0.0f64.to_bits());
    assert_eq!(Flt::one().to_bits(), 1.0f64.to_bits());
    assert_eq!(Flt::nearly0().to_bits(), 0.0001f64.to_bits());
}

#[test]
fn test_lt_agrees_with_the_machine() {
    for a in samples() {
        for b in samples() {
            assert_eq!(f(a).lt(&f(b)), a < b, "{:?} < {:?}", a, b);
        }
    }
}

#[test]
fn test_gt_agrees_with_the_machine() {
    for a in samples() {
        for b in samples() {
            assert_eq!(f(a).gt(&f(b)), a > b, "{:?} > {:?}", a, b);
        }
    }
}

#[test]
fn test_eq_agrees_with_the_machine() {
    for a in samples() {
        for b in samples() {
            assert_eq!(f(a) == f(b), a == b, "{:?} == {:?}", a, b);
            assert_eq!(f(a) != f(b), a != b, "{:?} != {:?}", a, b);
        }
    }
}

#[test]
fn test_classes_agree_with_the_machine() {
    for a in samples() {
        assert_eq!(f(a).is_nan(), a.is_nan(), "{:?}", a);
        assert_eq!(f(a).is_zero(), a == 0.0, "{:?}", a);
        assert_eq!(f(a).is_one(), a == 1.0, "{:?}", a);
    }
}

#[test]
fn test_neg_agrees_with_the_machine() {
    for a in samples() {
        assert_eq!((-f(a)).to_bits(), (-a).to_bits(), "{:?}", a);
        assert_eq!((-(-f(a))).to_bits(), a.to_bits(), "{:?}", a);
    }
}

#[test]
fn test_neg_reverses_order() {
    for a in samples() {
        for b in samples() {
            assert_eq!((-f(b)).lt(&(-f(a))), f(a).lt(&f(b)));
        }
    }
}

#[test]
fn test_zeros_are_equal_and_nan_is_not() {
    assert!(f(0.0) == f(-0.0));
    assert!(!f(-0.0).lt(&f(0.0)));
    assert!(f(f64::NAN) != f(f64::NAN));
    assert!(!f(f64::NAN).lt(&f(1.0)));
    assert!(!f(1.0).lt(&f(f64::NAN)));
}

#[test]
fn test_le_agrees_with_the_machine() {
    for a in samples() {
        for b in samples() {
            assert_eq!(f(a).le(&f(b)), a <= b, "{:?} <= {:?}", a, b);
        }
    }
}
