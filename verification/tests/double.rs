use loan_amortization::Double;

fn d(x: f64) -> Double {
    Double::from_bits(x.to_bits())
}

fn samples() -> Vec<f64> {
    vec![
        0.0,
        -0.0,
        1.0,
        -1.0,
        250.0,
        -1e-300,
        1e300,
        f64::MIN_POSITIVE,
        -f64::MIN_POSITIVE,
        f64::from_bits(1),
        f64::from_bits(0x8000_0000_0000_0001),
        f64::from_bits(0x000f_ffff_ffff_ffff),
        f64::MAX,
        f64::MIN,
        f64::INFINITY,
        f64::NEG_INFINITY,
        f64::NAN,
        -f64::NAN,
        f64::from_bits(0x7ff0_0000_0000_0001),
        f64::from_bits(0xfff0_0000_0000_0001),
        f64::from_bits(0x7fff_ffff_ffff_ffff),
        f64::from_bits(0xffff_ffff_ffff_ffff),
        f64::EPSILON,
        6505.143508027656,
    ]
}

#[test]
fn bits_round_trip() {
    for x in samples() {
        assert_eq!(d(x).to_bits(), x.to_bits());
        assert_eq!(Double::from_bits(x.to_bits()).bits, x.to_bits());
    }
}

#[test]
fn eq_zero_agrees_with_float_comparison() {
    for x in samples() {
        assert_eq!(d(x).eq_zero(), x == 0.0, "{:?}", x);
    }
}

#[test]
fn gt_zero_agrees_with_float_comparison() {
    for x in samples() {
        assert_eq!(d(x).gt_zero(), x > 0.0, "{:?}", x);
    }
}

#[test]
fn lt_zero_agrees_with_float_comparison() {
    for x in samples() {
        assert_eq!(d(x).lt_zero(), x < 0.0, "{:?}", x);
    }
}

#[test]
fn le_zero_agrees_with_float_comparison() {
    for x in samples() {
        assert_eq!(d(x).le_zero(), x <= 0.0, "{:?}", x);
    }
}

#[test]
fn le_agrees_with_float_comparison() {
    for x in samples() {
        for y in samples() {
            assert_eq!(d(x).le(d(y)), x <= y, "{:?} <= {:?}", x, y);
        }
    }
}

#[test]
fn clamp_agrees_with_float_selection() {
    for x in samples() {
        let expected: f64 = if x > 0.0 { x } else { 0.0 };
        assert_eq!(d(x).clamp_at_zero().to_bits(), expected.to_bits(), "{:?}", x);
    }
}

#[test]
fn clamp_turns_negative_zero_and_nan_into_positive_zero() {
    assert_eq!(d(-0.0).clamp_at_zero().to_bits(), 0);
    assert_eq!(d(f64::NAN).clamp_at_zero().to_bits(), 0);
    assert_eq!(d(-12.5).clamp_at_zero().to_bits(), 0);
    assert_eq!(d(f64::NEG_INFINITY).clamp_at_zero().to_bits(), 0);
    assert_eq!(d(12.5).clamp_at_zero().to_bits(), 12.5f64.to_bits());
    assert_eq!(d(f64::INFINITY).clamp_at_zero().to_bits(), f64::INFINITY.to_bits());
}

#[test]
fn clamp_keeps_order() {
    for x in samples() {
        for y in samples() {
            if d(x).le(d(y)) {
                assert!(d(x).clamp_at_zero().le(d(y).clamp_at_zero()), "{:?} {:?}", x, y);
            }
        }
    }
}
