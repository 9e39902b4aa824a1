use plug_gui::scalar::{Scalar, INFINITY, ONE, SIGN, TWO, ZERO};

const SAMPLES: [f32; 11] = [
    f32::NEG_INFINITY,
    -1.0e30,
    -1.0,
    -1.0e-40,
    -0.0,
    0.0,
    1.0e-40,
    0.5,
    1.0,
    3.0e30,
    f32::INFINITY,
];

fn num(n: f32) -> Scalar {
    Scalar { bits: n.to_bits() }
}

fn float(n: Scalar) -> f32 {
    f32::from_bits(n.bits)
}

#[test]
fn named_bits_are_those_numbers() {
    assert_eq!(f32::from_bits(ZERO), 0.0);
    assert_eq!(f32::from_bits(ONE), 1.0);
    assert_eq!(f32::from_bits(TWO), 2.0);
    assert_eq!(f32::from_bits(INFINITY), f32::INFINITY);
    assert_eq!((-0.0f32).to_bits(), SIGN);
}

#[test]
fn the_order_is_that_of_floats() {
    for a in SAMPLES {
        for b in SAMPLES {
            assert_eq!(num(a).less_than(num(b)), a < b, "{a} {b}");
            assert_eq!(float(num(a).max(num(b))), a.max(b), "{a} {b}");
            assert_eq!(float(num(a).min(num(b))), a.min(b), "{a} {b}");
        }
    }
}

#[test]
fn nan_is_ordered_with_nothing() {
    let nan = num(f32::NAN);
    let negative = Scalar { bits: f32::NAN.to_bits() | SIGN };
    assert!(nan.nan());
    assert!(negative.nan());
    for a in SAMPLES {
        assert!(!num(a).nan());
        assert!(!nan.less_than(num(a)));
        assert!(!num(a).less_than(nan));
        assert_eq!(nan.max(num(a)), num(a));
        assert_eq!(num(a).max(nan), num(a));
        assert_eq!(negative.min(num(a)), num(a));
        assert_eq!(num(a).min(negative), num(a));
    }
}

#[test]
fn clamping_is_that_of_floats() {
    for a in SAMPLES {
        assert_eq!(float(num(a).clamp(num(0.0), num(7.5))), a.clamp(0.0, 7.5));
        let once = num(a).clamp(num(-2.0), num(2.0));
        assert_eq!(once.clamp(num(-2.0), num(2.0)), once);
    }
    assert!(num(f32::NAN).clamp(num(0.0), num(1.0)).nan());
}
