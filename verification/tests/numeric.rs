use trader_exec::numeric::{Binary64, Number, U256};

fn number(x: f64) -> Binary64 {
    Binary64::from_bits(x.to_bits())
}

fn samples() -> Vec<f64> {
    vec![
        0.0,
        -0.0,
        1.0,
        -1.0,
        25.0,
        30.0,
        20.0,
        0.1,
        -0.1,
        1e-320,
        -1e-320,
        f64::MIN_POSITIVE,
        f64::MAX,
        f64::MIN,
        f64::INFINITY,
        f64::NEG_INFINITY,
        f64::NAN,
        -f64::NAN,
        f64::EPSILON,
        123456.789,
        -123456.789,
    ]
}

#[test]
fn less_than_agrees_with_the_hardware() {
    for a in samples() {
        for b in samples() {
            assert_eq!(number(a).lt(number(b)), a < b, "{} < {}", a, b);
        }
    }
}

#[test]
fn greater_than_agrees_with_the_hardware() {
    for a in samples() {
        for b in samples() {
            assert_eq!(number(a).gt(number(b)), a > b, "{} > {}", a, b);
        }
    }
}

#[test]
fn nan_is_recognised() {
    for a in samples() {
        assert_eq!(number(a).is_nan(), a.is_nan(), "{}", a);
    }
    assert!(Binary64::from_bits(0x7ff0_0000_0000_0001).is_nan());
    assert!(Binary64::from_bits(0xfff8_0000_0000_0000).is_nan());
    assert!(!Binary64::from_bits(0x7ff0_0000_0000_0000).is_nan());
    assert!(!Binary64::from_bits(0xfff0_0000_0000_0000).is_nan());
}

#[test]
fn the_two_zeros_are_equal() {
    assert!(!number(0.0).lt(number(-0.0)));
    assert!(!number(-0.0).lt(number(0.0)));
    assert!(!number(0.0).gt(number(-0.0)));
    assert!(number(-0.0).lt(number(f64::MIN_POSITIVE)));
}

#[test]
fn nan_compares_false() {
    assert!(!number(f64::NAN).lt(number(1.0)));
    assert!(!number(1.0).lt(number(f64::NAN)));
    assert!(!number(f64::NAN).gt(number(1.0)));
    assert!(!number(f64::NAN).lt(number(f64::NAN)));
}

#[test]
fn bits_round_trip() {
    assert_eq!(Binary64::from_bits(0x4039_0000_0000_0000).to_bits(), 25.0f64.to_bits());
    assert_eq!(number(30.0).bits, 0x403e_0000_0000_0000);
    assert_eq!(Number::Float(number(1.5)), Number::Float(Binary64 { bits: 1.5f64.to_bits() }));
}

#[test]
fn zero_has_four_empty_limbs() {
    assert_eq!(U256::zero(), U256 { limbs: [0, 0, 0, 0] });
}
