use dex::Amount;

fn amount(value: f64) -> Amount {
    Amount::from_bits(value.to_bits())
}

fn samples() -> Vec<f64> {
    let mut values = vec![
        0.0,
        -0.0,
        1.0,
        -1.0,
        1.01,
        1.02,
        0.99,
        1000.0,
        1010.0,
        1020.0,
        5e-324,
        -5e-324,
        f64::MIN_POSITIVE,
        -f64::MIN_POSITIVE,
        f64::MIN_POSITIVE / 2.0,
        f64::MAX,
        f64::MIN,
        f64::EPSILON,
        1.0 + f64::EPSILON,
        1.0 - f64::EPSILON / 2.0,
        f64::INFINITY,
        f64::NEG_INFINITY,
        f64::NAN,
        -f64::NAN,
        f64::from_bits(0x7ff0_0000_0000_0001),
        f64::from_bits(0xfff8_0000_0000_0000),
        f64::from_bits(0xffff_ffff_ffff_ffff),
        2.5e-310,
        -2.5e-310,
        3.0,
        1e300,
        -1e300,
    ];
    let mut seed: u64 = 0x9e37_79b9_7f4a_7c15;
    for _ in 0..64 {
        seed ^= seed << 13;
        seed ^= seed >> 7;
        seed ^= seed << 17;
        values.push(f64::from_bits(seed));
    }
    values
}

#[test]
fn exceeds_is_the_binary64_greater_than() {
    for a in samples() {
        for b in samples() {
            assert_eq!(amount(a).exceeds(amount(b)), a > b, "{a:?} > {b:?}");
        }
    }
}

#[test]
fn is_one_is_equality_with_one() {
    for a in samples() {
        assert_eq!(amount(a).is_one(), a == 1.0, "{a:?}");
    }
    assert!(Amount::one().is_one());
    assert_eq!(Amount::one().to_bits(), 1.0f64.to_bits());
}

#[test]
fn is_positive_is_greater_than_zero() {
    for a in samples() {
        assert_eq!(amount(a).is_positive(), a > 0.0, "{a:?}");
        assert_eq!(amount(a).is_positive_finite(), a > 0.0 && a.is_finite(), "{a:?}");
    }
}

#[test]
fn classification_agrees_with_binary64() {
    for a in samples() {
        assert_eq!(amount(a).is_nan(), a.is_nan(), "{a:?}");
        assert_eq!(amount(a).is_finite(), a.is_finite(), "{a:?}");
    }
}

#[test]
fn zero_is_positive_zero() {
    assert_eq!(Amount::zero().to_bits(), 0.0f64.to_bits());
    assert_ne!(Amount::zero(), amount(-0.0));
    assert!(!Amount::zero().exceeds(amount(-0.0)));
    assert!(!amount(-0.0).exceeds(Amount::zero()));
}

#[test]
fn bits_round_trip() {
    for a in samples() {
        assert_eq!(amount(a).to_bits(), a.to_bits());
        assert_eq!(Amount::from_bits(a.to_bits()).bits, a.to_bits());
    }
}

#[test]
fn threshold_comparison_is_strict() {
    assert!(amount(1020.0).exceeds(amount(1010.0)));
    assert!(!amount(1010.0).exceeds(amount(1010.0)));
    assert!(!amount(1009.9999999999999).exceeds(amount(1010.0)));
    assert!(amount(1010.0000000000001).exceeds(amount(1010.0)));
}
