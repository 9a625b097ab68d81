use rmm_curves::binary64::Binary64;
use rmm_curves::binary64::INFINITY_BITS;
use rmm_curves::binary64::INV_SQRT_TWO_PI_BITS;
use rmm_curves::binary64::ONE_BITS;
use rmm_curves::binary64::SIGN_BIT;
use rmm_curves::binary64::TWO_BITS;

fn num(x: f64) -> Binary64 {
    Binary64::from_bits(x.to_bits())
}

fn val(b: Binary64) -> f64 {
    f64::from_bits(b.to_bits())
}

fn samples() -> Vec<f64> {
    vec![
        0.0,
        -0.0,
        1.0,
        -1.0,
        0.1,
        -0.1,
        0.01,
        20.0,
        100.0,
        f64::MIN_POSITIVE,
        -f64::MIN_POSITIVE,
        5e-324,
        -5e-324,
        f64::MAX,
        f64::MIN,
        f64::INFINITY,
        f64::NEG_INFINITY,
        f64::NAN,
        -f64::NAN,
        f64::EPSILON,
        2.2250738585072009e-308,
        1.7976931348623157e308,
    ]
}

#[test]
fn sign_tests_agree_with_hardware_comparison() {
    for x in samples() {
        assert_eq!(num(x).is_positive(), x > 0.0, "{x}");
        assert_eq!(num(x).is_negative(), x < 0.0, "{x}");
        assert_eq!(num(x).is_zero(), x == 0.0, "{x}");
        assert_eq!(num(x).is_non_negative(), x >= 0.0, "{x}");
    }
}

#[test]
fn classes_agree_with_hardware_classes() {
    for x in samples() {
        assert_eq!(num(x).is_nan(), x.is_nan(), "{x}");
        assert_eq!(num(x).is_finite(), x.is_finite(), "{x}");
    }
}

#[test]
fn every_exponent_is_classified_as_the_hardware_does() {
    for exponent in 0..2048u64 {
        for fraction in [0u64, 1, 0x8_0000_0000_0000, 0xf_ffff_ffff_ffff] {
            for sign in [0u64, SIGN_BIT] {
                let bits = sign | (exponent << 52) | fraction;
                let x = f64::from_bits(bits);
                let b = Binary64::from_bits(bits);
                assert_eq!(b.is_positive(), x > 0.0, "{bits:#x}");
                assert_eq!(b.is_negative(), x < 0.0, "{bits:#x}");
                assert_eq!(b.is_zero(), x == 0.0, "{bits:#x}");
                assert_eq!(b.is_non_negative(), x >= 0.0, "{bits:#x}");
                assert_eq!(b.is_nan(), x.is_nan(), "{bits:#x}");
                assert_eq!(b.is_finite(), x.is_finite(), "{bits:#x}");
            }
        }
    }
}

#[test]
fn negation_is_the_hardware_negation() {
    for x in samples() {
        assert_eq!(num(x).negated().to_bits(), (-x).to_bits(), "{x}");
        assert_eq!(num(x).negated().negated().to_bits(), x.to_bits(), "{x}");
    }
    assert_eq!(val(num(2.5).negated()), -2.5);
}

#[test]
fn bits_round_trip() {
    assert_eq!(Binary64::from_bits(0x1234_5678_9abc_def0).to_bits(), 0x1234_5678_9abc_def0);
    assert_eq!(Binary64::from_bits(7).bits, 7);
}

#[test]
fn named_numbers_are_what_they_say() {
    assert_eq!(val(Binary64::zero()), 0.0);
    assert_eq!(Binary64::zero().to_bits(), 0);
    assert_eq!(val(Binary64::one()), 1.0);
    assert_eq!(val(Binary64::two()), 2.0);
    assert_eq!(ONE_BITS, 1.0f64.to_bits());
    assert_eq!(TWO_BITS, 2.0f64.to_bits());
    assert_eq!(INFINITY_BITS, f64::INFINITY.to_bits());
    assert_eq!(SIGN_BIT, (-0.0f64).to_bits());
    assert_eq!(f64::from_bits(INV_SQRT_TWO_PI_BITS), 0.3989422804014327);
    let computed = 1.0 / (2.0 * std::f64::consts::PI).sqrt();
    assert!((f64::from_bits(INV_SQRT_TWO_PI_BITS) - computed).abs() <= f64::EPSILON / 4.0);
}

#[test]
fn equality_compares_encodings() {
    assert!(num(0.0) != num(-0.0));
    assert!(num(f64::NAN) == num(f64::NAN));
    assert!(num(1.5) == num(1.5));
}
