use loqa_expo_dsp::bits::{clamp_unit, is_finite, INFINITY_BITS, ONE_BITS, ZERO_BITS};

#[test]
fn finiteness_follows_the_exponent_field() {
    assert!(is_finite(0.0f32.to_bits()));
    assert!(is_finite((-0.0f32).to_bits()));
    assert!(is_finite(f32::MAX.to_bits()));
    assert!(is_finite(f32::MIN.to_bits()));
    assert!(is_finite(f32::MIN_POSITIVE.to_bits()));
    assert!(is_finite(1.0e-45f32.to_bits()));
    assert!(!is_finite(f32::INFINITY.to_bits()));
    assert!(!is_finite(f32::NEG_INFINITY.to_bits()));
    assert!(!is_finite(f32::NAN.to_bits()));
    assert!(!is_finite(0xFFC0_0001));
}

#[test]
fn constants_are_the_expected_values() {
    assert_eq!(f32::from_bits(ZERO_BITS), 0.0);
    assert_eq!(f32::from_bits(ONE_BITS), 1.0);
    assert_eq!(f32::from_bits(INFINITY_BITS), f32::INFINITY);
}

#[test]
fn clamp_unit_matches_float_clamp() {
    for v in [0.0f32, 0.3, 0.5, 0.999, 1.0, 1.0001, 7.5, f32::MAX, -0.001, -3.0, f32::MIN] {
        let clamped = f32::from_bits(clamp_unit(v.to_bits()));
        assert_eq!(clamped, v.clamp(0.0, 1.0), "clamping {v}");
    }
    assert_eq!(clamp_unit((-0.0f32).to_bits()), ZERO_BITS);
}
