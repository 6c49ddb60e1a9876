use raytracer::order::clamp;
use raytracer::scalar::Scalar;

fn s(x: f32) -> Scalar {
    Scalar::from_bits(x.to_bits())
}

fn samples() -> Vec<f32> {
    let mut v = vec![
        0.0,
        -0.0,
        1.0,
        -1.0,
        0.5,
        0.1,
        0.9,
        0.99999994,
        1.0000001,
        2.0,
        254.99998,
        255.0,
        255.5,
        256.0,
        1.0e-45,
        -1.0e-45,
        1.1754944e-38,
        3.4028235e38,
        -3.4028235e38,
        f32::INFINITY,
        f32::NEG_INFINITY,
        f32::NAN,
        -f32::NAN,
        90.0,
        90.00001,
        89.99999,
        0.001,
        1.5,
        127.99999,
        128.0,
        -0.3,
        -300.0,
    ];
    // A fixed walk through the bit patterns.
    let mut bits: u32 = 0x1234_5678;
    for _ in 0..2000 {
        bits = bits.wrapping_mul(1_664_525).wrapping_add(1_013_904_223);
        v.push(f32::from_bits(bits));
    }
    v
}

#[test]
fn classification_matches_the_hardware() {
    for x in samples() {
        let a = s(x);
        assert_eq!(a.is_nan(), x.is_nan(), "{x:?}");
        assert_eq!(a.is_finite(), x.is_finite(), "{x:?}");
        assert_eq!(a.is_zero(), x == 0.0, "{x:?}");
        assert_eq!(a.is_sign_negative(), x.is_sign_negative(), "{x:?}");
        assert_eq!(a.is_below_zero(), x < 0.0, "{x:?}");
        assert_eq!(a.is_above_zero(), x > 0.0, "{x:?}");
        assert_eq!(a.to_bits(), x.to_bits());
    }
}

#[test]
fn order_matches_the_hardware() {
    let v = samples();
    for (i, &x) in v.iter().enumerate() {
        for &y in v.iter().skip(i % 7).step_by(13) {
            let (a, b) = (s(x), s(y));
            assert_eq!(a.below(b), x < y, "{x:?} < {y:?}");
            assert_eq!(a.not_above(b), x <= y, "{x:?} <= {y:?}");
            assert_eq!(a.above(b), x > y, "{x:?} > {y:?}");
            assert_eq!(a.not_below(b), x >= y, "{x:?} >= {y:?}");
            assert_eq!(a.equals(b), x == y, "{x:?} == {y:?}");
            assert_eq!(a == b, x == y);
            assert_eq!(a < b, x < y);
            assert_eq!(a <= b, x <= y);
            assert_eq!(a > b, x > y);
            assert_eq!(a >= b, x >= y);
            assert_eq!(a.partial_cmp(&b), x.partial_cmp(&y));
        }
    }
}

#[test]
fn the_two_zeros_are_equal_and_a_nan_equals_nothing() {
    assert!(s(0.0).equals(s(-0.0)));
    assert!(!s(0.0).below(s(-0.0)));
    assert!(!s(-0.0).below(s(0.0)));
    assert!(!s(f32::NAN).equals(s(f32::NAN)));
    assert!(!s(f32::NAN).not_above(s(f32::NAN)));
    assert!(s(f32::NEG_INFINITY).below(s(-3.4028235e38)));
    assert!(s(3.4028235e38).below(s(f32::INFINITY)));
}

#[test]
fn negation_turns_the_sign_only() {
    for x in samples() {
        assert_eq!(s(x).neg().to_bits(), (-x).to_bits(), "{x:?}");
    }
    assert_eq!(s(0.0).neg().to_bits(), 0x8000_0000);
    assert_eq!(s(1.5).neg().to_bits(), (-1.5f32).to_bits());
}

#[test]
fn is_within_is_the_inclusive_range_test() {
    for x in samples() {
        assert_eq!(s(x).is_within(s(0.0), s(1.0)), (0.0..=1.0).contains(&x), "{x:?}");
        assert_eq!(s(x).is_within(s(0.0), s(90.0)), (0.0..=90.0).contains(&x), "{x:?}");
    }
    assert!(s(-0.0).is_within(s(0.0), s(1.0)));
    assert!(s(1.0).is_within(s(0.0), s(1.0)));
    assert!(!s(1.0000001).is_within(s(0.0), s(1.0)));
}

#[test]
fn from_u8_is_the_exact_conversion() {
    for c in 0..=255u8 {
        assert_eq!(Scalar::from_u8(c).to_bits(), (c as f32).to_bits(), "{c}");
    }
    assert_eq!(Scalar::from_u8(0).to_bits(), 0);
    assert_eq!(Scalar::from_u8(1).to_bits(), 0x3f80_0000);
    assert_eq!(Scalar::from_u8(90).to_bits(), 0x42b4_0000);
    assert_eq!(Scalar::from_u8(255).to_bits(), 0x437f_0000);
}

#[test]
fn to_u8_is_the_saturating_cast() {
    for x in samples() {
        assert_eq!(s(x).to_u8(), x as u8, "{x:?}");
    }
    assert_eq!(s(0.999).to_u8(), 0);
    assert_eq!(s(1.0).to_u8(), 1);
    assert_eq!(s(127.5).to_u8(), 127);
    assert_eq!(s(254.99998).to_u8(), 254);
    assert_eq!(s(255.0).to_u8(), 255);
    assert_eq!(s(1.0e9).to_u8(), 255);
    assert_eq!(s(f32::INFINITY).to_u8(), 255);
    assert_eq!(s(-3.0).to_u8(), 0);
    assert_eq!(s(f32::NAN).to_u8(), 0);
    for c in 0..=255u8 {
        assert_eq!(Scalar::from_u8(c).to_u8(), c);
    }
}

#[test]
fn to_u32_is_the_saturating_cast() {
    for x in samples() {
        assert_eq!(s(x).to_u32(), x as u32, "{x:?}");
    }
    let mut bits: u32 = 0x3f00_0000;
    for _ in 0..6000 {
        // from one half up to beyond the largest u32, in even steps of bits
        bits = bits.wrapping_add(0x0000_f123);
        let x = f32::from_bits(bits & 0x7fff_ffff);
        assert_eq!(s(x).to_u32(), x as u32, "{x:?}");
    }
    assert_eq!(s(0.99999994).to_u32(), 0);
    assert_eq!(s(1.0).to_u32(), 1);
    assert_eq!(s(6.9999995).to_u32(), 6);
    assert_eq!(s(7.0).to_u32(), 7);
    assert_eq!(s(16_777_215.0).to_u32(), 16_777_215);
    assert_eq!(s(16_777_216.0).to_u32(), 16_777_216);
    assert_eq!(s(33_554_434.0).to_u32(), 33_554_432);
    assert_eq!(s(4_294_967_040.0).to_u32(), 4_294_967_040);
    assert_eq!(s(4_294_967_296.0).to_u32(), u32::MAX);
    assert_eq!(s(f32::INFINITY).to_u32(), u32::MAX);
    assert_eq!(s(-1.0).to_u32(), 0);
    assert_eq!(s(f32::NAN).to_u32(), 0);
}

#[test]
fn clamp_holds_a_value_to_its_span() {
    assert_eq!(clamp(5, 0, 3), 3);
    assert_eq!(clamp(-5, 0, 3), 0);
    assert_eq!(clamp(2, 0, 3), 2);
    assert_eq!(clamp(s(1.5), s(0.0), s(1.0)).to_bits(), 1.0f32.to_bits());
    assert_eq!(clamp(s(-1.5), s(0.0), s(1.0)).to_bits(), 0.0f32.to_bits());
    assert_eq!(clamp(s(0.25), s(0.0), s(1.0)).to_bits(), 0.25f32.to_bits());
    // a NaN compares with nothing and comes back as it is
    assert!(clamp(s(f32::NAN), s(0.0), s(1.0)).is_nan());
}
