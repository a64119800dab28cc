use painterly::scalar::{Scalar, Vector2, Vector3};

fn s(x: f32) -> Scalar {
    Scalar::from_bits(x.to_bits())
}

fn samples() -> Vec<f32> {
    vec![
        f32::NEG_INFINITY,
        f32::MIN,
        -175.0,
        -5.0,
        -1.0,
        -f32::MIN_POSITIVE,
        -1.0e-45,
        -0.0,
        0.0,
        1.0e-45,
        f32::MIN_POSITIVE,
        0.25,
        1.0,
        5.0,
        175.0,
        f32::MAX,
        f32::INFINITY,
        f32::NAN,
        -f32::NAN,
    ]
}

#[test]
fn less_than_agrees_with_numeric_order() {
    let xs = samples();
    for &a in &xs {
        for &b in &xs {
            assert_eq!(s(a).less_than(s(b)), a < b, "{a} < {b}");
        }
    }
}

#[test]
fn order_key_grows_with_the_number() {
    let xs = samples();
    for &a in &xs {
        for &b in &xs {
            if a.is_nan() || b.is_nan() {
                continue;
            }
            assert_eq!(s(a).order_key() < s(b).order_key(), a < b, "{a} {b}");
            assert_eq!(s(a).order_key() == s(b).order_key(), a == b, "{a} {b}");
        }
    }
}

#[test]
fn order_key_exact_values() {
    assert_eq!(s(0.0).order_key(), 0);
    assert_eq!(s(-0.0).order_key(), 0);
    assert_eq!(s(1.0).order_key(), 0x3f80_0000);
    assert_eq!(s(-1.0).order_key(), -0x3f80_0000);
    assert_eq!(s(f32::INFINITY).order_key(), 0x7f80_0000);
    assert_eq!(s(f32::NEG_INFINITY).order_key(), -0x7f80_0000);
    assert_eq!(Scalar::from_bits(0xffff_ffff).order_key(), -0x7fff_ffff);
    assert_eq!(Scalar::from_bits(0x7fff_ffff).order_key(), 0x7fff_ffff);
}

#[test]
fn nan_and_zero_are_recognised() {
    for &x in &samples() {
        assert_eq!(s(x).is_nan(), x.is_nan(), "{x}");
        assert_eq!(s(x).is_zero(), x == 0.0, "{x}");
    }
    assert!(!s(f32::INFINITY).is_nan());
    assert!(Scalar::from_bits(0x7f80_0001).is_nan());
    assert!(Scalar::from_bits(0xff80_0001).is_nan());
}

#[test]
fn bits_round_trip() {
    for bits in [0u32, 1, 0x3f80_0000, 0x8000_0000, 0xffff_ffff] {
        assert_eq!(Scalar::from_bits(bits).to_bits(), bits);
        assert_eq!(Scalar::from_bits(bits), Scalar { bits });
    }
}

#[test]
fn zero_values_are_positive_zero() {
    assert_eq!(Scalar::positive_zero().to_bits(), 0.0f32.to_bits());
    assert_eq!(Vector3::zero(), Vector3 { x: s(0.0), y: s(0.0), z: s(0.0) });
    assert_eq!(Vector2::zero(), Vector2 { x: s(0.0), y: s(0.0) });
}
