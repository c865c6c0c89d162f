use voxel_terrain::map_generator::density::{
    Density, INFINITY_BITS, LARGEST_BITS, SIGN_BIT, SMALLEST_BITS,
};

fn density(value: f32) -> Density {
    Density::from_bits(value.to_bits())
}

fn samples() -> Vec<f32> {
    vec![
        0.0,
        -0.0,
        1.0,
        -1.0,
        0.5,
        -0.5,
        1.0e-40,
        -1.0e-40,
        f32::MIN_POSITIVE,
        -f32::MIN_POSITIVE,
        3.5,
        -3.5,
        200.0,
        -200.0,
        f32::MAX,
        f32::MIN,
        f32::INFINITY,
        f32::NEG_INFINITY,
        f32::NAN,
        -f32::NAN,
        f32::EPSILON,
    ]
}

#[test]
fn bits_round_trip() {
    for value in samples() {
        assert_eq!(density(value).to_bits(), value.to_bits());
        assert_eq!(density(value).bits, value.to_bits());
    }
}

#[test]
fn named_encodings_are_those_of_the_floats() {
    assert_eq!(LARGEST_BITS, f32::MAX.to_bits());
    assert_eq!(SMALLEST_BITS, f32::MIN.to_bits());
    assert_eq!(INFINITY_BITS, f32::INFINITY.to_bits());
    assert_eq!(SIGN_BIT, (-0.0f32).to_bits());
    assert_eq!(Density::largest().to_bits(), f32::MAX.to_bits());
    assert_eq!(Density::smallest().to_bits(), f32::MIN.to_bits());
}

#[test]
fn sign_test_agrees_with_the_float() {
    for value in samples() {
        assert_eq!(density(value).is_sign_negative(), value.is_sign_negative());
    }
    assert!(density(-0.0).is_sign_negative());
    assert!(!density(0.0).is_sign_negative());
}

#[test]
fn nan_test_agrees_with_the_float() {
    for value in samples() {
        assert_eq!(density(value).is_nan(), value.is_nan());
    }
}

#[test]
fn order_agrees_with_the_float() {
    for a in samples() {
        for b in samples() {
            assert_eq!(density(a).lt(density(b)), a < b, "{} < {}", a, b);
            assert_eq!(density(a).gt(density(b)), a > b, "{} > {}", a, b);
        }
    }
}

#[test]
fn zeros_are_not_ordered() {
    assert!(!density(0.0).lt(density(-0.0)));
    assert!(!density(-0.0).lt(density(0.0)));
}

#[test]
fn nothing_compares_with_nan() {
    assert!(!density(f32::NAN).lt(density(1.0)));
    assert!(!density(1.0).lt(density(f32::NAN)));
    assert!(!density(f32::NAN).gt(density(1.0)));
    assert!(!density(f32::NAN).lt(density(f32::NAN)));
}
