use fh6_tel::float_order::{equals, less_than, FIVE, MAX, MINUS_ONE, ONE, ZERO};

fn samples() -> Vec<f32> {
    vec![
        0.0,
        -0.0,
        1.0,
        -1.0,
        0.4,
        5.0,
        5.000001,
        4.999999,
        91.3,
        -91.3,
        f32::MAX,
        f32::MIN,
        f32::MIN_POSITIVE,
        -f32::MIN_POSITIVE,
        1.0e-45,
        -1.0e-45,
        f32::INFINITY,
        f32::NEG_INFINITY,
        f32::NAN,
        -f32::NAN,
        f32::from_bits(0x7fc0_0001),
        f32::from_bits(0xff80_0001),
        123456.78,
        -0.001,
    ]
}

#[test]
fn less_than_agrees_with_f32() {
    for a in samples() {
        for b in samples() {
            assert_eq!(less_than(a.to_bits(), b.to_bits()), a < b, "{a:?} < {b:?}");
        }
    }
}

#[test]
fn equals_agrees_with_f32() {
    for a in samples() {
        for b in samples() {
            assert_eq!(equals(a.to_bits(), b.to_bits()), a == b, "{a:?} == {b:?}");
        }
    }
}

#[test]
fn named_constants_are_their_values() {
    assert_eq!(f32::from_bits(ZERO), 0.0);
    assert_eq!(f32::from_bits(ONE), 1.0);
    assert_eq!(f32::from_bits(FIVE), 5.0);
    assert_eq!(f32::from_bits(MINUS_ONE), -1.0);
    assert_eq!(f32::from_bits(MAX), f32::MAX);
}
