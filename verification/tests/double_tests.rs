use circuit_keyset::double::{Double, INFINITY_BITS, NAN_BITS, ONE_BITS, SIGN_BIT};

fn lt(a: f64, b: f64) -> bool {
    Double::from_bits(a.to_bits()).lt(&Double::from_bits(b.to_bits()))
}

fn samples() -> Vec<f64> {
    vec![
        0.0,
        -0.0,
        1.0,
        -1.0,
        0.5,
        0.999_999_999_999_999_9,
        1.000_000_000_000_000_2,
        2.0,
        -2.5,
        f64::MIN_POSITIVE,
        -f64::MIN_POSITIVE,
        5e-324,
        -5e-324,
        f64::MAX,
        f64::MIN,
        f64::INFINITY,
        f64::NEG_INFINITY,
        f64::NAN,
        -f64::NAN,
        f64::from_bits(0x7FF0_0000_0000_0001),
        f64::from_bits(0xFFF0_0000_0000_0001),
        f64::from_bits(u64::MAX),
        1e-30,
        -1e300,
    ]
}

#[test]
fn lt_agrees_with_hardware_comparison() {
    for a in samples() {
        for b in samples() {
            assert_eq!(lt(a, b), a < b, "{a:?} < {b:?}");
        }
    }
}

#[test]
fn check_nan_agrees_with_hardware() {
    for a in samples() {
        assert_eq!(Double::from_bits(a.to_bits()).check_nan(), a.is_nan(), "{a:?}");
    }
}

#[test]
fn constants_are_the_numbers_they_name() {
    assert_eq!(Double::zero().to_bits(), 0.0f64.to_bits());
    assert_eq!(Double::one().to_bits(), 1.0f64.to_bits());
    assert_eq!(ONE_BITS, 1.0f64.to_bits());
    assert_eq!(INFINITY_BITS, f64::INFINITY.to_bits());
    assert_eq!(SIGN_BIT, (-0.0f64).to_bits());
    assert!(f64::from_bits(NAN_BITS).is_nan());
    assert!(f64::from_bits(Double::nan().to_bits()).is_nan());
    assert!(Double::nan().check_nan());
}

#[test]
fn bits_round_trip() {
    for bits in [0u64, 1, 0x3FF0_0000_0000_0000, 0x8000_0000_0000_0000, u64::MAX] {
        let d = Double::from_bits(bits);
        assert_eq!(d.to_bits(), bits);
        assert_eq!(d.bits, bits);
        assert_eq!(d, Double { bits });
    }
}

#[test]
fn below_one_at_the_edges() {
    let one = Double::one();
    assert!(Double::from_bits(0.0f64.to_bits()).lt(&one));
    assert!(Double::from_bits((-0.0f64).to_bits()).lt(&one));
    assert!(Double::from_bits(ONE_BITS - 1).lt(&one));
    assert!(!one.lt(&one));
    assert!(!Double::from_bits(ONE_BITS + 1).lt(&one));
    assert!(!Double::nan().lt(&one));
    assert!(!one.lt(&Double::nan()));
    assert!(Double::from_bits(f64::NEG_INFINITY.to_bits()).lt(&one));
    assert!(!Double::from_bits(f64::INFINITY.to_bits()).lt(&one));
    // The two zeros are equal: neither is below the other.
    assert!(!Double::from_bits(SIGN_BIT).lt(&Double::zero()));
    assert!(!Double::zero().lt(&Double::from_bits(SIGN_BIT)));
}
