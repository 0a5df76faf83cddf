use calculator_service::double::{Double, EXPONENT_SPAN, FRACTION_SPAN, MAGNITUDE_MASK, SIGN_MASK};

fn double(value: f64) -> Double {
    Double { bits: value.to_bits() }
}

#[test]
fn masks_partition_the_pattern() {
    assert_eq!(SIGN_MASK, 1u64 << 63);
    assert_eq!(MAGNITUDE_MASK, !SIGN_MASK);
    assert_eq!(FRACTION_SPAN, 1u64 << 52);
    assert_eq!(EXPONENT_SPAN, 1u64 << 11);
    assert_eq!(SIGN_MASK | MAGNITUDE_MASK, u64::MAX);
    assert_eq!(SIGN_MASK & MAGNITUDE_MASK, 0);
}

#[test]
fn positive_zero_is_zero() {
    assert!(double(0.0).is_zero());
    assert!(Double { bits: 0 }.is_zero());
}

#[test]
fn negative_zero_is_zero() {
    assert!(double(-0.0).is_zero());
    assert!(Double { bits: SIGN_MASK }.is_zero());
}

#[test]
fn ordinary_numbers_are_not_zero() {
    for value in [1.0, -1.0, 10.0, 0.5, -2.5, 1e-300, -1e300, f64::MAX, f64::MIN, f64::EPSILON] {
        assert!(!double(value).is_zero(), "{value}");
    }
}

#[test]
fn subnormal_numbers_are_not_zero() {
    assert!(!Double { bits: 1 }.is_zero());
    assert!(!Double { bits: SIGN_MASK | 1 }.is_zero());
    assert!(!Double { bits: FRACTION_SPAN - 1 }.is_zero());
    assert!(!double(5e-324).is_zero());
}

#[test]
fn smallest_normal_number_is_not_zero() {
    assert!(!double(f64::MIN_POSITIVE).is_zero());
    assert!(!Double { bits: FRACTION_SPAN }.is_zero());
    assert!(!double(-f64::MIN_POSITIVE).is_zero());
}

#[test]
fn infinities_are_not_zero() {
    assert!(!double(f64::INFINITY).is_zero());
    assert!(!double(f64::NEG_INFINITY).is_zero());
}

#[test]
fn nans_are_not_zero() {
    assert!(!double(f64::NAN).is_zero());
    assert!(!double(-f64::NAN).is_zero());
    assert!(!Double { bits: 0x7FF0_0000_0000_0001 }.is_zero());
    assert!(!Double { bits: 0xFFFF_FFFF_FFFF_FFFF }.is_zero());
    assert!(!Double { bits: MAGNITUDE_MASK }.is_zero());
}

#[test]
fn zero_test_agrees_with_host_comparison() {
    let fractions = [
        0u64,
        1,
        2,
        0x8_0000_0000_0000,
        0x5_5555_5555_5555,
        FRACTION_SPAN - 1,
    ];
    for sign in [0u64, SIGN_MASK] {
        for exponent in 0..EXPONENT_SPAN {
            for fraction in fractions {
                let bits = sign | (exponent << 52) | fraction;
                let host = f64::from_bits(bits);
                assert_eq!(Double { bits }.is_zero(), host == 0.0, "{bits:#018x}");
            }
        }
    }
}

#[test]
fn exactly_two_patterns_are_zero() {
    let mut zeros = Vec::new();
    for low in 0..4096u64 {
        for high in 0..4096u64 {
            let bits = (high << 52) | low;
            if (Double { bits }).is_zero() {
                zeros.push(bits);
            }
        }
    }
    assert_eq!(zeros, vec![0, SIGN_MASK]);
}

#[test]
fn every_single_bit_pattern_is_not_zero_but_the_sign_bit() {
    for position in 0..64 {
        let bits = 1u64 << position;
        assert_eq!(Double { bits }.is_zero(), position == 63, "bit {position}");
    }
}

#[test]
fn doubles_compare_by_pattern() {
    assert_eq!(double(1.5), Double { bits: 0x3FF8_0000_0000_0000 });
    assert_ne!(double(0.0), double(-0.0));
    assert_eq!(double(f64::NAN), double(f64::NAN));
    let copy = double(2.0);
    let other = copy;
    assert_eq!(copy, other.clone());
}
