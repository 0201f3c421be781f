//! The integer reading of double bit patterns must agree with the
//! language's own float-to-int conversion (truncate toward zero, saturate,
//! zero for NaN).

use portal_bypass::float_bits::{f64_bits_is_zero, f64_trunc_i32};

fn check(x: f64) {
    assert_eq!(f64_trunc_i32(x.to_bits()), x as i32, "truncation of {x}");
}

#[test]
fn trunc_agrees_with_as_cast() {
    let samples = [
        0.0,
        -0.0,
        0.5,
        -0.5,
        1.0,
        -1.0,
        100.0,
        100.7,
        -3.9,
        123456.789,
        -123456.789,
        2147483646.9,
        2147483647.0,
        2147483648.0,
        -2147483648.0,
        -2147483648.9,
        -2147483649.0,
        1.0e12,
        -1.0e12,
        f64::MAX,
        f64::MIN,
        f64::INFINITY,
        f64::NEG_INFINITY,
        f64::NAN,
        f64::MIN_POSITIVE,
        5e-324,
        -5e-324,
    ];
    for x in samples {
        check(x);
    }
}

#[test]
fn trunc_exact_values() {
    assert_eq!(f64_trunc_i32((100.0f64).to_bits()), 100);
    assert_eq!(f64_trunc_i32((100.7f64).to_bits()), 100);
    assert_eq!(f64_trunc_i32((-3.9f64).to_bits()), -3);
    assert_eq!(f64_trunc_i32(f64::NAN.to_bits()), 0);
    assert_eq!(f64_trunc_i32(f64::INFINITY.to_bits()), i32::MAX);
    assert_eq!(f64_trunc_i32(f64::NEG_INFINITY.to_bits()), i32::MIN);
}

#[test]
fn zero_detection() {
    assert!(f64_bits_is_zero((0.0f64).to_bits()));
    assert!(f64_bits_is_zero((-0.0f64).to_bits()));
    assert!(!f64_bits_is_zero((1.0f64).to_bits()));
    assert!(!f64_bits_is_zero((5e-324f64).to_bits()));
    assert!(!f64_bits_is_zero(f64::NAN.to_bits()));
}
