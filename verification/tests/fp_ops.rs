//! Cross-checks of the scalar arithmetic against the host's binary64
//! operations: the rounded core operations follow IEEE 754 round to
//! nearest even, so on every non-NaN result the bit patterns must agree
//! exactly.

use libnoise::fp::arith::{fp_add, fp_div, fp_mul, fp_sub};
use libnoise::fp::intpart::{fp_floor, fp_from_i32, fp_from_i64, fp_mod, fp_to_i32};
use libnoise::fp::poly::fp_pow;
use libnoise::fp::repr::{fp_abs, fp_eq, fp_le, fp_lt, fp_max, fp_min, fp_neg, is_nan};
use libnoise::fp::roots::fp_sqrt;
use libnoise::fp::trig::sin_cos_deg;

fn samples() -> Vec<f64> {
    vec![
        0.0,
        -0.0,
        1.0,
        -1.0,
        0.5,
        -0.5,
        2.0,
        -2.0,
        0.25,
        1.5,
        -1.5,
        3.0,
        10.0,
        -10.0,
        0.1,
        -0.1,
        1.0 / 3.0,
        -2.5,
        3.141592653589793,
        1e16,
        1e16 + 2.0,
        -1e16,
        1e300,
        -1e300,
        1e-300,
        -1e-300,
        5e-324,
        -5e-324,
        2.2250738585072014e-308,
        -2.2250738585072014e-308,
        1.7976931348623157e308,
        -1.7976931348623157e308,
        1073741824.0,
        -1073741824.0,
        1073741825.5,
        4503599627370495.5,
        9007199254740992.0,
        f64::INFINITY,
        f64::NEG_INFINITY,
        f64::NAN,
        123.456,
        -987.654321,
        0.7,
        42.0,
    ]
}

fn check_same(expected: f64, got: u64, what: &str, a: f64, b: f64) {
    if expected.is_nan() {
        assert!(is_nan(got), "{} of {:e} and {:e}: expected NaN, got {:016X}", what, a, b, got);
    } else {
        assert_eq!(
            expected.to_bits(),
            got,
            "{} of {:e} and {:e}: expected {:016X}, got {:016X}",
            what,
            a,
            b,
            expected.to_bits(),
            got
        );
    }
}

#[test]
fn add_matches_hardware() {
    for &a in samples().iter() {
        for &b in samples().iter() {
            check_same(a + b, fp_add(a.to_bits(), b.to_bits()), "sum", a, b);
        }
    }
}

#[test]
fn sub_matches_hardware() {
    for &a in samples().iter() {
        for &b in samples().iter() {
            check_same(a - b, fp_sub(a.to_bits(), b.to_bits()), "difference", a, b);
        }
    }
}

#[test]
fn mul_matches_hardware() {
    for &a in samples().iter() {
        for &b in samples().iter() {
            check_same(a * b, fp_mul(a.to_bits(), b.to_bits()), "product", a, b);
        }
    }
}

#[test]
fn div_matches_hardware() {
    for &a in samples().iter() {
        for &b in samples().iter() {
            check_same(a / b, fp_div(a.to_bits(), b.to_bits()), "quotient", a, b);
        }
    }
}

#[test]
fn sqrt_matches_hardware() {
    for &a in samples().iter() {
        check_same(a.sqrt(), fp_sqrt(a.to_bits()), "square root", a, 0.0);
    }
}

#[test]
fn floor_matches_hardware() {
    for &a in samples().iter() {
        check_same(a.floor(), fp_floor(a.to_bits()), "floor", a, 0.0);
    }
}

#[test]
fn neg_and_abs_match_hardware() {
    for &a in samples().iter() {
        assert_eq!((-a).to_bits(), fp_neg(a.to_bits()));
        assert_eq!(a.abs().to_bits(), fp_abs(a.to_bits()));
    }
}

#[test]
fn comparisons_match_hardware() {
    for &a in samples().iter() {
        for &b in samples().iter() {
            assert_eq!(a < b, fp_lt(a.to_bits(), b.to_bits()), "lt {:e} {:e}", a, b);
            assert_eq!(a <= b, fp_le(a.to_bits(), b.to_bits()), "le {:e} {:e}", a, b);
            assert_eq!(a == b, fp_eq(a.to_bits(), b.to_bits()), "eq {:e} {:e}", a, b);
        }
    }
}

#[test]
fn min_max_match_hardware() {
    for &a in samples().iter() {
        for &b in samples().iter() {
            if !a.is_nan() && !b.is_nan() && a != b {
                assert_eq!(a.min(b).to_bits(), fp_min(a.to_bits(), b.to_bits()));
                assert_eq!(a.max(b).to_bits(), fp_max(a.to_bits(), b.to_bits()));
            }
        }
    }
}

#[test]
fn fmod_matches_hardware() {
    for &a in samples().iter() {
        for &b in samples().iter() {
            check_same(a % b, fp_mod(a.to_bits(), b.to_bits()), "remainder", a, b);
        }
    }
}

#[test]
fn int_conversions_match_hardware() {
    for &a in samples().iter() {
        assert_eq!(a as i32, fp_to_i32(a.to_bits()), "to_i32 of {:e}", a);
    }
    for n in [0i32, 1, -1, 7, -7, 1000000, -1000000, i32::MAX, i32::MIN] {
        assert_eq!((n as f64).to_bits(), fp_from_i32(n));
        assert_eq!((n as f64).to_bits(), fp_from_i64(n as i64));
    }
    for n in [4503599627370497i64, -9007199254740993i64, i64::MAX, i64::MIN] {
        assert_eq!((n as f64).to_bits(), fp_from_i64(n));
    }
}

#[test]
fn pow_is_deterministic_and_close() {
    // The power function is a fixed-series approximation: deterministic,
    // with small relative error against the host's powf.
    let cases: [(f64, f64); 8] = [
        (2.0, 2.0),
        (2.0, -1.0),
        (3.0, 0.5),
        (0.5, 3.0),
        (10.0, 10.0),
        (0.9, 100.0),
        (1.0001, 0.5),
        (7.25, -2.5),
    ];
    for &(x, y) in cases.iter() {
        let r1 = fp_pow(x.to_bits(), y.to_bits());
        let r2 = fp_pow(x.to_bits(), y.to_bits());
        assert_eq!(r1, r2);
        let got = f64::from_bits(r1);
        let want = x.powf(y);
        let rel = ((got - want) / want).abs();
        assert!(rel < 1e-9, "pow({}, {}) = {} vs {}", x, y, got, want);
    }
}

#[test]
fn pow_special_cases() {
    let one = 1.0f64.to_bits();
    assert_eq!(fp_pow(f64::NAN.to_bits(), 0.0f64.to_bits()), one);
    assert_eq!(fp_pow(5.0f64.to_bits(), 0.0f64.to_bits()), one);
    assert_eq!(fp_pow(1.0f64.to_bits(), f64::NAN.to_bits()), one);
    // negative base at an integral exponent keeps the sign rule
    let r = f64::from_bits(fp_pow((-2.0f64).to_bits(), 3.0f64.to_bits()));
    assert!((r + 8.0).abs() < 1e-8, "(-2)^3 = {}", r);
    // negative base at a fractional exponent is NaN
    assert!(is_nan(fp_pow((-2.0f64).to_bits(), 0.5f64.to_bits())));
    // zero base
    assert_eq!(fp_pow(0.0f64.to_bits(), 2.0f64.to_bits()), 0.0f64.to_bits());
    assert_eq!(fp_pow(0.0f64.to_bits(), (-2.0f64).to_bits()), f64::INFINITY.to_bits());
}

#[test]
fn sin_cos_degrees_close() {
    for deg in [0.0f64, 30.0, 45.0, 90.0, 135.0, 180.0, 270.0, 359.0, 720.5, -30.0, -361.0] {
        let (s, c) = sin_cos_deg(deg.to_bits());
        let sv = f64::from_bits(s);
        let cv = f64::from_bits(c);
        let want_s = deg.to_radians().sin();
        let want_c = deg.to_radians().cos();
        assert!((sv - want_s).abs() < 1e-12, "sin {} deg: {} vs {}", deg, sv, want_s);
        assert!((cv - want_c).abs() < 1e-12, "cos {} deg: {} vs {}", deg, cv, want_c);
    }
    assert_eq!(f64::from_bits(sin_cos_deg(0.0f64.to_bits()).0), 0.0);
    assert_eq!(f64::from_bits(sin_cos_deg(0.0f64.to_bits()).1), 1.0);
}

#[test]
fn canonical_nan_results() {
    let nan = f64::NAN.to_bits();
    assert!(is_nan(fp_add(nan, 1.0f64.to_bits())));
    assert!(is_nan(fp_sqrt((-1.0f64).to_bits())));
    assert!(is_nan(fp_div(0.0f64.to_bits(), 0.0f64.to_bits())));
}
