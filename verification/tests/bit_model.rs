//! The bit-level model against the machine's own floating point: the
//! comparisons, classification and sign handling the library decides on
//! bit patterns must agree with the IEEE operations they stand for.

use logcosh::bits32::{float_abs32, float_eq_zero32, float_is_nan32, float_lt32, float_neg32};
use logcosh::bits64::{float_abs64, float_eq_zero64, float_is_nan64, float_lt64, float_neg64};
use logcosh::complex32::{ClogcoshEval, Complex32};
use logcosh::complex64::{ClogcoshEval as ClogcoshEval64, Complex64};
use logcosh::real32::classify32;
use logcosh::real64::classify64;
use logcosh::region::Region;
use logcosh::{complex32, complex64};

fn probe_values32() -> Vec<f32> {
    vec![
        0.,
        -0.,
        1e-45,
        -1e-45,
        1e-40,
        f32::MIN_POSITIVE,
        2e-2,
        -2e-2,
        0.5,
        -0.5,
        1.,
        -1.,
        4.,
        -4.,
        4.0001,
        13.,
        -13.,
        1e30,
        f32::MAX,
        f32::MIN,
        f32::INFINITY,
        f32::NEG_INFINITY,
        f32::NAN,
        -f32::NAN,
    ]
}

#[test]
fn comparisons_match_ieee_32() {
    let vals: Vec<f32> = probe_values32();
    for &a in &vals {
        for &b in &vals {
            assert_eq!(float_lt32(a.to_bits(), b.to_bits()), a < b, "{a} < {b}");
        }
        assert_eq!(float_eq_zero32(a.to_bits()), a == 0., "{a} == 0");
        assert_eq!(float_is_nan32(a.to_bits()), a.is_nan(), "{a} nan");
        assert_eq!(float_abs32(a.to_bits()), a.abs().to_bits(), "{a} abs");
        if !a.is_nan() {
            assert_eq!(float_neg32(a.to_bits()), (-a).to_bits(), "{a} neg");
        }
    }
}

#[test]
fn comparisons_match_ieee_64() {
    let vals: Vec<f64> = vec![
        0.,
        -0.,
        5e-324,
        -5e-324,
        1e-300,
        f64::MIN_POSITIVE,
        2e-2,
        -2e-2,
        0.5,
        1.,
        -1.,
        4.,
        -4.,
        4.0000001,
        13.,
        1e30,
        f64::MAX,
        f64::MIN,
        f64::INFINITY,
        f64::NEG_INFINITY,
        f64::NAN,
        -f64::NAN,
    ];
    for &a in &vals {
        for &b in &vals {
            assert_eq!(float_lt64(a.to_bits(), b.to_bits()), a < b, "{a} < {b}");
        }
        assert_eq!(float_eq_zero64(a.to_bits()), a == 0., "{a} == 0");
        assert_eq!(float_is_nan64(a.to_bits()), a.is_nan(), "{a} nan");
        assert_eq!(float_abs64(a.to_bits()), a.abs().to_bits(), "{a} abs");
        if !a.is_nan() {
            assert_eq!(float_neg64(a.to_bits()), (-a).to_bits(), "{a} neg");
        }
    }
}

#[test]
fn classification_follows_strict_thresholds() {
    // Below the small threshold, strictly.
    assert_eq!(classify32(0f32.to_bits()), Region::Small);
    assert_eq!(classify32((-0f32).to_bits()), Region::Small);
    assert_eq!(classify32(0.0199f32.to_bits()), Region::Small);
    assert_eq!(classify32(1e-40f32.to_bits()), Region::Small);
    // At either threshold, and between them: the exact evaluator.
    assert_eq!(classify32(2e-2f32.to_bits()), Region::General);
    assert_eq!(classify32((-2e-2f32).to_bits()), Region::General);
    assert_eq!(classify32(1f32.to_bits()), Region::General);
    assert_eq!(classify32(4f32.to_bits()), Region::General);
    assert_eq!(classify32((-4f32).to_bits()), Region::General);
    // NaN compares false against both thresholds.
    assert_eq!(classify32(f32::NAN.to_bits()), Region::General);
    // Above the large threshold, strictly.
    assert_eq!(classify32(4.0001f32.to_bits()), Region::Large);
    assert_eq!(classify32((-13f32).to_bits()), Region::Large);
    assert_eq!(classify32(f32::INFINITY.to_bits()), Region::Large);
    assert_eq!(classify64(0.0199f64.to_bits()), Region::Small);
    assert_eq!(classify64(2e-2f64.to_bits()), Region::General);
    assert_eq!(classify64(4f64.to_bits()), Region::General);
    assert_eq!(classify64(4.0000001f64.to_bits()), Region::Large);
    assert_eq!(classify64(f64::NAN.to_bits()), Region::General);
}

#[test]
fn sign_normalization_decides_by_real_part() {
    // Negative real part: scale by -1.0.
    let zn = Complex32 { re: (-3f32).to_bits(), im: 2f32.to_bits() };
    assert!(matches!(
        complex32::clogcosh_start(zn),
        ClogcoshEval::AwaitNormalize { f, .. } if f == (-1f32).to_bits()
    ));
    // Positive real part: scale by 1.0.
    let zp = Complex32 { re: 3f32.to_bits(), im: 2f32.to_bits() };
    assert!(matches!(
        complex32::clogcosh_start(zp),
        ClogcoshEval::AwaitNormalize { f, .. } if f == 1f32.to_bits()
    ));
    // Zero real part, either sign of zero: keep z unmultiplied.
    let z0 = Complex32 { re: (-0f32).to_bits(), im: 2f32.to_bits() };
    assert!(matches!(complex32::clogcosh_start(z0), ClogcoshEval::AwaitTwist { s } if s == z0));
    // NaN real part: ask for signum itself, so the driver's NaN propagates.
    let zq = Complex32 { re: f32::NAN.to_bits(), im: 2f32.to_bits() };
    assert!(matches!(complex32::clogcosh_start(zq), ClogcoshEval::AwaitSignum { .. }));
    let wn = Complex64 { re: (-3f64).to_bits(), im: 2f64.to_bits() };
    assert!(matches!(
        complex64::clogcosh_start(wn),
        ClogcoshEval64::AwaitNormalize { f, .. } if f == (-1f64).to_bits()
    ));
}
