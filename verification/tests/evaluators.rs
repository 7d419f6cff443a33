//! End-to-end runs of the evaluator machines, driven by the real
//! floating-point operations they request.

use logcosh::complex32::{CApproxEval, ClogcoshEval, Complex32, ComplexOp32};
use logcosh::complex64::{CApproxEval as CApproxEval64, ClogcoshEval as ClogcoshEval64};
use logcosh::complex64::{Complex64, ComplexOp64};
use logcosh::real32::{ApproxEval, FloatOp32, LogcoshEval};
use logcosh::real64::{ApproxEval as ApproxEval64, FloatOp64, LogcoshEval as LogcoshEval64};
use logcosh::{complex32, complex64, real32, real64};
use num::complex::Complex;

fn perform32(op: FloatOp32) -> u32 {
    match op {
        FloatOp32::Mul(a, b) => (f32::from_bits(a) * f32::from_bits(b)).to_bits(),
        FloatOp32::Div(a, b) => (f32::from_bits(a) / f32::from_bits(b)).to_bits(),
        FloatOp32::Add(a, b) => (f32::from_bits(a) + f32::from_bits(b)).to_bits(),
        FloatOp32::Sub(a, b) => (f32::from_bits(a) - f32::from_bits(b)).to_bits(),
        FloatOp32::Exp(a) => f32::from_bits(a).exp().to_bits(),
        FloatOp32::Ln1p(a) => f32::from_bits(a).ln_1p().to_bits(),
    }
}

fn perform64(op: FloatOp64) -> u64 {
    match op {
        FloatOp64::Mul(a, b) => (f64::from_bits(a) * f64::from_bits(b)).to_bits(),
        FloatOp64::Div(a, b) => (f64::from_bits(a) / f64::from_bits(b)).to_bits(),
        FloatOp64::Add(a, b) => (f64::from_bits(a) + f64::from_bits(b)).to_bits(),
        FloatOp64::Sub(a, b) => (f64::from_bits(a) - f64::from_bits(b)).to_bits(),
        FloatOp64::Exp(a) => f64::from_bits(a).exp().to_bits(),
        FloatOp64::Ln1p(a) => f64::from_bits(a).ln_1p().to_bits(),
    }
}

fn logcosh(x: f32) -> f32 {
    let mut e: LogcoshEval = real32::logcosh_start(x.to_bits());
    while let Some(op) = e.pending() {
        e = e.feed(perform32(op));
    }
    f32::from_bits(e.result().unwrap())
}

fn approx_logcosh(x: f32) -> f32 {
    let mut e: ApproxEval = real32::approx_logcosh_start(x.to_bits());
    while let Some(op) = e.pending() {
        e = e.feed(perform32(op));
    }
    f32::from_bits(e.result().unwrap())
}

fn logcosh_64(x: f64) -> f64 {
    let mut e: LogcoshEval64 = real64::logcosh_start(x.to_bits());
    while let Some(op) = e.pending() {
        e = e.feed(perform64(op));
    }
    f64::from_bits(e.result().unwrap())
}

fn approx_logcosh_64(x: f64) -> f64 {
    let mut e: ApproxEval64 = real64::approx_logcosh_start(x.to_bits());
    while let Some(op) = e.pending() {
        e = e.feed(perform64(op));
    }
    f64::from_bits(e.result().unwrap())
}

fn to_num32(z: Complex32) -> Complex<f32> {
    Complex::new(f32::from_bits(z.re), f32::from_bits(z.im))
}

fn to_pair32(z: Complex<f32>) -> Complex32 {
    Complex32 { re: z.re.to_bits(), im: z.im.to_bits() }
}

fn cperform32(op: ComplexOp32) -> Complex32 {
    match op {
        ComplexOp32::Scale(w, f) => to_pair32(to_num32(w) * f32::from_bits(f)),
        ComplexOp32::Mul(a, b) => to_pair32(to_num32(a) * to_num32(b)),
        ComplexOp32::Exp(w) => to_pair32(to_num32(w).exp()),
        ComplexOp32::Ln(w) => to_pair32(to_num32(w).ln()),
        ComplexOp32::Add(a, b) => to_pair32(to_num32(a) + to_num32(b)),
        ComplexOp32::Sub(a, b) => to_pair32(to_num32(a) - to_num32(b)),
        ComplexOp32::Unscale(w, f) => to_pair32(to_num32(w) / f32::from_bits(f)),
        ComplexOp32::Signum(_) | ComplexOp32::Norm(_) => unreachable!(),
    }
}

fn clogcosh(z: Complex<f32>) -> Complex<f32> {
    let mut e: ClogcoshEval = complex32::clogcosh_start(to_pair32(z));
    loop {
        match e.pending() {
            None => return to_num32(e.result().unwrap()),
            Some(ComplexOp32::Signum(x)) => e = e.feed_real(f32::from_bits(x).signum().to_bits()),
            Some(op) => e = e.feed_cplx(cperform32(op)),
        }
    }
}

fn approx_clogcosh(z: Complex<f32>) -> Complex<f32> {
    let mut e: CApproxEval = complex32::capprox_start(to_pair32(z));
    loop {
        match e.pending() {
            None => return to_num32(e.result().unwrap()),
            Some(ComplexOp32::Signum(x)) => e = e.feed_real(f32::from_bits(x).signum().to_bits()),
            Some(ComplexOp32::Norm(w)) => e = e.feed_real(to_num32(w).norm().to_bits()),
            Some(op) => e = e.feed_cplx(cperform32(op)),
        }
    }
}

fn to_num64(z: Complex64) -> Complex<f64> {
    Complex::new(f64::from_bits(z.re), f64::from_bits(z.im))
}

fn to_pair64(z: Complex<f64>) -> Complex64 {
    Complex64 { re: z.re.to_bits(), im: z.im.to_bits() }
}

fn cperform64(op: ComplexOp64) -> Complex64 {
    match op {
        ComplexOp64::Scale(w, f) => to_pair64(to_num64(w) * f64::from_bits(f)),
        ComplexOp64::Mul(a, b) => to_pair64(to_num64(a) * to_num64(b)),
        ComplexOp64::Exp(w) => to_pair64(to_num64(w).exp()),
        ComplexOp64::Ln(w) => to_pair64(to_num64(w).ln()),
        ComplexOp64::Add(a, b) => to_pair64(to_num64(a) + to_num64(b)),
        ComplexOp64::Sub(a, b) => to_pair64(to_num64(a) - to_num64(b)),
        ComplexOp64::Unscale(w, f) => to_pair64(to_num64(w) / f64::from_bits(f)),
        ComplexOp64::Signum(_) | ComplexOp64::Norm(_) => unreachable!(),
    }
}

fn clogcosh_64(z: Complex<f64>) -> Complex<f64> {
    let mut e: ClogcoshEval64 = complex64::clogcosh_start(to_pair64(z));
    loop {
        match e.pending() {
            None => return to_num64(e.result().unwrap()),
            Some(ComplexOp64::Signum(x)) => e = e.feed_real(f64::from_bits(x).signum().to_bits()),
            Some(op) => e = e.feed_cplx(cperform64(op)),
        }
    }
}

fn approx_clogcosh_64(z: Complex<f64>) -> Complex<f64> {
    let mut e: CApproxEval64 = complex64::capprox_start(to_pair64(z));
    loop {
        match e.pending() {
            None => return to_num64(e.result().unwrap()),
            Some(ComplexOp64::Signum(x)) => e = e.feed_real(f64::from_bits(x).signum().to_bits()),
            Some(ComplexOp64::Norm(w)) => e = e.feed_real(to_num64(w).norm().to_bits()),
            Some(op) => e = e.feed_cplx(cperform64(op)),
        }
    }
}

#[test]
fn trivial_same_as_mine() {
    let input: Vec<f32> = vec![0., 1., 13., 1e-40, -1e-40, -1., -13.];
    let triv: Vec<f32> = input.clone().into_iter().map(logcosh).collect();
    let mine: Vec<f32> = input.into_iter().map(approx_logcosh).collect();
    assert_eq!(triv, mine)
}

#[test]
fn ctrivial_same_as_mine() {
    let mut input: Vec<Complex<f32>> = Vec::new();
    input.push(Complex::new(1., 1.));
    input.push(Complex::new(10., 1.));
    input.push(Complex::new(1., 10.));
    input.push(Complex::new(2e-4, 6e-5));
    let triv: Vec<Complex<f32>> = input.clone().into_iter().map(clogcosh).collect();
    let mine: Vec<Complex<f32>> = input.into_iter().map(approx_clogcosh).collect();
    for (a, b) in triv.iter().zip(mine) {
        assert!((a - b).norm() < 1e-7)
    }
}

#[test]
fn logcosh_is_symmetric_bitwise() {
    let xs: Vec<f32> = vec![0., 1e-45, 1e-40, 0.0199, 0.02, 0.5, 1., 3.9, 4., 5., 42., 1e30,
        f32::INFINITY];
    for x in xs {
        assert_eq!(logcosh(x).to_bits(), logcosh(-x).to_bits());
        assert_eq!(logcosh_64(x as f64).to_bits(), logcosh_64(-x as f64).to_bits());
    }
}

#[test]
fn logcosh_zero_matches_reference() {
    assert_eq!(logcosh(0.).to_bits(), (1f32.ln_1p() - std::f32::consts::LN_2).to_bits());
    assert_eq!(logcosh_64(0.).to_bits(), (1f64.ln_1p() - std::f64::consts::LN_2).to_bits());
}

#[test]
fn logcosh_does_not_overflow() {
    let big: f32 = 1e30;
    assert!(logcosh(big).is_finite());
    assert!(logcosh(-big).is_finite());
    assert_eq!(logcosh(big), big - std::f32::consts::LN_2);
    assert_eq!(logcosh(-big), big - std::f32::consts::LN_2);
    let big64: f64 = 1e30;
    assert!(logcosh_64(big64).is_finite());
    assert!(logcosh_64(-big64).is_finite());
    assert_eq!(logcosh_64(big64), big64 - std::f64::consts::LN_2);
}

#[test]
fn logcosh_is_nonnegative() {
    let xs: Vec<f32> = vec![0., -0., 1e-40, 3e-2, 0.7, -0.7, 4., -4., 20., -300., 1e38];
    for x in xs {
        assert!(logcosh(x) >= 0.);
        assert!(logcosh_64(x as f64) >= 0.);
    }
}

#[test]
fn logcosh_grows_with_magnitude() {
    let xs: Vec<f32> = vec![0., 1e-40, 1e-4, 1e-2, 0.1, 1., 2., 4., 4.5, 10., 88., 1e20, 1e38];
    for w in xs.windows(2) {
        assert!(logcosh(w[0]) <= logcosh(w[1]));
        assert!(logcosh(-w[0]) <= logcosh(-w[1]));
        assert!(logcosh_64(w[0] as f64) <= logcosh_64(w[1] as f64));
    }
}

#[test]
fn clogcosh_reduces_to_real_axis() {
    let xs: Vec<f32> = vec![0., 0.3, -0.3, 1., -1., 2.5, 13., -13.];
    for x in xs {
        let z = clogcosh(Complex::new(x, 0.));
        assert!((z.re - logcosh(x)).abs() <= 1e-6 * (1. + logcosh(x).abs()));
        assert_eq!(z.im, 0.);
        let w = clogcosh_64(Complex::new(x as f64, 0.));
        assert!((w.re - logcosh_64(x as f64)).abs() <= 1e-12 * (1. + logcosh_64(x as f64).abs()));
        assert_eq!(w.im, 0.);
    }
}

#[test]
fn approx_matches_closed_forms_in_outer_regions() {
    // Large region: exactly |x| - ln 2, the asymptotic form.
    assert_eq!(approx_logcosh(5.).to_bits(), (5f32 - std::f32::consts::LN_2).to_bits());
    assert_eq!(approx_logcosh(-5.).to_bits(), (5f32 - std::f32::consts::LN_2).to_bits());
    assert_eq!(approx_logcosh_64(5.).to_bits(), (5f64 - std::f64::consts::LN_2).to_bits());
    // Small region: exactly x * x / 2, the quadratic Taylor form.
    let tiny: f32 = 0.01;
    assert_eq!(approx_logcosh(tiny).to_bits(), (tiny * tiny / 2.).to_bits());
    let tiny64: f64 = 0.01;
    assert_eq!(approx_logcosh_64(tiny64).to_bits(), (tiny64 * tiny64 / 2.).to_bits());
}

#[test]
fn approx_agrees_exactly_at_thresholds() {
    // At either threshold both comparisons are strict, so the approximation
    // runs the exact evaluator's machine and the results are bit-identical.
    for x in [2e-2f32, -2e-2, 4., -4., 0.5, 1.] {
        assert_eq!(approx_logcosh(x).to_bits(), logcosh(x).to_bits());
    }
    for x in [2e-2f64, -2e-2, 4., -4., 0.5, 1.] {
        assert_eq!(approx_logcosh_64(x).to_bits(), logcosh_64(x).to_bits());
    }
}

#[test]
fn capprox_matches_closed_forms_in_outer_regions() {
    // Large region by |Re z|: exactly s - (ln 2 + 0i) with s sign-normalized.
    let z = Complex::new(10f32, 1.);
    let want = z * 1f32 - Complex::new(std::f32::consts::LN_2, 0.);
    let got = approx_clogcosh(z);
    assert_eq!((got.re.to_bits(), got.im.to_bits()), (want.re.to_bits(), want.im.to_bits()));
    let zn = Complex::new(-10f32, 1.);
    let wantn = zn * (-1f32) - Complex::new(std::f32::consts::LN_2, 0.);
    let gotn = approx_clogcosh(zn);
    assert_eq!((gotn.re.to_bits(), gotn.im.to_bits()), (wantn.re.to_bits(), wantn.im.to_bits()));
    // Small region by |z|: exactly z * z / 2.
    let s = Complex::new(2e-4f32, 6e-5);
    let wants = (s * s) / 2f32;
    let gots = approx_clogcosh(s);
    assert_eq!((gots.re.to_bits(), gots.im.to_bits()), (wants.re.to_bits(), wants.im.to_bits()));
    let s64 = Complex::new(2e-4f64, 6e-5);
    let wants64 = (s64 * s64) / 2f64;
    let gots64 = approx_clogcosh_64(s64);
    assert_eq!(
        (gots64.re.to_bits(), gots64.im.to_bits()),
        (wants64.re.to_bits(), wants64.im.to_bits()),
    );
}

#[test]
fn capprox_bounded_error_against_exact() {
    let zs: Vec<Complex<f64>> = vec![
        Complex::new(1., 1.),
        Complex::new(10., 1.),
        Complex::new(1., 10.),
        Complex::new(2e-4, 6e-5),
    ];
    for z in zs {
        let d = clogcosh_64(z) - approx_clogcosh_64(z);
        assert!(d.norm() < 1e-7);
    }
}

#[test]
fn clogcosh_keeps_imaginary_part_on_zero_real_axis() {
    // Re z == 0.0 keeps z unmultiplied; a factor of signum(0) would have
    // zeroed the imaginary part.
    let z = clogcosh(Complex::new(0f32, 2.));
    let direct = {
        let s = Complex::new(0f32, 2.);
        s + (Complex::new(1f32, 0.) + (-Complex::new(2f32, 0.) * s).exp()).ln()
            - Complex::new(std::f32::consts::LN_2, 0.)
    };
    assert_eq!((z.re.to_bits(), z.im.to_bits()), (direct.re.to_bits(), direct.im.to_bits()));
}

#[test]
fn evaluators_match_direct_formulas() {
    // The machines request exactly the operations of the stable identities,
    // so a direct transcription of those identities gives bit-equal results.
    for x in [0f32, 1e-30, 0.02, 0.7, 1., 3.9999, 4., 13., 88., 1e38] {
        let a = x.abs();
        let direct = a + (-2f32 * a).exp().ln_1p() - std::f32::consts::LN_2;
        assert_eq!(logcosh(x).to_bits(), direct.to_bits());
    }
    for z in [Complex::new(1f32, 1.), Complex::new(-2., 0.5), Complex::new(0.1, -7.)] {
        let s = z * z.re.signum();
        let direct = s + (Complex::new(1f32, 0.) + (-Complex::new(2f32, 0.) * s).exp()).ln()
            - Complex::new(std::f32::consts::LN_2, 0.);
        let got = clogcosh(z);
        assert_eq!((got.re.to_bits(), got.im.to_bits()), (direct.re.to_bits(), direct.im.to_bits()));
    }
}

#[test]
fn nan_propagates() {
    assert!(logcosh(f32::NAN).is_nan());
    assert!(logcosh_64(f64::NAN).is_nan());
    let z = clogcosh(Complex::new(f32::NAN, 1.));
    assert!(z.re.is_nan() || z.im.is_nan());
    assert!(logcosh(f32::INFINITY) == f32::INFINITY);
    assert!(logcosh_64(f64::INFINITY) == f64::INFINITY);
}
