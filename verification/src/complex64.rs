//! Stable evaluation of `log(cosh(z))` for a complex 64-bit scalar, and its
//! three-region approximation.
//!
//! A complex scalar is an ordered pair of 64-bit patterns. The identity is
//! the real one generalized: a branch-normalizing factor takes the place of
//! `|x|` — `s = z` when `Re z == 0.0`, otherwise `s = z * signum(Re z)` —
//! keeping `exp(-2 s)` in the decaying half-plane, and the result is
//! `s + ln(1 + exp(-2 s)) - ln 2` with the principal complex logarithm.
//!
//! As on the real side, each evaluator is a step machine: the sign
//! normalization, the NaN and zero tests and the region classification are
//! verified bit logic here, and every complex operation is requested from
//! the driver with its exact operands. `signum` of a real part that is
//! neither zero nor NaN is `±1.0`, decided here by the sign bit; only for a
//! NaN real part is `signum` itself requested, so that the driver's NaN
//! propagates as the underlying arithmetic would have it.

use vstd::prelude::*;

use crate::bits64::{
    abs_bits64, f_eq_zero64, f_lt64, is_nan64, signum_bits64, float_abs64, float_eq_zero64,
    float_is_nan64, float_lt64, lemma_mag_idem64, LN2_64, LARGE64, MAG64, NEG_ONE64, NEG_TWO64, ONE64,
    SIGN64, SMALL64, TWO64,
};

verus! {

/// A complex scalar: the patterns of its real and imaginary parts.
#[derive(Clone, Copy, Debug, PartialEq, Eq, Structural)]
pub struct Complex64 {
    pub re: u64,
    pub im: u64,
}

/// The pattern pair of `1 + 0i`.
pub open spec fn one_plx64() -> Complex64 {
    Complex64 { re: ONE64, im: 0 }
}

/// The pattern pair of `-(2 + 0i)`: both components negated, so the
/// imaginary part is negative zero.
pub open spec fn neg_two_plx64() -> Complex64 {
    Complex64 { re: NEG_TWO64, im: SIGN64 }
}

/// The pattern pair of `ln 2 + 0i`.
pub open spec fn ln2_plx64() -> Complex64 {
    Complex64 { re: LN2_64, im: 0 }
}

/// A single complex (or auxiliary real) floating-point operation requested
/// from the driver, with its operands given as bit patterns. `Signum` and
/// `Norm` answer with a real pattern; every other operation answers with a
/// complex pair.
#[derive(Clone, Copy, Debug, PartialEq, Eq, Structural)]
pub enum ComplexOp64 {
    /// `signum` of the encoded real value (requested only for NaN).
    Signum(u64),
    /// The complex value scaled by the encoded real factor, componentwise.
    Scale(Complex64, u64),
    /// The full complex product of the two values.
    Mul(Complex64, Complex64),
    /// The complex exponential.
    Exp(Complex64),
    /// The principal complex natural logarithm.
    Ln(Complex64),
    /// The componentwise complex sum.
    Add(Complex64, Complex64),
    /// The componentwise complex difference.
    Sub(Complex64, Complex64),
    /// The complex value divided by the encoded real factor, componentwise.
    Unscale(Complex64, u64),
    /// The complex modulus, a real value.
    Norm(Complex64),
}

/// The exact evaluator `log cosh z = s + ln(1 + exp(-2 s)) - ln 2` with `s`
/// the sign-normalized input, as a step machine.
#[derive(Clone, Copy, Debug, PartialEq, Eq, Structural)]
pub enum ClogcoshEval {
    /// `Re z` is NaN: awaiting `f = signum(Re z)`, a NaN to propagate.
    AwaitSignum { z: Complex64 },
    /// Awaiting `s = z * f`, the sign-normalized input.
    AwaitNormalize { z: Complex64, f: u64 },
    /// Awaiting `m = -(2 + 0i) * s`.
    AwaitTwist { s: Complex64 },
    /// Awaiting `p = exp(m)`.
    AwaitDecay { s: Complex64, m: Complex64 },
    /// Awaiting `o = (1 + 0i) + p`.
    AwaitGrow { s: Complex64, p: Complex64 },
    /// Awaiting `l = ln(o)`, the principal logarithm.
    AwaitLog { s: Complex64, o: Complex64 },
    /// Awaiting `t = s + l`.
    AwaitSum { s: Complex64, l: Complex64 },
    /// Awaiting `r = t - (ln 2 + 0i)`.
    AwaitShift { t: Complex64 },
    /// The final pair.
    Done { r: Complex64 },
}

/// The state the exact evaluator starts from on input `z`. When
/// `Re z == 0.0` the input is kept unmultiplied (a factor of 0 would wrongly
/// zero the imaginary part); when `Re z` is NaN the driver's own `signum` is
/// requested so its NaN propagates; otherwise the factor is `±1.0`, decided
/// by the sign bit of `Re z`.
pub open spec fn clogcosh_init(z: Complex64) -> ClogcoshEval {
    if f_eq_zero64(z.re) {
        ClogcoshEval::AwaitTwist { s: z }
    } else if is_nan64(z.re) {
        ClogcoshEval::AwaitSignum { z }
    } else {
        ClogcoshEval::AwaitNormalize { z, f: signum_bits64(z.re) }
    }
}

/// The operation a state awaits, if it is not done.
pub open spec fn clogcosh_pending(e: ClogcoshEval) -> Option<ComplexOp64> {
    match e {
        ClogcoshEval::AwaitSignum { z } => Some(ComplexOp64::Signum(z.re)),
        ClogcoshEval::AwaitNormalize { z, f } => Some(ComplexOp64::Scale(z, f)),
        ClogcoshEval::AwaitTwist { s } => Some(ComplexOp64::Mul(neg_two_plx64(), s)),
        ClogcoshEval::AwaitDecay { s, m } => Some(ComplexOp64::Exp(m)),
        ClogcoshEval::AwaitGrow { s, p } => Some(ComplexOp64::Add(one_plx64(), p)),
        ClogcoshEval::AwaitLog { s, o } => Some(ComplexOp64::Ln(o)),
        ClogcoshEval::AwaitSum { s, l } => Some(ComplexOp64::Add(s, l)),
        ClogcoshEval::AwaitShift { t } => Some(ComplexOp64::Sub(t, ln2_plx64())),
        ClogcoshEval::Done { r } => None,
    }
}

/// Whether the awaited operation answers with a real pattern.
pub open spec fn clogcosh_awaits_real(e: ClogcoshEval) -> bool {
    e is AwaitSignum
}

/// The state after a real response `f` (only `signum`) comes back.
pub open spec fn clogcosh_step_real(e: ClogcoshEval, f: u64) -> ClogcoshEval {
    match e {
        ClogcoshEval::AwaitSignum { z } => ClogcoshEval::AwaitNormalize { z, f },
        _ => e,
    }
}

/// The state after a complex response `r` comes back.
pub open spec fn clogcosh_step_cplx(e: ClogcoshEval, r: Complex64) -> ClogcoshEval {
    match e {
        ClogcoshEval::AwaitNormalize { z, f } => ClogcoshEval::AwaitTwist { s: r },
        ClogcoshEval::AwaitTwist { s } => ClogcoshEval::AwaitDecay { s, m: r },
        ClogcoshEval::AwaitDecay { s, m } => ClogcoshEval::AwaitGrow { s, p: r },
        ClogcoshEval::AwaitGrow { s, p } => ClogcoshEval::AwaitLog { s, o: r },
        ClogcoshEval::AwaitLog { s, o } => ClogcoshEval::AwaitSum { s, l: r },
        ClogcoshEval::AwaitSum { s, l } => ClogcoshEval::AwaitShift { t: r },
        ClogcoshEval::AwaitShift { t } => ClogcoshEval::Done { r },
        _ => e,
    }
}

/// Starts the exact evaluator on the pair `z`.
pub fn clogcosh_start(z: Complex64) -> (e: ClogcoshEval)
    ensures
        e == clogcosh_init(z),
{
    if float_eq_zero64(z.re) {
        ClogcoshEval::AwaitTwist { s: z }
    } else if float_is_nan64(z.re) {
        ClogcoshEval::AwaitSignum { z }
    } else if (z.re & SIGN64) == SIGN64 {
        ClogcoshEval::AwaitNormalize { z, f: NEG_ONE64 }
    } else {
        ClogcoshEval::AwaitNormalize { z, f: ONE64 }
    }
}

impl ClogcoshEval {
    /// The operation this state awaits; `None` exactly when it is done.
    pub fn pending(&self) -> (op: Option<ComplexOp64>)
        ensures
            op == clogcosh_pending(*self),
    {
        match self {
            ClogcoshEval::AwaitSignum { z } => Some(ComplexOp64::Signum(z.re)),
            ClogcoshEval::AwaitNormalize { z, f } => Some(ComplexOp64::Scale(*z, *f)),
            ClogcoshEval::AwaitTwist { s } => Some(
                ComplexOp64::Mul(Complex64 { re: NEG_TWO64, im: SIGN64 }, *s),
            ),
            ClogcoshEval::AwaitDecay { s: _, m } => Some(ComplexOp64::Exp(*m)),
            ClogcoshEval::AwaitGrow { s: _, p } => Some(
                ComplexOp64::Add(Complex64 { re: ONE64, im: 0 }, *p),
            ),
            ClogcoshEval::AwaitLog { s: _, o } => Some(ComplexOp64::Ln(*o)),
            ClogcoshEval::AwaitSum { s, l } => Some(ComplexOp64::Add(*s, *l)),
            ClogcoshEval::AwaitShift { t } => Some(
                ComplexOp64::Sub(*t, Complex64 { re: LN2_64, im: 0 }),
            ),
            ClogcoshEval::Done { r: _ } => None,
        }
    }

    /// Advances past an awaited operation that answers with a real pattern.
    pub fn feed_real(self, f: u64) -> (next: ClogcoshEval)
        requires
            clogcosh_awaits_real(self),
        ensures
            next == clogcosh_step_real(self, f),
    {
        match self {
            ClogcoshEval::AwaitSignum { z } => ClogcoshEval::AwaitNormalize { z, f },
            other => other,
        }
    }

    /// Advances past an awaited operation that answers with a complex pair.
    pub fn feed_cplx(self, r: Complex64) -> (next: ClogcoshEval)
        requires
            !clogcosh_awaits_real(self),
            !(self is Done),
        ensures
            next == clogcosh_step_cplx(self, r),
    {
        match self {
            ClogcoshEval::AwaitNormalize { z: _, f: _ } => ClogcoshEval::AwaitTwist { s: r },
            ClogcoshEval::AwaitTwist { s } => ClogcoshEval::AwaitDecay { s, m: r },
            ClogcoshEval::AwaitDecay { s, m: _ } => ClogcoshEval::AwaitGrow { s, p: r },
            ClogcoshEval::AwaitGrow { s, p: _ } => ClogcoshEval::AwaitLog { s, o: r },
            ClogcoshEval::AwaitLog { s, o: _ } => ClogcoshEval::AwaitSum { s, l: r },
            ClogcoshEval::AwaitSum { s: _, l: _ } => ClogcoshEval::AwaitShift { t: r },
            ClogcoshEval::AwaitShift { t: _ } => ClogcoshEval::Done { r },
            other => other,
        }
    }

    /// The final pair, once the machine is done.
    pub fn result(&self) -> (r: Option<Complex64>)
        ensures
            *self matches ClogcoshEval::Done { r: v } ==> r == Some(v),
            !(*self is Done) ==> r is None,
    {
        match self {
            ClogcoshEval::Done { r } => Some(*r),
            _ => None,
        }
    }
}

/// The three-region approximation of `log cosh z`: `s - (ln 2 + 0i)` when
/// `|Re z|` is strictly above the large threshold (the asymptotic form's
/// validity depends only on how far the real part drives the exponential's
/// decay), `z * z / 2` when the modulus `|z|` is strictly below the small
/// threshold (the Taylor form's error depends on the full magnitude), and
/// otherwise the very machine of the exact evaluator.
#[derive(Clone, Copy, Debug, PartialEq, Eq, Structural)]
pub enum CApproxEval {
    /// Large region: awaiting `s = z * f` with `f = signum(Re z)`.
    AwaitNormalizeL { z: Complex64, f: u64 },
    /// Large region: awaiting `r = s - (ln 2 + 0i)`.
    AwaitShiftL { s: Complex64 },
    /// Awaiting the modulus `n = |z|`, to choose between the small region
    /// and the exact evaluator.
    AwaitNorm { z: Complex64 },
    /// Small region: awaiting `sq = z * z`.
    AwaitSquare { z: Complex64 },
    /// Small region: awaiting `r = sq / 2`.
    AwaitHalf { sq: Complex64 },
    /// General region: the exact evaluator, run unchanged.
    Exact { inner: ClogcoshEval },
    /// The final pair.
    Done { r: Complex64 },
}

/// The state the approximation starts from on input `z`. Strictly above the
/// large threshold `Re z` is neither zero nor NaN, so the normalizing factor
/// is `±1.0`, decided by the sign bit ([`lemma_large_re_not_special64`]);
/// otherwise the modulus is requested first, and the choice between the
/// small region and the exact evaluator waits for it.
pub open spec fn capprox_init(z: Complex64) -> CApproxEval {
    if f_lt64(LARGE64, abs_bits64(z.re)) {
        CApproxEval::AwaitNormalizeL { z, f: signum_bits64(z.re) }
    } else {
        CApproxEval::AwaitNorm { z }
    }
}

/// The operation an approximation state awaits, if it is not done.
pub open spec fn capprox_pending(e: CApproxEval) -> Option<ComplexOp64> {
    match e {
        CApproxEval::AwaitNormalizeL { z, f } => Some(ComplexOp64::Scale(z, f)),
        CApproxEval::AwaitShiftL { s } => Some(ComplexOp64::Sub(s, ln2_plx64())),
        CApproxEval::AwaitNorm { z } => Some(ComplexOp64::Norm(z)),
        CApproxEval::AwaitSquare { z } => Some(ComplexOp64::Mul(z, z)),
        CApproxEval::AwaitHalf { sq } => Some(ComplexOp64::Unscale(sq, TWO64)),
        CApproxEval::Exact { inner } => clogcosh_pending(inner),
        CApproxEval::Done { r } => None,
    }
}

/// Whether the awaited operation answers with a real pattern.
pub open spec fn capprox_awaits_real(e: CApproxEval) -> bool {
    ||| e is AwaitNorm
    ||| (e matches CApproxEval::Exact { inner } && clogcosh_awaits_real(inner))
}

/// The state after a real response comes back: the modulus decides between
/// the small region and the exact evaluator, by a strict comparison against
/// the small threshold (a NaN modulus compares false and goes to the exact
/// evaluator); a `signum` response is passed through to the inner machine.
pub open spec fn capprox_step_real(e: CApproxEval, n: u64) -> CApproxEval {
    match e {
        CApproxEval::AwaitNorm { z } => {
            if f_lt64(n, SMALL64) {
                CApproxEval::AwaitSquare { z }
            } else {
                CApproxEval::Exact { inner: clogcosh_init(z) }
            }
        },
        CApproxEval::Exact { inner } => CApproxEval::Exact {
            inner: clogcosh_step_real(inner, n),
        },
        _ => e,
    }
}

/// The state after a complex response `r` comes back.
pub open spec fn capprox_step_cplx(e: CApproxEval, r: Complex64) -> CApproxEval {
    match e {
        CApproxEval::AwaitNormalizeL { z, f } => CApproxEval::AwaitShiftL { s: r },
        CApproxEval::AwaitShiftL { s } => CApproxEval::Done { r },
        CApproxEval::AwaitSquare { z } => CApproxEval::AwaitHalf { sq: r },
        CApproxEval::AwaitHalf { sq } => CApproxEval::Done { r },
        CApproxEval::Exact { inner } => CApproxEval::Exact {
            inner: clogcosh_step_cplx(inner, r),
        },
        _ => e,
    }
}

/// Whether an approximation state is finished, with the final pair.
pub open spec fn capprox_result(e: CApproxEval) -> Option<Complex64> {
    match e {
        CApproxEval::Exact { inner } => match inner {
            ClogcoshEval::Done { r } => Some(r),
            _ => None,
        },
        CApproxEval::Done { r } => Some(r),
        _ => None,
    }
}

/// Starts the approximate evaluator on the pair `z`.
pub fn capprox_start(z: Complex64) -> (e: CApproxEval)
    ensures
        e == capprox_init(z),
{
    let a: u64 = float_abs64(z.re);
    if float_lt64(LARGE64, a) {
        if (z.re & SIGN64) == SIGN64 {
            CApproxEval::AwaitNormalizeL { z, f: NEG_ONE64 }
        } else {
            CApproxEval::AwaitNormalizeL { z, f: ONE64 }
        }
    } else {
        CApproxEval::AwaitNorm { z }
    }
}

impl CApproxEval {
    /// The operation this state awaits; `None` exactly when it is done.
    pub fn pending(&self) -> (op: Option<ComplexOp64>)
        ensures
            op == capprox_pending(*self),
    {
        match self {
            CApproxEval::AwaitNormalizeL { z, f } => Some(ComplexOp64::Scale(*z, *f)),
            CApproxEval::AwaitShiftL { s } => Some(
                ComplexOp64::Sub(*s, Complex64 { re: LN2_64, im: 0 }),
            ),
            CApproxEval::AwaitNorm { z } => Some(ComplexOp64::Norm(*z)),
            CApproxEval::AwaitSquare { z } => Some(ComplexOp64::Mul(*z, *z)),
            CApproxEval::AwaitHalf { sq } => Some(ComplexOp64::Unscale(*sq, TWO64)),
            CApproxEval::Exact { inner } => inner.pending(),
            CApproxEval::Done { r: _ } => None,
        }
    }

    /// Advances past an awaited operation that answers with a real pattern.
    pub fn feed_real(self, n: u64) -> (next: CApproxEval)
        requires
            capprox_awaits_real(self),
        ensures
            next == capprox_step_real(self, n),
    {
        match self {
            CApproxEval::AwaitNorm { z } => {
                if float_lt64(n, SMALL64) {
                    CApproxEval::AwaitSquare { z }
                } else {
                    CApproxEval::Exact { inner: clogcosh_start(z) }
                }
            },
            CApproxEval::Exact { inner } => CApproxEval::Exact { inner: inner.feed_real(n) },
            other => other,
        }
    }

    /// Advances past an awaited operation that answers with a complex pair.
    pub fn feed_cplx(self, r: Complex64) -> (next: CApproxEval)
        requires
            !capprox_awaits_real(self),
            capprox_pending(self) is Some,
        ensures
            next == capprox_step_cplx(self, r),
    {
        match self {
            CApproxEval::AwaitNormalizeL { z: _, f: _ } => CApproxEval::AwaitShiftL { s: r },
            CApproxEval::AwaitShiftL { s: _ } => CApproxEval::Done { r },
            CApproxEval::AwaitSquare { z: _ } => CApproxEval::AwaitHalf { sq: r },
            CApproxEval::AwaitHalf { sq: _ } => CApproxEval::Done { r },
            CApproxEval::Exact { inner } => CApproxEval::Exact { inner: inner.feed_cplx(r) },
            other => other,
        }
    }

    /// The final pair, once the machine is done.
    pub fn result(&self) -> (r: Option<Complex64>)
        ensures
            r == capprox_result(*self),
    {
        match self {
            CApproxEval::Exact { inner } => inner.result(),
            CApproxEval::Done { r } => Some(*r),
            _ => None,
        }
    }
}

/// The normalization protocol of the exact evaluator, by the real part:
/// zero keeps `z` unmultiplied and goes straight to the main path; NaN asks
/// for `f = signum(Re z)` first and then for `s = z * f`; any other real
/// part asks directly for `s = z * f` with `f = ±1.0` decided by the sign
/// bit. Either way the main path is entered at `AwaitTwist` with the
/// normalized `s`.
pub proof fn lemma_clogcosh_normalization(z: Complex64, f: u64, s: Complex64)
    ensures
        f_eq_zero64(z.re) ==> clogcosh_init(z) == (ClogcoshEval::AwaitTwist { s: z }),
        !f_eq_zero64(z.re) && is_nan64(z.re) ==> ({
            let e0 = clogcosh_init(z);
            &&& clogcosh_pending(e0) == Some(ComplexOp64::Signum(z.re))
            &&& clogcosh_step_real(e0, f) == (ClogcoshEval::AwaitNormalize { z, f })
        }),
        !f_eq_zero64(z.re) && !is_nan64(z.re) ==> clogcosh_init(z)
            == (ClogcoshEval::AwaitNormalize { z, f: signum_bits64(z.re) }),
        clogcosh_step_cplx(ClogcoshEval::AwaitNormalize { z, f }, s) == (ClogcoshEval::AwaitTwist {
            s,
        }),
{
}

/// The whole main path of the exact evaluator, in one statement: entered at
/// `AwaitTwist` with the normalized `s`, and with `m`, `p`, `o`, `l`, `t`,
/// `r` the responses to its six requests in order, the machine asks exactly
/// for `m = -(2 + 0i) * s`, `p = exp(m)`, `o = (1 + 0i) + p`, `l = ln(o)`,
/// `t = s + l`, `r = t - (ln 2 + 0i)`, and finishes with exactly `r`.
pub proof fn lemma_clogcosh_protocol(
    s: Complex64,
    m: Complex64,
    p: Complex64,
    o: Complex64,
    l: Complex64,
    t: Complex64,
    r: Complex64,
)
    ensures
        ({
            let e0 = ClogcoshEval::AwaitTwist { s };
            let e1 = clogcosh_step_cplx(e0, m);
            let e2 = clogcosh_step_cplx(e1, p);
            let e3 = clogcosh_step_cplx(e2, o);
            let e4 = clogcosh_step_cplx(e3, l);
            let e5 = clogcosh_step_cplx(e4, t);
            &&& clogcosh_pending(e0) == Some(ComplexOp64::Mul(neg_two_plx64(), s))
            &&& clogcosh_pending(e1) == Some(ComplexOp64::Exp(m))
            &&& clogcosh_pending(e2) == Some(ComplexOp64::Add(one_plx64(), p))
            &&& clogcosh_pending(e3) == Some(ComplexOp64::Ln(o))
            &&& clogcosh_pending(e4) == Some(ComplexOp64::Add(s, l))
            &&& clogcosh_pending(e5) == Some(ComplexOp64::Sub(t, ln2_plx64()))
            &&& clogcosh_step_cplx(e5, r) == (ClogcoshEval::Done { r })
        }),
{
}

/// The whole protocol of the approximation in the outer regions: with
/// `|Re z|` strictly above the large threshold it asks for `s = z * f` with
/// `f = signum(Re z)` and then for `r = s - (ln 2 + 0i)`, and finishes with
/// exactly `r`; with the answered modulus `n` strictly below the small
/// threshold it asks for `sq = z * z` and then `r = sq / 2`, and finishes
/// with exactly `r`. No complex exponential and no complex logarithm is
/// ever requested there.
pub proof fn lemma_capprox_outer_protocol(
    z: Complex64,
    n: u64,
    s: Complex64,
    sq: Complex64,
    r: Complex64,
)
    ensures
        f_lt64(LARGE64, abs_bits64(z.re)) ==> ({
            let e0 = capprox_init(z);
            let e1 = capprox_step_cplx(e0, s);
            &&& capprox_pending(e0) == Some(ComplexOp64::Scale(z, signum_bits64(z.re)))
            &&& capprox_pending(e1) == Some(ComplexOp64::Sub(s, ln2_plx64()))
            &&& capprox_step_cplx(e1, r) == (CApproxEval::Done { r })
        }),
        !f_lt64(LARGE64, abs_bits64(z.re)) && f_lt64(n, SMALL64) ==> ({
            let e0 = capprox_init(z);
            let e1 = capprox_step_real(e0, n);
            let e2 = capprox_step_cplx(e1, sq);
            &&& capprox_pending(e0) == Some(ComplexOp64::Norm(z))
            &&& capprox_pending(e1) == Some(ComplexOp64::Mul(z, z))
            &&& capprox_pending(e2) == Some(ComplexOp64::Unscale(sq, TWO64))
            &&& capprox_step_cplx(e2, r) == (CApproxEval::Done { r })
        }),
{
}

/// Strictly above the large threshold the real part is neither NaN (NaN
/// compares false) nor zero (its magnitude exceeds the threshold's), so
/// `signum(Re z)` is exactly `±1.0` and the approximation may decide the
/// factor by the sign bit without requesting `signum`.
pub proof fn lemma_large_re_not_special64(re: u64)
    ensures
        f_lt64(LARGE64, abs_bits64(re)) ==> !is_nan64(re) && !f_eq_zero64(re),
{
    lemma_mag_idem64(re);
    assert(LARGE64 & SIGN64 == 0) by (bit_vector);
    assert(LARGE64 & MAG64 == LARGE64) by (bit_vector);
}

/// In the general region — real part not strictly above the large
/// threshold, modulus not strictly below the small one — the approximation
/// is the exact evaluator's machine, stepped by the same rule: the same
/// responses give the same final pair, bit for bit.
pub proof fn lemma_capprox_exact_on_general(z: Complex64, n: u64)
    ensures
        !f_lt64(LARGE64, abs_bits64(z.re)) ==> capprox_init(z) == (CApproxEval::AwaitNorm { z }),
        !f_lt64(n, SMALL64) ==> capprox_step_real(CApproxEval::AwaitNorm { z }, n)
            == (CApproxEval::Exact { inner: clogcosh_init(z) }),
{
}

/// Each step of the delegated machine is a step of the exact evaluator:
/// feeding `Exact { inner }` wraps `inner` stepped, requests the same
/// operation, and is done with the same pair.
pub proof fn lemma_cexact_delegates(inner: ClogcoshEval, f: u64, r: Complex64)
    ensures
        capprox_step_real(CApproxEval::Exact { inner }, f) == (CApproxEval::Exact {
            inner: clogcosh_step_real(inner, f),
        }),
        capprox_step_cplx(CApproxEval::Exact { inner }, r) == (CApproxEval::Exact {
            inner: clogcosh_step_cplx(inner, r),
        }),
        capprox_pending(CApproxEval::Exact { inner }) == clogcosh_pending(inner),
        inner matches ClogcoshEval::Done { r: v } ==> capprox_result(
            CApproxEval::Exact { inner },
        ) == Some(v),
{
}

} // verus!
