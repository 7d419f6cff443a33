//! Stable evaluation of `log(cosh(x))` for a real 64-bit scalar, and its
//! three-region approximation.
//!
//! Each evaluator is a step machine over bit patterns. A state either holds
//! the final pattern (`Done`) or awaits the response to exactly one
//! floating-point operation, which [`LogcoshEval::pending`] names with its
//! exact operands. The driver performs the operation and hands the resulting
//! pattern to [`LogcoshEval::feed`]. Every decision — taking `|x|` up front,
//! classifying the region, choosing the operands of each step — is verified
//! integer logic here; only the float arithmetic itself runs in the driver.

use vstd::prelude::*;

use crate::bits64::{
    abs_bits64, f_lt64, is_nan64, lemma_abs_neg64, lemma_mag_idem64, neg_bits64, float_abs64,
    float_lt64, LN2_64, LARGE64, MAG64, NEG_TWO64, SIGN64, SMALL64, TWO64,
};
use crate::region::Region;

verus! {

/// A single 64-bit floating-point operation requested from the driver,
/// with its operands given as bit patterns.
#[derive(Clone, Copy, Debug, PartialEq, Eq, Structural)]
pub enum FloatOp64 {
    /// The IEEE product of the two encoded values.
    Mul(u64, u64),
    /// The IEEE quotient of the two encoded values.
    Div(u64, u64),
    /// The IEEE sum of the two encoded values.
    Add(u64, u64),
    /// The IEEE difference of the two encoded values.
    Sub(u64, u64),
    /// The exponential of the encoded value.
    Exp(u64),
    /// `log1p` of the encoded value: the logarithm of one plus it, kept
    /// accurate near zero.
    Ln1p(u64),
}

/// The exact evaluator `log cosh x = a + log1p(exp(-2 a)) - ln 2` with
/// `a = |x|`, as a step machine. `a` is taken by bit logic before anything
/// else, so the whole run depends on `x` only through `|x|`.
#[derive(Clone, Copy, Debug, PartialEq, Eq, Structural)]
pub enum LogcoshEval {
    /// Awaiting `m = -2 * a`.
    AwaitScale { a: u64 },
    /// Awaiting `p = exp(m)`.
    AwaitDecay { a: u64, m: u64 },
    /// Awaiting `q = log1p(p)`.
    AwaitLog { a: u64, p: u64 },
    /// Awaiting `s = a + q`.
    AwaitSum { a: u64, q: u64 },
    /// Awaiting `r = s - ln 2`.
    AwaitShift { s: u64 },
    /// The final pattern.
    Done { r: u64 },
}

/// The state the exact evaluator starts from on input `x`: awaiting the
/// scaling of `a = |x|`.
pub open spec fn logcosh_init(x: u64) -> LogcoshEval {
    LogcoshEval::AwaitScale { a: abs_bits64(x) }
}

/// The operation a state awaits, if it is not done.
pub open spec fn logcosh_pending(e: LogcoshEval) -> Option<FloatOp64> {
    match e {
        LogcoshEval::AwaitScale { a } => Some(FloatOp64::Mul(NEG_TWO64, a)),
        LogcoshEval::AwaitDecay { a, m } => Some(FloatOp64::Exp(m)),
        LogcoshEval::AwaitLog { a, p } => Some(FloatOp64::Ln1p(p)),
        LogcoshEval::AwaitSum { a, q } => Some(FloatOp64::Add(a, q)),
        LogcoshEval::AwaitShift { s } => Some(FloatOp64::Sub(s, LN2_64)),
        LogcoshEval::Done { r } => None,
    }
}

/// The state after the awaited operation's result `r` comes back.
pub open spec fn logcosh_step(e: LogcoshEval, r: u64) -> LogcoshEval {
    match e {
        LogcoshEval::AwaitScale { a } => LogcoshEval::AwaitDecay { a, m: r },
        LogcoshEval::AwaitDecay { a, m } => LogcoshEval::AwaitLog { a, p: r },
        LogcoshEval::AwaitLog { a, p } => LogcoshEval::AwaitSum { a, q: r },
        LogcoshEval::AwaitSum { a, q } => LogcoshEval::AwaitShift { s: r },
        LogcoshEval::AwaitShift { s } => LogcoshEval::Done { r },
        LogcoshEval::Done { r: done } => LogcoshEval::Done { r: done },
    }
}

/// Starts the exact evaluator on the pattern `x`.
pub fn logcosh_start(x: u64) -> (e: LogcoshEval)
    ensures
        e == logcosh_init(x),
{
    LogcoshEval::AwaitScale { a: float_abs64(x) }
}

impl LogcoshEval {
    /// The operation this state awaits; `None` exactly when it is done.
    pub fn pending(&self) -> (op: Option<FloatOp64>)
        ensures
            op == logcosh_pending(*self),
    {
        match self {
            LogcoshEval::AwaitScale { a } => Some(FloatOp64::Mul(NEG_TWO64, *a)),
            LogcoshEval::AwaitDecay { a: _, m } => Some(FloatOp64::Exp(*m)),
            LogcoshEval::AwaitLog { a: _, p } => Some(FloatOp64::Ln1p(*p)),
            LogcoshEval::AwaitSum { a, q } => Some(FloatOp64::Add(*a, *q)),
            LogcoshEval::AwaitShift { s } => Some(FloatOp64::Sub(*s, LN2_64)),
            LogcoshEval::Done { r: _ } => None,
        }
    }

    /// Advances past the awaited operation, whose result is `r`.
    pub fn feed(self, r: u64) -> (next: LogcoshEval)
        requires
            !(self is Done),
        ensures
            next == logcosh_step(self, r),
    {
        match self {
            LogcoshEval::AwaitScale { a } => LogcoshEval::AwaitDecay { a, m: r },
            LogcoshEval::AwaitDecay { a, m: _ } => LogcoshEval::AwaitLog { a, p: r },
            LogcoshEval::AwaitLog { a, p: _ } => LogcoshEval::AwaitSum { a, q: r },
            LogcoshEval::AwaitSum { a: _, q: _ } => LogcoshEval::AwaitShift { s: r },
            LogcoshEval::AwaitShift { s: _ } => LogcoshEval::Done { r },
            LogcoshEval::Done { r: done } => LogcoshEval::Done { r: done },
        }
    }

    /// The final pattern, once the machine is done.
    pub fn result(&self) -> (r: Option<u64>)
        ensures
            *self matches LogcoshEval::Done { r: v } ==> r == Some(v),
            !(*self is Done) ==> r is None,
    {
        match self {
            LogcoshEval::Done { r } => Some(*r),
            _ => None,
        }
    }
}

/// The machine after the responses in `rs`, fed in order.
pub open spec fn logcosh_run(e: LogcoshEval, rs: Seq<u64>) -> LogcoshEval
    decreases rs.len(),
{
    if rs.len() == 0 {
        e
    } else {
        logcosh_run(logcosh_step(e, rs[0]), rs.skip(1))
    }
}

/// Symmetry at the root: the exact evaluator started on `-x` is the same
/// machine, state for state, as started on `x`, because `a = |x|` is taken
/// before any floating-point operation. Equal machines issue equal requests
/// and map equal responses to equal states, so any driver that answers a
/// request by its operands alone returns bit-equal results for `x` and `-x`.
pub proof fn lemma_logcosh_symmetric(x: u64)
    ensures
        logcosh_init(neg_bits64(x)) == logcosh_init(x),
{
    lemma_abs_neg64(x);
}

/// Symmetry over whole runs: fed any one sequence of responses, the
/// evaluations of `x` and of `-x` pass through the same states and, when
/// they finish, finish with the same pattern, bit for bit.
pub proof fn lemma_logcosh_run_symmetric(x: u64, rs: Seq<u64>)
    ensures
        logcosh_run(logcosh_init(neg_bits64(x)), rs) == logcosh_run(logcosh_init(x), rs),
{
    lemma_logcosh_symmetric(x);
}

/// The whole protocol of the exact evaluator, in one statement: on input
/// `x`, with `m`, `p`, `q`, `s`, `r` the responses to its five requests in
/// order, the machine asks exactly for `m = -2 * |x|`, `p = exp(m)`,
/// `q = log1p(p)`, `s = |x| + q`, `r = s - ln 2`, and finishes with exactly
/// `r`. The final pattern is determined by the responses, and `x` enters
/// only as `|x|`.
pub proof fn lemma_logcosh_protocol(x: u64, m: u64, p: u64, q: u64, s: u64, r: u64)
    ensures
        ({
            let e0 = logcosh_init(x);
            let e1 = logcosh_step(e0, m);
            let e2 = logcosh_step(e1, p);
            let e3 = logcosh_step(e2, q);
            let e4 = logcosh_step(e3, s);
            &&& logcosh_pending(e0) == Some(FloatOp64::Mul(NEG_TWO64, abs_bits64(x)))
            &&& logcosh_pending(e1) == Some(FloatOp64::Exp(m))
            &&& logcosh_pending(e2) == Some(FloatOp64::Ln1p(p))
            &&& logcosh_pending(e3) == Some(FloatOp64::Add(abs_bits64(x), q))
            &&& logcosh_pending(e4) == Some(FloatOp64::Sub(s, LN2_64))
            &&& logcosh_step(e4, r) == (LogcoshEval::Done { r })
        }),
{
}

/// Where an input falls: strictly above the large threshold, strictly below
/// the small threshold, or neither. NaN compares false against both
/// thresholds and lands in `General`, as does an input exactly at either
/// threshold.
pub open spec fn region_of64(x: u64) -> Region {
    if f_lt64(LARGE64, abs_bits64(x)) {
        Region::Large
    } else if f_lt64(abs_bits64(x), SMALL64) {
        Region::Small
    } else {
        Region::General
    }
}

/// Classifies the pattern `x` against the two thresholds.
pub fn classify64(x: u64) -> (r: Region)
    ensures
        r == region_of64(x),
{
    let a: u64 = float_abs64(x);
    if float_lt64(LARGE64, a) {
        Region::Large
    } else if float_lt64(a, SMALL64) {
        Region::Small
    } else {
        Region::General
    }
}

/// The region of an input depends on it only through `|x|`, so `x` and `-x`
/// always take the same branch of the approximation.
pub proof fn lemma_region_symmetric64(x: u64)
    ensures
        region_of64(neg_bits64(x)) == region_of64(x),
{
    lemma_abs_neg64(x);
}

/// The region dispatch is monotone in `|x|`: of two inputs that are not
/// NaN, if the first's magnitude is no larger, then whenever the larger one
/// is in the small region so is the smaller, and whenever the smaller one
/// is in the large region so is the larger. The growth of the evaluated
/// result itself is a property of the floating-point operations, outside
/// this model.
pub proof fn lemma_region_monotone64(x1: u64, x2: u64)
    requires
        !is_nan64(x1),
        !is_nan64(x2),
        abs_bits64(x1) <= abs_bits64(x2),
    ensures
        region_of64(x2) == Region::Small ==> region_of64(x1) == Region::Small,
        region_of64(x1) == Region::Large ==> region_of64(x2) == Region::Large,
{
    lemma_mag_idem64(x1);
    lemma_mag_idem64(x2);
    assert(SMALL64 & SIGN64 == 0 && SMALL64 & MAG64 == SMALL64) by (bit_vector);
    assert(LARGE64 & SIGN64 == 0 && LARGE64 & MAG64 == LARGE64) by (bit_vector);
}

/// The three-region approximation of `log cosh x`, as a step machine:
/// `|x| - ln 2` in the large region, `x * x / 2` in the small region, and
/// in the general region the very machine of the exact evaluator.
#[derive(Clone, Copy, Debug, PartialEq, Eq, Structural)]
pub enum ApproxEval {
    /// Large region: awaiting `r = a - ln 2` with `a = |x|`.
    AwaitShift { a: u64 },
    /// Small region: awaiting `sq = x * x`.
    AwaitSquare { x: u64 },
    /// Small region: awaiting `r = sq / 2`.
    AwaitHalf { sq: u64 },
    /// General region: the exact evaluator, run unchanged.
    Exact { inner: LogcoshEval },
    /// The final pattern.
    Done { r: u64 },
}

/// The state the approximation starts from on input `x`, by region.
pub open spec fn approx_init(x: u64) -> ApproxEval {
    match region_of64(x) {
        Region::Large => ApproxEval::AwaitShift { a: abs_bits64(x) },
        Region::Small => ApproxEval::AwaitSquare { x },
        Region::General => ApproxEval::Exact { inner: logcosh_init(x) },
    }
}

/// The operation an approximation state awaits, if it is not done.
pub open spec fn approx_pending(e: ApproxEval) -> Option<FloatOp64> {
    match e {
        ApproxEval::AwaitShift { a } => Some(FloatOp64::Sub(a, LN2_64)),
        ApproxEval::AwaitSquare { x } => Some(FloatOp64::Mul(x, x)),
        ApproxEval::AwaitHalf { sq } => Some(FloatOp64::Div(sq, TWO64)),
        ApproxEval::Exact { inner } => logcosh_pending(inner),
        ApproxEval::Done { r } => None,
    }
}

/// The approximation state after the awaited operation's result `r` comes
/// back. In the general region this is exactly a step of the exact
/// evaluator, carried to its end.
pub open spec fn approx_step(e: ApproxEval, r: u64) -> ApproxEval {
    match e {
        ApproxEval::AwaitShift { a } => ApproxEval::Done { r },
        ApproxEval::AwaitSquare { x } => ApproxEval::AwaitHalf { sq: r },
        ApproxEval::AwaitHalf { sq } => ApproxEval::Done { r },
        ApproxEval::Exact { inner } => ApproxEval::Exact { inner: logcosh_step(inner, r) },
        ApproxEval::Done { r: done } => ApproxEval::Done { r: done },
    }
}

/// Whether an approximation state is finished, with the final pattern.
pub open spec fn approx_result(e: ApproxEval) -> Option<u64> {
    match e {
        ApproxEval::Exact { inner } => match inner {
            LogcoshEval::Done { r } => Some(r),
            _ => None,
        },
        ApproxEval::Done { r } => Some(r),
        _ => None,
    }
}

/// Starts the approximate evaluator on the pattern `x`.
pub fn approx_logcosh_start(x: u64) -> (e: ApproxEval)
    ensures
        e == approx_init(x),
{
    match classify64(x) {
        Region::Large => ApproxEval::AwaitShift { a: float_abs64(x) },
        Region::Small => ApproxEval::AwaitSquare { x },
        Region::General => ApproxEval::Exact { inner: logcosh_start(x) },
    }
}

impl ApproxEval {
    /// The operation this state awaits; `None` exactly when it is done.
    pub fn pending(&self) -> (op: Option<FloatOp64>)
        ensures
            op == approx_pending(*self),
    {
        match self {
            ApproxEval::AwaitShift { a } => Some(FloatOp64::Sub(*a, LN2_64)),
            ApproxEval::AwaitSquare { x } => Some(FloatOp64::Mul(*x, *x)),
            ApproxEval::AwaitHalf { sq } => Some(FloatOp64::Div(*sq, TWO64)),
            ApproxEval::Exact { inner } => inner.pending(),
            ApproxEval::Done { r: _ } => None,
        }
    }

    /// Advances past the awaited operation, whose result is `r`.
    pub fn feed(self, r: u64) -> (next: ApproxEval)
        requires
            approx_pending(self) is Some,
        ensures
            next == approx_step(self, r),
    {
        match self {
            ApproxEval::AwaitShift { a: _ } => ApproxEval::Done { r },
            ApproxEval::AwaitSquare { x: _ } => ApproxEval::AwaitHalf { sq: r },
            ApproxEval::AwaitHalf { sq: _ } => ApproxEval::Done { r },
            ApproxEval::Exact { inner } => ApproxEval::Exact { inner: inner.feed(r) },
            ApproxEval::Done { r: done } => ApproxEval::Done { r: done },
        }
    }

    /// The final pattern, once the machine is done.
    pub fn result(&self) -> (r: Option<u64>)
        ensures
            r == approx_result(*self),
    {
        match self {
            ApproxEval::Exact { inner } => inner.result(),
            ApproxEval::Done { r } => Some(*r),
            _ => None,
        }
    }
}

/// The approximation machine after the responses in `rs`, fed in order.
pub open spec fn approx_run(e: ApproxEval, rs: Seq<u64>) -> ApproxEval
    decreases rs.len(),
{
    if rs.len() == 0 {
        e
    } else {
        approx_run(approx_step(e, rs[0]), rs.skip(1))
    }
}

/// Delegation over whole runs: a run of the delegating state is the run of
/// the exact evaluator inside it, state for state.
pub proof fn lemma_exact_run_delegates(inner: LogcoshEval, rs: Seq<u64>)
    ensures
        approx_run(ApproxEval::Exact { inner }, rs) == (ApproxEval::Exact {
            inner: logcosh_run(inner, rs),
        }),
    decreases rs.len(),
{
    if rs.len() != 0 {
        lemma_exact_run_delegates(logcosh_step(inner, rs[0]), rs.skip(1));
    }
}

/// Agreement on the general region, over whole runs: between the two
/// thresholds the approximation, fed any one sequence of responses, is at
/// every step the exact evaluator's machine on the same input, and when it
/// finishes it finishes with the same pattern, bit for bit.
pub proof fn lemma_approx_run_exact_on_general(x: u64, rs: Seq<u64>)
    ensures
        region_of64(x) == Region::General ==> approx_run(approx_init(x), rs) == (ApproxEval::Exact {
            inner: logcosh_run(logcosh_init(x), rs),
        }),
{
    if region_of64(x) == Region::General {
        lemma_exact_run_delegates(logcosh_init(x), rs);
    }
}

/// The whole protocol of the approximation in the outer regions: strictly
/// above the large threshold it asks for `r = |x| - ln 2` and finishes with
/// exactly `r`; strictly below the small threshold it asks for `sq = x * x`
/// and then `r = sq / 2`, and finishes with exactly `r`. No exponential and
/// no logarithm is ever requested there.
pub proof fn lemma_approx_outer_protocol(x: u64, sq: u64, r: u64)
    ensures
        region_of64(x) == Region::Large ==> ({
            let e0 = approx_init(x);
            &&& approx_pending(e0) == Some(FloatOp64::Sub(abs_bits64(x), LN2_64))
            &&& approx_step(e0, r) == (ApproxEval::Done { r })
        }),
        region_of64(x) == Region::Small ==> ({
            let e0 = approx_init(x);
            let e1 = approx_step(e0, sq);
            &&& approx_pending(e0) == Some(FloatOp64::Mul(x, x))
            &&& approx_pending(e1) == Some(FloatOp64::Div(sq, TWO64))
            &&& approx_step(e1, r) == (ApproxEval::Done { r })
        }),
{
}

} // verus!
