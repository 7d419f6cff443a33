//! Numerically stable evaluation of `log(cosh(x))` for real and complex
//! scalars in 32- and 64-bit precision.
//!
//! Naive evaluation overflows for large `|x|` and cancels catastrophically
//! for small `|x|`. The stable identity is `log cosh x = |x| + log1p(e^(-2|x|))
//! - ln 2`, with a complex analogue that sign-normalizes by the real part;
//! a three-region dispatcher trades a sub-rounding error for skipping the
//! transcendental calls when `|x|` is far from the transition zone.
//!
//! The verifier does not model floating-point arithmetic, so each evaluator
//! is written as a step machine over IEEE-754 bit patterns: the machine makes
//! every decision — magnitudes, signs, region classification against the
//! thresholds, sign normalization — as verified integer logic on the
//! patterns, and requests each floating-point operation (a product, an
//! exponential, a logarithm) from its driver one at a time, by value. The
//! driver performs the operation and feeds the resulting pattern back. The
//! sequence of requested operations, their exact operands, and the final
//! result's dependence on the responses are all verified; only the float
//! arithmetic itself runs outside.

pub mod bits32;
pub mod bits64;
pub mod region;
pub mod real32;
pub mod complex32;
pub mod real64;
pub mod complex64;
