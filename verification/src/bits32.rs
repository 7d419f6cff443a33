//! The 32-bit IEEE-754 interchange format, seen through its bit patterns.
//!
//! The evaluators in this crate never perform floating-point arithmetic
//! themselves; they drive it from outside through requested operations.
//! What they do decide on their own — magnitudes, signs, NaN tests and
//! ordering against the region thresholds — is exact integer logic on the
//! bit patterns, implemented and specified here.
//!
//! A 32-bit value is sign (bit 31), exponent (bits 23..=30) and significand
//! (bits 0..=22). A pattern is NaN exactly when its magnitude (sign cleared)
//! exceeds the pattern of positive infinity, and for every non-NaN pattern
//! the magnitudes order the non-negative values the same way the reals are
//! ordered. Those two facts give exact bit-level definitions of `|x|`, `-x`,
//! `x == 0.0` and `x < y`.

use vstd::prelude::*;

verus! {

/// Mask of the sign bit.
pub const SIGN32: u32 = 0x8000_0000;
/// Mask of everything but the sign bit: the magnitude of the value.
pub const MAG32: u32 = 0x7fff_ffff;
/// The pattern of positive infinity: exponent all ones, significand zero.
pub const INF32: u32 = 0x7f80_0000;

/// The pattern of `ln 2` rounded to 32 bits (0.69314718… rounds to this).
pub const LN2_32: u32 = 0x3f31_7218;
/// The pattern of `2e-2` rounded to 32 bits: below this magnitude the
/// quadratic Taylor form of log cosh is accurate to working precision.
pub const SMALL32: u32 = 0x3ca3_d70a;
/// The pattern of `4.0`: above this magnitude the asymptotic form
/// `|x| - ln 2` is accurate to working precision.
pub const LARGE32: u32 = 0x4080_0000;
/// The pattern of `2.0`.
pub const TWO32: u32 = 0x4000_0000;
/// The pattern of `-2.0`.
pub const NEG_TWO32: u32 = 0xc000_0000;
/// The pattern of `1.0`.
pub const ONE32: u32 = 0x3f80_0000;
/// The pattern of `-1.0`.
pub const NEG_ONE32: u32 = 0xbf80_0000;

/// The magnitude of a pattern: the sign bit cleared. This is exactly the
/// pattern of the absolute value of the encoded number.
pub open spec fn abs_bits32(b: u32) -> u32 {
    b & MAG32
}

/// The pattern of the negated number: the sign bit flipped.
pub open spec fn neg_bits32(b: u32) -> u32 {
    b ^ SIGN32
}

/// Whether the sign bit is set.
pub open spec fn is_neg32(b: u32) -> bool {
    b & SIGN32 == SIGN32
}

/// A pattern encodes NaN exactly when its magnitude exceeds that of infinity.
pub open spec fn is_nan32(b: u32) -> bool {
    abs_bits32(b) > INF32
}

/// A signed key that orders non-NaN patterns as the encoded values are
/// ordered: magnitude, negated when the sign bit is set. Both zeros map
/// to 0, so `+0.0` and `-0.0` compare equal, as they must.
pub open spec fn fkey32(b: u32) -> int {
    if is_neg32(b) {
        -(abs_bits32(b) as int)
    } else {
        abs_bits32(b) as int
    }
}

/// The `<` comparison of the two encoded values: false whenever either
/// operand is NaN, otherwise the order of the keys.
pub open spec fn f_lt32(a: u32, b: u32) -> bool {
    &&& !is_nan32(a)
    &&& !is_nan32(b)
    &&& fkey32(a) < fkey32(b)
}

/// The `== 0.0` comparison: true exactly for the two zero patterns.
pub open spec fn f_eq_zero32(b: u32) -> bool {
    abs_bits32(b) == 0
}

/// The pattern `signum` returns for a value that is neither zero nor NaN:
/// `1.0` when the sign bit is clear, `-1.0` when it is set.
pub open spec fn signum_bits32(b: u32) -> u32 {
    if is_neg32(b) {
        NEG_ONE32
    } else {
        ONE32
    }
}

/// Absolute value, computed on the pattern.
pub fn float_abs32(b: u32) -> (r: u32)
    ensures
        r == abs_bits32(b),
{
    b & MAG32
}

/// Negation, computed on the pattern.
pub fn float_neg32(b: u32) -> (r: u32)
    ensures
        r == neg_bits32(b),
{
    b ^ SIGN32
}

/// NaN test, computed on the pattern.
pub fn float_is_nan32(b: u32) -> (r: bool)
    ensures
        r == is_nan32(b),
{
    (b & MAG32) > INF32
}

/// The `== 0.0` test, computed on the pattern.
pub fn float_eq_zero32(b: u32) -> (r: bool)
    ensures
        r == f_eq_zero32(b),
{
    (b & MAG32) == 0
}

/// The `<` comparison of two encoded values, computed on the patterns.
pub fn float_lt32(a: u32, b: u32) -> (r: bool)
    ensures
        r == f_lt32(a, b),
{
    if (a & MAG32) > INF32 || (b & MAG32) > INF32 {
        false
    } else {
        let am: u32 = a & MAG32;
        let bm: u32 = b & MAG32;
        let an: bool = (a & SIGN32) == SIGN32;
        let bn: bool = (b & SIGN32) == SIGN32;
        if an {
            if bn {
                bm < am
            } else {
                am != 0 || bm != 0
            }
        } else {
            if bn {
                false
            } else {
                am < bm
            }
        }
    }
}

/// Negation leaves the magnitude alone: `|-x|` and `|x|` are the same
/// pattern, bit for bit.
pub proof fn lemma_abs_neg32(b: u32)
    ensures
        abs_bits32(neg_bits32(b)) == abs_bits32(b),
{
    assert((b ^ SIGN32) & MAG32 == b & MAG32) by (bit_vector);
}

/// Clearing the sign bit is idempotent, so magnitude, NaN-ness and ordering
/// of a magnitude are those of the pattern it was taken from.
pub proof fn lemma_mag_idem32(b: u32)
    ensures
        abs_bits32(abs_bits32(b)) == abs_bits32(b),
        !is_neg32(abs_bits32(b)),
{
    assert((b & MAG32) & MAG32 == b & MAG32) by (bit_vector);
    assert((b & MAG32) & SIGN32 == 0) by (bit_vector);
}

} // verus!
