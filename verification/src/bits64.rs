//! The 64-bit IEEE-754 interchange format, seen through its bit patterns.
//!
//! The evaluators in this crate never perform floating-point arithmetic
//! themselves; they drive it from outside through requested operations.
//! What they do decide on their own — magnitudes, signs, NaN tests and
//! ordering against the region thresholds — is exact integer logic on the
//! bit patterns, implemented and specified here.
//!
//! A 64-bit value is sign (bit 63), exponent (bits 52..=62) and significand
//! (bits 0..=51). A pattern is NaN exactly when its magnitude (sign cleared)
//! exceeds the pattern of positive infinity, and for every non-NaN pattern
//! the magnitudes order the non-negative values the same way the reals are
//! ordered. Those two facts give exact bit-level definitions of `|x|`, `-x`,
//! `x == 0.0` and `x < y`.

use vstd::prelude::*;

verus! {

/// Mask of the sign bit.
pub const SIGN64: u64 = 0x8000_0000_0000_0000;
/// Mask of everything but the sign bit: the magnitude of the value.
pub const MAG64: u64 = 0x7fff_ffff_ffff_ffff;
/// The pattern of positive infinity: exponent all ones, significand zero.
pub const INF64: u64 = 0x7ff0_0000_0000_0000;

/// The pattern of `ln 2` rounded to 64 bits.
pub const LN2_64: u64 = 0x3fe6_2e42_fefa_39ef;
/// The pattern of `2e-2` rounded to 64 bits: below this magnitude the
/// quadratic Taylor form of log cosh is used. The thresholds are the same
/// fixed constants in either width; their error bounds were validated at
/// single precision, so at double precision the outer forms may fall short
/// of full working precision.
pub const SMALL64: u64 = 0x3f94_7ae1_47ae_147b;
/// The pattern of `4.0`: above this magnitude the asymptotic form
/// `|x| - ln 2` is used (see [`SMALL64`] on the choice of thresholds).
pub const LARGE64: u64 = 0x4010_0000_0000_0000;
/// The pattern of `2.0`.
pub const TWO64: u64 = 0x4000_0000_0000_0000;
/// The pattern of `-2.0`.
pub const NEG_TWO64: u64 = 0xc000_0000_0000_0000;
/// The pattern of `1.0`.
pub const ONE64: u64 = 0x3ff0_0000_0000_0000;
/// The pattern of `-1.0`.
pub const NEG_ONE64: u64 = 0xbff0_0000_0000_0000;

/// The magnitude of a pattern: the sign bit cleared. This is exactly the
/// pattern of the absolute value of the encoded number.
pub open spec fn abs_bits64(b: u64) -> u64 {
    b & MAG64
}

/// The pattern of the negated number: the sign bit flipped.
pub open spec fn neg_bits64(b: u64) -> u64 {
    b ^ SIGN64
}

/// Whether the sign bit is set.
pub open spec fn is_neg64(b: u64) -> bool {
    b & SIGN64 == SIGN64
}

/// A pattern encodes NaN exactly when its magnitude exceeds that of infinity.
pub open spec fn is_nan64(b: u64) -> bool {
    abs_bits64(b) > INF64
}

/// A signed key that orders non-NaN patterns as the encoded values are
/// ordered: magnitude, negated when the sign bit is set. Both zeros map
/// to 0, so `+0.0` and `-0.0` compare equal, as they must.
pub open spec fn fkey64(b: u64) -> int {
    if is_neg64(b) {
        -(abs_bits64(b) as int)
    } else {
        abs_bits64(b) as int
    }
}

/// The `<` comparison of the two encoded values: false whenever either
/// operand is NaN, otherwise the order of the keys.
pub open spec fn f_lt64(a: u64, b: u64) -> bool {
    &&& !is_nan64(a)
    &&& !is_nan64(b)
    &&& fkey64(a) < fkey64(b)
}

/// The `== 0.0` comparison: true exactly for the two zero patterns.
pub open spec fn f_eq_zero64(b: u64) -> bool {
    abs_bits64(b) == 0
}

/// The pattern `signum` returns for a value that is neither zero nor NaN:
/// `1.0` when the sign bit is clear, `-1.0` when it is set.
pub open spec fn signum_bits64(b: u64) -> u64 {
    if is_neg64(b) {
        NEG_ONE64
    } else {
        ONE64
    }
}

/// Absolute value, computed on the pattern.
pub fn float_abs64(b: u64) -> (r: u64)
    ensures
        r == abs_bits64(b),
{
    b & MAG64
}

/// Negation, computed on the pattern.
pub fn float_neg64(b: u64) -> (r: u64)
    ensures
        r == neg_bits64(b),
{
    b ^ SIGN64
}

/// NaN test, computed on the pattern.
pub fn float_is_nan64(b: u64) -> (r: bool)
    ensures
        r == is_nan64(b),
{
    (b & MAG64) > INF64
}

/// The `== 0.0` test, computed on the pattern.
pub fn float_eq_zero64(b: u64) -> (r: bool)
    ensures
        r == f_eq_zero64(b),
{
    (b & MAG64) == 0
}

/// The `<` comparison of two encoded values, computed on the patterns.
pub fn float_lt64(a: u64, b: u64) -> (r: bool)
    ensures
        r == f_lt64(a, b),
{
    if (a & MAG64) > INF64 || (b & MAG64) > INF64 {
        false
    } else {
        let am: u64 = a & MAG64;
        let bm: u64 = b & MAG64;
        let an: bool = (a & SIGN64) == SIGN64;
        let bn: bool = (b & SIGN64) == SIGN64;
        if an {
            if bn {
                bm < am
            } else {
                am != 0 || bm != 0
            }
        } else {
            if bn {
                false
            } else {
                am < bm
            }
        }
    }
}

/// Negation leaves the magnitude alone: `|-x|` and `|x|` are the same
/// pattern, bit for bit.
pub proof fn lemma_abs_neg64(b: u64)
    ensures
        abs_bits64(neg_bits64(b)) == abs_bits64(b),
{
    assert((b ^ SIGN64) & MAG64 == b & MAG64) by (bit_vector);
}

/// Clearing the sign bit is idempotent, so magnitude, NaN-ness and ordering
/// of a magnitude are those of the pattern it was taken from.
pub proof fn lemma_mag_idem64(b: u64)
    ensures
        abs_bits64(abs_bits64(b)) == abs_bits64(b),
        !is_neg64(abs_bits64(b)),
{
    assert((b & MAG64) & MAG64 == b & MAG64) by (bit_vector);
    assert((b & MAG64) & SIGN64 == 0) by (bit_vector);
}

} // verus!
