//! The three regions of the approximate evaluators.

use vstd::prelude::*;

verus! {

/// Where an input falls relative to the two thresholds.
///
/// `Large` means the asymptotic closed form `|x| - ln 2` is accurate,
/// `Small` means the quadratic Taylor form `x * x / 2` is accurate, and
/// `General` means neither and the exact evaluator must run. Both threshold
/// comparisons are strict, so an input exactly at a threshold — and any NaN,
/// which compares false against everything — is `General`.
#[derive(Clone, Copy, Debug, PartialEq, Eq, Structural)]
pub enum Region {
    Small,
    Large,
    General,
}

} // verus!
