//! What is decided about one element of a batch.
//!
//! For each element the numeric kernel computes, in single precision, the two
//! unbiased sample variances and the pooled standard-error term
//! `var_1 / n_1 + var_2 / n_2`. From the bit patterns of these three values
//! this module decides whether the element can be compared. Where it can,
//! the Welch-Satterthwaite estimate of the degrees of freedom is rounded to
//! an integer; the last law of this module says when that integer leaves the
//! distribution function degenerate.
use vstd::prelude::*;
use crate::single::{
    exponent_field,
    finite,
    is_finite,
    is_nan,
    is_sign_negative,
    is_zero,
    lemma_half_rounds_up,
    lemma_small_rounds_to_zero,
    nan,
    nearest_i32,
    negative,
    zero,
};
use crate::student::{branch_of, CdfBranch};

verus! {

/// What can be done with one element.
#[derive(Clone, Copy, Debug, PartialEq, Eq, Structural)]
pub enum Verdict {
    /// A sample variance is negative or no number: the accumulators are
    /// inconsistent, which is a defect of the caller.
    Corrupt,
    /// The pooled term is zero or not finite: there is nothing to compare
    /// the difference of the means against.
    Undefined,
    /// The element has a p-value.
    Comparable,
}

/// The pattern stands for a number that is at least zero. A negative zero
/// counts as zero.
pub open spec fn non_negative(bits: u32) -> bool {
    !nan(bits) && (!negative(bits) || zero(bits))
}

/// The pattern stands for a finite number other than zero.
pub open spec fn usable(bits: u32) -> bool {
    finite(bits) && !zero(bits)
}

/// The verdict on an element with the given variances and pooled term.
pub open spec fn verdict_of(var_1: u32, var_2: u32, pooled: u32) -> Verdict {
    if !non_negative(var_1) || !non_negative(var_2) {
        Verdict::Corrupt
    } else if !usable(pooled) {
        Verdict::Undefined
    } else {
        Verdict::Comparable
    }
}

/// Tells whether the pattern stands for a number that is at least zero.
pub fn is_non_negative(bits: u32) -> (r: bool)
    ensures
        r == non_negative(bits),
{
    !is_nan(bits) && (!is_sign_negative(bits) || is_zero(bits))
}

/// Decides what can be done with one element, from the bit patterns of its
/// two sample variances and of its pooled term.
pub fn judge(var_1: u32, var_2: u32, pooled: u32) -> (r: Verdict)
    ensures
        r == verdict_of(var_1, var_2, pooled),
        r == Verdict::Corrupt <==> !non_negative(var_1) || !non_negative(var_2),
        r == Verdict::Comparable <==> non_negative(var_1) && non_negative(var_2) && finite(pooled)
            && !zero(pooled),
{
    if !is_non_negative(var_1) || !is_non_negative(var_2) {
        Verdict::Corrupt
    } else if is_zero(pooled) || !is_finite(pooled) {
        Verdict::Undefined
    } else {
        Verdict::Comparable
    }
}

/// The verdict does not depend on which sample is called the first.
pub proof fn lemma_verdict_symmetric(var_1: u32, var_2: u32, pooled: u32)
    ensures
        verdict_of(var_2, var_1, pooled) == verdict_of(var_1, var_2, pooled),
{
}

/// A pooled term of zero, of either sign, leaves an element with sound
/// variances undefined, and so does one that is infinite or no number.
pub proof fn lemma_degenerate_is_undefined(var_1: u32, var_2: u32, pooled: u32)
    requires
        non_negative(var_1),
        non_negative(var_2),
    ensures
        zero(pooled) ==> verdict_of(var_1, var_2, pooled) == Verdict::Undefined,
        !finite(pooled) ==> verdict_of(var_1, var_2, pooled) == Verdict::Undefined,
        pooled == 0 ==> verdict_of(var_1, var_2, pooled) == Verdict::Undefined,
{
}

/// The rounded estimate of the degrees of freedom selects the degenerate
/// branch of the distribution function exactly when the estimate is no
/// number, carries a negative sign, or is below one half.
pub proof fn lemma_degenerate_degrees(estimate: u32)
    ensures
        branch_of(nearest_i32(estimate)) == CdfBranch::Degenerate <==> nan(estimate) || negative(
            estimate,
        ) || exponent_field(estimate) < 126,
{
    if exponent_field(estimate) < 126 {
        lemma_small_rounds_to_zero(estimate);
    } else if finite(estimate) {
        lemma_half_rounds_up(estimate);
    }
}

} // verus!
