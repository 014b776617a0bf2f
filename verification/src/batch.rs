//! Batch-level validation: sample counts and sequence lengths.
use vstd::prelude::*;
use crate::error::WelchError;

verus! {

/// The lengths of the four accumulator sequences of a batch and the number of
/// draws behind each of its two samples.
#[derive(Clone, Copy, Debug, PartialEq, Eq, Structural)]
pub struct BatchShape {
    /// Length of the sequence of sums of sample 1.
    pub sum_1: usize,
    /// Length of the sequence of sums of squares of sample 1.
    pub sumsq_1: usize,
    /// Length of the sequence of sums of sample 2.
    pub sum_2: usize,
    /// Length of the sequence of sums of squares of sample 2.
    pub sumsq_2: usize,
    /// Number of draws accumulated in sample 1.
    pub draws_1: usize,
    /// Number of draws accumulated in sample 2.
    pub draws_2: usize,
}

impl BatchShape {
    /// Both samples hold at least two draws.
    pub open spec fn sizes_valid(self) -> bool {
        self.draws_1 > 1 && self.draws_2 > 1
    }

    /// All four sequences have one length.
    pub open spec fn lengths_agree(self) -> bool {
        self.sum_1 == self.sumsq_1 && self.sum_2 == self.sumsq_2 && self.sum_1 == self.sum_2
    }

    /// What validation answers: the common length, or the first reason to
    /// turn the batch away. A bad sample size is reported before a bad shape.
    pub open spec fn verdict(self) -> Result<usize, WelchError> {
        if !self.sizes_valid() {
            Err(WelchError::InvalidSampleSize)
        } else if !self.lengths_agree() {
            Err(WelchError::InputShapeMismatch)
        } else {
            Ok(self.sum_1)
        }
    }

    /// The same batch with the roles of the two samples exchanged.
    pub open spec fn swapped(self) -> BatchShape {
        BatchShape {
            sum_1: self.sum_2,
            sumsq_1: self.sumsq_2,
            sum_2: self.sum_1,
            sumsq_2: self.sumsq_1,
            draws_1: self.draws_2,
            draws_2: self.draws_1,
        }
    }

    /// Exchanges the two samples.
    pub fn swap(self) -> (r: BatchShape)
        ensures
            r == self.swapped(),
    {
        BatchShape {
            sum_1: self.sum_2,
            sumsq_1: self.sumsq_2,
            sum_2: self.sum_1,
            sumsq_2: self.sumsq_1,
            draws_1: self.draws_2,
            draws_2: self.draws_1,
        }
    }

    /// Decides once, before any per-element work, whether the batch can be
    /// compared. On success the result is the number of elements.
    pub fn validate(self) -> (r: Result<usize, WelchError>)
        ensures
            r == self.verdict(),
            r.is_ok() <==> self.sizes_valid() && self.lengths_agree(),
            r == Err::<usize, WelchError>(WelchError::InvalidSampleSize) <==> !self.sizes_valid(),
            r == Err::<usize, WelchError>(WelchError::InputShapeMismatch) <==> self.sizes_valid()
                && !self.lengths_agree(),
    {
        if self.draws_1 <= 1 || self.draws_2 <= 1 {
            Err(WelchError::InvalidSampleSize)
        } else if self.sum_1 != self.sumsq_1 || self.sum_2 != self.sumsq_2 || self.sum_1
            != self.sum_2 {
            Err(WelchError::InputShapeMismatch)
        } else {
            Ok(self.sum_1)
        }
    }
}

/// Validation does not depend on which sample is called the first: the
/// verdict on a batch and on the batch with its samples exchanged is the same.
pub proof fn lemma_validation_symmetric(shape: BatchShape)
    ensures
        shape.swapped().verdict() == shape.verdict(),
        shape.swapped().swapped() == shape,
{
}

} // verus!
