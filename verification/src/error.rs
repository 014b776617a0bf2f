//! Errors that turn a whole batch away.
use vstd::prelude::*;

verus! {

/// Why a batch of moment accumulators cannot be compared at all.
#[derive(Clone, Copy, Debug, PartialEq, Eq, Structural)]
pub enum WelchError {
    /// One of the two samples holds a single draw or none, so it has no
    /// variance estimate.
    InvalidSampleSize,
    /// The four accumulator sequences are not all of one length.
    InputShapeMismatch,
}

} // verus!
