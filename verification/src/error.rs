//! Error types for interval construction and bound conversion.

use vstd::prelude::*;

verus! {

/// An error raised when an interval cannot be built from the given bounds.
#[derive(Debug, Clone, Copy, PartialEq, Eq, Structural)]
pub enum IntervalError {
    /// The left bound is greater than the right bound.
    InvalidBounds,
    /// No bound at all was supplied.
    EmptyInterval,
}

impl IntervalError {
    /// A short description of the error.
    pub fn message(&self) -> (r: &'static str)
        ensures
            (*self matches IntervalError::InvalidBounds) ==> r@
                == "invalid bounds: the left bound is greater than the right bound"@,
            (*self matches IntervalError::EmptyInterval) ==> r@ == "empty interval"@,
    {
        match self {
            IntervalError::InvalidBounds => {
                "invalid bounds: the left bound is greater than the right bound"
            },
            IntervalError::EmptyInterval => "empty interval",
        }
    }
}

/// An error raised when a bound of an interval cannot be extracted.
#[derive(Debug, Clone, Copy, PartialEq, Eq, Structural)]
pub enum ConversionError {
    /// The interval has no concrete bound on the requested side.
    NoConcreteBoundsError,
    /// The interval is degenerate and carries a single bound.
    SingleBoundError,
}

} // verus!
