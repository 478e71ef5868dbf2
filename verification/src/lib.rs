//! Confidence-interval support library.
//!
//! The verified core covers the interval abstraction over partially ordered
//! types, the counting statistics behind proportion estimates, and the sample
//! counter used by quantile estimates.

pub mod error;
mod interval;
pub mod proportion;
pub mod quantile;

pub use error::IntervalError;
pub use interval::Bounded;
pub use interval::Interval;
pub use interval::Zeroed;
