//! Uniformly distributed random integers from an inclusive range.
//!
//! `random_range(low, high)` draws from `[low, high]`, both ends included, for
//! every integer type, and refuses a range whose low end lies above its high
//! end before any randomness is used. `random_range_with` does the same with a
//! generator that the caller owns.

pub mod range;
pub mod sample_int;
pub mod source;

pub use range::{InvalidRange, random_range, random_range_with, value_of_outcome};
pub use sample_int::SampleInt;
pub use source::RandomSource;
