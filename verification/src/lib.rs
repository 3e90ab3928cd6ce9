//! A streaming exponentially weighted moving average (EWMA) with fading
//! local minimum/maximum bounds.
//!
//! Each filter tracks one series of samples. Pushing a sample updates the
//! average by a fixed fractional weight and lets the min/max envelope
//! either snap outward to a genuinely new extreme or fade gradually back
//! toward the average, so the envelope describes the recent typical range
//! rather than the all-time extremes.
//!
//! The integer engine here represents the weight as a
//! `numerator / denominator` ratio and multiplies before dividing, so it
//! needs no floating-point arithmetic at all.

pub mod arith;
pub mod filter;
pub mod laws;

pub use filter::EwmaFilter;
pub use filter::IntSeriesEwmaFilter;
