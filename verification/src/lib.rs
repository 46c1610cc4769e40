//! Random-walk time series and exponential smoothing over fixed-point values.
//!
//! A series is a non-empty `Vec<i64>` of fixed-point sample values; the scale
//! (how many units make one whole) is the caller's choice and never enters the
//! arithmetic. The generator accumulates a series from an initial value and a
//! sequence of increments; the smoother applies the single-exponential
//! recurrence with a rational smoothing factor, rounding each value down.

pub mod alpha;
pub mod generator;
pub mod intdiv;
pub mod laws;
pub mod limits;
pub mod smoothing;

pub use alpha::Alpha;
pub use generator::{checked_generate, generate, max_value};
pub use limits::{ALPHA_DEN_LIMIT, VALUE_LIMIT};
pub use smoothing::smooth;
