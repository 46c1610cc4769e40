use vstd::prelude::*;

verus! {

/// Largest magnitude a series value may have. Together with
/// [`ALPHA_DEN_LIMIT`] it keeps every intermediate product of the smoothing
/// recurrence inside `i64`.
pub const VALUE_LIMIT: i64 = 1_000_000_000_000;

/// Largest denominator a smoothing factor may have.
pub const ALPHA_DEN_LIMIT: u64 = 1_000_000;

} // verus!
