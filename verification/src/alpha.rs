use vstd::prelude::*;

use crate::limits::ALPHA_DEN_LIMIT;

verus! {

/// A smoothing factor, held exactly as the rational `num / den`.
///
/// A well-formed factor lies in the half-open interval `(0, 1]`:
/// `0 < num <= den`. The denominator is capped so that the smoothing
/// recurrence never leaves `i64`.
#[derive(Clone, Copy, Debug, PartialEq, Eq, Structural)]
pub struct Alpha {
    pub num: u64,
    pub den: u64,
}

impl Alpha {
    /// The factor lies in `(0, 1]` and its denominator is within bounds.
    pub open spec fn wf(self) -> bool {
        0 < self.num <= self.den <= ALPHA_DEN_LIMIT as int
    }

    /// Builds `num / den`, rejecting anything outside `(0, 1]` or over the
    /// denominator cap.
    pub fn new(num: u64, den: u64) -> (result: Option<Alpha>)
        ensures
            match result {
                Some(a) => a.num == num && a.den == den && a.wf(),
                None => !(0 < num <= den <= ALPHA_DEN_LIMIT),
            },
    {
        if 0 < num && num <= den && den <= ALPHA_DEN_LIMIT {
            Some(Alpha { num, den })
        } else {
            None
        }
    }

    /// The conventional default for a series of `len` samples:
    /// `2 / (len + 1)`, the factor whose smoothing span matches an
    /// `len`-period moving average.
    pub fn for_len(len: usize) -> (result: Alpha)
        requires
            1 <= len,
            len < ALPHA_DEN_LIMIT as int,
        ensures
            result.num == 2,
            result.den == len + 1,
            result.wf(),
    {
        Alpha { num: 2, den: len as u64 + 1 }
    }
}

} // verus!
