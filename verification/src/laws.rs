use vstd::prelude::*;

use vstd::arithmetic::div_mod::lemma_div_multiples_vanish;
use vstd::math::{max, min};

use crate::smoothing::{lemma_convex_combination_bounds, smoothed_at};

verus! {

/// With the maximal factor `den / den` (that is, one), smoothing changes
/// nothing: every smoothed value equals the sample at the same index.
pub proof fn lemma_alpha_one_is_identity(s: Seq<i64>, den: int, i: int)
    requires
        0 < den,
        0 <= i < s.len(),
    ensures
        smoothed_at(s, den, den, i) == s[i] as int,
    decreases i,
{
    if i > 0 {
        lemma_alpha_one_is_identity(s, den, i - 1);
        assert(den * (s[i] as int) + (den - den) * smoothed_at(s, den, den, i - 1) == den * (
        s[i] as int)) by (nonlinear_arith);
        lemma_div_multiples_vanish(s[i] as int, den);
    }
}

/// Each smoothed value is a convex combination: for every index past the
/// seed it lies between the previous smoothed value and the newest sample,
/// inclusive on both sides.
pub proof fn lemma_smoothing_is_convex(s: Seq<i64>, num: int, den: int, i: int)
    requires
        0 < num <= den,
        1 <= i < s.len(),
    ensures
        min(smoothed_at(s, num, den, i - 1), s[i] as int) <= smoothed_at(s, num, den, i),
        smoothed_at(s, num, den, i) <= max(smoothed_at(s, num, den, i - 1), s[i] as int),
{
    let prev = smoothed_at(s, num, den, i - 1);
    let cur = s[i] as int;
    lemma_convex_combination_bounds(num, den, prev, cur, min(prev, cur), max(prev, cur));
}

/// A constant series is a fixed point of the recurrence: whatever the
/// factor, every smoothed value equals the constant.
pub proof fn lemma_constant_series_is_fixed_point(s: Seq<i64>, c: i64, num: int, den: int, i: int)
    requires
        0 < num <= den,
        forall|j: int| 0 <= j < s.len() ==> #[trigger] s[j] == c,
        0 <= i < s.len(),
    ensures
        smoothed_at(s, num, den, i) == c as int,
    decreases i,
{
    if i > 0 {
        lemma_constant_series_is_fixed_point(s, c, num, den, i - 1);
        assert(num * (c as int) + (den - num) * (c as int) == den * (c as int))
            by (nonlinear_arith);
        lemma_div_multiples_vanish(c as int, den);
    }
}

} // verus!
