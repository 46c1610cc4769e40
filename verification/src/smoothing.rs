use vstd::prelude::*;

use vstd::arithmetic::div_mod::{lemma_div_is_ordered, lemma_div_multiples_vanish};

use crate::alpha::Alpha;
use crate::intdiv::floor_div;
use crate::limits::{ALPHA_DEN_LIMIT, VALUE_LIMIT};

verus! {

/// Value at index `i` of the single-exponential smoothing of `s` with the
/// factor `num / den`: the seed value at index 0, and after that the convex
/// combination `(num * s[i] + (den - num) * previous) / den`, rounded down.
pub open spec fn smoothed_at(s: Seq<i64>, num: int, den: int, i: int) -> int
    decreases i,
{
    if i <= 0 {
        s[0] as int
    } else {
        (num * (s[i] as int) + (den - num) * smoothed_at(s, num, den, i - 1)) / den
    }
}

/// A convex combination `(num * cur + (den - num) * prev) / den` with
/// `0 < num <= den` stays inside any interval that holds both of its inputs,
/// and so does the exact numerator, scaled by `den`.
pub proof fn lemma_convex_combination_bounds(
    num: int,
    den: int,
    prev: int,
    cur: int,
    lo: int,
    hi: int,
)
    requires
        0 < num <= den,
        lo <= prev <= hi,
        lo <= cur <= hi,
    ensures
        den * lo <= num * cur + (den - num) * prev <= den * hi,
        lo <= (num * cur + (den - num) * prev) / den <= hi,
{
    assert(den * lo <= num * cur + (den - num) * prev) by (nonlinear_arith)
        requires
            0 < num <= den,
            lo <= prev,
            lo <= cur,
    ;
    assert(num * cur + (den - num) * prev <= den * hi) by (nonlinear_arith)
        requires
            0 < num <= den,
            prev <= hi,
            cur <= hi,
    ;
    lemma_div_is_ordered(den * lo, num * cur + (den - num) * prev, den);
    lemma_div_is_ordered(num * cur + (den - num) * prev, den * hi, den);
    lemma_div_multiples_vanish(lo, den);
    lemma_div_multiples_vanish(hi, den);
}

/// Single-exponential smoothing of `series` with factor `alpha`.
///
/// The result keeps the length of the input and its seed value, and each
/// later entry is the convex combination of the newest sample and the
/// previous smoothed value that [`smoothed_at`] states.
pub fn smooth(series: &Vec<i64>, alpha: Alpha) -> (out: Vec<i64>)
    requires
        series.len() >= 1,
        alpha.wf(),
        forall|i: int|
            0 <= i < series.len() ==> -VALUE_LIMIT <= #[trigger] series[i] <= VALUE_LIMIT,
    ensures
        out.len() == series.len(),
        out[0] == series[0],
        forall|i: int|
            #![trigger out[i]]
            0 <= i < out.len() ==> out[i] as int == smoothed_at(
                series@,
                alpha.num as int,
                alpha.den as int,
                i,
            ),
        forall|i: int| 0 <= i < out.len() ==> -VALUE_LIMIT <= #[trigger] out[i] <= VALUE_LIMIT,
{
    let ghost num: int = alpha.num as int;
    let ghost den: int = alpha.den as int;
    let num_c: i64 = alpha.num as i64;
    let den_c: i64 = alpha.den as i64;
    let mut out: Vec<i64> = Vec::new();
    out.push(series[0]);
    let mut k: usize = 1;
    while k < series.len()
        invariant
            series.len() >= 1,
            1 <= k <= series.len(),
            alpha.wf(),
            num == alpha.num as int,
            den == alpha.den as int,
            num_c as int == num,
            den_c as int == den,
            forall|i: int|
                0 <= i < series.len() ==> -VALUE_LIMIT <= #[trigger] series[i] <= VALUE_LIMIT,
            out.len() == k,
            forall|i: int|
                #![trigger out[i]]
                0 <= i < k ==> out[i] as int == smoothed_at(series@, num, den, i),
            forall|i: int| 0 <= i < k ==> -VALUE_LIMIT <= #[trigger] out[i] <= VALUE_LIMIT,
        decreases series.len() - k,
    {
        let prev: i64 = out[k - 1];
        let cur: i64 = series[k];
        proof {
            // The numerator and each of its two products stay within
            // den * VALUE_LIMIT of zero, which the last two assertions place
            // inside i64.
            lemma_convex_combination_bounds(
                num,
                den,
                prev as int,
                cur as int,
                -VALUE_LIMIT as int,
                VALUE_LIMIT as int,
            );
            lemma_convex_combination_bounds(num, den, 0, cur as int, -VALUE_LIMIT as int, VALUE_LIMIT as int);
            lemma_convex_combination_bounds(num, den, prev as int, 0, -VALUE_LIMIT as int, VALUE_LIMIT as int);
            assert(den * (VALUE_LIMIT as int) <= ALPHA_DEN_LIMIT as int * (VALUE_LIMIT as int))
                by (nonlinear_arith)
                requires
                    0 < den <= ALPHA_DEN_LIMIT as int,
            ;
            assert(den * (-VALUE_LIMIT as int) >= ALPHA_DEN_LIMIT as int * (-VALUE_LIMIT as int))
                by (nonlinear_arith)
                requires
                    0 < den <= ALPHA_DEN_LIMIT as int,
            ;
        }
        let numer: i64 = num_c * cur + (den_c - num_c) * prev;
        let val: i64 = floor_div(numer, den_c);
        out.push(val);
        k = k + 1;
    }
    out
}

} // verus!
