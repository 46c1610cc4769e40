use vstd::prelude::*;

use vstd::arithmetic::div_mod::{
    lemma_div_is_ordered_by_denominator, lemma_div_nonincreasing, lemma_fundamental_div_mod,
    lemma_fundamental_div_mod_converse_div,
};

verus! {

/// Quotient of `n / d` rounded toward negative infinity. For a positive
/// divisor this is exactly the mathematical (Euclidean) quotient, the one
/// spec-mode `/` denotes, so the contract needs no rounding clause.
pub fn floor_div(n: i64, d: i64) -> (q: i64)
    requires
        0 < d,
        i64::MIN < n,
    ensures
        q as int == n as int / d as int,
{
    if n >= 0 {
        let qu: u64 = (n as u64) / (d as u64);
        proof {
            lemma_div_nonincreasing(n as int, d as int);
        }
        qu as i64
    } else {
        let m: u64 = (-n) as u64;
        let du: u64 = d as u64;
        let qu: u64 = m / du;
        let rem: u64 = m % du;
        proof {
            lemma_fundamental_div_mod(m as int, du as int);
            lemma_div_nonincreasing(m as int, du as int);
        }
        if rem == 0 {
            proof {
                assert(n as int == (-(qu as int)) * (d as int) + 0) by (nonlinear_arith)
                    requires
                        m as int == (du as int) * (qu as int) + rem as int,
                        rem == 0,
                        n as int == -(m as int),
                        d == du,
                ;
                lemma_fundamental_div_mod_converse_div(
                    n as int,
                    d as int,
                    -(qu as int),
                    0,
                );
            }
            -(qu as i64)
        } else {
            proof {
                lemma_div_is_ordered_by_denominator(m as int, 2, du as int);
                assert(n as int == (-(qu as int) - 1) * (d as int) + (d as int - rem as int))
                    by (nonlinear_arith)
                    requires
                        m as int == (du as int) * (qu as int) + rem as int,
                        n as int == -(m as int),
                        d == du,
                ;
                lemma_fundamental_div_mod_converse_div(
                    n as int,
                    d as int,
                    -(qu as int) - 1,
                    d as int - rem as int,
                );
            }
            -((qu as i64) + 1)
        }
    }
}

} // verus!
