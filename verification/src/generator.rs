use vstd::prelude::*;

use crate::limits::VALUE_LIMIT;

verus! {

/// Value at index `i` of the random walk that starts at `init` and adds the
/// increments of `steps` one by one: `init` plus the sum of the first `i`
/// increments.
pub open spec fn walk_at(init: i64, steps: Seq<i64>, i: int) -> int
    decreases i,
{
    if i <= 0 {
        init as int
    } else {
        walk_at(init, steps, i - 1) + steps[i - 1] as int
    }
}

/// Every value of the walk over `steps` from `init`, indices `0` through
/// `steps.len()`, stays within [`VALUE_LIMIT`].
pub open spec fn walk_in_bounds(init: i64, steps: Seq<i64>) -> bool {
    forall|i: int|
        0 <= i <= steps.len() ==> -VALUE_LIMIT <= #[trigger] walk_at(init, steps, i) <= VALUE_LIMIT
}

/// Accumulates the random walk over `steps` from the initial value: the
/// result starts with `init_value` and each later entry adds the next
/// increment to the one before it.
pub fn generate(init_value: i64, steps: &Vec<i64>) -> (out: Vec<i64>)
    requires
        walk_in_bounds(init_value, steps@),
    ensures
        out.len() == steps.len() + 1,
        out[0] == init_value,
        forall|i: int|
            #![trigger out[i]]
            0 <= i <= steps.len() ==> out[i] as int == walk_at(init_value, steps@, i),
        forall|i: int|
            0 <= i < steps.len() ==> out[i + 1] as int == #[trigger] out[i] as int
                + steps[i] as int,
        forall|i: int| 0 <= i < out.len() ==> -VALUE_LIMIT <= #[trigger] out[i] <= VALUE_LIMIT,
{
    let mut out: Vec<i64> = Vec::new();
    out.push(init_value);
    let mut k: usize = 0;
    while k < steps.len()
        invariant
            walk_in_bounds(init_value, steps@),
            0 <= k <= steps.len(),
            out.len() == k + 1,
            forall|i: int|
                #![trigger out[i]]
                0 <= i <= k ==> out[i] as int == walk_at(init_value, steps@, i),
        decreases steps.len() - k,
    {
        let prev: i64 = out[k];
        proof {
            assert(-VALUE_LIMIT <= walk_at(init_value, steps@, k + 1) <= VALUE_LIMIT);
        }
        let next: i64 = prev + steps[k];
        out.push(next);
        k = k + 1;
    }
    out
}

/// Like [`generate`], but checks the bound as it goes: returns the walk
/// exactly when every value of it stays within [`VALUE_LIMIT`], and `None`
/// as soon as one would leave that range.
pub fn checked_generate(init_value: i64, steps: &Vec<i64>) -> (out: Option<Vec<i64>>)
    ensures
        match out {
            Some(o) => walk_in_bounds(init_value, steps@) && o.len() == steps.len() + 1
                && o[0] == init_value && forall|i: int|
                #![trigger o[i]]
                0 <= i <= steps.len() ==> o[i] as int == walk_at(init_value, steps@, i),
            None => !walk_in_bounds(init_value, steps@),
        },
{
    if init_value < -VALUE_LIMIT || init_value > VALUE_LIMIT {
        proof {
            assert(walk_at(init_value, steps@, 0) == init_value as int);
        }
        return None;
    }
    let mut out: Vec<i64> = Vec::new();
    out.push(init_value);
    let mut k: usize = 0;
    while k < steps.len()
        invariant
            0 <= k <= steps.len(),
            out.len() == k + 1,
            forall|i: int|
                #![trigger out[i]]
                0 <= i <= k ==> out[i] as int == walk_at(init_value, steps@, i),
            forall|i: int| 0 <= i < out.len() ==> -VALUE_LIMIT <= #[trigger] out[i] <= VALUE_LIMIT,
        decreases steps.len() - k,
    {
        let prev: i64 = out[k];
        let step: i64 = steps[k];
        if step > 0 && prev > VALUE_LIMIT - step {
            proof {
                assert(walk_at(init_value, steps@, k + 1) > VALUE_LIMIT);
            }
            return None;
        }
        if step < 0 && prev < -VALUE_LIMIT - step {
            proof {
                assert(walk_at(init_value, steps@, k + 1) < -VALUE_LIMIT);
            }
            return None;
        }
        let next: i64 = prev + step;
        out.push(next);
        k = k + 1;
    }
    proof {
        assert forall|i: int|
            0 <= i <= steps@.len() implies -VALUE_LIMIT <= #[trigger] walk_at(
            init_value,
            steps@,
            i,
        ) <= VALUE_LIMIT by {
            assert(out[i] as int == walk_at(init_value, steps@, i));
            assert(-VALUE_LIMIT <= out[i] <= VALUE_LIMIT);
        };
    }
    Some(out)
}

/// Largest value of a non-empty series: an upper bound that the series
/// itself attains.
pub fn max_value(series: &Vec<i64>) -> (m: i64)
    requires
        series.len() >= 1,
    ensures
        forall|i: int| 0 <= i < series.len() ==> #[trigger] series[i] <= m,
        exists|i: int| 0 <= i < series.len() && m == series[i],
{
    let mut m: i64 = series[0];
    let mut k: usize = 1;
    while k < series.len()
        invariant
            1 <= k <= series.len(),
            forall|i: int| 0 <= i < k ==> #[trigger] series[i] <= m,
            exists|i: int| 0 <= i < k && m == series[i],
        decreases series.len() - k,
    {
        if series[k] > m {
            m = series[k];
        }
        k = k + 1;
    }
    m
}

} // verus!
