//! Aggregation of repeated-run wall-clock durations, in whole milliseconds,
//! into mean, minimum, maximum and standard deviation.
//!
//! Mean and standard deviation are reported in hundredths of a millisecond
//! (two fixed decimal places), rounded toward zero; an empty sample set
//! yields the explicit "not available" value rather than an error.

use vstd::arithmetic::div_mod::{lemma_div_is_ordered, lemma_div_multiples_vanish};
use vstd::prelude::*;

verus! {

/// Largest sample count the fixed-width accumulators accept.
pub const MAX_SAMPLES: usize = 0x100_0000;

/// Sum of a duration sequence.
pub open spec fn sum_of(s: Seq<u32>) -> int
    decreases s.len(),
{
    if s.len() == 0 {
        0
    } else {
        sum_of(s.drop_last()) + s.last()
    }
}

/// Sum of the squares of a duration sequence.
pub open spec fn sum_sq_of(s: Seq<u32>) -> int
    decreases s.len(),
{
    if s.len() == 0 {
        0
    } else {
        sum_sq_of(s.drop_last()) + s.last() * s.last()
    }
}

/// Least element of a non-empty duration sequence.
pub open spec fn min_of(s: Seq<u32>) -> int
    recommends
        s.len() > 0,
    decreases s.len(),
{
    if s.len() <= 1 {
        s[0] as int
    } else if s.last() < min_of(s.drop_last()) {
        s.last() as int
    } else {
        min_of(s.drop_last())
    }
}

/// Greatest element of a non-empty duration sequence.
pub open spec fn max_of(s: Seq<u32>) -> int
    recommends
        s.len() > 0,
    decreases s.len(),
{
    if s.len() <= 1 {
        s[0] as int
    } else if s.last() > max_of(s.drop_last()) {
        s.last() as int
    } else {
        max_of(s.drop_last())
    }
}

/// Arithmetic mean in hundredths of a unit, rounded toward zero.
pub open spec fn mean_centi_of(s: Seq<u32>) -> int
    recommends
        s.len() > 0,
{
    100 * sum_of(s) / (s.len() as int)
}

/// Numerator of the exact variance over the common denominator `len * len`:
/// `len * sum of squares - square of sum`.
pub open spec fn var_num_of(s: Seq<u32>) -> int {
    s.len() * sum_sq_of(s) - sum_of(s) * sum_of(s)
}

/// The variance scaled by `100 * 100`, rounded toward zero.  Its integer
/// square root is the standard deviation in hundredths of a unit.
pub open spec fn var_centi2_of(s: Seq<u32>) -> int
    recommends
        s.len() > 0,
{
    10000 * var_num_of(s) / ((s.len() as int) * (s.len() as int))
}

/// `r` is the integer square root of `x`.
pub open spec fn is_isqrt(x: int, r: int) -> bool {
    0 <= r && r * r <= x < (r + 1) * (r + 1)
}

/// The four summary statistics of a duration sample set.  An empty set has
/// no statistics, by convention rather than as an error.
#[derive(Clone, Copy, Debug, PartialEq, Eq, Structural)]
pub enum DurationStats {
    NotAvailable,
    Available { mean_centi: u64, min: u32, max: u32, sd_centi: u64 },
}

/// Every sample lies between `min_of` and `max_of`, and the sums stay within
/// the ranges the element type forces.
pub proof fn lemma_sum_bounds(s: Seq<u32>)
    requires
        s.len() > 0,
    ensures
        s.len() * min_of(s) <= sum_of(s) <= s.len() * max_of(s),
        0 <= min_of(s) <= max_of(s) <= u32::MAX,
        sum_of(s) <= s.len() * (u32::MAX as int),
        0 <= sum_of(s),
        sum_sq_of(s) <= s.len() * ((u32::MAX as int) * (u32::MAX as int)),
        0 <= sum_sq_of(s),
    decreases s.len(),
{
    if s.len() == 1 {
        assert(sum_of(s) == s[0] + sum_of(s.drop_last()));
        assert(sum_sq_of(s) == s[0] * s[0] + sum_sq_of(s.drop_last()));
        assert(s[0] * s[0] <= (u32::MAX as int) * (u32::MAX as int)) by (nonlinear_arith)
            requires 0 <= s[0] <= u32::MAX;
    } else {
        let t = s.drop_last();
        let x = s.last() as int;
        let n = t.len() as int;
        lemma_sum_bounds(t);
        assert(n * min_of(t) >= n * min_of(s)) by (nonlinear_arith)
            requires n >= 0, min_of(t) >= min_of(s);
        assert(n * max_of(t) <= n * max_of(s)) by (nonlinear_arith)
            requires n >= 0, max_of(t) <= max_of(s);
        assert(n * min_of(s) + min_of(s) == (n + 1) * min_of(s)) by (nonlinear_arith);
        assert(n * max_of(s) + max_of(s) == (n + 1) * max_of(s)) by (nonlinear_arith);
        assert(n * (u32::MAX as int) + (u32::MAX as int) == (n + 1) * (u32::MAX as int))
            by (nonlinear_arith);
        assert(x * x <= (u32::MAX as int) * (u32::MAX as int)) by (nonlinear_arith)
            requires 0 <= x <= u32::MAX;
        assert(0 <= x * x) by (nonlinear_arith);
        assert(n * ((u32::MAX as int) * (u32::MAX as int)) + (u32::MAX as int) * (u32::MAX as int)
            == (n + 1) * ((u32::MAX as int) * (u32::MAX as int))) by (nonlinear_arith);
    }
}

/// The variance numerator is never negative: `len` times the sum of squares
/// dominates the square of the sum.
pub proof fn lemma_var_num_nonneg(s: Seq<u32>)
    ensures
        var_num_of(s) >= 0,
    decreases s.len(),
{
    if s.len() == 0 {
    } else if s.len() == 1 {
        assert(sum_of(s) == s[0] + sum_of(s.drop_last()));
        assert(sum_sq_of(s) == s[0] * s[0] + sum_sq_of(s.drop_last()));
    } else {
        let t = s.drop_last();
        let x = s.last() as int;
        let n = t.len() as int;
        let q = sum_sq_of(t);
        let m = sum_of(t);
        lemma_var_num_nonneg(t);
        assert(n * q >= m * m);
        assert((n + 1) * (q + x * x) - (m + x) * (m + x) >= 0) by (nonlinear_arith)
            requires
                n >= 1,
                n * q >= m * m,
        ;
    }
}

/// The mean of a non-empty sample set lies between its minimum and its
/// maximum, inclusive, at the common hundredths scale.
pub proof fn lemma_mean_within_bounds(s: Seq<u32>)
    requires
        s.len() > 0,
    ensures
        100 * min_of(s) <= mean_centi_of(s) <= 100 * max_of(s),
{
    let n = s.len() as int;
    lemma_sum_bounds(s);
    assert(100 * (n * min_of(s)) <= 100 * sum_of(s) <= 100 * (n * max_of(s))) by (nonlinear_arith)
        requires
            n * min_of(s) <= sum_of(s) <= n * max_of(s),
    ;
    assert(100 * (n * min_of(s)) == n * (100 * min_of(s))) by (nonlinear_arith);
    assert(100 * (n * max_of(s)) == n * (100 * max_of(s))) by (nonlinear_arith);
    lemma_div_is_ordered(n * (100 * min_of(s)), 100 * sum_of(s), n);
    lemma_div_is_ordered(100 * sum_of(s), n * (100 * max_of(s)), n);
    lemma_div_multiples_vanish(100 * min_of(s), n);
    lemma_div_multiples_vanish(100 * max_of(s), n);
}

/// The scaled variance is never negative, so a standard deviation exists
/// for every non-empty sample set.
pub proof fn lemma_var_centi2_nonneg(s: Seq<u32>)
    requires
        s.len() > 0,
    ensures
        var_centi2_of(s) >= 0,
{
    let n = s.len() as int;
    lemma_var_num_nonneg(s);
    assert(n * n >= 1) by (nonlinear_arith)
        requires n >= 1;
    lemma_div_is_ordered(0, 10000 * var_num_of(s), n * n);
}

/// Integer square root by bisection.
pub fn isqrt128(x: u128) -> (r: u128)
    ensures
        is_isqrt(x as int, r as int),
{
    let mut lo: u128 = 0;
    let mut hi: u128 = 0x1_0000_0000_0000_0000;
    assert((hi as int) * (hi as int) > x as int) by (nonlinear_arith)
        requires hi == 0x1_0000_0000_0000_0000u128, x <= u128::MAX;
    while lo + 1 < hi
        invariant
            lo < hi <= 0x1_0000_0000_0000_0000u128,
            (lo as int) * (lo as int) <= x as int,
            (x as int) < (hi as int) * (hi as int),
        decreases hi - lo,
    {
        let mid = lo + (hi - lo) / 2;
        assert(lo < mid < hi);
        assert((mid as int) * (mid as int) <= u128::MAX as int) by (nonlinear_arith)
            requires mid < 0x1_0000_0000_0000_0000u128;
        if mid * mid <= x {
            lo = mid;
        } else {
            hi = mid;
        }
    }
    lo
}

/// Aggregates a set of millisecond durations.  An empty set reports "not
/// available"; a non-empty set reports the exact minimum and maximum, the
/// mean in hundredths rounded toward zero, and the integer square root of
/// the scaled variance as the standard deviation in hundredths.
pub fn duration_stats(samples: &Vec<u32>) -> (r: DurationStats)
    requires
        samples@.len() <= MAX_SAMPLES,
    ensures
        r is NotAvailable <==> samples@.len() == 0,
        samples@.len() > 0 ==> (r matches DurationStats::Available { mean_centi, min, max, sd_centi }
            && mean_centi == mean_centi_of(samples@)
            && min == min_of(samples@)
            && max == max_of(samples@)
            && is_isqrt(var_centi2_of(samples@), sd_centi as int)),
{
    let n = samples.len();
    if n == 0 {
        return DurationStats::NotAvailable;
    }
    let v0 = samples[0];
    proof {
        assert((v0 as int) * (v0 as int) <= (u32::MAX as int) * (u32::MAX as int))
            by (nonlinear_arith)
            requires 0 <= v0 <= u32::MAX;
    }
    let mut sum: u64 = v0 as u64;
    let mut sumsq: u128 = (v0 as u64 * v0 as u64) as u128;
    let mut mn: u32 = v0;
    let mut mx: u32 = v0;
    let mut i: usize = 1;
    proof {
        let s1 = samples@.subrange(0, 1);
        assert(s1.len() == 1);
        assert(s1.last() == samples@[0]);
        assert(s1.drop_last() =~= Seq::<u32>::empty());
        assert(sum_of(s1.drop_last()) == 0);
        assert(sum_sq_of(s1.drop_last()) == 0);
        assert(sum_of(s1) == samples@[0]);
        assert(sum_sq_of(s1) == samples@[0] * samples@[0]);
        assert(min_of(s1) == samples@[0]);
        assert(max_of(s1) == samples@[0]);
    }
    while i < n
        invariant
            1 <= i <= n == samples@.len() <= MAX_SAMPLES,
            sum == sum_of(samples@.subrange(0, i as int)),
            sum <= i * (u32::MAX as int),
            sumsq == sum_sq_of(samples@.subrange(0, i as int)),
            sumsq <= i * ((u32::MAX as int) * (u32::MAX as int)),
            mn == min_of(samples@.subrange(0, i as int)),
            mx == max_of(samples@.subrange(0, i as int)),
        decreases n - i,
    {
        let v = samples[i];
        proof {
            let pre = samples@.subrange(0, i as int);
            let post = samples@.subrange(0, i as int + 1);
            assert(post.drop_last() =~= pre);
            assert(post.last() == samples@[i as int]);
            assert((v as int) * (v as int) <= (u32::MAX as int) * (u32::MAX as int))
                by (nonlinear_arith)
                requires 0 <= v <= u32::MAX;
        }
        sum = sum + v as u64;
        sumsq = sumsq + (v as u64 * v as u64) as u128;
        if v < mn {
            mn = v;
        }
        if v > mx {
            mx = v;
        }
        i = i + 1;
    }
    proof {
        assert(samples@.subrange(0, n as int) =~= samples@);
    }
    let ghost s = samples@;
    let mean: u64 = (100 * sum) / (n as u64);
    proof {
        lemma_sum_bounds(s);
        assert(mean as int == mean_centi_of(s)) by {
            assert(100 * sum as int == 100 * sum_of(s));
        }
        lemma_var_num_nonneg(s);
        assert((n as int) * (sumsq as int) <= (0x1000000int * 0x1000000int) * ((u32::MAX as int)
            * (u32::MAX as int))) by (nonlinear_arith)
            requires
                sumsq <= (n as int) * ((u32::MAX as int) * (u32::MAX as int)),
                0 <= n as int <= 0x1000000int,
        ;
        assert((sum as int) * (sum as int) <= (0x1000000int * (u32::MAX as int)) * (0x1000000int
            * (u32::MAX as int))) by (nonlinear_arith)
            requires 0 <= sum as int <= 0x1000000int * (u32::MAX as int);
        assert((n as int) * (sumsq as int) - (sum as int) * (sum as int) == var_num_of(s));
    }
    let a: u128 = (n as u128) * sumsq - (sum as u128) * (sum as u128);
    proof {
        assert(a as int == var_num_of(s));
    }
    let scaled: u128 = 10000u128 * a;
    proof {
        assert((n as int) * (n as int) <= 0x1000000int * 0x1000000int) by (nonlinear_arith)
            requires 0 <= n as int <= 0x1000000int;
    }
    let denom: u128 = (n as u128) * (n as u128);
    proof {
        assert(denom as int == (n as int) * (n as int) >= 1) by (nonlinear_arith)
            requires 1 <= n as int, denom as int == (n as int) * (n as int);
    }
    let v2: u128 = scaled / denom;
    proof {
        assert(v2 as int == var_centi2_of(s));
    }
    let sd128 = isqrt128(v2);
    proof {
        assert((sd128 as int) < 0x1_0000_0000_0000_0000) by (nonlinear_arith)
            requires
                (sd128 as int) * (sd128 as int) <= v2 as int,
                v2 as int <= u128::MAX,
                0 <= sd128 as int,
        ;
    }
    let sd: u64 = sd128 as u64;
    DurationStats::Available { mean_centi: mean, min: mn, max: mx, sd_centi: sd }
}

} // verus!
