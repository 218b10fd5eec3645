//! Aggregation of duration samples into summary statistics.
//!
//! A duration sample is an elapsed time in nanoseconds. A non-empty sequence
//! of samples reduces to its total, arithmetic mean, minimum and maximum;
//! throughput is the rational `count / total-in-seconds`, kept here as exact
//! integers so that every claim about it is machine-checked.

use vstd::prelude::*;

verus! {

/// Sum of a sequence of duration samples, in nanoseconds.
pub open spec fn sum_nanos(s: Seq<u64>) -> int
    decreases s.len(),
{
    if s.len() == 0 {
        0
    } else {
        sum_nanos(s.drop_last()) + s.last()
    }
}

/// Smallest sample of a non-empty sequence.
pub open spec fn min_sample(s: Seq<u64>) -> int
    decreases s.len(),
{
    if s.len() <= 1 {
        s[0] as int
    } else if s.last() < min_sample(s.drop_last()) {
        s.last() as int
    } else {
        min_sample(s.drop_last())
    }
}

/// Largest sample of a non-empty sequence.
pub open spec fn max_sample(s: Seq<u64>) -> int
    decreases s.len(),
{
    if s.len() <= 1 {
        s[0] as int
    } else if s.last() > max_sample(s.drop_last()) {
        s.last() as int
    } else {
        max_sample(s.drop_last())
    }
}

/// Aggregated statistics of one benchmark run. All times are nanoseconds.
/// Throughput is recoverable exactly from `count` and `total_nanos`.
pub struct BenchmarkStats {
    pub count: usize,
    pub total_nanos: u128,
    pub avg_nanos: u64,
    pub min_nanos: u64,
    pub max_nanos: u64,
}

impl BenchmarkStats {
    /// The statistics faithfully summarise the sample sequence `s`.
    pub open spec fn summarises(self, s: Seq<u64>) -> bool {
        &&& self.count == s.len()
        &&& s.len() > 0
        &&& self.total_nanos as int == sum_nanos(s)
        &&& self.avg_nanos as int == sum_nanos(s) / s.len() as int
        &&& self.min_nanos as int == min_sample(s)
        &&& self.max_nanos as int == max_sample(s)
    }

    /// Reduce a non-empty sequence of duration samples to its statistics.
    pub fn new(durations: &Vec<u64>) -> (r: BenchmarkStats)
        requires
            durations@.len() > 0,
        ensures
            r.summarises(durations@),
    {
        let ghost s = durations@;
        let mut total: u128 = durations[0] as u128;
        let mut min: u64 = durations[0];
        let mut max: u64 = durations[0];
        let mut i: usize = 1;
        proof {
            let s1 = s.take(1);
            assert(s1.drop_last() =~= Seq::<u64>::empty());
            assert(sum_nanos(s1.drop_last()) == 0);
            assert(s1.last() == s[0]);
            assert(sum_nanos(s1) == s[0]);
            assert(min_sample(s1) == s[0]);
            assert(max_sample(s1) == s[0]);
        }
        while i < durations.len()
            invariant
                1 <= i <= s.len(),
                s == durations@,
                s.len() > 0,
                total as int == sum_nanos(s.take(i as int)),
                min as int == min_sample(s.take(i as int)),
                max as int == max_sample(s.take(i as int)),
            decreases s.len() - i,
        {
            let d: u64 = durations[i];
            proof {
                assert(s.take(i + 1).drop_last() =~= s.take(i as int));
                assert(s.take(i + 1).last() == s[i as int]);
                lemma_sum_le_len_times_max(s.take(i as int));
                assert(sum_nanos(s.take(i as int)) + d < u128::MAX) by {
                    assert(s.take(i as int).len() * (u64::MAX as int) + u64::MAX
                        < u128::MAX) by (nonlinear_arith)
                        requires s.take(i as int).len() <= usize::MAX;
                }
            }
            total = total + d as u128;
            if d < min {
                min = d;
            }
            if d > max {
                max = d;
            }
            i = i + 1;
        }
        proof {
            assert(s.take(s.len() as int) =~= s);
            lemma_mean_in_range(s);
        }
        let avg: u64 = (total / (durations.len() as u128)) as u64;
        BenchmarkStats { count: durations.len(), total_nanos: total, avg_nanos: avg, min_nanos: min, max_nanos: max }
    }
}

/// Every sample lies between the minimum and the maximum.
pub proof fn lemma_samples_in_range(s: Seq<u64>, i: int)
    requires
        0 <= i < s.len(),
    ensures
        min_sample(s) <= s[i] <= max_sample(s),
    decreases s.len(),
{
    if s.len() > 1 {
        if i < s.len() - 1 {
            lemma_samples_in_range(s.drop_last(), i);
        }
    }
}

/// The sum of a sequence is at most its length times its largest sample,
/// and at least its length times its smallest sample.
pub proof fn lemma_sum_bounds(s: Seq<u64>)
    requires
        s.len() > 0,
    ensures
        s.len() * min_sample(s) <= sum_nanos(s) <= s.len() * max_sample(s),
    decreases s.len(),
{
    if s.len() == 1 {
        assert(s.drop_last() =~= Seq::<u64>::empty());
        assert(sum_nanos(s.drop_last()) == 0);
        assert(sum_nanos(s) == s[0]);
        assert(min_sample(s) == s[0] && max_sample(s) == s[0]);
        assert(s.len() * min_sample(s) == min_sample(s)) by (nonlinear_arith)
            requires s.len() == 1;
        assert(s.len() * max_sample(s) == max_sample(s)) by (nonlinear_arith)
            requires s.len() == 1;
    } else {
        let t = s.drop_last();
        lemma_sum_bounds(t);
        lemma_samples_in_range(s, s.len() - 1);
        assert(min_sample(s) <= min_sample(t) && max_sample(t) <= max_sample(s));
        assert(t.len() * min_sample(s) <= t.len() * min_sample(t)
            && t.len() * max_sample(t) <= t.len() * max_sample(s)) by (nonlinear_arith)
            requires
                t.len() >= 0,
                min_sample(s) <= min_sample(t),
                max_sample(t) <= max_sample(s);
        assert(s.len() * min_sample(s) == t.len() * min_sample(s) + min_sample(s))
            by (nonlinear_arith)
            requires s.len() == t.len() + 1;
        assert(s.len() * max_sample(s) == t.len() * max_sample(s) + max_sample(s))
            by (nonlinear_arith)
            requires s.len() == t.len() + 1;
    }
}

/// The sum is bounded by the length times the largest representable sample.
pub proof fn lemma_sum_le_len_times_max(s: Seq<u64>)
    ensures
        0 <= sum_nanos(s) <= s.len() * (u64::MAX as int),
    decreases s.len(),
{
    if s.len() > 0 {
        lemma_sum_le_len_times_max(s.drop_last());
        assert(s.len() * (u64::MAX as int)
            == s.drop_last().len() * (u64::MAX as int) + u64::MAX) by (nonlinear_arith)
            requires s.len() == s.drop_last().len() + 1;
    }
}

/// The arithmetic mean of a non-empty sample sequence lies between its
/// minimum and its maximum: `min <= total / count <= max`.
pub proof fn lemma_mean_in_range(s: Seq<u64>)
    requires
        s.len() > 0,
    ensures
        min_sample(s) <= sum_nanos(s) / s.len() as int <= max_sample(s),
{
    lemma_sum_bounds(s);
    lemma_samples_in_range(s, 0);
    let n = s.len() as int;
    assert(min_sample(s) <= sum_nanos(s) / n) by (nonlinear_arith)
        requires n > 0, n * min_sample(s) <= sum_nanos(s);
    assert(sum_nanos(s) / n <= max_sample(s)) by (nonlinear_arith)
        requires n > 0, sum_nanos(s) <= n * max_sample(s), max_sample(s) >= 0;
}

/// A sequence of equal samples sums to its length times that sample. Cross
/// multiplied, this says the throughput rational `count / sum-in-seconds`
/// equals `1 / d-in-seconds` when every sample equals `d`.
pub proof fn lemma_sum_of_equal_samples(s: Seq<u64>, d: u64)
    requires
        forall|i: int| 0 <= i < s.len() ==> s[i] == d,
    ensures
        sum_nanos(s) == s.len() * d,
    decreases s.len(),
{
    if s.len() > 0 {
        lemma_sum_of_equal_samples(s.drop_last(), d);
        assert(s.len() * d == s.drop_last().len() * d + d) by (nonlinear_arith)
            requires s.len() == s.drop_last().len() + 1;
    }
}

} // verus!
