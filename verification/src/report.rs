//! Comparison of two benchmark runs: throughput, throughput ratio and
//! average-latency difference.
//!
//! Throughput is the rational `count / total-in-seconds`. To stay exact it is
//! carried as an integer scaled by one thousand (milli-writes per second) and,
//! for the ratio of two runs, as an explicit fraction.

use vstd::prelude::*;
use crate::stats::BenchmarkStats;

verus! {

/// Nanoseconds in one second, times the scale of a milli-write count.
pub const MILLI_WRITES_SCALE: u128 = 1_000_000_000_000;

/// Numerator of the throughput ratio of run `a` over run `b`:
/// `(a.count / a.seconds) / (b.count / b.seconds)` cross-multiplied.
pub open spec fn ratio_num(a: BenchmarkStats, b: BenchmarkStats) -> int {
    a.count * b.total_nanos
}

/// Denominator of the throughput ratio of run `a` over run `b`.
pub open spec fn ratio_den(a: BenchmarkStats, b: BenchmarkStats) -> int {
    b.count * a.total_nanos
}

/// Throughput ratio of two runs, as an exact fraction `num / den`.
pub struct ThroughputRatio {
    pub num: u128,
    pub den: u128,
}

impl BenchmarkStats {
    /// Throughput in milli-writes per second, rounded down:
    /// `1000 * count / total-in-seconds`.
    pub fn writes_per_second_milli(&self) -> (r: u128)
        requires
            self.total_nanos > 0,
        ensures
            r == self.count * MILLI_WRITES_SCALE / self.total_nanos as int,
    {
        proof {
            assert((self.count as int) * (MILLI_WRITES_SCALE as int) <= u128::MAX)
                by (nonlinear_arith)
                requires self.count <= usize::MAX;
        }
        (self.count as u128) * MILLI_WRITES_SCALE / self.total_nanos
    }

    /// Average latency in whole microseconds, rounded down.
    pub fn avg_micros(&self) -> (r: u64)
        ensures
            r == self.avg_nanos / 1000,
    {
        self.avg_nanos / 1000
    }
}

/// Throughput ratio of run `a` over run `b`, as an exact fraction.
pub fn throughput_ratio(a: &BenchmarkStats, b: &BenchmarkStats) -> (r: ThroughputRatio)
    requires
        a.count * b.total_nanos <= u128::MAX,
        b.count * a.total_nanos <= u128::MAX,
    ensures
        r.num == ratio_num(*a, *b),
        r.den == ratio_den(*a, *b),
{
    ThroughputRatio {
        num: (a.count as u128) * b.total_nanos,
        den: (b.count as u128) * a.total_nanos,
    }
}

/// Difference of the two runs' average latencies, `b` minus `a`, in whole
/// microseconds.
pub fn latency_diff_micros(a: &BenchmarkStats, b: &BenchmarkStats) -> (r: i128)
    ensures
        r == b.avg_nanos as int / 1000 - a.avg_nanos as int / 1000,
{
    (b.avg_nanos / 1000) as i128 - (a.avg_nanos / 1000) as i128
}

/// The throughput ratio is symmetric: the fraction for `(a, b)` is the exact
/// reciprocal of the fraction for `(b, a)`, so their product is one.
pub proof fn lemma_ratio_symmetric(a: BenchmarkStats, b: BenchmarkStats)
    ensures
        ratio_num(a, b) == ratio_den(b, a),
        ratio_den(a, b) == ratio_num(b, a),
        ratio_num(a, b) * ratio_num(b, a) == ratio_den(a, b) * ratio_den(b, a),
{
    assert(ratio_num(a, b) * ratio_num(b, a) == ratio_den(a, b) * ratio_den(b, a))
        by (nonlinear_arith)
        requires
            ratio_num(a, b) == ratio_den(b, a),
            ratio_den(a, b) == ratio_num(b, a);
}

} // verus!
