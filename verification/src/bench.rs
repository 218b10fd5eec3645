//! Tracking of timed write benchmarks.
//!
//! A benchmark issues a fixed number of timed operations against a store and
//! records one duration sample per operation. `WriteBenchmark` tracks
//! single-record transactions; `BatchBenchmark` tracks transactions of a
//! fixed number of records each. Either yields exactly as many samples as
//! operations, reduced to `BenchmarkStats` at the end.

use vstd::prelude::*;
use crate::stats::BenchmarkStats;

verus! {

/// State of a single-record write benchmark: `num_writes` timed
/// one-record transactions under sequential keys from `start_key`.
pub struct WriteBenchmark {
    /// First key of the benchmark; keys advance by one per write.
    pub start_key: u64,
    /// Number of writes the benchmark performs in total.
    pub num_writes: usize,
    /// One elapsed-time sample, in nanoseconds, per completed write.
    pub samples: Vec<u64>,
}

impl WriteBenchmark {
    /// No more samples than writes, and every key of the run fits in `u64`.
    pub open spec fn inv(self) -> bool {
        &&& self.samples@.len() <= self.num_writes
        &&& self.start_key + self.num_writes <= u64::MAX
    }

    /// A fresh benchmark with no samples recorded.
    pub fn new(start_key: u64, num_writes: usize) -> (r: WriteBenchmark)
        requires
            start_key + num_writes <= u64::MAX,
        ensures
            r.inv(),
            r.start_key == start_key,
            r.num_writes == num_writes,
            r.samples@ =~= Seq::<u64>::empty(),
    {
        WriteBenchmark { start_key, num_writes, samples: Vec::new() }
    }

    /// Key for the next write: one past the keys already written.
    pub fn next_key(&self) -> (r: u64)
        requires
            self.inv(),
        ensures
            r == self.start_key + self.samples@.len(),
    {
        self.start_key + (self.samples.len() as u64)
    }

    /// Number of writes completed so far.
    pub fn completed(&self) -> (r: usize)
        ensures
            r == self.samples@.len(),
    {
        self.samples.len()
    }

    /// The benchmark is done once every write has a sample.
    pub fn is_done(&self) -> (r: bool)
        ensures
            r == (self.samples@.len() == self.num_writes),
    {
        self.samples.len() == self.num_writes
    }

    /// Record the elapsed time of one completed write.
    pub fn record_write(&mut self, elapsed_nanos: u64)
        requires
            old(self).inv(),
            old(self).samples@.len() < old(self).num_writes,
        ensures
            final(self).inv(),
            final(self).start_key == old(self).start_key,
            final(self).num_writes == old(self).num_writes,
            final(self).samples@ == old(self).samples@.push(elapsed_nanos),
    {
        self.samples.push(elapsed_nanos);
    }

    /// Progress is reported every thousandth completed write.
    pub fn should_report(&self) -> (r: bool)
        ensures
            r == (self.samples@.len() % 1000 == 0),
    {
        self.samples.len() % 1000 == 0
    }

    /// Reduce the run to statistics. A benchmark of `N` writes yields
    /// exactly `N` duration samples, and the statistics summarise them.
    pub fn finish(self) -> (r: BenchmarkStats)
        requires
            self.samples@.len() == self.num_writes,
            self.num_writes > 0,
        ensures
            r.summarises(self.samples@),
            r.count == self.num_writes,
    {
        BenchmarkStats::new(&self.samples)
    }
}

/// State of a batch write benchmark: `num_batches` timed transactions of
/// `batch_size` records each, under sequential keys from `start_key`.
pub struct BatchBenchmark {
    /// First key of the benchmark; keys advance by `batch_size` per batch.
    pub start_key: u64,
    /// Number of timed transactions the benchmark performs in total.
    pub num_batches: usize,
    /// Records inserted in each transaction.
    pub batch_size: usize,
    /// One elapsed-time sample, in nanoseconds, per committed batch.
    pub samples: Vec<u64>,
}

impl BatchBenchmark {
    /// No more samples than batches, and every key of the run fits in `u64`.
    pub open spec fn inv(self) -> bool {
        &&& self.samples@.len() <= self.num_batches
        &&& self.start_key + self.num_batches * self.batch_size <= u64::MAX
    }

    /// A fresh batch benchmark with no samples recorded.
    pub fn new(start_key: u64, num_batches: usize, batch_size: usize) -> (r: BatchBenchmark)
        requires
            start_key + num_batches * batch_size <= u64::MAX,
        ensures
            r.inv(),
            r.start_key == start_key,
            r.num_batches == num_batches,
            r.batch_size == batch_size,
            r.samples@ =~= Seq::<u64>::empty(),
    {
        BatchBenchmark { start_key, num_batches, batch_size, samples: Vec::new() }
    }

    /// Key for the first record of the next batch.
    pub fn next_key(&self) -> (r: u64)
        requires
            self.inv(),
        ensures
            r == self.start_key + self.samples@.len() * self.batch_size,
    {
        proof {
            assert(self.samples@.len() * self.batch_size
                <= self.num_batches * self.batch_size) by (nonlinear_arith)
                requires
                    self.samples@.len() <= self.num_batches,
                    self.batch_size >= 0;
        }
        self.start_key + (self.samples.len() as u64) * (self.batch_size as u64)
    }

    /// The benchmark is done once every batch has a sample.
    pub fn is_done(&self) -> (r: bool)
        ensures
            r == (self.samples@.len() == self.num_batches),
    {
        self.samples.len() == self.num_batches
    }

    /// Record the elapsed time of one committed batch.
    pub fn record_batch(&mut self, elapsed_nanos: u64)
        requires
            old(self).inv(),
            old(self).samples@.len() < old(self).num_batches,
        ensures
            final(self).inv(),
            final(self).start_key == old(self).start_key,
            final(self).num_batches == old(self).num_batches,
            final(self).batch_size == old(self).batch_size,
            final(self).samples@ == old(self).samples@.push(elapsed_nanos),
    {
        self.samples.push(elapsed_nanos);
    }

    /// Progress is reported every hundredth committed batch.
    pub fn should_report(&self) -> (r: bool)
        ensures
            r == (self.samples@.len() % 100 == 0),
    {
        self.samples.len() % 100 == 0
    }

    /// Reduce the run to statistics: exactly one sample per batch.
    pub fn finish(self) -> (r: BenchmarkStats)
        requires
            self.samples@.len() == self.num_batches,
            self.num_batches > 0,
        ensures
            r.summarises(self.samples@),
            r.count == self.num_batches,
    {
        BenchmarkStats::new(&self.samples)
    }
}

} // verus!
