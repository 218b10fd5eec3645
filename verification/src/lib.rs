//! Write-performance benchmark harness for an embedded key-value store.
//!
//! The crate plans a database fill phase, tracks a timed write benchmark,
//! aggregates duration samples into statistics, and compares the results of
//! two store configurations. All time quantities are integer nanoseconds.

use vstd::prelude::*;

pub mod bench;
pub mod fill;
pub mod payload;
pub mod report;
pub mod stats;

verus! {

/// Number of nanoseconds in one second.
pub const NANOS_PER_SEC: u64 = 1_000_000_000;

} // verus!
