//! Planning and tracking of the database fill phase.
//!
//! The fill phase writes batches of fixed-size values under sequential keys
//! until the cumulative bytes written reach a target. `FillProgress` tracks
//! one run batch by batch; `fill_plan` computes the whole run ahead of time,
//! so the key returned for later benchmarking is known exactly: the number of
//! records needed for the target, rounded up to a whole batch.

use vstd::prelude::*;

verus! {

/// Bytes in one gibibyte.
pub const BYTES_PER_GIB: u64 = 0x4000_0000;

/// Parameters of a fill run, fixed before it starts.
pub struct FillConfig {
    /// Bytes in each value written.
    pub value_size: u64,
    /// Records inserted in each transaction.
    pub batch_size: u64,
    /// The run stops once this many bytes of values have been written.
    pub target_bytes: u64,
}

/// Integer division rounding up.
pub open spec fn div_ceil(a: int, b: int) -> int {
    (a + b - 1) / b
}

/// Bytes still to be written before a fill run reaches its target.
pub open spec fn remaining_bytes(target: int, written: int) -> int {
    if written >= target {
        0
    } else {
        target - written
    }
}

impl FillConfig {
    /// The sizes are positive and one more batch can never overflow a `u64`
    /// byte counter.
    pub open spec fn wf(self) -> bool {
        &&& self.value_size >= 1
        &&& self.batch_size >= 1
        &&& self.target_bytes + self.batch_size * self.value_size <= u64::MAX
    }

    /// Bytes written by one whole batch.
    pub open spec fn batch_bytes(self) -> int {
        self.batch_size * self.value_size
    }

    /// Number of batches a fill run commits.
    pub open spec fn planned_batches(self) -> int {
        div_ceil(self.target_bytes as int, self.batch_bytes())
    }

    /// Number of records a fill run writes, which is also the first unused
    /// key afterwards.
    pub open spec fn planned_keys(self) -> int {
        self.batch_size * self.planned_batches()
    }

    /// Executable well-formedness test, for callers outside verified code.
    pub fn check_wf(&self) -> (r: bool)
        ensures
            r == self.wf(),
    {
        proof {
            assert((self.batch_size as int) * (self.value_size as int)
                <= (u64::MAX as int) * (u64::MAX as int)) by (nonlinear_arith)
                requires
                    0 <= self.batch_size <= u64::MAX,
                    0 <= self.value_size <= u64::MAX;
            assert((u64::MAX as int) * (u64::MAX as int) + u64::MAX < u128::MAX)
                by (nonlinear_arith);
        }
        let batch_bytes: u128 = (self.batch_size as u128) * (self.value_size as u128);
        self.value_size >= 1 && self.batch_size >= 1
            && (self.target_bytes as u128) + batch_bytes <= u64::MAX as u128
    }
}

/// Convert a target size in gibibytes to bytes.
pub fn gib_to_bytes(gib: u64) -> (r: u64)
    requires
        gib * BYTES_PER_GIB <= u64::MAX,
    ensures
        r == gib * BYTES_PER_GIB,
{
    gib * BYTES_PER_GIB
}

/// State of one fill run, advanced once per committed batch.
pub struct FillProgress {
    /// First key not yet written; keys are assigned sequentially from zero.
    pub next_key: u64,
    /// Cumulative bytes of values written so far.
    pub bytes_written: u64,
    /// Transactions committed so far.
    pub batches_committed: u64,
}

impl FillProgress {
    /// The counters agree with each other and with a run of whole batches
    /// that has not yet overshot the target by a full batch.
    pub open spec fn inv(self, cfg: FillConfig) -> bool {
        &&& self.next_key == cfg.batch_size * self.batches_committed as int
        &&& self.bytes_written == self.next_key * cfg.value_size as int
        &&& self.batches_committed > 0
            ==> self.bytes_written - cfg.batch_bytes() < cfg.target_bytes
    }

    /// A fresh run: nothing written yet.
    pub fn new() -> (r: FillProgress)
        ensures
            r.next_key == 0,
            r.bytes_written == 0,
            r.batches_committed == 0,
            forall|cfg: FillConfig| r.inv(cfg),
    {
        FillProgress { next_key: 0, bytes_written: 0, batches_committed: 0 }
    }

    /// The run is finished once the target has been reached.
    pub fn done(&self, cfg: &FillConfig) -> (r: bool)
        ensures
            r == (self.bytes_written >= cfg.target_bytes),
    {
        self.bytes_written >= cfg.target_bytes
    }

    /// Account for one committed batch of `cfg.batch_size` records of
    /// `cfg.value_size` bytes each.
    pub fn record_batch(&mut self, cfg: &FillConfig)
        requires
            cfg.wf(),
            old(self).inv(*cfg),
            old(self).bytes_written < cfg.target_bytes,
        ensures
            final(self).inv(*cfg),
            final(self).next_key == old(self).next_key + cfg.batch_size,
            final(self).bytes_written == old(self).bytes_written + cfg.batch_bytes(),
            final(self).batches_committed == old(self).batches_committed + 1,
    {
        proof {
            assert(self.next_key * cfg.value_size + cfg.batch_size * cfg.value_size
                == (self.next_key + cfg.batch_size) * cfg.value_size) by (nonlinear_arith);
            assert(cfg.batch_size * self.batches_committed as int + cfg.batch_size
                == cfg.batch_size * (self.batches_committed + 1)) by (nonlinear_arith);
            assert(self.next_key <= self.bytes_written) by (nonlinear_arith)
                requires
                    cfg.value_size >= 1,
                    self.next_key >= 0,
                    self.bytes_written == self.next_key * cfg.value_size as int;
            assert(cfg.batch_size <= cfg.batch_size * cfg.value_size) by (nonlinear_arith)
                requires
                    cfg.batch_size >= 1,
                    cfg.value_size >= 1;
            assert(self.batches_committed <= self.bytes_written) by (nonlinear_arith)
                requires
                    cfg.batch_size >= 1,
                    cfg.value_size >= 1,
                    self.batches_committed >= 0,
                    self.next_key == cfg.batch_size * self.batches_committed as int,
                    self.bytes_written == self.next_key * cfg.value_size as int;
        }
        let batch_bytes: u64 = cfg.batch_size * cfg.value_size;
        self.next_key = self.next_key + cfg.batch_size;
        self.bytes_written = self.bytes_written + batch_bytes;
        self.batches_committed = self.batches_committed + 1;
    }

    /// Progress is reported every hundredth batch.
    pub fn should_report(&self) -> (r: bool)
        ensures
            r == (self.batches_committed % 100 == 0),
    {
        self.batches_committed % 100 == 0
    }
}

/// Simulate a whole fill run: the state after writing batch after batch
/// until the target is reached. The final `next_key` is exactly the planned
/// key count, and the bytes written cover the target.
pub fn fill_plan(cfg: &FillConfig) -> (r: FillProgress)
    requires
        cfg.wf(),
    ensures
        r.inv(*cfg),
        r.bytes_written >= cfg.target_bytes,
        r.next_key == cfg.planned_keys(),
        r.bytes_written == cfg.planned_keys() * cfg.value_size,
{
    let mut p = FillProgress::new();
    while !(p.bytes_written >= cfg.target_bytes)
        invariant
            cfg.wf(),
            p.inv(*cfg),
        decreases remaining_bytes(cfg.target_bytes as int, p.bytes_written as int),
    {
        let ghost prev: int = p.bytes_written as int;
        p.record_batch(cfg);
        proof {
            assert(p.bytes_written > prev) by (nonlinear_arith)
                requires
                    p.bytes_written == prev + cfg.batch_size * cfg.value_size as int,
                    cfg.batch_size >= 1,
                    cfg.value_size >= 1;
        }
    }
    proof {
        let n = p.batches_committed as int;
        let bb = cfg.batch_bytes();
        assert(bb >= 1) by (nonlinear_arith)
            requires
                cfg.batch_size >= 1,
                cfg.value_size >= 1,
                bb == cfg.batch_size * cfg.value_size;
        assert(p.bytes_written == n * bb) by (nonlinear_arith)
            requires
                p.next_key == cfg.batch_size * n,
                p.bytes_written == p.next_key * cfg.value_size as int,
                bb == cfg.batch_size * cfg.value_size;
        assert((n - 1) * bb == n * bb - bb) by (nonlinear_arith);
        lemma_ceil_div_unique(cfg.target_bytes as int, bb, n);
        assert(p.next_key == cfg.planned_keys());
    }
    p
}

/// A count of whole steps of size `b` that reaches `t` without a full step
/// to spare is exactly the ceiling of `t / b`.
proof fn lemma_ceil_div_unique(t: int, b: int, n: int)
    requires
        t >= 0,
        b > 0,
        n >= 0,
        n * b >= t,
        n > 0 ==> (n - 1) * b < t,
    ensures
        n == div_ceil(t, b),
{
    let q = (t + b - 1) / b;
    let r = (t + b - 1) % b;
    vstd::arithmetic::div_mod::lemma_fundamental_div_mod(t + b - 1, b);
    assert(t + b - 1 == q * b + r);
    if n == 0 {
        assert(t == 0);
        assert(q * b + r == b - 1);
        assert(q == 0) by (nonlinear_arith)
            requires
                q * b + r == b - 1,
                0 <= r < b,
                b > 0;
    } else {
        assert(t == q * b + r - b + 1);
        assert((n - 1) * b < q * b + r - b + 1);
        assert(n - 1 < q) by (nonlinear_arith)
            requires
                (n - 1) * b < q * b + r - b + 1,
                0 <= r < b,
                b > 0;
        assert(n * b >= q * b + r - b + 1);
        assert(n > q - 1) by (nonlinear_arith)
            requires
                n * b >= q * b + r - b + 1,
                0 <= r < b,
                b > 0;
    }
}

/// Helper facts about ceiling division: the ceiling of `t / b` is the least
/// count of whole steps of size `b` that covers `t`.
proof fn lemma_div_ceil_bounds(t: int, b: int)
    requires
        t >= 0,
        b > 0,
    ensures
        div_ceil(t, b) >= 0,
        div_ceil(t, b) * b >= t,
        t > 0 ==> (div_ceil(t, b) - 1) * b < t,
        t == 0 ==> div_ceil(t, b) == 0,
{
    let q = (t + b - 1) / b;
    let r = (t + b - 1) % b;
    vstd::arithmetic::div_mod::lemma_fundamental_div_mod(t + b - 1, b);
    assert(t + b - 1 == q * b + r);
    assert(q >= 0) by (nonlinear_arith)
        requires
            q * b + r == t + b - 1,
            t >= 0,
            0 <= r < b,
            b > 0;
    assert(q * b == t + b - 1 - r);
    assert(q * b >= t);
    assert((q - 1) * b == q * b - b) by (nonlinear_arith);
    assert((q - 1) * b == t - 1 - r);
    if t == 0 {
        assert(q == 0) by (nonlinear_arith)
            requires
                q * b + r == b - 1,
                0 <= r < b,
                b > 0;
    }
}

/// The planned key count is the number of records needed for the target,
/// rounded up to the nearest batch boundary: `planned_keys` equals
/// `ceil(target / value_size)` rounded up to a multiple of `batch_size`.
pub proof fn lemma_fill_next_key(cfg: FillConfig)
    requires
        cfg.wf(),
    ensures
        cfg.planned_keys()
            == cfg.batch_size * div_ceil(
                div_ceil(cfg.target_bytes as int, cfg.value_size as int),
                cfg.batch_size as int,
            ),
{
    let t = cfg.target_bytes as int;
    let v = cfg.value_size as int;
    let b = cfg.batch_size as int;
    let m = div_ceil(t, v);
    let n = div_ceil(m, b);
    lemma_div_ceil_bounds(t, v);
    lemma_div_ceil_bounds(m, b);
    assert(b * v >= 1) by (nonlinear_arith)
        requires
            b >= 1,
            v >= 1;
    assert(n * (b * v) >= t) by (nonlinear_arith)
        requires
            n * b >= m,
            m * v >= t,
            v > 0,
            m >= 0,
            n >= 0;
    if t > 0 {
        assert(m > 0) by (nonlinear_arith)
            requires
                m * v >= t,
                t > 0,
                v > 0,
                m >= 0;
        assert((n - 1) * b < m);
        assert((n - 1) * (b * v) < t) by (nonlinear_arith)
            requires
                (n - 1) * b <= m - 1,
                (m - 1) * v < t,
                v > 0,
                b > 0;
        lemma_ceil_div_unique(t, b * v, n);
    } else {
        assert(m == 0);
        assert(n == 0);
        lemma_ceil_div_unique(t, b * v, n);
    }
    assert(b * v == cfg.batch_bytes());
    assert(cfg.planned_batches() == n);
}

} // verus!
