//! Tests of the benchmark trackers and the payload generator.

use redb_bench::bench::BatchBenchmark;
use redb_bench::bench::WriteBenchmark;
use redb_bench::payload::generate_random_value;

#[test]
fn write_benchmark_counts_samples() {
    // A run of 10000 writes yields exactly 10000 duration samples with
    // min <= avg <= max.
    let n: usize = 10000;
    let mut wb = WriteBenchmark::new(263000, n);
    let mut i: u64 = 0;
    while !wb.is_done() {
        // Synthetic but varied elapsed times.
        wb.record_write(1000 + (i * 37) % 500);
        i += 1;
    }
    assert_eq!(wb.completed(), n);
    let st = wb.finish();
    assert_eq!(st.count, n);
    assert!(st.min_nanos <= st.avg_nanos);
    assert!(st.avg_nanos <= st.max_nanos);
}

#[test]
fn write_benchmark_keys_are_sequential() {
    let mut wb = WriteBenchmark::new(500, 3);
    assert_eq!(wb.next_key(), 500);
    wb.record_write(10);
    assert_eq!(wb.next_key(), 501);
    wb.record_write(20);
    assert_eq!(wb.next_key(), 502);
    wb.record_write(30);
    assert!(wb.is_done());
    let st = wb.finish();
    assert_eq!(st.count, 3);
    assert_eq!(st.total_nanos, 60);
    assert_eq!(st.min_nanos, 10);
    assert_eq!(st.max_nanos, 30);
}

#[test]
fn write_benchmark_reports_every_thousand() {
    let mut wb = WriteBenchmark::new(0, 2500);
    let mut reports: u64 = 0;
    while !wb.is_done() {
        wb.record_write(1);
        if wb.should_report() {
            reports += 1;
        }
    }
    assert_eq!(reports, 2);
}

#[test]
fn batch_benchmark_counts_samples() {
    let mut bb = BatchBenchmark::new(1000, 5, 100);
    assert_eq!(bb.next_key(), 1000);
    let mut reports: u64 = 0;
    while !bb.is_done() {
        bb.record_batch(7000);
        if bb.should_report() {
            reports += 1;
        }
    }
    assert_eq!(bb.next_key(), 1500);
    assert_eq!(reports, 0);
    let st = bb.finish();
    assert_eq!(st.count, 5);
    assert_eq!(st.total_nanos, 35000);
    assert_eq!(st.avg_nanos, 7000);
    assert_eq!(st.min_nanos, 7000);
    assert_eq!(st.max_nanos, 7000);
}

#[test]
fn payload_has_requested_length() {
    assert_eq!(generate_random_value(0).len(), 0);
    assert_eq!(generate_random_value(1).len(), 1);
    assert_eq!(generate_random_value(4096).len(), 4096);
}

#[test]
fn payload_is_not_constant() {
    // 64 random bytes are, with overwhelming probability, not all equal;
    // two independent 64-byte payloads are, likewise, not identical.
    let a = generate_random_value(64);
    let b = generate_random_value(64);
    assert_eq!(a.len(), 64);
    assert_eq!(b.len(), 64);
    let first: u8 = a[0];
    assert!(a.iter().any(|&x| x != first) || b.iter().any(|&x| x != first));
    assert_ne!(a, b);
}
