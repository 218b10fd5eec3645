//! Tests of the statistics aggregator and the two-run comparison.

use redb_bench::stats::BenchmarkStats;
use redb_bench::report::latency_diff_micros;
use redb_bench::report::throughput_ratio;
use redb_bench::NANOS_PER_SEC;

#[test]
fn stats_of_three_samples() {
    let durations: Vec<u64> = vec![5, 1, 9];
    let st = BenchmarkStats::new(&durations);
    assert_eq!(st.count, 3);
    assert_eq!(st.total_nanos, 15);
    assert_eq!(st.avg_nanos, 5);
    assert_eq!(st.min_nanos, 1);
    assert_eq!(st.max_nanos, 9);
}

#[test]
fn stats_of_single_sample() {
    let durations: Vec<u64> = vec![42];
    let st = BenchmarkStats::new(&durations);
    assert_eq!(st.count, 1);
    assert_eq!(st.total_nanos, 42);
    assert_eq!(st.avg_nanos, 42);
    assert_eq!(st.min_nanos, 42);
    assert_eq!(st.max_nanos, 42);
}

#[test]
fn mean_between_min_and_max() {
    let durations: Vec<u64> = vec![17, 250, 3, 999, 421, 3, 77];
    let st = BenchmarkStats::new(&durations);
    assert!(st.min_nanos <= st.avg_nanos);
    assert!(st.avg_nanos <= st.max_nanos);
    assert_eq!(st.avg_nanos as u128, st.total_nanos / st.count as u128);
}

#[test]
fn throughput_of_equal_durations() {
    // Four samples of a quarter second each: one second in total, so the
    // throughput is 4 writes per second, the reciprocal of one duration.
    let quarter_sec: u64 = NANOS_PER_SEC / 4;
    let durations: Vec<u64> = vec![quarter_sec; 4];
    let st = BenchmarkStats::new(&durations);
    assert_eq!(st.total_nanos, NANOS_PER_SEC as u128);
    assert_eq!(st.writes_per_second_milli(), 4000);

    let total_secs = st.total_nanos as f64 / NANOS_PER_SEC as f64;
    let throughput = st.count as f64 / total_secs;
    let reciprocal = 1.0 / (quarter_sec as f64 / NANOS_PER_SEC as f64);
    assert!((throughput - reciprocal).abs() < 1e-9);
    assert!((throughput - 4.0).abs() < 1e-9);
}

#[test]
fn throughput_rounds_down() {
    // Three samples totalling two seconds: 1.5 writes per second.
    let durations: Vec<u64> = vec![NANOS_PER_SEC, NANOS_PER_SEC / 2, NANOS_PER_SEC / 2];
    let st = BenchmarkStats::new(&durations);
    assert_eq!(st.writes_per_second_milli(), 1500);
}

#[test]
fn ratio_symmetric() {
    let a = BenchmarkStats::new(&vec![200, 400, 600]);
    let b = BenchmarkStats::new(&vec![900, 1100]);
    let ab = throughput_ratio(&a, &b);
    let ba = throughput_ratio(&b, &a);
    assert_eq!(ab.num, ba.den);
    assert_eq!(ab.den, ba.num);
    // As floating-point ratios, the two are reciprocals of each other.
    let r_ab = ab.num as f64 / ab.den as f64;
    let r_ba = ba.num as f64 / ba.den as f64;
    assert!((r_ab * r_ba - 1.0).abs() < 1e-12);
}

#[test]
fn ratio_concrete_value() {
    // a: 3 writes in 1200 ns, b: 2 writes in 900 ns.
    // ratio = (3/1200) / (2/900) = 2700 / 2400 = 1.125.
    let a = BenchmarkStats::new(&vec![400, 400, 400]);
    let b = BenchmarkStats::new(&vec![450, 450]);
    let r = throughput_ratio(&a, &b);
    assert_eq!(r.num, 2700);
    assert_eq!(r.den, 2400);
    assert!((r.num as f64 / r.den as f64 - 1.125).abs() < 1e-12);
}

#[test]
fn latency_difference_in_micros() {
    // Averages of 5500 ns and 12500 ns: 5 us and 12 us, difference 7 us.
    let a = BenchmarkStats::new(&vec![5000, 6000]);
    let b = BenchmarkStats::new(&vec![12000, 13000]);
    assert_eq!(a.avg_micros(), 5);
    assert_eq!(b.avg_micros(), 12);
    assert_eq!(latency_diff_micros(&a, &b), 7);
    assert_eq!(latency_diff_micros(&b, &a), -7);
}
