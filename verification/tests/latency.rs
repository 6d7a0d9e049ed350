use cya::aggregate_outcomes;
use cya::LatencyEstimator;
use cya::Outcome;
use cya::Quantile;

fn response(status_code: u16, elapsed_ns: u64) -> Outcome {
    Outcome::Response { status_code, elapsed_ns }
}

#[test]
fn single_observation_pins_everything() {
    let mut est = LatencyEstimator::new();
    est.observe(42);
    let h = est.snapshot();
    assert_eq!(h.min_ns, 42);
    assert_eq!(h.p50_ns, 42);
    assert_eq!(h.p95_ns, 42);
    assert_eq!(h.p99_ns, 42);
    assert_eq!(h.max_ns, 42);
}

#[test]
fn three_observations_give_exact_order_statistics() {
    let report = aggregate_outcomes(
        &vec![response(200, 30), response(200, 10), response(200, 20)],
        0,
    );
    let h = report.histogram.unwrap();
    assert_eq!(h.min_ns, 10);
    assert_eq!(h.p50_ns, 20);
    assert_eq!(h.p95_ns, 30);
    assert_eq!(h.p99_ns, 30);
    assert_eq!(h.max_ns, 30);
}

#[test]
fn five_observations_give_the_median_marker() {
    let mut est = LatencyEstimator::new();
    for x in [50, 10, 40, 20, 30] {
        est.observe(x);
    }
    let h = est.snapshot();
    assert_eq!(h.min_ns, 10);
    assert_eq!(h.max_ns, 50);
    assert_eq!(h.p50_ns, 30);
    assert!(h.p50_ns <= h.p95_ns && h.p95_ns <= h.p99_ns);
    assert!(h.p99_ns <= h.max_ns);
}

#[test]
fn histogram_is_ordered_for_a_long_stream() {
    let mut est = LatencyEstimator::new();
    // A deterministic, unsorted stream of durations.
    let mut x: u64 = 17;
    for _ in 0..1000 {
        x = (x * 313 + 29) % 10_007;
        est.observe(x + 1);
    }
    let h = est.snapshot();
    assert!(h.min_ns <= h.p50_ns);
    assert!(h.p50_ns <= h.p95_ns);
    assert!(h.p95_ns <= h.p99_ns);
    assert!(h.p99_ns <= h.max_ns);
    assert!(h.min_ns < h.max_ns);
}

#[test]
fn extrema_are_exact_for_a_long_stream() {
    let mut est = LatencyEstimator::new();
    let mut lo: u64 = u64::MAX;
    let mut hi: u64 = 0;
    let mut x: u64 = 5;
    for _ in 0..500 {
        x = (x * 1_103 + 7) % 99_991;
        let v = x + 3;
        lo = lo.min(v);
        hi = hi.max(v);
        est.observe(v);
    }
    let h = est.snapshot();
    assert_eq!(h.min_ns, lo);
    assert_eq!(h.max_ns, hi);
}

#[test]
fn quantile_estimate_stays_between_extrema() {
    let mut q = Quantile::new(95);
    for i in 1..=200u64 {
        q.observe(i * 3);
    }
    let e = q.estimate();
    assert!(3 <= e && e <= 600);
    // The 95th-percentile estimate of 3..=600 must sit high in the range.
    assert!(e >= 450);
}

#[test]
fn median_estimate_tracks_a_uniform_stream() {
    let mut q = Quantile::new(50);
    for i in 1..=1000u64 {
        q.observe(i);
    }
    let e = q.estimate();
    assert!(1 <= e && e <= 1000);
    assert!(e >= 300 && e <= 700);
}
