use cya::Accumulator;
use cya::CodeCounts;
use cya::FailureFlags;
use cya::FailureReasons;
use cya::Outcome;

#[test]
fn code_counts_track_each_code_separately() {
    let mut codes = CodeCounts::new();
    assert_eq!(codes.len(), 0);
    codes.increment(200);
    codes.increment(404);
    codes.increment(200);
    codes.increment(503);
    assert_eq!(codes.get(200), 2);
    assert_eq!(codes.get(404), 1);
    assert_eq!(codes.get(503), 1);
    assert_eq!(codes.get(500), 0);
    assert_eq!(codes.len(), 3);
}

#[test]
fn code_counts_entries_expose_the_table() {
    let mut codes = CodeCounts::new();
    codes.increment(301);
    codes.increment(301);
    let entries = codes.entries();
    assert_eq!(entries.len(), 1);
    assert_eq!(entries[0], (301, 2));
}

#[test]
fn reason_tally_raises_only_matching_classes() {
    let mut reasons = FailureReasons::new();
    reasons.record(&FailureFlags {
        body: true,
        builder: false,
        connect: false,
        decode: true,
        redirect: false,
        status: false,
        timeout: false,
    });
    assert_eq!(reasons.body, 1);
    assert_eq!(reasons.decode, 1);
    assert_eq!(reasons.builder, 0);
    assert_eq!(reasons.connect, 0);
    assert_eq!(reasons.redirect, 0);
    assert_eq!(reasons.status, 0);
    assert_eq!(reasons.timeout, 0);
    assert_eq!(reasons.other, 0);
}

#[test]
fn streaming_accumulator_matches_the_batch_fold() {
    let mut acc = Accumulator::new();
    assert_eq!(acc.count(), 0);
    acc.observe(Outcome::Response { status_code: 200, elapsed_ns: 400 });
    acc.observe(Outcome::Response { status_code: 429, elapsed_ns: 100 });
    assert_eq!(acc.count(), 2);
    let report = acc.finish(9);
    assert_eq!(report.succeeded, 1);
    assert_eq!(report.failed, 1);
    assert_eq!(report.response_codes.get(200), 1);
    assert_eq!(report.response_codes.get(429), 1);
    let h = report.histogram.unwrap();
    assert_eq!(h.min_ns, 100);
    assert_eq!(h.max_ns, 400);
    assert_eq!(report.correlation_id, 9);
}
