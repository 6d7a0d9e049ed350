use cya::aggregate_outcomes;
use cya::FailureFlags;
use cya::Outcome;

fn response(status_code: u16, elapsed_ns: u64) -> Outcome {
    Outcome::Response { status_code, elapsed_ns }
}

fn no_flags() -> FailureFlags {
    FailureFlags {
        body: false,
        builder: false,
        connect: false,
        decode: false,
        redirect: false,
        status: false,
        timeout: false,
    }
}

fn failure(flags: FailureFlags, reported_code: Option<u16>, elapsed_ns: u64) -> Outcome {
    Outcome::Failure { flags, reported_code, elapsed_ns }
}

#[test]
fn empty_run_reports_nothing() {
    let report = aggregate_outcomes(&vec![], 7);
    assert_eq!(report.succeeded, 0);
    assert_eq!(report.failed, 0);
    assert_eq!(report.response_codes.len(), 0);
    assert_eq!(report.response_codes.get(200), 0);
    assert!(report.histogram.is_none());
    assert_eq!(report.failure_reasons.body, 0);
    assert_eq!(report.failure_reasons.builder, 0);
    assert_eq!(report.failure_reasons.connect, 0);
    assert_eq!(report.failure_reasons.decode, 0);
    assert_eq!(report.failure_reasons.redirect, 0);
    assert_eq!(report.failure_reasons.status, 0);
    assert_eq!(report.failure_reasons.timeout, 0);
    assert_eq!(report.failure_reasons.other, 0);
    assert_eq!(report.correlation_id, 7);
}

#[test]
fn all_ok_responses_succeed() {
    let outcomes = vec![response(200, 1_000); 10];
    let report = aggregate_outcomes(&outcomes, 1);
    assert_eq!(report.succeeded, 10);
    assert_eq!(report.failed, 0);
    assert_eq!(report.response_codes.get(200), 10);
    assert_eq!(report.response_codes.len(), 1);
    let h = report.histogram.unwrap();
    assert_eq!(h.min_ns, 1_000);
    assert_eq!(h.max_ns, 1_000);
    assert_eq!(h.p50_ns, 1_000);
    assert_eq!(h.p95_ns, 1_000);
    assert_eq!(h.p99_ns, 1_000);
}

#[test]
fn server_errors_fail_without_reason_class() {
    let outcomes = vec![response(500, 2_000); 5];
    let report = aggregate_outcomes(&outcomes, 2);
    assert_eq!(report.succeeded, 0);
    assert_eq!(report.failed, 5);
    assert_eq!(report.response_codes.get(500), 5);
    assert_eq!(report.response_codes.get(200), 0);
    // A plain non-2xx response is a failed request, but only the transport
    // layer's own status-policy violations populate the status class.
    assert_eq!(report.failure_reasons.status, 0);
    assert_eq!(report.failure_reasons.other, 0);
}

#[test]
fn status_policy_failures_tally_status_class() {
    let flags = FailureFlags { status: true, ..no_flags() };
    let outcomes = vec![failure(flags, Some(500), 2_000); 5];
    let report = aggregate_outcomes(&outcomes, 3);
    assert_eq!(report.succeeded, 0);
    assert_eq!(report.failed, 5);
    assert_eq!(report.response_codes.get(500), 5);
    assert_eq!(report.failure_reasons.status, 5);
    assert_eq!(report.failure_reasons.other, 0);
}

#[test]
fn connection_refused_everywhere() {
    let flags = FailureFlags { connect: true, ..no_flags() };
    let outcomes = vec![failure(flags, None, 50); 4];
    let report = aggregate_outcomes(&outcomes, 4);
    assert_eq!(report.succeeded, 0);
    assert_eq!(report.failed, 4);
    assert_eq!(report.response_codes.len(), 0);
    assert_eq!(report.failure_reasons.connect, 4);
    assert_eq!(report.failure_reasons.timeout, 0);
    assert_eq!(report.failure_reasons.other, 0);
}

#[test]
fn multi_class_failure_raises_each_class_once() {
    let flags = FailureFlags { connect: true, timeout: true, ..no_flags() };
    let report = aggregate_outcomes(&vec![failure(flags, None, 10)], 5);
    assert_eq!(report.failed, 1);
    assert_eq!(report.failure_reasons.connect, 1);
    assert_eq!(report.failure_reasons.timeout, 1);
    assert_eq!(report.failure_reasons.body, 0);
    assert_eq!(report.failure_reasons.other, 0);

    let twice = aggregate_outcomes(&vec![failure(flags, None, 10); 2], 5);
    assert_eq!(twice.failure_reasons.connect, 2);
    assert_eq!(twice.failure_reasons.timeout, 2);
}

#[test]
fn unclassified_failure_lands_in_other() {
    let report = aggregate_outcomes(&vec![failure(no_flags(), None, 10)], 6);
    assert_eq!(report.failed, 1);
    assert_eq!(report.failure_reasons.other, 1);
    assert_eq!(report.failure_reasons.connect, 0);
}

#[test]
fn mixed_outcomes_account_for_every_request() {
    let connect = FailureFlags { connect: true, ..no_flags() };
    let outcomes = vec![
        response(200, 100),
        response(204, 300),
        response(404, 200),
        failure(connect, None, 900),
        response(200, 150),
    ];
    let report = aggregate_outcomes(&outcomes, 8);
    assert_eq!(report.succeeded, 3);
    assert_eq!(report.failed, 2);
    assert_eq!(report.succeeded + report.failed, 5);
    assert_eq!(report.response_codes.get(200), 2);
    assert_eq!(report.response_codes.get(204), 1);
    assert_eq!(report.response_codes.get(404), 1);
    assert_eq!(report.response_codes.len(), 3);
    // Sum of the code counts is the number of outcomes that carried a code.
    let sum = report.response_codes.get(200) + report.response_codes.get(204)
        + report.response_codes.get(404);
    assert_eq!(sum, 4);
    let h = report.histogram.unwrap();
    assert_eq!(h.min_ns, 100);
    assert_eq!(h.max_ns, 900);
}
