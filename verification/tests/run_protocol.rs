use cya::ConfigError;
use cya::Outcome;
use cya::Run;
use cya::RunConfig;

fn response(status_code: u16, elapsed_ns: u64) -> Outcome {
    Outcome::Response { status_code, elapsed_ns }
}

#[test]
fn zero_concurrency_is_rejected() {
    let r = RunConfig::new(String::from("http://localhost/"), 10, 0);
    assert!(matches!(r, Err(ConfigError::ZeroMaxInFlight)));
}

#[test]
fn valid_config_keeps_its_fields() {
    let c = RunConfig::new(String::from("http://localhost/"), 1000, 32).unwrap();
    assert_eq!(c.requests, 1000);
    assert_eq!(c.max_in_flight, 32);
    assert_eq!(c.target, "http://localhost/");
}

#[test]
fn capacity_gates_issuing() {
    let c = RunConfig::new(String::from("http://localhost/"), 10, 3).unwrap();
    let mut run = Run::start(c);
    assert!(run.can_issue());
    run.issue();
    run.issue();
    run.issue();
    // Three executions are in flight: the cap is reached.
    assert!(!run.can_issue());
    run.resolve(response(200, 100));
    // A consumed outcome frees one slot.
    assert!(run.can_issue());
}

#[test]
fn a_complete_run_accounts_for_every_request() {
    let c = RunConfig::new(String::from("http://localhost/"), 10, 3).unwrap();
    let id = c.correlation_id;
    let mut run = Run::start(c);
    while !run.is_complete() {
        while run.can_issue() {
            run.issue();
        }
        run.resolve(response(200, 250));
    }
    let report = run.finish();
    assert_eq!(report.succeeded, 10);
    assert_eq!(report.failed, 0);
    assert_eq!(report.succeeded + report.failed, 10);
    assert_eq!(report.response_codes.get(200), 10);
    assert_eq!(report.correlation_id, id);
}

#[test]
fn in_flight_never_exceeds_the_cap() {
    let c = RunConfig::new(String::from("http://localhost/"), 25, 4).unwrap();
    let mut run = Run::start(c);
    let mut observed_max: u64 = 0;
    // An adversarial driver: fill capacity, then drain unevenly.
    let mut drain: u64 = 1;
    while !run.is_complete() {
        while run.can_issue() {
            run.issue();
            observed_max = observed_max.max(run.current_in_flight());
        }
        let mut k: u64 = 0;
        while k < drain && run.has_unconsumed() {
            run.resolve(response(200, 10 + drain));
            observed_max = observed_max.max(run.current_in_flight());
            k += 1;
        }
        drain = drain % 3 + 1;
    }
    assert!(observed_max <= 4);
    assert_eq!(run.finish().succeeded, 25);
}

#[test]
fn a_run_of_zero_requests_completes_at_once() {
    let c = RunConfig::new(String::from("http://localhost/"), 0, 4).unwrap();
    let run = Run::start(c);
    assert!(run.is_complete());
    assert!(!run.can_issue());
    let report = run.finish();
    assert_eq!(report.succeeded, 0);
    assert_eq!(report.failed, 0);
    assert!(report.histogram.is_none());
}

#[test]
fn correlation_identifiers_are_fresh_per_run() {
    let a = RunConfig::new(String::from("http://localhost/"), 1, 1).unwrap();
    let b = RunConfig::new(String::from("http://localhost/"), 1, 1).unwrap();
    // Version-4 identifiers collide with negligible probability.
    assert_ne!(a.correlation_id, b.correlation_id);
}
