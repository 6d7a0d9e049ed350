//! The run itself: validated configuration, and the dispatcher/aggregator
//! protocol as a state machine.
//!
//! The driver (the async layer around this crate) issues one execution at
//! a time, only while capacity allows, and resolves one consumed outcome
//! at a time; the state machine's well-formedness carries the concurrency
//! bound and the accounting of the final report.

use vstd::prelude::*;
use crate::accumulator::Accumulator;
use crate::outcome::count_carrying;
use crate::outcome::count_code;
use crate::outcome::count_failure;
use crate::outcome::count_reason;
use crate::outcome::count_success;
use crate::outcome::max_elapsed;
use crate::outcome::min_elapsed;
use crate::outcome::Outcome;
use crate::outcome::Reason;
use crate::report::RunReport;

verus! {

/// Relies on uuid::Uuid::new_v4 and Uuid::as_u128: a freshly generated
/// random version-4 identifier, returned as its 128-bit value. Nothing is
/// promised of the value.
#[verifier::external_body]
fn fresh_correlation_id() -> (r: u128) {
    uuid::Uuid::new_v4().as_u128()
}

/// Why a run configuration was rejected before any request was issued.
#[derive(Debug, Clone, Copy, PartialEq, Eq, Structural)]
pub enum ConfigError {
    /// The in-flight cap must allow at least one request.
    ZeroMaxInFlight,
}

/// The immutable configuration of one run. Whether the target string is a
/// valid HTTP(S) URL is the HTTP collaborator's to check; the core only
/// carries it.
pub struct RunConfig {
    pub target: String,
    pub requests: u32,
    pub max_in_flight: u32,
    pub correlation_id: u128,
}

impl RunConfig {
    /// A usable configuration allows at least one in-flight request.
    pub open spec fn wf(self) -> bool {
        self.max_in_flight >= 1
    }

    /// Validate a requested configuration, failing fast exactly when the
    /// in-flight cap is zero, and attach a fresh correlation identifier.
    pub fn new(target: String, requests: u32, max_in_flight: u32) -> (r: Result<
        RunConfig,
        ConfigError,
    >)
        ensures
            r is Ok <==> max_in_flight >= 1,
            r matches Ok(c) ==> c.wf() && c.requests == requests && c.max_in_flight
                == max_in_flight && c.target@ == target@,
            r matches Err(e) ==> e == ConfigError::ZeroMaxInFlight,
    {
        if max_in_flight < 1 {
            Err(ConfigError::ZeroMaxInFlight)
        } else {
            Ok(
                RunConfig {
                    target,
                    requests,
                    max_in_flight,
                    correlation_id: fresh_correlation_id(),
                },
            )
        }
    }
}

/// One run in progress: how many executions were issued, how
/// many outcomes the aggregator has consumed, and the aggregator state.
/// An execution is in flight from the moment it is issued until its outcome
/// is consumed.
pub struct Run {
    config: RunConfig,
    issued: u64,
    consumed: u64,
    acc: Accumulator,
}

impl Run {
    pub closed spec fn requests(self) -> u32 {
        self.config.requests
    }

    pub closed spec fn max_in_flight(self) -> u32 {
        self.config.max_in_flight
    }

    pub closed spec fn correlation_id(self) -> u128 {
        self.config.correlation_id
    }

    pub closed spec fn issued(self) -> u64 {
        self.issued
    }

    pub closed spec fn consumed(self) -> u64 {
        self.consumed
    }

    /// The outcomes consumed so far, oldest first.
    pub closed spec fn history(self) -> Seq<Outcome> {
        self.acc.history()
    }

    /// How many executions are in flight: issued but not yet consumed.
    pub open spec fn in_flight(self) -> int {
        self.issued() - self.consumed()
    }

    /// Consumption never overtakes issuing, issuing never overshoots
    /// the configured request count, the in-flight executions never exceed
    /// the cap, and the aggregator has consumed exactly one outcome per
    /// resolved execution.
    pub closed spec fn wf(self) -> bool {
        &&& self.config.wf()
        &&& self.consumed <= self.issued <= self.config.requests
        &&& self.issued - self.consumed <= self.config.max_in_flight
        &&& self.acc.wf()
        &&& self.acc.history().len() == self.consumed
    }

    /// Begin a run: nothing issued, nothing consumed.
    pub fn start(config: RunConfig) -> (r: Run)
        requires
            config.wf(),
        ensures
            r.wf(),
            r.issued() == 0,
            r.consumed() == 0,
            r.requests() == config.requests,
            r.max_in_flight() == config.max_in_flight,
            r.correlation_id() == config.correlation_id,
            r.history() == Seq::<Outcome>::empty(),
    {
        Run { config, issued: 0, consumed: 0, acc: Accumulator::new() }
    }

    /// Another execution may be issued: the run still owes requests and
    /// the in-flight executions are below the cap.
    pub open spec fn can_issue_spec(self) -> bool {
        self.issued() < self.requests() && self.in_flight() < self.max_in_flight()
    }

    pub fn can_issue(&self) -> (r: bool)
        requires
            self.wf(),
        ensures
            r == self.can_issue_spec(),
    {
        self.issued < self.config.requests as u64 && self.issued - self.consumed < self.config.max_in_flight as u64
    }

    /// Issue one execution. Capacity allows it, so the in-flight bound is
    /// preserved.
    pub fn issue(&mut self)
        requires
            old(self).wf(),
            old(self).can_issue_spec(),
        ensures
            final(self).wf(),
            final(self).issued() == old(self).issued() + 1,
            final(self).consumed() == old(self).consumed(),
            final(self).requests() == old(self).requests(),
            final(self).max_in_flight() == old(self).max_in_flight(),
            final(self).correlation_id() == old(self).correlation_id(),
            final(self).history() == old(self).history(),
    {
        self.issued = self.issued + 1;
    }

    /// Consume the outcome of the oldest unconsumed execution, folding it
    /// into the aggregator.
    pub fn resolve(&mut self, o: Outcome)
        requires
            old(self).wf(),
            old(self).consumed() < old(self).issued(),
        ensures
            final(self).wf(),
            final(self).consumed() == old(self).consumed() + 1,
            final(self).issued() == old(self).issued(),
            final(self).requests() == old(self).requests(),
            final(self).max_in_flight() == old(self).max_in_flight(),
            final(self).correlation_id() == old(self).correlation_id(),
            final(self).history() == old(self).history().push(o),
    {
        self.acc.observe(o);
        self.consumed = self.consumed + 1;
    }

    /// How many executions are in flight right now; by the well-formedness
    /// of the run this never exceeds the configured cap.
    pub fn current_in_flight(&self) -> (r: u64)
        requires
            self.wf(),
        ensures
            r as int == self.in_flight(),
            r <= self.max_in_flight(),
    {
        self.issued - self.consumed
    }

    /// Whether an issued execution still awaits its outcome's consumption.
    pub fn has_unconsumed(&self) -> (r: bool)
        requires
            self.wf(),
        ensures
            r == (self.consumed() < self.issued()),
    {
        self.consumed < self.issued
    }

    /// The run drove every configured request to a consumed outcome.
    pub open spec fn is_complete_spec(self) -> bool {
        self.issued() == self.requests() && self.consumed() == self.requests()
    }

    pub fn is_complete(&self) -> (r: bool)
        requires
            self.wf(),
        ensures
            r == self.is_complete_spec(),
    {
        self.issued == self.config.requests as u64 && self.consumed == self.config.requests as u64
    }

    /// Freeze the completed run into its report. Every configured request
    /// is accounted for: successes and failures sum to the request count,
    /// the response-code table is exact and sums to the outcomes that
    /// carried a code, every reason-class tally is exact, and the latency
    /// histogram (present unless the run had no requests) is ordered
    /// between the exact extrema.
    pub fn finish(self) -> (r: RunReport)
        requires
            self.wf(),
            self.is_complete_spec(),
        ensures
            r.succeeded + r.failed == self.requests(),
            r.succeeded as int == count_success(self.history()),
            r.failed as int == count_failure(self.history()),
            r.response_codes.wf(),
            forall|c: u16| r.response_codes.spec_count(c) == count_code(self.history(), c),
            r.response_codes.spec_total() == count_carrying(self.history()),
            forall|c: Reason| r.failure_reasons.spec_get(c) == count_reason(self.history(), c),
            r.histogram is Some <==> self.requests() > 0,
            self.requests() > 0 ==> (r.histogram matches Some(h) && h.min_ns == min_elapsed(
                self.history(),
            ) && h.max_ns == max_elapsed(self.history()) && h.min_ns <= h.p50_ns <= h.p95_ns
                <= h.p99_ns <= h.max_ns),
            r.correlation_id == self.correlation_id(),
    {
        self.acc.finish(self.config.correlation_id)
    }
}

/// However a run is driven, a well-formed run never has more executions in
/// flight than its configured cap: concurrency is bounded throughout.
pub proof fn lemma_in_flight_bounded(r: Run)
    requires
        r.wf(),
    ensures
        0 <= r.in_flight() <= r.max_in_flight(),
{
}

} // verus!
