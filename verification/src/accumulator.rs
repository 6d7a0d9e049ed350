//! The streaming aggregator: consumes one outcome at a time and folds it
//! into counters, the response-code table, the failure-reason tally and
//! the latency estimator, without retaining the outcomes themselves.

use vstd::prelude::*;
use crate::codes::CodeCounts;
use crate::outcome::count_carrying;
use crate::outcome::count_code;
use crate::outcome::count_failure;
use crate::outcome::count_reason;
use crate::outcome::count_success;
use crate::outcome::lemma_counts_bounds;
use crate::outcome::lemma_counts_push;
use crate::outcome::max_elapsed;
use crate::outcome::min_elapsed;
use crate::outcome::Outcome;
use crate::outcome::Reason;
use crate::quantile::LatencyEstimator;
use crate::reasons::FailureReasons;
use crate::report::RunReport;

verus! {

/// The aggregator's working state. The ghost history records which
/// outcomes were observed; every counter is tied to a tally over that
/// history, so the report frozen at the end is exact by construction.
pub struct Accumulator {
    succeeded: u64,
    failed: u64,
    codes: CodeCounts,
    reasons: FailureReasons,
    latency: LatencyEstimator,
    history: Ghost<Seq<Outcome>>,
}

impl Accumulator {
    /// The outcomes observed so far, oldest first.
    pub closed spec fn history(self) -> Seq<Outcome> {
        self.history@
    }

    /// Every accumulator field agrees with the tally the ghost history
    /// prescribes for it.
    pub closed spec fn wf(self) -> bool {
        &&& self.succeeded as int == count_success(self.history@)
        &&& self.failed as int == count_failure(self.history@)
        &&& self.codes.wf()
        &&& forall|c: u16| self.codes.spec_count(c) == count_code(self.history@, c)
        &&& self.codes.spec_total() == count_carrying(self.history@)
        &&& forall|r: Reason| self.reasons.spec_get(r) == count_reason(self.history@, r)
        &&& self.latency.wf()
        &&& self.latency.spec_count() as int == self.history@.len()
        &&& self.history@.len() > 0 ==> self.latency.spec_min() == min_elapsed(self.history@)
            && self.latency.spec_max() == max_elapsed(self.history@)
    }

    /// A fresh aggregator that has consumed nothing.
    pub fn new() -> (r: Accumulator)
        ensures
            r.wf(),
            r.history() == Seq::<Outcome>::empty(),
    {
        Accumulator {
            succeeded: 0,
            failed: 0,
            codes: CodeCounts::new(),
            reasons: FailureReasons::new(),
            latency: LatencyEstimator::new(),
            history: Ghost(Seq::empty()),
        }
    }

    /// How many outcomes were consumed so far.
    pub fn count(&self) -> (r: u64)
        requires
            self.wf(),
        ensures
            r as int == self.history().len(),
    {
        self.latency.count()
    }

    /// Consume one resolved outcome: exactly one of the success/failure
    /// counters rises; the outcome's status code, if it carries one, is
    /// recorded; a failure raises every matching reason class; the elapsed
    /// time feeds the latency estimator.
    pub fn observe(&mut self, o: Outcome)
        requires
            old(self).wf(),
            old(self).history().len() < 0xFFFF_FFFF,
        ensures
            final(self).wf(),
            final(self).history() == old(self).history().push(o),
    {
        proof {
            lemma_counts_push(self.history@, o);
            lemma_counts_bounds(self.history@);
            lemma_counts_bounds(self.history@.push(o));
        }
        self.history = Ghost(self.history@.push(o));
        match o {
            Outcome::Response { status_code, elapsed_ns } => {
                self.codes.increment(status_code);
                if 200 <= status_code && status_code <= 299 {
                    self.succeeded = self.succeeded + 1;
                } else {
                    self.failed = self.failed + 1;
                }
                self.latency.observe(elapsed_ns);
            },
            Outcome::Failure { flags, reported_code, elapsed_ns } => {
                self.failed = self.failed + 1;
                if let Some(c) = reported_code {
                    self.codes.increment(c);
                }
                self.reasons.record(&flags);
                self.latency.observe(elapsed_ns);
            },
        }
    }

    /// Freeze the accumulators into the run's report. Successes and
    /// failures partition the consumed outcomes; the response-code counts
    /// are exact per code and sum to the number of outcomes that carried a
    /// code; every reason-class tally is exact; the histogram is present
    /// exactly when an outcome was consumed, its extrema are exact, and
    /// its quantile estimates are ordered between them.
    pub fn finish(self, correlation_id: u128) -> (r: RunReport)
        requires
            self.wf(),
        ensures
            r.succeeded as int == count_success(self.history()),
            r.failed as int == count_failure(self.history()),
            r.succeeded + r.failed == self.history().len(),
            r.response_codes.wf(),
            forall|c: u16| r.response_codes.spec_count(c) == count_code(self.history(), c),
            r.response_codes.spec_total() == count_carrying(self.history()),
            forall|c: Reason| r.failure_reasons.spec_get(c) == count_reason(self.history(), c),
            r.histogram is Some <==> self.history().len() > 0,
            self.history().len() > 0 ==> (r.histogram matches Some(h) && h.min_ns == min_elapsed(
                self.history(),
            ) && h.max_ns == max_elapsed(self.history()) && h.min_ns <= h.p50_ns <= h.p95_ns
                <= h.p99_ns <= h.max_ns),
            r.correlation_id == correlation_id,
    {
        proof {
            lemma_counts_bounds(self.history@);
        }
        let histogram = if self.latency.count() == 0 {
            None
        } else {
            Some(self.latency.snapshot())
        };
        RunReport {
            succeeded: self.succeeded,
            failed: self.failed,
            response_codes: self.codes,
            histogram,
            failure_reasons: self.reasons,
            correlation_id,
        }
    }
}

/// Fold an already-collected batch of outcomes into a report, exactly as
/// the streaming aggregator would have, one outcome at a time in order.
pub fn aggregate_outcomes(outcomes: &Vec<Outcome>, correlation_id: u128) -> (r: RunReport)
    requires
        outcomes@.len() < 0xFFFF_FFFF,
    ensures
        r.succeeded as int == count_success(outcomes@),
        r.failed as int == count_failure(outcomes@),
        r.succeeded + r.failed == outcomes@.len(),
        r.response_codes.wf(),
        forall|c: u16| r.response_codes.spec_count(c) == count_code(outcomes@, c),
        r.response_codes.spec_total() == count_carrying(outcomes@),
        forall|c: Reason| r.failure_reasons.spec_get(c) == count_reason(outcomes@, c),
        r.histogram is Some <==> outcomes@.len() > 0,
        outcomes@.len() > 0 ==> (r.histogram matches Some(h) && h.min_ns == min_elapsed(outcomes@)
            && h.max_ns == max_elapsed(outcomes@) && h.min_ns <= h.p50_ns <= h.p95_ns <= h.p99_ns
            <= h.max_ns),
        r.correlation_id == correlation_id,
{
    let mut acc = Accumulator::new();
    let n = outcomes.len();
    let mut i: usize = 0;
    proof {
        assert(outcomes@.take(0) =~= Seq::<Outcome>::empty());
    }
    while i < n
        invariant
            n == outcomes@.len() < 0xFFFF_FFFF,
            0 <= i <= n,
            acc.wf(),
            acc.history() == outcomes@.take(i as int),
        decreases n - i,
    {
        acc.observe(outcomes[i]);
        proof {
            assert(outcomes@.take(i as int).push(outcomes@[i as int]) =~= outcomes@.take(
                i as int + 1,
            ));
        }
        i += 1;
    }
    proof {
        assert(outcomes@.take(n as int) =~= outcomes@);
    }
    acc.finish(correlation_id)
}

} // verus!

