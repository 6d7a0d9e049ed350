//! The immutable summary a completed run produces.

use vstd::prelude::*;
use crate::codes::CodeCounts;
use crate::quantile::Histogram;
use crate::reasons::FailureReasons;

verus! {

/// The final report of one run: how many requests succeeded (2xx) and
/// failed, how often each status code was seen, the latency statistics
/// (absent when no request completed, rather than fabricated), the tally
/// of failure-reason classes, and the run's correlation identifier.
pub struct RunReport {
    pub succeeded: u64,
    pub failed: u64,
    pub response_codes: CodeCounts,
    pub histogram: Option<Histogram>,
    pub failure_reasons: FailureReasons,
    pub correlation_id: u128,
}

} // verus!
