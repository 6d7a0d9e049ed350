//! The outcome of one request execution, and spec-level accounting over a
//! history of outcomes.

use vstd::prelude::*;

verus! {

/// Non-exclusive classification of a transport failure. A real transport
/// error may satisfy several predicates at once (for example both a
/// connect failure and a timeout), so each class is an independent flag.
#[derive(Debug, Clone, Copy)]
pub struct FailureFlags {
    /// Reading or parsing the response body failed.
    pub body: bool,
    /// The request object could not be constructed.
    pub builder: bool,
    /// TCP/TLS connection establishment failed.
    pub connect: bool,
    /// Decoding the response (e.g. content-encoding) failed.
    pub decode: bool,
    /// The redirect policy was violated.
    pub redirect: bool,
    /// The transport layer reported a status-policy violation.
    pub status: bool,
    /// The operation exceeded a deadline.
    pub timeout: bool,
}

/// What one request execution produced: either an HTTP response with its
/// status code, or a classified transport failure (which may still carry
/// a status code when the transport reported a status-policy violation).
/// Elapsed time is that request's own wall-clock duration in nanoseconds.
#[derive(Debug, Clone, Copy)]
pub enum Outcome {
    Response { status_code: u16, elapsed_ns: u64 },
    Failure { flags: FailureFlags, reported_code: Option<u16>, elapsed_ns: u64 },
}

/// One failure-reason class of the final report. The classes mirror the
/// flags of `FailureFlags`, plus a catch-all for a failure matching none.
#[derive(Debug, Clone, Copy)]
pub enum Reason {
    Body,
    Builder,
    Connect,
    Decode,
    Redirect,
    Status,
    Timeout,
    Other,
}

/// A run counts an outcome as succeeded exactly when an HTTP response
/// arrived with a 2xx status code.
pub open spec fn is_success(o: Outcome) -> bool {
    match o {
        Outcome::Response { status_code, .. } => 200 <= status_code <= 299,
        Outcome::Failure { .. } => false,
    }
}

/// The status code an outcome carries, if any: the code of a response,
/// or the code a status-classified transport failure reported.
pub open spec fn carried_code(o: Outcome) -> Option<u16> {
    match o {
        Outcome::Response { status_code, .. } => Some(status_code),
        Outcome::Failure { reported_code, .. } => reported_code,
    }
}

pub open spec fn elapsed_of(o: Outcome) -> u64 {
    match o {
        Outcome::Response { elapsed_ns, .. } => elapsed_ns,
        Outcome::Failure { elapsed_ns, .. } => elapsed_ns,
    }
}

/// Whether a set of failure flags falls under a reason class: every class
/// whose flag is set matches, and `Other` matches exactly when no flag is
/// set.
pub open spec fn flag_of(flags: FailureFlags, r: Reason) -> bool {
    match r {
        Reason::Body => flags.body,
        Reason::Builder => flags.builder,
        Reason::Connect => flags.connect,
        Reason::Decode => flags.decode,
        Reason::Redirect => flags.redirect,
        Reason::Status => flags.status,
        Reason::Timeout => flags.timeout,
        Reason::Other => !(flags.body || flags.builder || flags.connect || flags.decode
            || flags.redirect || flags.status || flags.timeout),
    }
}

/// Whether a failure outcome falls under a reason class. A response is
/// never tallied as a failure reason; a failure matches every class whose
/// flag is set.
pub open spec fn matches_reason(o: Outcome, r: Reason) -> bool {
    match o {
        Outcome::Response { .. } => false,
        Outcome::Failure { flags, .. } => flag_of(flags, r),
    }
}

/// How many outcomes of a history succeeded.
pub open spec fn count_success(s: Seq<Outcome>) -> int
    decreases s.len(),
{
    if s.len() == 0 {
        0
    } else {
        count_success(s.drop_last()) + if is_success(s.last()) {
            1int
        } else {
            0int
        }
    }
}

/// How many outcomes of a history failed (everything not a success).
pub open spec fn count_failure(s: Seq<Outcome>) -> int
    decreases s.len(),
{
    if s.len() == 0 {
        0
    } else {
        count_failure(s.drop_last()) + if !is_success(s.last()) {
            1int
        } else {
            0int
        }
    }
}

/// How many outcomes of a history carried any status code.
pub open spec fn count_carrying(s: Seq<Outcome>) -> int
    decreases s.len(),
{
    if s.len() == 0 {
        0
    } else {
        count_carrying(s.drop_last()) + if carried_code(s.last()) is Some {
            1int
        } else {
            0int
        }
    }
}

/// How many outcomes of a history carried the status code `c`.
pub open spec fn count_code(s: Seq<Outcome>, c: u16) -> int
    decreases s.len(),
{
    if s.len() == 0 {
        0
    } else {
        count_code(s.drop_last(), c) + if carried_code(s.last()) == Some(c) {
            1int
        } else {
            0int
        }
    }
}

/// How many outcomes of a history fall under reason class `r`.
pub open spec fn count_reason(s: Seq<Outcome>, r: Reason) -> int
    decreases s.len(),
{
    if s.len() == 0 {
        0
    } else {
        count_reason(s.drop_last(), r) + if matches_reason(s.last(), r) {
            1int
        } else {
            0int
        }
    }
}

/// The smallest elapsed time of a non-empty history.
pub open spec fn min_elapsed(s: Seq<Outcome>) -> u64
    recommends
        s.len() > 0,
    decreases s.len(),
{
    if s.len() <= 1 {
        elapsed_of(s[0])
    } else if elapsed_of(s.last()) < min_elapsed(s.drop_last()) {
        elapsed_of(s.last())
    } else {
        min_elapsed(s.drop_last())
    }
}

/// The largest elapsed time of a non-empty history.
pub open spec fn max_elapsed(s: Seq<Outcome>) -> u64
    recommends
        s.len() > 0,
    decreases s.len(),
{
    if s.len() <= 1 {
        elapsed_of(s[0])
    } else if elapsed_of(s.last()) > max_elapsed(s.drop_last()) {
        elapsed_of(s.last())
    } else {
        max_elapsed(s.drop_last())
    }
}

/// Appending one outcome to a history moves every tally by exactly its
/// own contribution: the matching counters rise by one and no other
/// counter moves. In particular a failure matching several reason classes
/// (say both connect and timeout) raises each matching class tally by
/// exactly one.
pub proof fn lemma_counts_push(s: Seq<Outcome>, o: Outcome)
    ensures
        count_success(s.push(o)) == count_success(s) + if is_success(o) {
            1int
        } else {
            0int
        },
        count_failure(s.push(o)) == count_failure(s) + if !is_success(o) {
            1int
        } else {
            0int
        },
        count_carrying(s.push(o)) == count_carrying(s) + if carried_code(o) is Some {
            1int
        } else {
            0int
        },
        forall|c: u16|
            count_code(s.push(o), c) == count_code(s, c) + if carried_code(o) == Some(c) {
                1int
            } else {
                0int
            },
        forall|r: Reason|
            count_reason(s.push(o), r) == count_reason(s, r) + if matches_reason(o, r) {
                1int
            } else {
                0int
            },
        s.len() == 0 ==> min_elapsed(s.push(o)) == elapsed_of(o) && max_elapsed(s.push(o))
            == elapsed_of(o),
        s.len() > 0 ==> min_elapsed(s.push(o)) == if elapsed_of(o) < min_elapsed(s) {
            elapsed_of(o)
        } else {
            min_elapsed(s)
        },
        s.len() > 0 ==> max_elapsed(s.push(o)) == if elapsed_of(o) > max_elapsed(s) {
            elapsed_of(o)
        } else {
            max_elapsed(s)
        },
{
    assert(s.push(o).drop_last() =~= s);
    assert(s.push(o).last() == o);
}

/// Every tally of a history is non-negative and bounded by the history's
/// length; successes and failures partition the history exactly.
pub proof fn lemma_counts_bounds(s: Seq<Outcome>)
    ensures
        count_success(s) + count_failure(s) == s.len(),
        0 <= count_success(s),
        0 <= count_failure(s),
        0 <= count_carrying(s) <= s.len(),
        forall|r: Reason| 0 <= #[trigger] count_reason(s, r) <= count_failure(s),
    decreases s.len(),
{
    if s.len() == 0 {
    } else {
        lemma_counts_bounds(s.drop_last());
        assert forall|r: Reason| 0 <= #[trigger] count_reason(s, r) <= count_failure(s) by {
            assert(0 <= count_reason(s.drop_last(), r) <= count_failure(s.drop_last()));
        }
    }
}

} // verus!
