//! Tally of failure-reason classes.

use vstd::prelude::*;
use crate::outcome::flag_of;
use crate::outcome::FailureFlags;
use crate::outcome::Reason;

verus! {

/// One counter per failure-reason class. A single failure may raise
/// several counters at once, since the classes are not mutually exclusive;
/// a failure matching no known class raises `other` alone.
#[derive(Debug, Clone, Copy)]
pub struct FailureReasons {
    pub body: u64,
    pub builder: u64,
    pub connect: u64,
    pub decode: u64,
    pub redirect: u64,
    pub status: u64,
    pub timeout: u64,
    pub other: u64,
}

impl FailureReasons {
    /// The counter that belongs to reason class `r`.
    pub open spec fn spec_get(self, r: Reason) -> int {
        match r {
            Reason::Body => self.body as int,
            Reason::Builder => self.builder as int,
            Reason::Connect => self.connect as int,
            Reason::Decode => self.decode as int,
            Reason::Redirect => self.redirect as int,
            Reason::Status => self.status as int,
            Reason::Timeout => self.timeout as int,
            Reason::Other => self.other as int,
        }
    }

    /// All counters start at zero.
    pub fn new() -> (r: FailureReasons)
        ensures
            forall|c: Reason| r.spec_get(c) == 0,
    {
        FailureReasons {
            body: 0,
            builder: 0,
            connect: 0,
            decode: 0,
            redirect: 0,
            status: 0,
            timeout: 0,
            other: 0,
        }
    }

    /// Tally one classified failure: each class whose flag is set rises by
    /// exactly one, every other class is unchanged, and `other` rises by
    /// one exactly when no flag is set.
    pub fn record(&mut self, f: &FailureFlags)
        requires
            forall|c: Reason| old(self).spec_get(c) < u64::MAX,
        ensures
            forall|c: Reason|
                final(self).spec_get(c) == old(self).spec_get(c) + if flag_of(*f, c) {
                    1int
                } else {
                    0int
                },
    {
        proof {
            assert(old(self).spec_get(Reason::Body) < u64::MAX);
            assert(old(self).spec_get(Reason::Builder) < u64::MAX);
            assert(old(self).spec_get(Reason::Connect) < u64::MAX);
            assert(old(self).spec_get(Reason::Decode) < u64::MAX);
            assert(old(self).spec_get(Reason::Redirect) < u64::MAX);
            assert(old(self).spec_get(Reason::Status) < u64::MAX);
            assert(old(self).spec_get(Reason::Timeout) < u64::MAX);
            assert(old(self).spec_get(Reason::Other) < u64::MAX);
        }
        let unclassified = !(f.body || f.builder || f.connect || f.decode || f.redirect
            || f.status || f.timeout);
        let tallied = FailureReasons {
            body: if f.body {
                self.body + 1
            } else {
                self.body
            },
            builder: if f.builder {
                self.builder + 1
            } else {
                self.builder
            },
            connect: if f.connect {
                self.connect + 1
            } else {
                self.connect
            },
            decode: if f.decode {
                self.decode + 1
            } else {
                self.decode
            },
            redirect: if f.redirect {
                self.redirect + 1
            } else {
                self.redirect
            },
            status: if f.status {
                self.status + 1
            } else {
                self.status
            },
            timeout: if f.timeout {
                self.timeout + 1
            } else {
                self.timeout
            },
            other: if unclassified {
                self.other + 1
            } else {
                self.other
            },
        };
        *self = tallied;
    }
}

} // verus!
