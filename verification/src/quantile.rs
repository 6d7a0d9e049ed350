//! Streaming latency statistics: running extrema and single-pass,
//! bounded-memory quantile estimation over integer nanosecond durations.
//!
//! Each quantile is tracked by a five-marker estimator in the style of the
//! P-square algorithm: the outer markers hold the running minimum and
//! maximum, the interior markers drift towards the target quantile's ideal
//! position, moving by parabolic (or, at the edges, linear) interpolation.
//! All marker heights stay between the running extrema, which is what the
//! histogram's ordering guarantee rests on. No raw samples are retained
//! beyond the first five.

use vstd::prelude::*;

verus! {

/// A sequence is sorted in non-decreasing order.
pub open spec fn sorted(s: Seq<u64>) -> bool {
    forall|i: int, j: int| 0 <= i <= j < s.len() ==> s[i] <= s[j]
}

/// An integer division never exceeds its dividend.
proof fn lemma_div_le(x: int, d: int)
    requires
        x >= 0,
        d >= 1,
    ensures
        x / d <= x,
{
    assert(x / d <= x) by (nonlinear_arith)
        requires
            x >= 0,
            d >= 1,
    ;
}

/// A product of an observation count (at most 2^32) and a scaled quantile
/// factor (at most 199) stays well under the u64 limit.
proof fn lemma_mul_small(a: int, b: int)
    requires
        0 <= a <= 0xFFFF_FFFF,
        0 <= b <= 199,
    ensures
        0 <= a * b <= 0xFFFF_FFFFint * 199,
{
    assert(0 <= a * b <= 0xFFFF_FFFFint * 199) by (nonlinear_arith)
        requires
            0 <= a <= 0xFFFF_FFFF,
            0 <= b <= 199,
    ;
}

/// A product of a position gap (at most 2^32) and a height difference
/// (at most 2^64 - 1) stays well under the u128 limit.
proof fn lemma_mul_bound(a: int, b: int)
    requires
        0 <= a <= 0x1_0000_0000,
        0 <= b <= 0xFFFF_FFFF_FFFF_FFFF,
    ensures
        0 <= a * b <= 0x1_0000_0000_0000_0000_0000_0000,
{
    assert(0 <= a * b <= 0x1_0000_0000_0000_0000_0000_0000int) by (nonlinear_arith)
        requires
            0 <= a <= 0x1_0000_0000,
            0 <= b <= 0xFFFF_FFFF_FFFF_FFFF,
    ;
}

/// Insert `x` into a sorted vector, keeping it sorted. The head stays the
/// minimum and the tail the maximum of the old contents and `x`.
fn insert_sorted(v: &mut Vec<u64>, x: u64)
    requires
        sorted(old(v)@),
        old(v)@.len() < 8,
    ensures
        sorted(final(v)@),
        final(v)@.len() == old(v)@.len() + 1,
        old(v)@.len() == 0 ==> final(v)@[0] == x && final(v)@.last() == x,
        old(v)@.len() > 0 ==> final(v)@[0] == (if x < old(v)@[0] {
            x
        } else {
            old(v)@[0]
        }),
        old(v)@.len() > 0 ==> final(v)@.last() == (if x > old(v)@.last() {
            x
        } else {
            old(v)@.last()
        }),
{
    let n = v.len();
    let mut i: usize = 0;
    while i < n && v[i] <= x
        invariant
            n == v@.len(),
            0 <= i <= n,
            *v == *old(v),
            forall|j: int| 0 <= j < i ==> v@[j] <= x,
        decreases n - i,
    {
        i += 1;
    }
    v.insert(i, x);
    proof {
        let olds = old(v)@;
        let news = v@;
        assert forall|a: int, b: int| 0 <= a <= b < news.len() implies news[a] <= news[b] by {
            if b < i {
                assert(news[a] == olds[a] && news[b] == olds[b]);
            } else if a < i && b == i {
                assert(news[a] == olds[a] && news[b] == x);
            } else if a < i && b > i {
                assert(news[a] == olds[a] && news[b] == olds[b - 1]);
                assert(olds[i as int] > x);
                assert(olds[i as int] <= olds[b - 1]);
            } else if a == i && b == i {
            } else if a == i && b > i {
                assert(news[b] == olds[b - 1]);
                assert(olds[i as int] > x);
                assert(olds[i as int] <= olds[b - 1]);
            } else {
                assert(news[a] == olds[a - 1] && news[b] == olds[b - 1]);
            }
        }
    }
}

/// Move one interior marker of a five-marker estimator. `desired200` is
/// the marker's ideal position scaled by 200; the marker moves one step
/// towards it when it lags by a full position and its neighbour leaves
/// room. The new height is the parabolic-interpolation candidate when that
/// lands strictly between the neighbours' heights, else the linear one;
/// either way it stays within them, and the new position stays strictly
/// between the neighbours' positions.
fn adjust(desired200: u64, q_prev: u64, q_i: u64, q_next: u64, n_prev: u64, n_i: u64, n_next: u64)
    -> (r: (u64, u64))
    requires
        q_prev <= q_i <= q_next,
        n_prev < n_i < n_next,
        n_next <= 0xFFFF_FFFFu64,
    ensures
        q_prev <= r.0 <= q_next,
        n_prev < r.1 < n_next,
{
    let cur200: u64 = 200 * n_i;
    if desired200 >= cur200 + 200 && n_next - n_i > 1 {
        let ga: u128 = (n_i - n_prev + 1) as u128;
        let da: u128 = (q_next - q_i) as u128;
        let gb: u128 = (n_next - n_i - 1) as u128;
        let db: u128 = (q_i - q_prev) as u128;
        proof {
            lemma_mul_bound(ga as int, da as int);
            lemma_mul_bound(gb as int, db as int);
            lemma_div_le(ga * da, (n_next - n_i) as int);
            lemma_div_le(gb * db, (n_i - n_prev) as int);
        }
        let a: u128 = ga * da / ((n_next - n_i) as u128);
        let b: u128 = gb * db / ((n_i - n_prev) as u128);
        let inc: u128 = (a + b) / ((n_next - n_prev) as u128);
        let nq: u64 = if inc <= (q_next - q_i) as u128 {
            q_i + (inc as u64)
        } else {
            proof {
                lemma_div_le((q_next - q_i) as int, (n_next - n_i) as int);
            }
            q_i + (q_next - q_i) / (n_next - n_i)
        };
        (nq, n_i + 1)
    } else if desired200 <= cur200 - 200 && n_i - n_prev > 1 {
        let ga: u128 = (n_i - n_prev - 1) as u128;
        let da: u128 = (q_next - q_i) as u128;
        let gb: u128 = (n_next - n_i + 1) as u128;
        let db: u128 = (q_i - q_prev) as u128;
        proof {
            lemma_mul_bound(ga as int, da as int);
            lemma_mul_bound(gb as int, db as int);
            lemma_div_le(ga * da, (n_next - n_i) as int);
            lemma_div_le(gb * db, (n_i - n_prev) as int);
        }
        let a: u128 = ga * da / ((n_next - n_i) as u128);
        let b: u128 = gb * db / ((n_i - n_prev) as u128);
        let dec: u128 = (a + b) / ((n_next - n_prev) as u128);
        let nq: u64 = if dec <= (q_i - q_prev) as u128 {
            q_i - (dec as u64)
        } else {
            proof {
                lemma_div_le((q_i - q_prev) as int, (n_i - n_prev) as int);
            }
            q_i - (q_i - q_prev) / (n_i - n_prev)
        };
        (nq, n_i - 1)
    } else {
        (q_i, n_i)
    }
}

/// A streaming estimator for one quantile (the target in hundredths, so
/// 50 stands for the median). The first five observations are buffered;
/// from then on five markers are maintained in O(1) memory per
/// observation. The outer markers are the exact running minimum and
/// maximum, and the estimate always lies between them.
pub struct Quantile {
    p: u64,
    count: u64,
    buf: Vec<u64>,
    q0: u64,
    q1: u64,
    q2: u64,
    q3: u64,
    q4: u64,
    n1: u64,
    n2: u64,
    n3: u64,
}

impl Quantile {
    /// The target quantile in hundredths.
    pub closed spec fn spec_p(self) -> u64 {
        self.p
    }

    /// How many durations were observed.
    pub closed spec fn spec_count(self) -> u64 {
        self.count
    }

    /// The smallest observed duration (meaningful once one was observed).
    pub closed spec fn lo(self) -> u64 {
        if self.count < 5 {
            self.buf@[0]
        } else {
            self.q0
        }
    }

    /// The largest observed duration (meaningful once one was observed).
    pub closed spec fn hi(self) -> u64 {
        if self.count < 5 {
            self.buf@.last()
        } else {
            self.q4
        }
    }

    /// Marker heights are ordered and bracketed by the extrema; marker
    /// positions are strictly increasing between the first position (1)
    /// and the last (the observation count).
    pub closed spec fn wf(self) -> bool {
        &&& 1 <= self.p <= 99
        &&& self.count <= 0xFFFF_FFFFu64
        &&& if self.count < 5 {
            self.buf@.len() == self.count && sorted(self.buf@)
        } else {
            &&& self.buf@.len() == 0
            &&& self.q0 <= self.q1 <= self.q2 <= self.q3 <= self.q4
            &&& 1 < self.n1 < self.n2 < self.n3 < self.count
        }
    }

    /// A fresh estimator for the quantile `p` hundredths.
    pub fn new(p: u64) -> (r: Quantile)
        requires
            1 <= p <= 99,
        ensures
            r.wf(),
            r.spec_count() == 0,
            r.spec_p() == p,
    {
        Quantile {
            p,
            count: 0,
            buf: Vec::new(),
            q0: 0,
            q1: 0,
            q2: 0,
            q3: 0,
            q4: 0,
            n1: 2,
            n2: 3,
            n3: 4,
        }
    }

    /// Feed one duration. The running extrema follow the observation and
    /// everything else stays well formed.
    pub fn observe(&mut self, x: u64)
        requires
            old(self).wf(),
            old(self).spec_count() < 0xFFFF_FFFFu64,
        ensures
            final(self).wf(),
            final(self).spec_count() == old(self).spec_count() + 1,
            final(self).spec_p() == old(self).spec_p(),
            old(self).spec_count() == 0 ==> final(self).lo() == x && final(self).hi() == x,
            old(self).spec_count() > 0 ==> final(self).lo() == (if x < old(self).lo() {
                x
            } else {
                old(self).lo()
            }),
            old(self).spec_count() > 0 ==> final(self).hi() == (if x > old(self).hi() {
                x
            } else {
                old(self).hi()
            }),
    {
        if self.count < 4 {
            insert_sorted(&mut self.buf, x);
            self.count = self.count + 1;
        } else if self.count == 4 {
            insert_sorted(&mut self.buf, x);
            self.count = 5;
            self.q0 = self.buf[0];
            self.q1 = self.buf[1];
            self.q2 = self.buf[2];
            self.q3 = self.buf[3];
            self.q4 = self.buf[4];
            self.n1 = 2;
            self.n2 = 3;
            self.n3 = 4;
            self.buf.clear();
        } else {
            if x < self.q0 {
                self.q0 = x;
            }
            if x > self.q4 {
                self.q4 = x;
            }
            if x < self.q1 {
                self.n1 = self.n1 + 1;
                self.n2 = self.n2 + 1;
                self.n3 = self.n3 + 1;
            } else if x < self.q2 {
                self.n2 = self.n2 + 1;
                self.n3 = self.n3 + 1;
            } else if x < self.q3 {
                self.n3 = self.n3 + 1;
            }
            self.count = self.count + 1;
            let nm1: u64 = self.count - 1;
            proof {
                lemma_mul_small(nm1 as int, self.p as int);
                lemma_mul_small(nm1 as int, 2 * (self.p as int));
                lemma_mul_small(nm1 as int, 100 + self.p as int);
            }
            let d1: u64 = 200 + nm1 * self.p;
            let d2: u64 = 200 + nm1 * (2 * self.p);
            let d3: u64 = 200 + nm1 * (100 + self.p);
            let r1: (u64, u64) = adjust(d1, self.q0, self.q1, self.q2, 1, self.n1, self.n2);
            self.q1 = r1.0;
            self.n1 = r1.1;
            let r2: (u64, u64) = adjust(d2, self.q1, self.q2, self.q3, self.n1, self.n2, self.n3);
            self.q2 = r2.0;
            self.n2 = r2.1;
            let r3: (u64, u64) = adjust(
                d3,
                self.q2,
                self.q3,
                self.q4,
                self.n2,
                self.n3,
                self.count,
            );
            self.q3 = r3.0;
            self.n3 = r3.1;
        }
    }

    /// The current estimate of the target quantile. While five or fewer
    /// durations were seen this is an exact order statistic of the buffer;
    /// afterwards it is the middle marker's height. Either way it lies
    /// between the smallest and the largest observed duration.
    pub fn estimate(&self) -> (r: u64)
        requires
            self.wf(),
            self.spec_count() > 0,
        ensures
            self.lo() <= r <= self.hi(),
    {
        if self.count >= 5 {
            self.q2
        } else {
            let len = self.buf.len();
            proof {
                assert((self.p as int) * ((len - 1) as int) <= 99 * 3) by (nonlinear_arith)
                    requires
                        0 < self.p <= 99,
                        1 <= len <= 4,
                ;
            }
            let mut idx: usize = ((self.p as usize) * (len - 1) + 50) / 100;
            if idx >= len {
                idx = len - 1;
            }
            proof {
                assert(self.buf@[0] <= self.buf@[idx as int]);
                assert(self.buf@[idx as int] <= self.buf@[len - 1]);
            }
            self.buf[idx]
        }
    }
}

/// The running latency statistics of a run: exact extrema plus streaming
/// estimates for the median, the 95th and the 99th percentile, all in
/// nanoseconds, in O(1) memory per observation.
pub struct LatencyEstimator {
    count: u64,
    min_ns: u64,
    max_ns: u64,
    q50: Quantile,
    q95: Quantile,
    q99: Quantile,
}

/// The latency section of the final report: extrema and quantile
/// estimates of the observed per-request durations, in nanoseconds.
#[derive(Debug, Clone, Copy)]
pub struct Histogram {
    pub min_ns: u64,
    pub p50_ns: u64,
    pub p95_ns: u64,
    pub p99_ns: u64,
    pub max_ns: u64,
}

impl LatencyEstimator {
    /// How many durations were observed.
    pub closed spec fn spec_count(self) -> u64 {
        self.count
    }

    /// The smallest observed duration.
    pub closed spec fn spec_min(self) -> u64 {
        self.min_ns
    }

    /// The largest observed duration.
    pub closed spec fn spec_max(self) -> u64 {
        self.max_ns
    }

    /// The three quantile estimators follow the same stream, so they agree
    /// on the count and on the extrema.
    pub closed spec fn wf(self) -> bool {
        &&& self.q50.wf() && self.q95.wf() && self.q99.wf()
        &&& self.q50.spec_p() == 50 && self.q95.spec_p() == 95 && self.q99.spec_p() == 99
        &&& self.q50.spec_count() == self.count
        &&& self.q95.spec_count() == self.count
        &&& self.q99.spec_count() == self.count
        &&& self.count > 0 ==> {
            &&& self.q50.lo() == self.min_ns && self.q50.hi() == self.max_ns
            &&& self.q95.lo() == self.min_ns && self.q95.hi() == self.max_ns
            &&& self.q99.lo() == self.min_ns && self.q99.hi() == self.max_ns
            &&& self.min_ns <= self.max_ns
        }
    }

    /// A fresh estimator with no observations.
    pub fn new() -> (r: LatencyEstimator)
        ensures
            r.wf(),
            r.spec_count() == 0,
    {
        LatencyEstimator {
            count: 0,
            min_ns: 0,
            max_ns: 0,
            q50: Quantile::new(50),
            q95: Quantile::new(95),
            q99: Quantile::new(99),
        }
    }

    /// How many durations were observed so far.
    pub fn count(&self) -> (r: u64)
        ensures
            r == self.spec_count(),
    {
        self.count
    }

    /// Feed one duration: the count rises by one and the extrema absorb
    /// the new value.
    pub fn observe(&mut self, x: u64)
        requires
            old(self).wf(),
            old(self).spec_count() < 0xFFFF_FFFFu64,
        ensures
            final(self).wf(),
            final(self).spec_count() == old(self).spec_count() + 1,
            old(self).spec_count() == 0 ==> final(self).spec_min() == x && final(self).spec_max()
                == x,
            old(self).spec_count() > 0 ==> final(self).spec_min() == (if x < old(self).spec_min() {
                x
            } else {
                old(self).spec_min()
            }),
            old(self).spec_count() > 0 ==> final(self).spec_max() == (if x > old(self).spec_max() {
                x
            } else {
                old(self).spec_max()
            }),
    {
        if self.count == 0 {
            self.min_ns = x;
            self.max_ns = x;
        } else {
            if x < self.min_ns {
                self.min_ns = x;
            }
            if x > self.max_ns {
                self.max_ns = x;
            }
        }
        self.q50.observe(x);
        self.q95.observe(x);
        self.q99.observe(x);
        self.count = self.count + 1;
    }

    /// Freeze the statistics into the report's histogram. The extrema are
    /// exact; the three quantile estimates are reported in quantile order
    /// (each raised to the previous one where the independent estimators
    /// momentarily cross), and all of them lie between the extrema.
    pub fn snapshot(&self) -> (h: Histogram)
        requires
            self.wf(),
            self.spec_count() > 0,
        ensures
            h.min_ns == self.spec_min(),
            h.max_ns == self.spec_max(),
            h.min_ns <= h.p50_ns <= h.p95_ns <= h.p99_ns <= h.max_ns,
    {
        let p50 = self.q50.estimate();
        let e95 = self.q95.estimate();
        let p95 = if e95 < p50 {
            p50
        } else {
            e95
        };
        let e99 = self.q99.estimate();
        let p99 = if e99 < p95 {
            p95
        } else {
            e99
        };
        Histogram { min_ns: self.min_ns, p50_ns: p50, p95_ns: p95, p99_ns: p99, max_ns: self.max_ns }
    }
}

} // verus!
