//! Frequency table of observed HTTP status codes.

use vstd::prelude::*;

verus! {

/// The count a table of (code, count) pairs gives to code `c`.
pub open spec fn lookup(s: Seq<(u16, u64)>, c: u16) -> int
    decreases s.len(),
{
    if s.len() == 0 {
        0
    } else {
        lookup(s.drop_last(), c) + if s.last().0 == c {
            s.last().1 as int
        } else {
            0int
        }
    }
}

/// The sum of all counts of a table of (code, count) pairs.
pub open spec fn total(s: Seq<(u16, u64)>) -> int
    decreases s.len(),
{
    if s.len() == 0 {
        0
    } else {
        total(s.drop_last()) + s.last().1
    }
}

pub proof fn lemma_lookup_nonneg(s: Seq<(u16, u64)>, c: u16)
    ensures
        0 <= lookup(s, c) <= total(s),
        0 <= total(s),
    decreases s.len(),
{
    if s.len() > 0 {
        lemma_lookup_nonneg(s.drop_last(), c);
    }
}

/// Each single entry's count is at most the table's total.
pub proof fn lemma_entry_le_total(s: Seq<(u16, u64)>, i: int)
    requires
        0 <= i < s.len(),
    ensures
        s[i].1 as int <= total(s),
    decreases s.len(),
{
    lemma_lookup_nonneg(s.drop_last(), 0);
    if i < s.len() - 1 {
        lemma_entry_le_total(s.drop_last(), i);
    }
}

/// A table without an entry for `c` counts `c` zero times.
pub proof fn lemma_lookup_absent(s: Seq<(u16, u64)>, c: u16)
    requires
        forall|j: int| 0 <= j < s.len() ==> (#[trigger] s[j]).0 != c,
    ensures
        lookup(s, c) == 0,
    decreases s.len(),
{
    if s.len() > 0 {
        lemma_lookup_absent(s.drop_last(), c);
    }
}

/// In a table with pairwise-distinct codes, the count of `c` is the count
/// stored in its one entry.
pub proof fn lemma_lookup_present(s: Seq<(u16, u64)>, i: int)
    requires
        0 <= i < s.len(),
        forall|j: int, k: int|
            0 <= j < k < s.len() ==> (#[trigger] s[j]).0 != (#[trigger] s[k]).0,
    ensures
        lookup(s, s[i].0) == s[i].1 as int,
    decreases s.len(),
{
    if i == s.len() - 1 {
        assert(forall|j: int| 0 <= j < s.drop_last().len() ==> (#[trigger] s.drop_last()[j]).0
            != s[i].0);
        lemma_lookup_absent(s.drop_last(), s[i].0);
    } else {
        lemma_lookup_present(s.drop_last(), i);
    }
}

/// Raising the count of the entry at `i` by one raises the table's count
/// of that entry's code by one, leaves every other code's count unchanged,
/// and raises the total by one.
pub proof fn lemma_lookup_update(s: Seq<(u16, u64)>, i: int, v: u64)
    requires
        0 <= i < s.len(),
        s[i].1 < u64::MAX,
        v == s[i].1 + 1,
    ensures
        lookup(s.update(i, (s[i].0, v)), s[i].0) == lookup(s, s[i].0) + 1,
        forall|d: u16|
            d != s[i].0 ==> lookup(s.update(i, (s[i].0, v)), d) == lookup(s, d),
        total(s.update(i, (s[i].0, v))) == total(s) + 1,
    decreases s.len(),
{
    let s2 = s.update(i, (s[i].0, v));
    if i == s.len() - 1 {
        assert(s2.drop_last() =~= s.drop_last());
        assert(s2.last() == (s[i].0, v));
        assert forall|d: u16| d != s[i].0 implies lookup(s2, d) == lookup(s, d) by {
            assert(lookup(s2, d) == lookup(s2.drop_last(), d));
            assert(lookup(s, d) == lookup(s.drop_last(), d));
        }
    } else {
        lemma_lookup_update(s.drop_last(), i, v);
        assert(s2.drop_last() =~= s.drop_last().update(i, (s[i].0, v)));
        assert(s2.last() == s.last());
        assert(s.drop_last()[i] == s[i]);
        assert forall|d: u16| d != s[i].0 implies lookup(s2, d) == lookup(s, d) by {
            assert(lookup(s.drop_last().update(i, (s[i].0, v)), d) == lookup(s.drop_last(), d));
        }
    }
}

/// Appending a fresh entry (c, 1) raises the count of `c` and the total by
/// one and leaves every other code's count unchanged.
pub proof fn lemma_lookup_push(s: Seq<(u16, u64)>, c: u16)
    ensures
        lookup(s.push((c, 1u64)), c) == lookup(s, c) + 1,
        forall|d: u16| d != c ==> lookup(s.push((c, 1u64)), d) == lookup(s, d),
        total(s.push((c, 1u64))) == total(s) + 1,
{
    assert(s.push((c, 1u64)).drop_last() =~= s);
}

/// Frequency of each observed status code: a small table of (code, count)
/// pairs whose codes are pairwise distinct.
pub struct CodeCounts {
    entries: Vec<(u16, u64)>,
}

impl CodeCounts {
    /// The table's entries, for specification purposes.
    pub closed spec fn view(self) -> Seq<(u16, u64)> {
        self.entries@
    }

    /// Codes are pairwise distinct, so each code has one entry.
    pub open spec fn wf(self) -> bool {
        forall|j: int, k: int|
            0 <= j < k < self@.len() ==> (#[trigger] self@[j]).0 != (#[trigger] self@[k]).0
    }

    /// The count recorded for code `c` (zero when absent).
    pub open spec fn spec_count(self, c: u16) -> int {
        lookup(self@, c)
    }

    /// The sum of all recorded counts.
    pub open spec fn spec_total(self) -> int {
        total(self@)
    }

    /// An empty table: every code counts zero.
    pub fn new() -> (r: CodeCounts)
        ensures
            r.wf(),
            r@.len() == 0,
            r.spec_total() == 0,
            forall|c: u16| r.spec_count(c) == 0,
    {
        let r = CodeCounts { entries: Vec::new() };
        proof {
            assert forall|c: u16| r.spec_count(c) == 0 by {
                assert(lookup(r.entries@, c) == 0);
            }
        }
        r
    }

    /// How many distinct codes the table holds.
    pub fn len(&self) -> (r: usize)
        ensures
            r == self@.len(),
    {
        self.entries.len()
    }

    /// The table's (code, count) pairs, in first-seen order.
    pub fn entries(&self) -> (r: &Vec<(u16, u64)>)
        ensures
            r@ == self@,
    {
        &self.entries
    }

    /// The recorded count of code `c`, zero when `c` was never observed.
    pub fn get(&self, c: u16) -> (r: u64)
        requires
            self.wf(),
        ensures
            r as int == self.spec_count(c),
    {
        let n = self.entries.len();
        let mut i: usize = 0;
        while i < n
            invariant
                n == self@.len(),
                0 <= i <= n,
                self.wf(),
                forall|j: int| 0 <= j < i ==> (#[trigger] self@[j]).0 != c,
            decreases n - i,
        {
            let (code, count) = self.entries[i];
            if code == c {
                proof {
                    assert(self@[i as int] == (code, count));
                    lemma_lookup_present(self@, i as int);
                }
                return count;
            }
            i += 1;
        }
        proof {
            assert(forall|j: int| 0 <= j < self@.len() ==> (#[trigger] self@[j]).0 != c);
            lemma_lookup_absent(self@, c);
        }
        0
    }

    /// Record one more observation of code `c`: its count rises by one,
    /// every other code's count is unchanged, the total rises by one.
    pub fn increment(&mut self, c: u16)
        requires
            old(self).wf(),
            old(self).spec_total() < u64::MAX,
        ensures
            final(self).wf(),
            final(self).spec_count(c) == old(self).spec_count(c) + 1,
            forall|d: u16| d != c ==> final(self).spec_count(d) == old(self).spec_count(d),
            final(self).spec_total() == old(self).spec_total() + 1,
    {
        let n = self.entries.len();
        let mut i: usize = 0;
        while i < n
            invariant
                n == self@.len(),
                0 <= i <= n,
                self.wf(),
                *self == *old(self),
                self.spec_total() < u64::MAX,
                forall|j: int| 0 <= j < i ==> (#[trigger] self@[j]).0 != c,
            decreases n - i,
        {
            let (code, count) = self.entries[i];
            if code == c {
                proof {
                    assert(self@[i as int] == (code, count));
                    lemma_entry_le_total(self@, i as int);
                    lemma_lookup_update(self@, i as int, (count + 1) as u64);
                }
                self.entries[i] = (c, count + 1);
                return;
            }
            i += 1;
        }
        proof {
            lemma_lookup_push(self@, c);
        }
        self.entries.push((c, 1));
    }
}

} // verus!
