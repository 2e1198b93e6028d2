//! Who holds which fork. The table records, for every fork, the seat of
//! the philosopher currently holding it, or nothing when the fork lies
//! free. Because a fork has a single holder entry, two seats can never
//! hold the same fork at once; the acquisition protocol builds on the
//! non-blocking `try_acquire` below, which takes a free fork or reports
//! failure without waiting.

use vstd::prelude::*;

verus! {

/// The state of all forks: entry `f` is the seat number of the
/// philosopher holding fork `f`, or `None` when it lies on the table.
pub struct ForkTable {
    pub holders: Vec<Option<usize>>,
}

impl ForkTable {
    /// The number of forks on the table.
    pub open spec fn spec_len(self) -> nat {
        self.holders@.len()
    }

    /// Who holds fork `f`: a seat number, or `None` when it is free.
    pub open spec fn holder(self, f: int) -> Option<usize>
        recommends
            0 <= f < self.spec_len(),
    {
        self.holders@[f]
    }

    /// Seat `p` holds fork `f`.
    pub open spec fn holds(self, f: int, p: usize) -> bool {
        &&& 0 <= f < self.spec_len()
        &&& self.holder(f) == Some(p)
    }

    /// Fork `f` lies free on the table.
    pub open spec fn is_free(self, f: int) -> bool {
        self.holder(f) is None
    }

    /// Every fork lies free.
    pub open spec fn all_free(self) -> bool {
        forall|f: int| 0 <= f < self.spec_len() ==> self.is_free(f)
    }

    /// Set the table with `n` forks, none of them held.
    pub fn new(n: usize) -> (t: ForkTable)
        ensures
            t.spec_len() == n,
            t.all_free(),
    {
        let mut holders: Vec<Option<usize>> = Vec::new();
        let mut i: usize = 0;
        while i < n
            invariant
                i <= n,
                holders@.len() == i,
                forall|f: int| 0 <= f < i ==> holders@[f] is None,
            decreases n - i,
        {
            holders.push(None);
            i = i + 1;
        }
        ForkTable { holders }
    }

    pub fn len(&self) -> (n: usize)
        ensures
            n == self.spec_len(),
    {
        self.holders.len()
    }

    /// Probe whether fork `f` is free right now, without taking it.
    pub fn free(&self, f: usize) -> (r: bool)
        requires
            f < self.spec_len(),
        ensures
            r == self.is_free(f as int),
    {
        self.holders[f].is_none()
    }

    /// A non-blocking grab of fork `f` by seat `p`: it succeeds exactly
    /// when the fork is free, and then records `p` as the holder; on
    /// failure nothing changes. No other fork is touched either way.
    pub fn try_acquire(&mut self, f: usize, p: usize) -> (got: bool)
        requires
            f < old(self).spec_len(),
        ensures
            final(self).spec_len() == old(self).spec_len(),
            got == old(self).is_free(f as int),
            got ==> final(self).holds(f as int, p),
            !got ==> final(self).holder(f as int) == old(self).holder(f as int),
            forall|g: int|
                0 <= g < old(self).spec_len() && g != f ==> final(self).holder(g) == old(
                    self,
                ).holder(g),
    {
        if self.holders[f].is_none() {
            self.holders.set(f, Some(p));
            true
        } else {
            false
        }
    }

    /// Put fork `f` back: only its current holder may do so, and
    /// afterwards the fork is free again. No other fork is touched.
    pub fn release(&mut self, f: usize, p: usize)
        requires
            old(self).holds(f as int, p),
        ensures
            final(self).spec_len() == old(self).spec_len(),
            final(self).is_free(f as int),
            forall|g: int|
                0 <= g < old(self).spec_len() && g != f ==> final(self).holder(g) == old(
                    self,
                ).holder(g),
    {
        self.holders.set(f, None);
    }
}

/// Mutual exclusion: a fork records at most one holder, so at no instant
/// do two distinct seats hold the same fork.
pub proof fn lemma_mutual_exclusion(t: ForkTable, f: int, p: usize, q: usize)
    requires
        t.holds(f, p),
        t.holds(f, q),
    ensures
        p == q,
{
}

} // verus!
