//! The priority download queue: pending downloads, the running count and
//! the concurrency limit. Higher priority starts first; among equal
//! priorities the earlier arrival starts first.

use vstd::prelude::*;
use crate::config::DownloadConfig;

verus! {

pub struct DownloadQueue {
    pending: Vec<DownloadConfig>,
    active_count: usize,
    max_concurrent: usize,
}

/// Whether entry `i` is the one that starts next: it has the highest rank,
/// and every earlier entry has a strictly lower rank.
pub open spec fn is_next(s: Seq<DownloadConfig>, i: int) -> bool {
    &&& 0 <= i < s.len()
    &&& forall|j: int| 0 <= j < s.len() ==> (#[trigger] s[j]).priority.spec_rank() <= s[i].priority.spec_rank()
    &&& forall|j: int| 0 <= j < i ==> (#[trigger] s[j]).priority.spec_rank() < s[i].priority.spec_rank()
}

/// Index of the entry that starts next: the first one of highest rank.
pub open spec fn next_index(s: Seq<DownloadConfig>) -> int
    recommends
        s.len() > 0,
{
    choose|i: int| #[trigger] is_next(s, i)
}

/// `after` is `before` after one promotion attempt that returned `r`: when
/// a slot is free and a download waits, the next one (see `next_index`) is
/// removed, returned and counted as running; otherwise nothing changes.
pub open spec fn promotes(before: DownloadQueue, after: DownloadQueue, r: Option<DownloadConfig>) -> bool {
    &&& after.limit() == before.limit()
    &&& (before.active() >= before.limit() || before.pending().len() == 0) ==> (r.is_none() && after.pending()
        == before.pending() && after.active() == before.active())
    &&& (before.active() < before.limit() && before.pending().len() > 0) ==> {
        let i = next_index(before.pending());
        &&& 0 <= i < before.pending().len()
        &&& r == Some(before.pending()[i])
        &&& after.pending() == before.pending().remove(i)
        &&& after.active() == before.active() + 1
    }
}

impl DownloadQueue {
    /// Downloads waiting to start, in arrival order.
    pub closed spec fn pending(self) -> Seq<DownloadConfig> {
        self.pending@
    }

    pub closed spec fn active(self) -> nat {
        self.active_count as nat
    }

    pub closed spec fn limit(self) -> nat {
        self.max_concurrent as nat
    }

    /// An empty queue with no running downloads.
    pub fn new(max_concurrent: usize) -> (q: Self)
        ensures
            q.pending().len() == 0,
            q.active() == 0,
            q.limit() == max_concurrent,
    {
        DownloadQueue { pending: Vec::new(), active_count: 0, max_concurrent }
    }

    /// Adds a download behind everything already waiting.
    pub fn push(&mut self, config: DownloadConfig)
        ensures
            final(self).pending() == old(self).pending().push(config),
            final(self).active() == old(self).active(),
            final(self).limit() == old(self).limit(),
    {
        self.pending.push(config);
    }

    /// Changes the concurrency limit; running downloads are not touched.
    pub fn set_max_concurrent(&mut self, n: usize)
        ensures
            final(self).pending() == old(self).pending(),
            final(self).active() == old(self).active(),
            final(self).limit() == n,
    {
        self.max_concurrent = n;
    }

    /// `(active, pending, max_concurrent)`.
    pub fn stats(&self) -> (r: (usize, usize, usize))
        ensures
            r.0 == self.active(),
            r.1 == self.pending().len(),
            r.2 == self.limit(),
    {
        (self.active_count, self.pending.len(), self.max_concurrent)
    }

    /// Removes and returns the download that starts next: the earliest one
    /// of highest priority. The running count is not changed.
    pub fn pop(&mut self) -> (r: Option<DownloadConfig>)
        ensures
            final(self).active() == old(self).active(),
            final(self).limit() == old(self).limit(),
            old(self).pending().len() == 0 ==> r.is_none() && final(self).pending() == old(self).pending(),
            old(self).pending().len() > 0 ==> {
                let i = next_index(old(self).pending());
                &&& 0 <= i < old(self).pending().len()
                &&& r == Some(old(self).pending()[i])
                &&& final(self).pending() == old(self).pending().remove(i)
            },
    {
        if self.pending.len() == 0 {
            return None;
        }
        let mut best: usize = 0;
        let mut i: usize = 1;
        while i < self.pending.len()
            invariant
                0 <= best < i <= self.pending@.len(),
                forall|j: int| 0 <= j < i ==> (#[trigger] self.pending@[j]).priority.spec_rank() <= self.pending@[best as int].priority.spec_rank(),
                forall|j: int| 0 <= j < best ==> (#[trigger] self.pending@[j]).priority.spec_rank() < self.pending@[best as int].priority.spec_rank(),
            decreases self.pending@.len() - i,
        {
            if self.pending[i].priority.rank() > self.pending[best].priority.rank() {
                best = i;
            }
            i = i + 1;
        }
        proof {
            let s = self.pending@;
            let b = best as int;
            assert(is_next(s, b));
            let k = next_index(s);
            if k < b {
                assert(s[k].priority.spec_rank() < s[b].priority.spec_rank());
            } else if k > b {
                assert(s[b].priority.spec_rank() < s[k].priority.spec_rank());
            }
            assert(k == b);
        }
        let e = self.pending.remove(best);
        Some(e)
    }

    /// Starts the next download if a slot is free: when fewer than
    /// `max_concurrent` downloads run and one is waiting, it is removed (as
    /// `pop` removes it) and counted as running.
    pub fn try_promote(&mut self) -> (r: Option<DownloadConfig>)
        ensures
            promotes(*old(self), *final(self), r),
    {
        if self.active_count >= self.max_concurrent {
            return None;
        }
        match self.pop() {
            Some(e) => {
                self.active_count = self.active_count + 1;
                Some(e)
            },
            None => None,
        }
    }

    /// Marks a running download as finished, freeing its slot.
    pub fn finish_one(&mut self)
        requires
            old(self).active() > 0,
        ensures
            final(self).active() == old(self).active() - 1,
            final(self).pending() == old(self).pending(),
            final(self).limit() == old(self).limit(),
    {
        self.active_count = self.active_count - 1;
    }
}

/// Law: the scheduler never starts a download beyond the limit — promoting
/// from a queue at or under its limit leaves it at or under its limit.
pub proof fn lemma_promote_respects_limit(before: DownloadQueue, after: DownloadQueue, r: Option<DownloadConfig>)
    requires
        before.active() <= before.limit(),
        promotes(before, after, r),
    ensures
        after.active() <= after.limit(),
{
}

/// Law: the download that starts next has a priority at least as high as
/// every download left waiting, and strictly higher than every download
/// that arrived before it.
pub proof fn lemma_next_is_highest(s: Seq<DownloadConfig>)
    requires
        s.len() > 0,
    ensures
        0 <= next_index(s) < s.len(),
        forall|j: int| 0 <= j < s.len() ==> (#[trigger] s[j]).priority.spec_rank() <= s[next_index(s)].priority.spec_rank(),
        forall|j: int| 0 <= j < next_index(s) ==> (#[trigger] s[j]).priority.spec_rank() < s[next_index(s)].priority.spec_rank(),
{
    let b = lemma_best_prefix(s, s.len() as int);
    assert(is_next(s, b));
}

proof fn lemma_best_prefix(s: Seq<DownloadConfig>, n: int) -> (best: int)
    requires
        1 <= n <= s.len(),
    ensures
        0 <= best < n,
        forall|j: int| 0 <= j < n ==> (#[trigger] s[j]).priority.spec_rank() <= s[best].priority.spec_rank(),
        forall|j: int| 0 <= j < best ==> (#[trigger] s[j]).priority.spec_rank() < s[best].priority.spec_rank(),
    decreases n,
{
    if n == 1 {
        0
    } else {
        let b = lemma_best_prefix(s, n - 1);
        if s[n - 1].priority.spec_rank() > s[b].priority.spec_rank() {
            n - 1
        } else {
            b
        }
    }
}

} // verus!
