//! A small per-unit L1 cache in front of the shared L2: combinational hits,
//! one miss resolved per call with static port priority.

use vstd::prelude::*;

use crate::block::Block;
use crate::l2::{l2_lookup, L2Cache, L2Entry};
use crate::vec3i::Vec3i;

verus! {

/// An L1 cache: a handful of lines answering per-port voxel queries.
/// A query that misses returns `None` for that port and, for the
/// lowest-indexed missing port only, pulls the line from the L2 below, so
/// the caller re-issues the same address until it hits.
pub struct L1Cache {
    /// The cache lines.
    pub entries: Vec<Option<L2Entry>>,
    /// The line that the next fill overwrites (FIFO replacement).
    pub next_replacement: usize,
}

/// What each port of a query answers: the scan of the lines, last match
/// winning.
pub open spec fn l1_results(entries: Seq<Option<L2Entry>>, idx: Seq<Vec3i>) -> Seq<Option<Block>> {
    Seq::new(idx.len(), |i: int| l2_lookup(entries, idx[i]))
}

/// The lowest port index at or above `i` whose query misses.
pub open spec fn l1_first_miss_from(entries: Seq<Option<L2Entry>>, idx: Seq<Vec3i>, i: int) -> Option<
    int,
>
    decreases idx.len() - i,
{
    if i < 0 || i >= idx.len() {
        None
    } else if l2_lookup(entries, idx[i]) is None {
        Some(i)
    } else {
        l1_first_miss_from(entries, idx, i + 1)
    }
}

/// The lowest-indexed missing port of a query, which alone may pull a line
/// from the L2 this call.
pub open spec fn l1_first_miss(entries: Seq<Option<L2Entry>>, idx: Seq<Vec3i>) -> Option<int> {
    l1_first_miss_from(entries, idx, 0)
}

impl L1Cache {
    /// At least one line, and the FIFO pointer in range.
    pub open spec fn wf(self) -> bool {
        &&& self.entries@.len() >= 1
        &&& self.next_replacement < self.entries@.len()
    }

    /// An empty cache with `num_entries` lines.
    pub fn new(num_entries: usize) -> (r: L1Cache)
        requires
            num_entries >= 1,
        ensures
            r.wf(),
            r.entries@.len() == num_entries,
            forall|i: int| 0 <= i < num_entries ==> r.entries@[i] is None,
            r.next_replacement == 0,
    {
        L1Cache { entries: vec![None; num_entries], next_replacement: 0 }
    }

    /// Answer one voxel query per port from the cache lines. Hits return
    /// immediately; each missing port returns `None`, and the lowest-indexed
    /// missing port pulls its line from the L2 below so the miss resolves on
    /// a later call. Callers hold a missing address stable until it hits.
    pub fn query(&mut self, l2: &L2Cache, idx: &Vec<Vec3i>) -> (out: Vec<Option<Block>>)
        requires
            old(self).wf(),
        ensures
            final(self).wf(),
            out@ == l1_results(old(self).entries@, idx@),
            final(self).entries@ == match l1_first_miss(old(self).entries@, idx@) {
                Some(i) => match l2_lookup(l2.entries@, idx@[i]) {
                    Some(value) => old(self).entries@.update(
                        old(self).next_replacement as int,
                        Some(L2Entry { key: idx@[i], value }),
                    ),
                    None => old(self).entries@,
                },
                None => old(self).entries@,
            },
            final(self).next_replacement == match l1_first_miss(old(self).entries@, idx@) {
                Some(i) => if l2_lookup(l2.entries@, idx@[i]) is Some {
                    (old(self).next_replacement + 1) % (old(self).entries@.len() as int)
                } else {
                    old(self).next_replacement as int
                },
                None => old(self).next_replacement as int,
            },
    {
        let ghost pre = *self;
        let p = idx.len();
        let mut out: Vec<Option<Block>> = Vec::new();
        let mut miss: Option<usize> = None;
        let mut i: usize = 0;
        while i < p
            invariant
                *self == pre,
                pre.wf(),
                p == idx@.len(),
                i <= p,
                out@.len() == i,
                forall|j: int| 0 <= j < i ==> out@[j] == l2_lookup(pre.entries@, idx@[j]),
                match miss {
                    Some(m) => m < i && l2_lookup(pre.entries@, idx@[m as int]) is None && forall|
                        j: int,
                    | 0 <= j < m ==> l2_lookup(pre.entries@, idx@[j]) is Some,
                    None => forall|j: int| 0 <= j < i ==> l2_lookup(pre.entries@, idx@[j]) is Some,
                },
            decreases p - i,
        {
            let found = self.lookup(idx[i]);
            if found.is_none() && miss.is_none() {
                miss = Some(i);
            }
            out.push(found);
            i = i + 1;
        }
        proof {
            match miss {
                Some(m) => {
                    lemma_l1_first_miss_found(pre.entries@, idx@, 0, m as int);
                },
                None => {
                    lemma_l1_first_miss_none(pre.entries@, idx@, 0);
                },
            }
            assert(out@ =~= l1_results(pre.entries@, idx@));
        }

        // Resolve the winning miss from the level below.
        if let Some(m) = miss {
            if let Some(value) = l2.query(idx[m]) {
                let nr = self.next_replacement;
                self.entries[nr] = Some(L2Entry { key: idx[m], value });
                let s_len = self.entries.len();
                self.next_replacement = (nr + 1) % s_len;
            }
        }
        out
    }

    /// Scan every cache line for `key`, the last match winning.
    fn lookup(&self, key: Vec3i) -> (r: Option<Block>)
        ensures
            r == l2_lookup(self.entries@, key),
    {
        let mut r: Option<Block> = None;
        let mut i: usize = 0;
        while i < self.entries.len()
            invariant
                i <= self.entries@.len(),
                r == l2_lookup(self.entries@.take(i as int), key),
            decreases self.entries@.len() - i,
        {
            proof {
                assert(self.entries@.take(i + 1).drop_last() =~= self.entries@.take(i as int));
            }
            match self.entries[i] {
                Some(e) => {
                    if e.key.x == key.x && e.key.y == key.y && e.key.z == key.z {
                        r = Some(e.value);
                    }
                },
                None => {},
            }
            i = i + 1;
        }
        proof {
            assert(self.entries@.take(self.entries@.len() as int) =~= self.entries@);
        }
        r
    }
}

/// If every port below `m` hits and `m` misses, the scan from any index at
/// or below `m` picks `m`.
proof fn lemma_l1_first_miss_found(entries: Seq<Option<L2Entry>>, idx: Seq<Vec3i>, k: int, m: int)
    requires
        0 <= k <= m < idx.len(),
        l2_lookup(entries, idx[m]) is None,
        forall|j: int| 0 <= j < m ==> l2_lookup(entries, idx[j]) is Some,
    ensures
        l1_first_miss_from(entries, idx, k) == Some(m),
    decreases m - k,
{
    if k < m {
        lemma_l1_first_miss_found(entries, idx, k + 1, m);
    }
}

/// If every port hits, the scan finds no miss.
proof fn lemma_l1_first_miss_none(entries: Seq<Option<L2Entry>>, idx: Seq<Vec3i>, k: int)
    requires
        0 <= k,
        forall|j: int| 0 <= j < idx.len() ==> l2_lookup(entries, idx[j]) is Some,
    ensures
        l1_first_miss_from(entries, idx, k) is None,
    decreases idx.len() - k,
{
    if k < idx.len() {
        lemma_l1_first_miss_none(entries, idx, k + 1);
    }
}

} // verus!
