//! Image-cache garbage collection.
//!
//! The image cache grows with every CDN fetch; pruning brings a cache
//! directory back under a byte budget by deleting the oldest files first
//! (modification time, ties broken by path). Reading the directory and
//! deleting files is the caller's part; this module decides which file goes
//! next and keeps the tally. A file that cannot be deleted is skipped.

use vstd::prelude::*;
use crate::path_order::{
    compare_paths, lemma_path_order_antisym, lemma_path_order_trans, lemma_path_order_zero,
    path_order, path_view,
};

verus! {

/// The tally of a pruning run.
#[derive(Debug, Clone, Copy, PartialEq, Eq, Structural)]
pub struct PruneStats {
    pub files_scanned: usize,
    pub bytes_scanned: u64,
    pub files_removed: usize,
    pub bytes_removed: u64,
}

impl Default for PruneStats {
    fn default() -> (r: Self)
        ensures
            r.files_scanned == 0,
            r.bytes_scanned == 0,
            r.files_removed == 0,
            r.bytes_removed == 0,
    {
        PruneStats { files_scanned: 0, bytes_scanned: 0, files_removed: 0, bytes_removed: 0 }
    }
}

/// A regular file of the cache, as the pruner sees it.
#[derive(Debug)]
pub struct CacheEntry {
    /// Size in bytes.
    pub size: u64,
    /// Modification time in nanoseconds since the Unix epoch (negative
    /// before it).
    pub modified_nanos: i128,
    /// The file's path, one byte string per component.
    pub path: Vec<Vec<u8>>,
}

/// Entry `i` is pruned before entry `j`: it is older, or as old with a
/// smaller path, or the same on both with a smaller index.
pub open spec fn entry_before(es: Seq<CacheEntry>, i: int, j: int) -> bool {
    let a = es[i];
    let b = es[j];
    let po = path_order(path_view(a.path@), path_view(b.path@));
    a.modified_nanos < b.modified_nanos || (a.modified_nanos == b.modified_nanos && (po < 0 || (po
        == 0 && i < j)))
}

/// The total size of the entries.
pub open spec fn total_size(es: Seq<CacheEntry>) -> int
    decreases es.len(),
{
    if es.len() == 0 {
        0
    } else {
        total_size(es.drop_last()) + es.last().size
    }
}

/// The total size of the entries at the given indices.
pub open spec fn sum_sizes(es: Seq<CacheEntry>, idx: Seq<usize>) -> int
    decreases idx.len(),
{
    if idx.len() == 0 {
        0
    } else {
        sum_sizes(es, idx.drop_last()) + es[idx.last() as int].size
    }
}

/// `order` lists each index below `n` exactly once.
pub open spec fn is_permutation(order: Seq<usize>, n: int) -> bool {
    &&& order.len() == n
    &&& forall|a: int| 0 <= a < order.len() ==> #[trigger] order[a] < n
    &&& forall|a: int, b: int|
        0 <= a < order.len() && 0 <= b < order.len() && a != b ==> order[a] != order[b]
}

/// `order` lists entries in pruning order.
pub open spec fn is_sorted(es: Seq<CacheEntry>, order: Seq<usize>) -> bool {
    forall|a: int, b: int|
        0 <= a < b < order.len() ==> entry_before(es, #[trigger] order[a] as int, #[trigger] order[b] as int)
}

/// The pruning order is a strict total order on distinct entries.
proof fn lemma_entry_order(es: Seq<CacheEntry>, i: int, j: int, k: int)
    requires
        0 <= i < es.len(),
        0 <= j < es.len(),
        0 <= k < es.len(),
    ensures
        i != j ==> (entry_before(es, i, j) <==> !entry_before(es, j, i)),
        !entry_before(es, i, i),
        entry_before(es, i, j) && entry_before(es, j, k) ==> entry_before(es, i, k),
{
    let pi = path_view(es[i].path@);
    let pj = path_view(es[j].path@);
    let pk = path_view(es[k].path@);
    lemma_path_order_antisym(pi, pj);
    lemma_path_order_antisym(pj, pk);
    lemma_path_order_antisym(pi, pk);
    lemma_path_order_antisym(pi, pi);
    lemma_path_order_zero(pi, pj);
    lemma_path_order_zero(pj, pk);
    lemma_path_order_zero(pi, pk);
    if path_order(pi, pj) <= 0 && path_order(pj, pk) <= 0 {
        lemma_path_order_trans(pi, pj, pk);
    }
}

/// Whether entry `i` is pruned before entry `j`.
fn entry_is_before(es: &Vec<CacheEntry>, i: usize, j: usize) -> (r: bool)
    requires
        i < es@.len(),
        j < es@.len(),
    ensures
        r == entry_before(es@, i as int, j as int),
{
    let a = &es[i];
    let b = &es[j];
    if a.modified_nanos < b.modified_nanos {
        return true;
    }
    if a.modified_nanos > b.modified_nanos {
        return false;
    }
    let po = compare_paths(&a.path, &b.path);
    po < 0 || (po == 0 && i < j)
}

/// Inserting an index adds its entry's size to the sum.
proof fn lemma_sum_insert(es: Seq<CacheEntry>, idx: Seq<usize>, p: int, x: usize)
    requires
        0 <= p <= idx.len(),
    ensures
        sum_sizes(es, idx.insert(p, x)) == sum_sizes(es, idx) + es[x as int].size,
    decreases idx.len(),
{
    if p == idx.len() {
        assert(idx.insert(p, x) =~= idx.push(x));
        assert(idx.push(x).drop_last() =~= idx);
    } else {
        assert(idx.insert(p, x).drop_last() =~= idx.drop_last().insert(p, x));
        lemma_sum_insert(es, idx.drop_last(), p, x);
    }
}

/// The sum over a list is its first entry's size plus the sum over the
/// rest.
pub proof fn lemma_sum_front(es: Seq<CacheEntry>, idx: Seq<usize>)
    requires
        idx.len() > 0,
    ensures
        sum_sizes(es, idx) == es[idx[0] as int].size + sum_sizes(es, idx.drop_first()),
    decreases idx.len(),
{
    if idx.len() == 1 {
        assert(idx.drop_last() =~= Seq::<usize>::empty());
        assert(idx.drop_first() =~= Seq::<usize>::empty());
    } else {
        lemma_sum_front(es, idx.drop_last());
        assert(idx.drop_last().drop_first() =~= idx.drop_first().drop_last());
    }
}

/// The indices of `es` in pruning order.
fn oldest_first(es: &Vec<CacheEntry>) -> (order: Vec<usize>)
    ensures
        is_permutation(order@, es@.len() as int),
        is_sorted(es@, order@),
        sum_sizes(es@, order@) == total_size(es@),
{
    let mut order: Vec<usize> = Vec::new();
    let mut i: usize = 0;
    while i < es.len()
        invariant
            i <= es@.len(),
            is_permutation(order@, i as int),
            is_sorted(es@, order@),
            sum_sizes(es@, order@) == total_size(es@.take(i as int)),
        decreases es@.len() - i,
    {
        let mut p: usize = 0;
        while p < order.len() && entry_is_before(es, order[p], i)
            invariant
                i < es@.len(),
                p <= order@.len(),
                is_permutation(order@, i as int),
                forall|q: int| 0 <= q < p ==> entry_before(es@, #[trigger] order@[q] as int, i as int),
            decreases order@.len() - p,
        {
            p = p + 1;
        }
        let ghost old_order = order@;
        proof {
            if p < old_order.len() {
                lemma_entry_order(es@, old_order[p as int] as int, i as int, i as int);
                assert forall|q: int| p <= q < old_order.len() implies entry_before(
                    es@,
                    i as int,
                    #[trigger] old_order[q] as int,
                ) by {
                    if q > p {
                        lemma_entry_order(es@, i as int, old_order[p as int] as int, old_order[q] as int);
                    }
                }
            }
            lemma_sum_insert(es@, old_order, p as int, i);
            assert(es@.take(i + 1).drop_last() =~= es@.take(i as int));
        }
        order.insert(p, i);
        proof {
            let n = order@;
            assert forall|a: int, b: int| 0 <= a < b < n.len() implies entry_before(
                es@,
                #[trigger] n[a] as int,
                #[trigger] n[b] as int,
            ) by {
                if a < p && b == p {
                    assert(n[a] == old_order[a]);
                } else if a == p {
                    assert(n[b] == old_order[b - 1]);
                } else if a < p && b < p {
                    assert(n[a] == old_order[a] && n[b] == old_order[b]);
                } else if a < p {
                    assert(n[a] == old_order[a] && n[b] == old_order[b - 1]);
                } else {
                    assert(n[a] == old_order[a - 1] && n[b] == old_order[b - 1]);
                }
            }
            assert forall|a: int, b: int|
                0 <= a < n.len() && 0 <= b < n.len() && a != b implies n[a] != n[b] by {
                if a != p && b != p {
                    let oa = if a < p { a } else { a - 1 };
                    let ob = if b < p { b } else { b - 1 };
                    assert(n[a] == old_order[oa] && n[b] == old_order[ob]);
                } else if a == p {
                    let ob = if b < p { b } else { b - 1 };
                    assert(n[b] == old_order[ob]);
                } else {
                    let oa = if a < p { a } else { a - 1 };
                    assert(n[a] == old_order[oa]);
                }
            }
            assert forall|a: int| 0 <= a < n.len() implies #[trigger] n[a] < i + 1 by {
                if a != p {
                    let oa = if a < p { a } else { a - 1 };
                    assert(n[a] == old_order[oa]);
                }
            }
        }
        i = i + 1;
    }
    assert(es@.take(es@.len() as int) =~= es@);
    order
}

/// The state of one pruning run over a scanned cache.
#[derive(Debug)]
pub struct Pruner {
    entries: Vec<CacheEntry>,
    order: Vec<usize>,
    next: usize,
    max_bytes: u64,
    remaining: u64,
    stats: PruneStats,
}

impl Pruner {
    /// The scanned entries.
    pub closed spec fn entries_spec(&self) -> Seq<CacheEntry> {
        self.entries@
    }

    /// The entries to try, in pruning order (empty when the cache was
    /// within budget).
    pub closed spec fn order_spec(&self) -> Seq<usize> {
        self.order@
    }

    /// How many entries of the order have been tried.
    pub closed spec fn next_spec(&self) -> int {
        self.next as int
    }

    /// The byte budget.
    pub closed spec fn max_bytes_spec(&self) -> u64 {
        self.max_bytes
    }

    /// The bytes left in the cache by this run's count.
    pub closed spec fn remaining_spec(&self) -> u64 {
        self.remaining
    }

    /// The tally so far.
    pub closed spec fn stats_spec(&self) -> PruneStats {
        self.stats
    }

    /// The run's state is consistent.
    pub closed spec fn wf(&self) -> bool {
        &&& self.stats.files_scanned == self.entries@.len()
        &&& self.stats.bytes_scanned == total_size(self.entries@)
        &&& self.stats.bytes_scanned <= self.max_bytes ==> self.order@.len() == 0
        &&& self.stats.bytes_scanned > self.max_bytes ==> {
            &&& is_permutation(self.order@, self.entries@.len() as int)
            &&& is_sorted(self.entries@, self.order@)
        }
        &&& self.next <= self.order@.len()
        &&& self.remaining + self.stats.bytes_removed == self.stats.bytes_scanned
        &&& self.remaining >= sum_sizes(self.entries@, self.order@.skip(self.next as int))
        &&& self.stats.files_removed <= self.next
        &&& self.stats.files_removed == self.next ==> self.stats.bytes_removed == sum_sizes(
            self.entries@,
            self.order@.take(self.next as int),
        )
        &&& self.stats.bytes_scanned > self.max_bytes ==> sum_sizes(self.entries@, self.order@)
            == self.stats.bytes_scanned
        &&& self.stats.files_removed == self.next ==> forall|j: int|
            0 <= j < self.next ==> self.stats.bytes_scanned - sum_sizes(
                self.entries@,
                #[trigger] self.order@.take(j),
            ) > self.max_bytes
    }

    /// The entry to delete next: none once the cache is within budget or
    /// every entry has been tried.
    pub open spec fn spec_next_victim(&self) -> Option<usize> {
        if self.remaining_spec() <= self.max_bytes_spec() || self.next_spec() >= self.order_spec().len() {
            None
        } else {
            Some(self.order_spec()[self.next_spec()])
        }
    }

    /// Start a run over the scanned `entries` with the budget `max_bytes`;
    /// none when their sizes add up to more than `u64::MAX`.
    pub fn new(entries: Vec<CacheEntry>, max_bytes: u64) -> (r: Option<Pruner>)
        ensures
            r is None <==> total_size(entries@) > u64::MAX,
            r matches Some(p) ==> {
                &&& p.wf()
                &&& p.entries_spec() == entries@
                &&& p.max_bytes_spec() == max_bytes
                &&& p.next_spec() == 0
                &&& p.remaining_spec() == total_size(entries@)
                &&& total_size(entries@) <= max_bytes ==> p.order_spec().len() == 0
                &&& total_size(entries@) > max_bytes ==> {
                    &&& is_permutation(p.order_spec(), entries@.len() as int)
                    &&& is_sorted(entries@, p.order_spec())
                }
                &&& p.stats_spec() == PruneStats {
                    files_scanned: entries@.len() as usize,
                    bytes_scanned: total_size(entries@) as u64,
                    files_removed: 0,
                    bytes_removed: 0,
                }
            },
    {
        let mut total: u64 = 0;
        let mut i: usize = 0;
        while i < entries.len()
            invariant
                i <= entries@.len(),
                total == total_size(entries@.take(i as int)),
            decreases entries@.len() - i,
        {
            assert(entries@.take(i + 1).drop_last() =~= entries@.take(i as int));
            match total.checked_add(entries[i].size) {
                Some(t) => {
                    total = t;
                },
                None => {
                    proof {
                        lemma_total_size_prefix(entries@, i + 1);
                    }
                    return None;
                },
            }
            i = i + 1;
        }
        assert(entries@.take(entries@.len() as int) =~= entries@);
        let stats = PruneStats {
            files_scanned: entries.len(),
            bytes_scanned: total,
            files_removed: 0,
            bytes_removed: 0,
        };
        let order = if total <= max_bytes {
            Vec::new()
        } else {
            oldest_first(&entries)
        };
        assert(order@.skip(0) =~= order@);
        assert(order@.take(0) =~= Seq::<usize>::empty());
        Some(Pruner { entries, order, next: 0, max_bytes, remaining: total, stats })
    }

    /// The index (into the scanned entries) of the file to delete next.
    pub fn next_victim(&self) -> (r: Option<usize>)
        requires
            self.wf(),
        ensures
            r == self.spec_next_victim(),
            r matches Some(v) ==> v < self.entries_spec().len(),
            r is Some ==> self.remaining_spec() > self.max_bytes_spec(),
            self.remaining_spec() <= self.max_bytes_spec() ==> r is None,
    {
        if self.remaining <= self.max_bytes || self.next >= self.order.len() {
            None
        } else {
            Some(self.order[self.next])
        }
    }

    /// Record the outcome of deleting the file that [`Self::next_victim`]
    /// named: a deleted file leaves the count and joins the tally, a file
    /// that could not be deleted is skipped.
    pub fn record(&mut self, removed: bool)
        requires
            old(self).wf(),
            old(self).spec_next_victim() is Some,
        ensures
            final(self).wf(),
            final(self).entries_spec() == old(self).entries_spec(),
            final(self).order_spec() == old(self).order_spec(),
            final(self).max_bytes_spec() == old(self).max_bytes_spec(),
            final(self).next_spec() == old(self).next_spec() + 1,
            ({
                let v = old(self).spec_next_victim()->0;
                let size = old(self).entries_spec()[v as int].size;
                let s0 = old(self).stats_spec();
                if removed {
                    &&& final(self).remaining_spec() == old(self).remaining_spec() - size
                    &&& final(self).stats_spec() == PruneStats {
                        files_removed: (s0.files_removed + 1) as usize,
                        bytes_removed: (s0.bytes_removed + size) as u64,
                        ..s0
                    }
                } else {
                    &&& final(self).remaining_spec() == old(self).remaining_spec()
                    &&& final(self).stats_spec() == s0
                }
            }),
    {
        let v = self.order[self.next];
        let size = self.entries[v].size;
        proof {
            lemma_sum_front(self.entries@, self.order@.skip(self.next as int));
            assert(self.order@.skip(self.next as int).drop_first() =~= self.order@.skip(self.next + 1));
            lemma_sum_nonneg(self.entries@, self.order@.skip(self.next + 1));
            assert(self.order@.take(self.next + 1).drop_last() =~= self.order@.take(self.next as int));
            assert(self.order@.take(self.next + 1).take(self.next as int) =~= self.order@.take(self.next as int));
            assert forall|j: int| 0 <= j < self.next implies #[trigger] self.order@.take(j) == self.order@.take(
                self.next + 1,
            ).take(j) by {
                assert(self.order@.take(j) =~= self.order@.take(self.next + 1).take(j));
            }
        }
        if removed {
            self.remaining = self.remaining - size;
            self.stats.files_removed = self.stats.files_removed + 1;
            self.stats.bytes_removed = self.stats.bytes_removed + size;
        }
        self.next = self.next + 1;
    }

    /// The tally so far.
    pub fn stats(&self) -> (r: PruneStats)
        ensures
            r == self.stats_spec(),
    {
        self.stats
    }
}

/// A prefix's total is at most the whole total, and totals are never
/// negative.
proof fn lemma_total_size_prefix(es: Seq<CacheEntry>, k: int)
    requires
        0 <= k <= es.len(),
    ensures
        0 <= total_size(es.take(k)) <= total_size(es),
    decreases es.len(),
{
    if k < es.len() {
        assert(es.drop_last().take(k) =~= es.take(k));
        lemma_total_size_prefix(es.drop_last(), k);
    } else {
        assert(es.take(k) =~= es);
        if es.len() > 0 {
            lemma_total_size_prefix(es.drop_last(), es.len() - 1);
            assert(es.drop_last().take(es.len() - 1) =~= es.drop_last());
        }
    }
}

/// Sums of sizes are never negative.
proof fn lemma_sum_nonneg(es: Seq<CacheEntry>, idx: Seq<usize>)
    ensures
        sum_sizes(es, idx) >= 0,
    decreases idx.len(),
{
    if idx.len() > 0 {
        lemma_sum_nonneg(es, idx.drop_last());
    }
}

/// Every byte scanned is either still counted in the cache or counted as
/// removed, and no more files are removed than were scanned.
pub proof fn law_pruner_accounting(p: Pruner)
    requires
        p.wf(),
    ensures
        p.stats_spec().bytes_removed + p.remaining_spec() == p.stats_spec().bytes_scanned,
        p.stats_spec().files_removed <= p.stats_spec().files_scanned,
{
}

/// Files are deleted oldest first: the file named next comes after every
/// file already tried and before every file still to try.
pub proof fn law_victims_oldest_first(p: Pruner)
    requires
        p.wf(),
        p.spec_next_victim() is Some,
    ensures
        forall|k: int|
            0 <= k < p.next_spec() ==> entry_before(
                p.entries_spec(),
                #[trigger] p.order_spec()[k] as int,
                p.spec_next_victim()->0 as int,
            ),
        forall|k: int|
            p.next_spec() < k < p.order_spec().len() ==> entry_before(
                p.entries_spec(),
                p.spec_next_victim()->0 as int,
                #[trigger] p.order_spec()[k] as int,
            ),
{
}

/// Over budget, the pruning order lists every scanned entry exactly once,
/// oldest first (ties by path); within budget it is empty.
pub proof fn law_order_covers_all_entries(p: Pruner)
    requires
        p.wf(),
    ensures
        p.stats_spec().bytes_scanned > p.max_bytes_spec() ==> {
            &&& is_permutation(p.order_spec(), p.entries_spec().len() as int)
            &&& is_sorted(p.entries_spec(), p.order_spec())
        },
        p.stats_spec().bytes_scanned <= p.max_bytes_spec() ==> p.order_spec().len() == 0,
{
}

/// While every deletion succeeds, the files deleted are the first ones of
/// the pruning order, and the run deletes only while the cache is still
/// over budget: before each deletion, what the earlier ones left exceeded
/// the budget. So a run whose deletions all succeed deletes the shortest
/// prefix of the order that brings the cache within budget.
pub proof fn law_successful_run_deletes_shortest_prefix(p: Pruner)
    requires
        p.wf(),
        p.stats_spec().files_removed == p.next_spec(),
    ensures
        p.stats_spec().bytes_removed == sum_sizes(p.entries_spec(), p.order_spec().take(p.next_spec())),
        p.remaining_spec() == p.stats_spec().bytes_scanned - sum_sizes(
            p.entries_spec(),
            p.order_spec().take(p.next_spec()),
        ),
        forall|j: int|
            0 <= j < p.next_spec() ==> p.stats_spec().bytes_scanned - sum_sizes(
                p.entries_spec(),
                #[trigger] p.order_spec().take(j),
            ) > p.max_bytes_spec(),
{
}

/// A file is named for deletion only while the cache is over budget,
/// whatever earlier deletions did: once the remaining bytes fit the budget
/// nothing more is deleted, even after failed deletions. While over budget
/// and with files left to try, the next file is always named.
pub proof fn law_deletes_only_over_budget(p: Pruner)
    requires
        p.wf(),
    ensures
        p.spec_next_victim() is Some ==> p.remaining_spec() > p.max_bytes_spec(),
        p.remaining_spec() <= p.max_bytes_spec() ==> p.spec_next_victim() is None,
        p.remaining_spec() > p.max_bytes_spec() && p.next_spec() < p.order_spec().len()
            ==> p.spec_next_victim() == Some(p.order_spec()[p.next_spec()]),
{
}

/// A run stops only once the cache is within budget or every file has
/// been tried.
pub proof fn law_stops_within_budget_or_exhausted(p: Pruner)
    requires
        p.wf(),
        p.spec_next_victim() is None,
    ensures
        p.remaining_spec() <= p.max_bytes_spec() || p.next_spec() == p.order_spec().len(),
{
}

/// A cache already within budget loses nothing.
pub proof fn law_within_budget_is_noop(p: Pruner)
    requires
        p.wf(),
        p.stats_spec().bytes_scanned <= p.max_bytes_spec(),
    ensures
        p.spec_next_victim() is None,
{
}

/// When every deletion succeeds, a run ends within budget (with a budget
/// of zero, that empties the cache).
pub proof fn law_successful_run_ends_within_budget(p: Pruner)
    requires
        p.wf(),
        p.spec_next_victim() is None,
        p.stats_spec().files_removed == p.next_spec(),
    ensures
        p.remaining_spec() <= p.max_bytes_spec(),
{
    if p.stats_spec().bytes_scanned > p.max_bytes_spec() && p.remaining_spec() > p.max_bytes_spec() {
        assert(p.order_spec().take(p.next_spec()) =~= p.order_spec());
    }
}

} // verus!
