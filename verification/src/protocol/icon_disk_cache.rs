//! The on-disk cache of application icons: its summary, and which files a
//! prune removes, oldest first, to get under the file and byte limits.
use vstd::prelude::*;

verus! {

/// The state of the icon cache, as reported.
#[derive(Clone, Debug, Default)]
pub struct IconCacheSummary {
    pub file_count: usize,
    pub total_bytes: u64,
    pub max_files: usize,
    pub max_bytes: u64,
    pub last_pruned_at: Option<String>,
    pub last_pruned_files: usize,
    pub error: Option<String>,
}

/// The sum of the sizes.
pub open spec fn total_of(sizes: Seq<u64>) -> int
    decreases sizes.len(),
{
    if sizes.len() == 0 {
        0
    } else {
        total_of(sizes.drop_last()) + sizes.last()
    }
}

/// A summary of cache entries with these sizes.
pub fn summary_from_entries(
    sizes: &Vec<u64>,
    max_files: usize,
    max_bytes: u64,
    last_pruned_at: Option<String>,
    last_pruned_files: usize,
    error: Option<String>,
) -> (s: IconCacheSummary)
    requires
        total_of(sizes@) <= u64::MAX,
    ensures
        s.file_count == sizes@.len(),
        s.total_bytes == total_of(sizes@),
        s.max_files == max_files,
        s.max_bytes == max_bytes,
        s.last_pruned_at == last_pruned_at,
        s.last_pruned_files == last_pruned_files,
        s.error == error,
{
    let total = sum_sizes(sizes);
    IconCacheSummary {
        file_count: sizes.len(),
        total_bytes: total,
        max_files,
        max_bytes,
        last_pruned_at,
        last_pruned_files,
        error,
    }
}

proof fn lemma_total_prefix_bounded(sizes: Seq<u64>, i: int)
    requires
        0 <= i <= sizes.len(),
    ensures
        total_of(sizes.take(i)) <= total_of(sizes),
        0 <= total_of(sizes.take(i)),
    decreases sizes.len(),
{
    if sizes.len() > 0 {
        if i == sizes.len() {
            assert(sizes.take(i) =~= sizes);
            lemma_total_prefix_bounded(sizes.drop_last(), i - 1);
            assert(sizes.take(i - 1) =~= sizes.drop_last().take(i - 1));
        } else {
            lemma_total_prefix_bounded(sizes.drop_last(), i);
            assert(sizes.take(i) =~= sizes.drop_last().take(i));
        }
    }
}

fn sum_sizes(sizes: &Vec<u64>) -> (t: u64)
    requires
        total_of(sizes@) <= u64::MAX,
    ensures
        t == total_of(sizes@),
{
    let mut t: u64 = 0;
    let mut i: usize = 0;
    assert(sizes@.take(0) =~= Seq::<u64>::empty());
    while i < sizes.len()
        invariant
            i <= sizes@.len(),
            total_of(sizes@) <= u64::MAX,
            t == total_of(sizes@.take(i as int)),
        decreases sizes.len() - i,
    {
        assert(sizes@.take(i + 1).drop_last() =~= sizes@.take(i as int));
        proof {
            lemma_total_prefix_bounded(sizes@, i + 1);
        }
        t = t + sizes[i];
        i = i + 1;
    }
    assert(sizes@.take(sizes@.len() as int) =~= sizes@);
    t
}

/// `(modified[a], a)` comes before `(modified[b], b)`: older first, and
/// among equally old entries the earlier one first.
pub open spec fn before(modified: Seq<u64>, a: int, b: int) -> bool {
    modified[a] < modified[b] || (modified[a] == modified[b] && a < b)
}

/// The entries oldest first: positions of `modified`, each once, ordered
/// by modification time, ties kept in their given order.
pub fn oldest_first(modified: &Vec<u64>) -> (order: Vec<usize>)
    ensures
        order@.len() == modified@.len(),
        forall|i: int| 0 <= i < order@.len() ==> (#[trigger] order@[i]) < modified@.len(),
        forall|i: int, j: int|
            0 <= i < j < order@.len() ==> before(
                modified@,
                #[trigger] order@[i] as int,
                #[trigger] order@[j] as int,
            ),
{
    let mut order: Vec<usize> = Vec::new();
    let mut k: usize = 0;
    while k < modified.len()
        invariant
            k <= modified@.len(),
            order@.len() == k,
            forall|i: int| 0 <= i < order@.len() ==> (#[trigger] order@[i]) < k,
            forall|i: int, j: int|
                0 <= i < j < order@.len() ==> before(
                    modified@,
                    #[trigger] order@[i] as int,
                    #[trigger] order@[j] as int,
                ),
        decreases modified.len() - k,
    {
        let m = modified[k];
        let mut pos: usize = order.len();
        while pos > 0 && modified[order[pos - 1]] > m
            invariant
                pos <= order@.len(),
                order@.len() == k,
                k < modified@.len(),
                m == modified@[k as int],
                forall|i: int| 0 <= i < order@.len() ==> (#[trigger] order@[i]) < k,
                forall|i: int| pos <= i < order@.len() ==> modified@[#[trigger] order@[i] as int] > m,
            decreases pos,
        {
            pos = pos - 1;
        }
        let ghost pre = order@;
        order.insert(pos, k);
        assert forall|i: int, j: int| 0 <= i < j < order@.len() implies before(
            modified@,
            #[trigger] order@[i] as int,
            #[trigger] order@[j] as int,
        ) by {
            if j < pos {
                assert(order@[i] == pre[i] && order@[j] == pre[j]);
            } else if j == pos {
                assert(order@[i] == pre[i]);
                if pos > 0 && i < pos - 1 {
                    assert(before(modified@, pre[i] as int, pre[pos - 1] as int));
                }
            } else if i < pos {
                assert(order@[i] == pre[i] && order@[j] == pre[j - 1]);
            } else if i == pos {
                assert(order@[j] == pre[j - 1]);
            } else {
                assert(order@[i] == pre[i - 1] && order@[j] == pre[j - 1]);
            }
        }
        assert forall|i: int| 0 <= i < order@.len() implies (#[trigger] order@[i]) < k + 1 by {
            if i < pos {
                assert(order@[i] == pre[i]);
            } else if i > pos {
                assert(order@[i] == pre[i - 1]);
            }
        }
        k = k + 1;
    }
    order
}

/// `a - b`, or 0 when `b` is larger.
pub open spec fn saturating_sub(a: int, b: int) -> int {
    if a >= b {
        a - b
    } else {
        0
    }
}

/// How many entries go, counting from `c` with `total` bytes counted as
/// left: while more than `max_bytes` are counted, the entry at `c` goes too
/// and its bytes stop counting.
pub open spec fn prune_from(sizes: Seq<u64>, max_bytes: u64, c: int, total: int) -> int
    decreases sizes.len() - c,
{
    if c < sizes.len() && total > max_bytes {
        prune_from(sizes, max_bytes, c + 1, saturating_sub(total, sizes[c] as int))
    } else {
        c
    }
}

/// How many of the oldest entries a prune removes: those beyond
/// `max_files`, then more, oldest first, while the bytes counted as left
/// exceed `max_bytes`. The count starts from the bytes of all entries, those
/// removed for the file limit included.
pub open spec fn prune_count_spec(sizes: Seq<u64>, max_files: usize, max_bytes: u64) -> int {
    let start = if sizes.len() > max_files {
        sizes.len() - max_files
    } else {
        0
    };
    prune_from(sizes, max_bytes, start, total_of(sizes))
}

/// How many of the entries, given by size oldest first, a prune removes.
pub fn prune_count(sizes_oldest_first: &Vec<u64>, max_files: usize, max_bytes: u64) -> (c: usize)
    requires
        total_of(sizes_oldest_first@) <= u64::MAX,
    ensures
        c == prune_count_spec(sizes_oldest_first@, max_files, max_bytes),
{
    let sizes = sizes_oldest_first;
    let n = sizes.len();
    let mut total = sum_sizes(sizes);
    let mut c: usize = if n > max_files {
        n - max_files
    } else {
        0
    };
    while total > max_bytes && c < n
        invariant
            n == sizes@.len(),
            c <= n,
            prune_from(sizes@, max_bytes, c as int, total as int) == prune_count_spec(
                sizes@,
                max_files,
                max_bytes,
            ),
        decreases n - c,
    {
        total = total.saturating_sub(sizes[c]);
        c = c + 1;
    }
    c
}

proof fn lemma_total_first(sizes: Seq<u64>)
    requires
        sizes.len() > 0,
    ensures
        total_of(sizes) == sizes[0] + total_of(sizes.drop_first()),
    decreases sizes.len(),
{
    if sizes.len() > 1 {
        lemma_total_first(sizes.drop_last());
        assert(sizes.drop_last().drop_first() =~= sizes.drop_first().drop_last());
    } else {
        assert(sizes.drop_first() =~= Seq::<u64>::empty());
        assert(sizes.drop_last() =~= Seq::<u64>::empty());
    }
}

proof fn lemma_total_nonneg(sizes: Seq<u64>)
    ensures
        total_of(sizes) >= 0,
    decreases sizes.len(),
{
    if sizes.len() > 0 {
        lemma_total_nonneg(sizes.drop_last());
    }
}

proof fn lemma_prune_from(sizes: Seq<u64>, max_bytes: u64, c: int, total: int)
    requires
        0 <= c <= sizes.len(),
        total >= total_of(sizes.skip(c)),
    ensures
        c <= prune_from(sizes, max_bytes, c, total) <= sizes.len(),
        prune_from(sizes, max_bytes, c, total) < sizes.len() ==> total_of(
            sizes.skip(prune_from(sizes, max_bytes, c, total)),
        ) <= max_bytes,
    decreases sizes.len() - c,
{
    if c < sizes.len() && total > max_bytes {
        lemma_total_first(sizes.skip(c));
        assert(sizes.skip(c).drop_first() =~= sizes.skip(c + 1));
        lemma_total_nonneg(sizes.skip(c + 1));
        lemma_prune_from(sizes, max_bytes, c + 1, saturating_sub(total, sizes[c] as int));
    }
}

/// A prune leaves at most `max_files` entries, and, unless it removes them
/// all, entries of at most `max_bytes` bytes in all.
pub proof fn law_prune_respects_limits(sizes: Seq<u64>, max_files: usize, max_bytes: u64)
    ensures
        0 <= prune_count_spec(sizes, max_files, max_bytes) <= sizes.len(),
        sizes.len() - prune_count_spec(sizes, max_files, max_bytes) <= max_files,
        prune_count_spec(sizes, max_files, max_bytes) < sizes.len() ==> total_of(
            sizes.skip(prune_count_spec(sizes, max_files, max_bytes)),
        ) <= max_bytes,
{
    let start = if sizes.len() > max_files {
        sizes.len() - max_files
    } else {
        0
    };
    assert(sizes.take(start) + sizes.skip(start) =~= sizes);
    lemma_total_concat(sizes.take(start), sizes.skip(start));
    lemma_total_nonneg(sizes.take(start));
    lemma_prune_from(sizes, max_bytes, start, total_of(sizes));
}

proof fn lemma_total_concat(a: Seq<u64>, b: Seq<u64>)
    ensures
        total_of(a + b) == total_of(a) + total_of(b),
    decreases b.len(),
{
    if b.len() == 0 {
        assert(a + b =~= a);
    } else {
        lemma_total_concat(a, b.drop_last());
        assert((a + b).drop_last() =~= a + b.drop_last());
    }
}

} // verus!
