//! Merging per-file counts into one total, next to a sticky error flag.

use vstd::prelude::*;
use vstd::seq_lib::group_to_multiset_ensures;

verus! {

/// The sum of a sequence of per-file counts.
pub open spec fn sum_of(s: Seq<usize>) -> int
    decreases s.len(),
{
    if s.len() == 0 {
        0
    } else {
        sum_of(s.drop_last()) + s.last()
    }
}

/// A sum of counts is never negative.
pub proof fn lemma_sum_nonneg(s: Seq<usize>)
    ensures
        sum_of(s) >= 0,
    decreases s.len(),
{
    if s.len() > 0 {
        lemma_sum_nonneg(s.drop_last());
    }
}

/// Appending one count adds exactly that count to the sum.
pub proof fn lemma_sum_push(s: Seq<usize>, n: usize)
    ensures
        sum_of(s.push(n)) == sum_of(s) + n,
{
    assert(s.push(n).drop_last() =~= s);
}

/// Summing two batches of counts separately and together agree: a partition
/// of the work into subsets cannot change the total.
pub proof fn lemma_sum_concat(a: Seq<usize>, b: Seq<usize>)
    ensures
        sum_of(a + b) == sum_of(a) + sum_of(b),
    decreases b.len(),
{
    if b.len() == 0 {
        assert(a + b =~= a);
    } else {
        lemma_sum_concat(a, b.drop_last());
        assert((a + b).drop_last() =~= a + b.drop_last());
    }
}

/// Taking one count out lowers the sum by exactly that count.
pub proof fn lemma_sum_remove(s: Seq<usize>, i: int)
    requires
        0 <= i < s.len(),
    ensures
        sum_of(s.remove(i)) == sum_of(s) - s[i],
    decreases s.len(),
{
    if i == s.len() - 1 {
        assert(s.remove(i) =~= s.drop_last());
    } else {
        assert(s.remove(i).drop_last() =~= s.drop_last().remove(i));
        assert(s.remove(i).last() == s.last());
        lemma_sum_remove(s.drop_last(), i);
    }
}

/// The total is independent of completion order and interleaving: two runs
/// that merge the same counts, in whatever order, reach the same sum.
pub proof fn lemma_sum_permutation(a: Seq<usize>, b: Seq<usize>)
    requires
        a.to_multiset() == b.to_multiset(),
    ensures
        sum_of(a) == sum_of(b),
    decreases a.len(),
{
    broadcast use group_to_multiset_ensures;

    if a.len() == 0 {
        assert(b.len() == b.to_multiset().len());
        assert(b.len() == 0);
    } else {
        let x = a.last();
        assert(a.to_multiset().count(x) > 0) by {
            assert(a.contains(x));
        }
        assert(b.to_multiset().count(x) > 0);
        assert(b.contains(x));
        let j = choose|j: int| 0 <= j < b.len() && b[j] == x;
        assert(a.remove(a.len() - 1).to_multiset() == a.to_multiset().remove(x));
        assert(b.remove(j).to_multiset() == b.to_multiset().remove(x));
        assert(a.remove(a.len() - 1) =~= a.drop_last());
        lemma_sum_permutation(a.drop_last(), b.remove(j));
        lemma_sum_remove(b, j);
    }
}

/// Aggregation is order- and interleaving-independent: a run that merges some
/// counts, in whatever order they arrived, reaches the sum of the batches in
/// which the work was partitioned — however the files were split between
/// workers and however their results interleaved.
pub proof fn lemma_merge_order_independent(merged: Seq<usize>, a: Seq<usize>, b: Seq<usize>)
    requires
        merged.to_multiset() == (a + b).to_multiset(),
    ensures
        sum_of(merged) == sum_of(a) + sum_of(b),
{
    lemma_sum_permutation(merged, a + b);
    lemma_sum_concat(a, b);
}

/// The shared accumulation context of one run: the total of all merged
/// per-file counts and the sticky error flag. The sequence of merged counts
/// is carried as ghost state so that contracts can speak of the exact sum.
pub struct Aggregator {
    total: usize,
    error: bool,
    counts: Ghost<Seq<usize>>,
}

impl Aggregator {
    /// The per-file counts merged so far, in merge order.
    pub closed spec fn counts(self) -> Seq<usize> {
        self.counts@
    }

    /// Whether any failure has been recorded.
    pub closed spec fn error(self) -> bool {
        self.error
    }

    /// The stored total is exactly the sum of the merged counts.
    pub closed spec fn wf(self) -> bool {
        self.total == sum_of(self.counts@)
    }

    /// A fresh context: zero total, no error, nothing merged.
    pub fn new() -> (r: Aggregator)
        ensures
            r.wf(),
            r.counts() == Seq::<usize>::empty(),
            !r.error(),
    {
        Aggregator { total: 0, error: false, counts: Ghost(Seq::empty()) }
    }

    /// Merge one per-file count: the total grows by exactly `n`, never
    /// shrinks, and the error flag is untouched.
    pub fn add(&mut self, n: usize)
        requires
            old(self).wf(),
            sum_of(old(self).counts()) + n <= usize::MAX,
        ensures
            final(self).wf(),
            final(self).counts() == old(self).counts().push(n),
            sum_of(final(self).counts()) == sum_of(old(self).counts()) + n,
            final(self).error() == old(self).error(),
    {
        proof {
            lemma_sum_push(self.counts@, n);
            lemma_sum_nonneg(self.counts@);
        }
        self.total = self.total + n;
        self.counts = Ghost(self.counts@.push(n));
    }

    /// Record a failure. The flag is sticky: it is set to true and nothing
    /// ever resets it; merged counts are untouched.
    pub fn mark_error(&mut self)
        ensures
            final(self).error(),
            final(self).counts() == old(self).counts(),
            final(self).wf() == old(self).wf(),
    {
        self.error = true;
    }

    /// The aggregated total: the sum of every merged count.
    pub fn total(&self) -> (r: usize)
        requires
            self.wf(),
        ensures
            r == sum_of(self.counts()),
    {
        self.total
    }

    /// Whether any failure was recorded during the run.
    pub fn has_error(&self) -> (r: bool)
        ensures
            r == self.error(),
    {
        self.error
    }
}

} // verus!
