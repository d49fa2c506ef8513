//! Summation of pane-size sequences.
//!
//! The engine's contracts are all phrased over [`sum`]: the invariants bound
//! the sum of the stored pane sizes, a handle's offset is a prefix sum, and
//! the redistribution law moves size between two neighbours without changing
//! the sum. The lemmas here decompose a sum around an index, relate it to an
//! update at one index, and bound it when every element is nonnegative.

use vstd::prelude::*;

verus! {

/// The sum of a sequence of fixed-point pane sizes, as an unbounded integer.
pub open spec fn sum(s: Seq<i64>) -> int
    decreases s.len(),
{
    if s.len() == 0 {
        0
    } else {
        sum(s.drop_last()) + s.last()
    }
}

/// Extending a prefix by one element adds that element to its sum.
pub proof fn lemma_sum_take_step(s: Seq<i64>, k: int)
    requires
        0 <= k < s.len(),
    ensures
        sum(s.take(k + 1)) == sum(s.take(k)) + s[k],
{
    assert(s.take(k + 1).drop_last() =~= s.take(k));
    assert(s.take(k + 1).last() == s[k]);
}

/// Peeling the first element off a suffix splits its sum.
pub proof fn lemma_sum_skip_step(s: Seq<i64>, k: int)
    requires
        0 <= k < s.len(),
    ensures
        sum(s.skip(k)) == s[k] + sum(s.skip(k + 1)),
    decreases s.len(),
{
    if k == s.len() - 1 {
        assert(s.skip(k).drop_last() =~= s.skip(k + 1));
        assert(s.skip(k).last() == s[k]);
    } else {
        let d = s.drop_last();
        lemma_sum_skip_step(d, k);
        assert(s.skip(k).drop_last() =~= d.skip(k));
        assert(s.skip(k + 1).drop_last() =~= d.skip(k + 1));
        assert(s.skip(k).last() == s.last());
        assert(s.skip(k + 1).last() == s.last());
    }
}

/// A sum splits into the sum of a prefix and the sum of the rest.
pub proof fn lemma_sum_split(s: Seq<i64>, k: int)
    requires
        0 <= k <= s.len(),
    ensures
        sum(s) == sum(s.take(k)) + sum(s.skip(k)),
    decreases s.len() - k,
{
    if k == s.len() {
        assert(s.take(k) =~= s);
        assert(s.skip(k) =~= Seq::<i64>::empty());
    } else {
        lemma_sum_split(s, k + 1);
        lemma_sum_take_step(s, k);
        lemma_sum_skip_step(s, k);
    }
}

/// A sum decomposes around one index into prefix, element and suffix.
pub proof fn lemma_sum_decompose(s: Seq<i64>, k: int)
    requires
        0 <= k < s.len(),
    ensures
        sum(s) == sum(s.take(k)) + s[k] + sum(s.skip(k + 1)),
{
    lemma_sum_split(s, k);
    lemma_sum_skip_step(s, k);
}

/// A sequence of nonnegative elements has a nonnegative sum.
pub proof fn lemma_sum_nonneg(s: Seq<i64>)
    requires
        forall|j: int| 0 <= j < s.len() ==> 0 <= #[trigger] s[j],
    ensures
        0 <= sum(s),
    decreases s.len(),
{
    if s.len() > 0 {
        assert(forall|j: int| 0 <= j < s.len() - 1 ==> 0 <= #[trigger] s.drop_last()[j]);
        lemma_sum_nonneg(s.drop_last());
    }
}

/// With nonnegative elements, the prefix, element and suffix around an index
/// are each nonnegative and together make up the whole sum.
pub proof fn lemma_sum_parts(s: Seq<i64>, k: int)
    requires
        0 <= k < s.len(),
        forall|j: int| 0 <= j < s.len() ==> 0 <= #[trigger] s[j],
    ensures
        sum(s) == sum(s.take(k)) + s[k] + sum(s.skip(k + 1)),
        0 <= sum(s.take(k)),
        0 <= sum(s.skip(k + 1)),
        0 <= s[k],
{
    lemma_sum_decompose(s, k);
    assert(forall|j: int| 0 <= j < k ==> 0 <= #[trigger] s.take(k)[j]);
    assert(forall|j: int| 0 <= j < s.len() - k - 1 ==> 0 <= #[trigger] s.skip(k + 1)[j]);
    lemma_sum_nonneg(s.take(k));
    lemma_sum_nonneg(s.skip(k + 1));
}

/// Updating one element changes the sum by exactly the difference.
pub proof fn lemma_sum_update(s: Seq<i64>, k: int, v: i64)
    requires
        0 <= k < s.len(),
    ensures
        sum(s.update(k, v)) == sum(s) - s[k] + v,
{
    let t = s.update(k, v);
    lemma_sum_decompose(s, k);
    lemma_sum_decompose(t, k);
    assert(t.take(k) =~= s.take(k));
    assert(t.skip(k + 1) =~= s.skip(k + 1));
}

/// A sequence whose elements all equal `c` sums to `len * c`.
pub proof fn lemma_sum_all_equal(s: Seq<i64>, c: i64)
    requires
        forall|j: int| 0 <= j < s.len() ==> #[trigger] s[j] == c,
    ensures
        sum(s) == s.len() * c,
    decreases s.len(),
{
    if s.len() == 0 {
        assert(s.len() * c == 0);
    } else {
        let d = s.drop_last();
        assert(forall|j: int| 0 <= j < d.len() ==> #[trigger] d[j] == c);
        lemma_sum_all_equal(d, c);
        assert((s.len() - 1) * c + c == s.len() * c) by (nonlinear_arith);
    }
}

} // verus!
