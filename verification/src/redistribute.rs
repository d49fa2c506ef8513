//! The redistribution law a handle drag obeys.
//!
//! A layout over `N` panes stores `N - 1` explicit pane sizes in fixed-point
//! units of one hundredth of a percent; the last pane implicitly takes the
//! remainder up to [`TOTAL`]. Handle `i` sits between pane `i` and pane
//! `i + 1`, at the offset `sum` of the sizes up to and including pane `i`.
//!
//! Dragging handle `i` to a target offset moves size between the two panes
//! that flank the handle and touches nothing else. A target is applied only
//! when it keeps every pane size nonnegative and the stored sum within
//! [`TOTAL`]; any other target leaves the layout unchanged. Rejecting instead
//! of clamping avoids jitter when the pointer overshoots, and rejecting
//! wholesale (rather than applying a partial update) is what keeps the
//! invariants of [`valid_percentages`] across every reachable state.

use vstd::prelude::*;

use crate::sums::lemma_sum_all_equal;
use crate::sums::lemma_sum_nonneg;
use crate::sums::lemma_sum_parts;
use crate::sums::lemma_sum_skip_step;
use crate::sums::lemma_sum_split;
use crate::sums::lemma_sum_take_step;
use crate::sums::lemma_sum_update;
use crate::sums::sum;

verus! {

/// The whole container in fixed-point units: 100 percent, at one hundred
/// units per percent.
pub const TOTAL: i64 = 10000;

/// The invariant of a stored pane-size vector: every explicit pane size is
/// nonnegative, and their sum leaves a nonnegative remainder for the
/// implicit last pane.
pub open spec fn valid_percentages(s: Seq<i64>) -> bool {
    &&& forall|j: int| 0 <= j < s.len() ==> 0 <= #[trigger] s[j]
    &&& sum(s) <= TOTAL
}

/// The size of the implicit last pane: whatever the stored sizes leave over.
pub open spec fn implied_last(s: Seq<i64>) -> int {
    TOTAL - sum(s)
}

/// The offset of the handle left of pane `i`: the sum of the sizes before it.
pub open spec fn prev_sum(s: Seq<i64>, i: int) -> int {
    sum(s.take(i))
}

/// The sum of the stored sizes right of pane `i`.
pub open spec fn next_sum(s: Seq<i64>, i: int) -> int {
    sum(s.skip(i + 1))
}

/// The window a drag of handle `i` may target: from the offset of the handle
/// to its left, up to the whole container less the sizes stored to the right
/// of pane `i`.
pub open spec fn in_drag_range(s: Seq<i64>, i: int, t: int) -> bool {
    prev_sum(s, i) <= t <= TOTAL - next_sum(s, i)
}

/// Whether a drag of handle `i` to target `t` is applied. Beyond the window
/// check, a drag of a handle that is not the last must not push its right
/// neighbour below zero; a target past that neighbour's handle is rejected
/// wholesale, so no applied drag ever breaks [`valid_percentages`].
pub open spec fn drag_accepted(s: Seq<i64>, i: int, t: int) -> bool {
    &&& in_drag_range(s, i, t)
    &&& i + 1 < s.len() ==> t <= prev_sum(s, i) + s[i] + s[i + 1]
}

/// The layout after dragging handle `i` to target `t`: pane `i` takes the
/// size from the previous handle to the target, the right neighbour (when
/// there is one) absorbs the difference, and a rejected drag changes nothing.
pub open spec fn redistribute_spec(s: Seq<i64>, i: int, t: int) -> Seq<i64> {
    if drag_accepted(s, i, t) {
        let moved = t - prev_sum(s, i);
        let shifted = s.update(i, moved as i64);
        if i + 1 < s.len() {
            shifted.update(i + 1, (s[i + 1] + s[i] - moved) as i64)
        } else {
            shifted
        }
    } else {
        s
    }
}

/// The two-pane fast path: one stored size, one handle, no flanking
/// neighbours. A target anywhere within the container is taken as the first
/// pane's size; the second pane is the remainder. A target outside the
/// container is rejected, the same policy the general law applies.
pub open spec fn set_split_spec(current: i64, target: i64) -> i64 {
    if 0 <= target <= TOTAL {
        target
    } else {
        current
    }
}

/// Every explicit pane size, together with the implicit last pane,
/// partitions the whole container: the sizes sum to exactly [`TOTAL`], and
/// the implicit pane is itself a size within the container.
pub proof fn lemma_implied_last_completes(s: Seq<i64>)
    requires
        valid_percentages(s),
    ensures
        sum(s) + implied_last(s) == TOTAL,
        0 <= implied_last(s) <= TOTAL,
{
    lemma_sum_nonneg(s);
}

/// A drag never breaks the layout invariant: from a valid layout, any target
/// at any handle leaves a valid layout. With [`lemma_implied_last_completes`]
/// this keeps, across every sequence of drags, each pane size nonnegative and
/// the total of all panes at exactly [`TOTAL`].
pub proof fn lemma_redistribute_preserves_valid(s: Seq<i64>, i: int, t: int)
    requires
        valid_percentages(s),
        0 <= i < s.len(),
    ensures
        valid_percentages(redistribute_spec(s, i, t)),
{
    if drag_accepted(s, i, t) {
        lemma_sum_parts(s, i);
        let prev = prev_sum(s, i);
        let next = next_sum(s, i);
        let moved = t - prev;
        assert(0 <= moved <= TOTAL - next - prev);
        let shifted = s.update(i, moved as i64);
        lemma_sum_update(s, i, moved as i64);
        if i + 1 < s.len() {
            lemma_sum_skip_step(s, i + 1);
            assert(forall|j: int| 0 <= j < s.len() - i - 2 ==> 0 <= #[trigger] s.skip(i + 2)[j]);
            lemma_sum_nonneg(s.skip(i + 2));
            let absorbed = s[i + 1] + s[i] - moved;
            assert(0 <= absorbed <= TOTAL);
            let result = shifted.update(i + 1, absorbed as i64);
            lemma_sum_update(shifted, i + 1, absorbed as i64);
            assert(sum(result) == sum(s));
            assert(forall|j: int| 0 <= j < result.len() ==> 0 <= #[trigger] result[j]);
        } else {
            assert(sum(shifted) == prev + moved);
            assert(forall|j: int| 0 <= j < shifted.len() ==> 0 <= #[trigger] shifted[j]);
        }
    }
}

/// Locality: a drag of handle `i` can change the sizes of panes `i` and
/// `i + 1` only; every other stored size is returned unchanged, whatever the
/// target.
pub proof fn lemma_redistribute_locality(s: Seq<i64>, i: int, t: int)
    requires
        0 <= i < s.len(),
    ensures
        redistribute_spec(s, i, t).len() == s.len(),
        forall|j: int|
            0 <= j < s.len() && j != i && j != i + 1 ==> redistribute_spec(s, i, t)[j] == s[j],
{
}

/// A drag of a handle that is not the last moves size between its two
/// flanking panes only, so the stored sum — and with it the implicit last
/// pane — is untouched. Only the last handle, whose right flank is the
/// implicit pane itself, can resize it.
pub proof fn lemma_non_last_drag_keeps_implied_last(s: Seq<i64>, i: int, t: int)
    requires
        valid_percentages(s),
        0 <= i,
        i + 1 < s.len(),
    ensures
        sum(redistribute_spec(s, i, t)) == sum(s),
        implied_last(redistribute_spec(s, i, t)) == implied_last(s),
{
    if drag_accepted(s, i, t) {
        lemma_sum_parts(s, i);
        lemma_sum_skip_step(s, i + 1);
        assert(forall|j: int| 0 <= j < s.len() - i - 2 ==> 0 <= #[trigger] s.skip(i + 2)[j]);
        lemma_sum_nonneg(s.skip(i + 2));
        let moved = t - prev_sum(s, i);
        assert(0 <= moved <= TOTAL);
        assert(0 <= s[i + 1] + s[i] - moved <= TOTAL);
        let shifted = s.update(i, moved as i64);
        lemma_sum_update(s, i, moved as i64);
        lemma_sum_update(shifted, i + 1, (s[i + 1] + s[i] - moved) as i64);
    }
}

/// A target outside the drag window is a no-op: the layout comes back
/// unchanged, equal to the input.
pub proof fn lemma_out_of_range_is_noop(s: Seq<i64>, i: int, t: int)
    requires
        !in_drag_range(s, i, t),
    ensures
        redistribute_spec(s, i, t) == s,
{
}

/// Two-pane equivalence: on a layout with one stored size, the general
/// redistribution law and the two-pane fast path agree on every target.
pub proof fn lemma_two_pane_equivalence(current: i64, target: i64)
    requires
        0 <= current <= TOTAL,
    ensures
        redistribute_spec(seq![current], 0, target as int) =~= seq![
            set_split_spec(current, target),
        ],
{
    let s = seq![current];
    assert(s.take(0) =~= Seq::<i64>::empty());
    assert(s.skip(1) =~= Seq::<i64>::empty());
    assert(prev_sum(s, 0) == 0);
    assert(next_sum(s, 0) == 0);
    if drag_accepted(s, 0, target as int) {
        assert(s.update(0, target)[0] == target);
    }
}

/// Computes the sum of the first `k` stored sizes of a valid layout.
pub(crate) fn prefix_total(v: &Vec<i64>, k: usize) -> (r: i64)
    requires
        valid_percentages(v@),
        k <= v.len(),
    ensures
        r == sum(v@.take(k as int)),
        0 <= r <= TOTAL,
{
    proof {
        lemma_sum_nonneg(v@);
    }
    let mut acc: i64 = 0;
    let mut j: usize = 0;
    while j < k
        invariant
            j <= k <= v@.len(),
            valid_percentages(v@),
            acc == sum(v@.take(j as int)),
            0 <= acc <= TOTAL,
        decreases k - j,
    {
        proof {
            lemma_sum_parts(v@, j as int);
            lemma_sum_take_step(v@, j as int);
            assert(forall|x: int| 0 <= x < j + 1 ==> 0 <= #[trigger] v@.take(j + 1)[x]);
            lemma_sum_nonneg(v@.take(j + 1));
            assert(forall|x: int| 0 <= x < v@.len() - j - 1 ==> 0 <= #[trigger] v@.skip(
                j + 1,
            )[x]);
            lemma_sum_nonneg(v@.skip(j + 1));
            lemma_sum_split(v@, j + 1);
        }
        acc = acc + v[j];
        j = j + 1;
    }
    acc
}

/// Makes a copy of a stored layout.
pub(crate) fn copy_percentages(v: &Vec<i64>) -> (r: Vec<i64>)
    ensures
        r@ == v@,
{
    let mut r: Vec<i64> = Vec::new();
    let mut j: usize = 0;
    while j < v.len()
        invariant
            j <= v@.len(),
            r@ == v@.take(j as int),
        decreases v@.len() - j,
    {
        r.push(v[j]);
        proof {
            assert(r@ =~= v@.take(j + 1));
        }
        j = j + 1;
    }
    proof {
        assert(r@ =~= v@);
    }
    r
}

/// Dragging handle `index` of a valid layout to the target offset `target`,
/// both in fixed-point units. Returns the layout after the drag: the result
/// of [`redistribute_spec`], again valid. An out-of-window target, or one
/// that would push a pane below zero, returns the input unchanged.
pub fn redistribute(current: &Vec<i64>, index: usize, target: i64) -> (result: Vec<i64>)
    requires
        valid_percentages(current@),
        index < current.len(),
    ensures
        result@ == redistribute_spec(current@, index as int, target as int),
        valid_percentages(result@),
{
    proof {
        lemma_redistribute_preserves_valid(current@, index as int, target as int);
        lemma_sum_parts(current@, index as int);
    }
    let mut result = copy_percentages(current);
    let prev = prefix_total(current, index);
    let total = prefix_total(current, current.len());
    proof {
        assert(current@.take(current@.len() as int) =~= current@);
        lemma_sum_take_step(current@, index as int);
        lemma_sum_split(current@, index as int + 1);
    }
    let next = total - prev - current[index];
    if target >= prev && target <= TOTAL - next {
        let moved = target - prev;
        if index + 1 < current.len() {
            proof {
                lemma_sum_parts(current@, index as int + 1);
                assert(current@[index as int] <= TOTAL);
                assert(current@[index as int + 1] <= TOTAL);
            }
            if target <= prev + current[index] + current[index + 1] {
                proof {
                    lemma_sum_skip_step(current@, index as int + 1);
                    assert(forall|x: int|
                        0 <= x < current@.len() - index - 2 ==> 0 <= #[trigger] current@.skip(
                            index + 2,
                        )[x]);
                    lemma_sum_nonneg(current@.skip(index as int + 2));
                }
                let absorbed = current[index + 1] + current[index] - moved;
                result.set(index, moved);
                result.set(index + 1, absorbed);
            }
        } else {
            result.set(index, moved);
        }
    }
    result
}

/// The two-pane fast path on fixed-point sizes: accepts any target within
/// the container and rejects the rest, exactly [`set_split_spec`].
pub fn set_split(current: i64, target: i64) -> (r: i64)
    requires
        0 <= current <= TOTAL,
    ensures
        r == set_split_spec(current, target),
        0 <= r <= TOTAL,
{
    if target >= 0 && target <= TOTAL {
        target
    } else {
        current
    }
}

/// An equal split of the container over `pane_count` panes: each of the
/// `pane_count - 1` stored sizes is the container divided by the pane count,
/// rounded down to whole fixed-point units.
pub open spec fn equal_split_spec(pane_count: int) -> Seq<i64>
    recommends
        2 <= pane_count,
{
    Seq::new((pane_count - 1) as nat, |j: int| (TOTAL as int / pane_count) as i64)
}

/// An equal split is a valid layout.
pub proof fn lemma_equal_split_valid(pane_count: int)
    requires
        2 <= pane_count,
    ensures
        valid_percentages(equal_split_spec(pane_count)),
{
    let share = TOTAL as int / pane_count;
    let s = equal_split_spec(pane_count);
    assert(0 <= share) by (nonlinear_arith)
        requires
            2 <= pane_count,
            share == TOTAL as int / pane_count,
    ;
    assert(forall|j: int| 0 <= j < s.len() ==> #[trigger] s[j] == share as i64);
    lemma_sum_all_equal(s, share as i64);
    assert(pane_count * share <= TOTAL && (pane_count - 1) * share == pane_count * share - share)
        by (nonlinear_arith)
        requires
            2 <= pane_count,
            share == TOTAL as int / pane_count,
    ;
}

} // verus!
