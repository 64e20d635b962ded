//! The mathematical model of a run of additions: the sum of a sequence of
//! quantities, and the laws the accumulators' contracts rest on.

use vstd::prelude::*;

verus! {

/// The sum of a sequence of quantities.
pub open spec fn sum(qs: Seq<u32>) -> int
    decreases qs.len(),
{
    if qs.len() == 0 {
        0
    } else {
        sum(qs.drop_last()) + qs.last()
    }
}

/// A sum of non-negative quantities is non-negative.
pub proof fn lemma_sum_nonneg(qs: Seq<u32>)
    ensures
        sum(qs) >= 0,
    decreases qs.len(),
{
    if qs.len() > 0 {
        lemma_sum_nonneg(qs.drop_last());
    }
}

/// Extending a prefix by one quantity adds exactly that quantity to its sum.
pub proof fn lemma_sum_take_succ(qs: Seq<u32>, i: int)
    requires
        0 <= i < qs.len(),
    ensures
        sum(qs.take(i + 1)) == sum(qs.take(i)) + qs[i],
{
    assert(qs.take(i + 1).drop_last() =~= qs.take(i));
}

/// Because quantities are non-negative, no prefix sum exceeds the whole sum.
pub proof fn lemma_sum_take_le(qs: Seq<u32>, i: int)
    requires
        0 <= i <= qs.len(),
    ensures
        sum(qs.take(i)) <= sum(qs),
    decreases qs.len() - i,
{
    if i == qs.len() {
        assert(qs.take(i) =~= qs);
    } else {
        lemma_sum_take_succ(qs, i);
        lemma_sum_take_le(qs, i + 1);
    }
}

/// Removing one quantity subtracts exactly that quantity from the sum.
pub proof fn lemma_sum_remove(qs: Seq<u32>, i: int)
    requires
        0 <= i < qs.len(),
    ensures
        sum(qs.remove(i)) == sum(qs) - qs[i],
    decreases qs.len(),
{
    if i == qs.len() - 1 {
        assert(qs.remove(i) =~= qs.drop_last());
    } else {
        assert(qs.remove(i).drop_last() =~= qs.drop_last().remove(i));
        assert(qs.remove(i).last() == qs.last());
        lemma_sum_remove(qs.drop_last(), i);
    }
}

/// Adding a quantity of zero never changes the sum.
pub proof fn lemma_sum_push_zero(qs: Seq<u32>)
    ensures
        sum(qs.push(0)) == sum(qs),
{
    assert(qs.push(0).drop_last() =~= qs);
}

/// Order independence: two runs that add the same quantities, in whatever
/// order, reach the same sum.
pub proof fn lemma_sum_order_independent(qs1: Seq<u32>, qs2: Seq<u32>)
    requires
        qs1.to_multiset() == qs2.to_multiset(),
    ensures
        sum(qs1) == sum(qs2),
    decreases qs1.len(),
{
    broadcast use vstd::seq_lib::group_to_multiset_ensures;

    if qs1.len() == 0 {
        assert(qs2.to_multiset().len() == 0);
    } else {
        let a = qs1.last();
        assert(qs1.contains(a));
        assert(qs2.to_multiset().count(a) > 0);
        assert(qs2.contains(a));
        let i = choose|i: int| 0 <= i < qs2.len() && qs2[i] == a;
        assert(qs1.drop_last() =~= qs1.remove(qs1.len() - 1));
        assert(qs1.drop_last().to_multiset() == qs1.to_multiset().remove(a));
        assert(qs2.remove(i).to_multiset() == qs2.to_multiset().remove(a));
        lemma_sum_remove(qs2, i);
        lemma_sum_order_independent(qs1.drop_last(), qs2.remove(i));
    }
}

} // verus!
