//! The timing accumulator's mathematics: the total of a sequence of
//! recorded elapsed times, and its independence from the order in which
//! results arrived.
//!
//! Completed runs report their durations in whatever order their workers
//! finish; the benchmark's total must not depend on that order. That is
//! captured here: two recording orders with the same collection of
//! durations have the same total.

use vstd::prelude::*;
use vstd::seq_lib::group_to_multiset_ensures;

verus! {

/// The total of a sequence of recorded elapsed times, in milliseconds.
pub open spec fn sum_millis(s: Seq<u128>) -> int
    decreases s.len(),
{
    if s.len() == 0 {
        0
    } else {
        sum_millis(s.drop_last()) + s.last()
    }
}

/// Appending one more recorded duration adds exactly that duration to the
/// total.
pub proof fn lemma_sum_push(s: Seq<u128>, x: u128)
    ensures
        sum_millis(s.push(x)) == sum_millis(s) + x,
{
    assert(s.push(x).drop_last() =~= s);
}

/// Removing one recorded duration subtracts exactly that duration from
/// the total.
pub proof fn lemma_sum_remove(s: Seq<u128>, i: int)
    requires
        0 <= i < s.len(),
    ensures
        sum_millis(s) == s[i] + sum_millis(s.remove(i)),
    decreases s.len(),
{
    if i == s.len() - 1 {
        assert(s.remove(i) =~= s.drop_last());
    } else {
        assert(s.remove(i).drop_last() =~= s.drop_last().remove(i));
        assert(s.remove(i).last() == s.last());
        lemma_sum_remove(s.drop_last(), i);
    }
}

/// Order-independence of accumulation: any two recording orders that hold
/// the same collection of durations — the same multiset, however it was
/// interleaved across batches and workers — produce the same total.
pub proof fn lemma_sum_order_independent(s1: Seq<u128>, s2: Seq<u128>)
    requires
        s1.to_multiset() == s2.to_multiset(),
    ensures
        sum_millis(s1) == sum_millis(s2),
    decreases s1.len(),
{
    broadcast use group_to_multiset_ensures;

    if s1.len() == 0 {
        assert(s2.to_multiset().len() == 0);
        assert(s2.len() == 0);
    } else {
        let x = s1.last();
        let last = s1.len() - 1;
        assert(s1.to_multiset().count(x) > 0) by {
            assert(s1.contains(x));
        }
        assert(s2.to_multiset().count(x) > 0);
        assert(s2.contains(x));
        let i = choose|i: int| 0 <= i < s2.len() && s2[i] == x;
        assert(s1.drop_last() =~= s1.remove(last));
        assert(s1.remove(last).to_multiset() =~= s1.to_multiset().remove(x));
        assert(s2.remove(i).to_multiset() =~= s2.to_multiset().remove(x));
        lemma_sum_order_independent(s1.drop_last(), s2.remove(i));
        lemma_sum_remove(s2, i);
    }
}

} // verus!
