//! Laws that hold across several stack operations, proved once and for all
//! over the same spec-level transitions (`pushed`, `pop_result`, `popped`)
//! that the operations' own contracts are stated with.
//!
//! Every head mutation is a single atomic compare-and-swap, so a run of
//! concurrent calls is exactly some sequence of these transitions; the
//! lemmas here quantify over that sequence, which covers every
//! interleaving.

use vstd::prelude::*;
use vstd::multiset::Multiset;
use vstd::seq_lib::group_to_multiset_ensures;
use vstd::seq_lib::lemma_multiset_commutative;
use crate::stack::pop_result;
use crate::stack::popped;
use crate::stack::pushed;

verus! {

/// The stack contents after a run of pushes lands in the order given:
/// `order[0]` first, each later one on top of the stack left by the one
/// before.
pub open spec fn push_all<T>(s: Seq<T>, order: Seq<T>) -> Seq<T>
    decreases order.len(),
{
    if order.len() == 0 {
        s
    } else {
        push_all(pushed(s, order[0]), order.drop_first())
    }
}

/// The stack contents after `k` pops.
pub open spec fn drained<T>(s: Seq<T>, k: int) -> Seq<T>
    decreases k,
{
    if k <= 0 {
        s
    } else {
        popped(drained(s, k - 1))
    }
}

/// A run of pushes grows the stack by exactly one node per push.
pub proof fn lemma_push_all_len<T>(s: Seq<T>, order: Seq<T>)
    ensures
        push_all(s, order).len() == s.len() + order.len(),
    decreases order.len(),
{
    if order.len() > 0 {
        lemma_push_all_len(pushed(s, order[0]), order.drop_first());
    }
}

/// A run of pushes adds exactly its own values to the stack's multiset:
/// none lost, none duplicated, whatever order the pushes land in.
pub proof fn lemma_push_all_multiset<T>(s: Seq<T>, order: Seq<T>)
    ensures
        push_all(s, order).to_multiset() == s.to_multiset().add(order.to_multiset()),
    decreases order.len(),
{
    broadcast use group_to_multiset_ensures;

    if order.len() == 0 {
        assert(order.to_multiset() =~= Multiset::empty());
        assert(s.to_multiset().add(Multiset::empty()) =~= s.to_multiset());
    } else {
        let v = order[0];
        lemma_push_all_multiset(pushed(s, v), order.drop_first());
        assert(pushed(s, v).to_multiset() == s.to_multiset().insert(v)) by {
            lemma_multiset_commutative(seq![v], s);
            assert(seq![v] =~= Seq::empty().push(v));
            assert(seq![v].to_multiset() =~= Multiset::empty().insert(v));
            assert(Multiset::empty().insert(v).add(s.to_multiset()) =~= s.to_multiset().insert(
                v,
            ));
        }
        assert(order =~= seq![v] + order.drop_first());
        lemma_multiset_commutative(seq![v], order.drop_first());
        assert(seq![v].to_multiset() =~= Multiset::empty().insert(v)) by {
            assert(seq![v] =~= Seq::empty().push(v));
        }
        assert(s.to_multiset().insert(v).add(order.drop_first().to_multiset()) =~= s.to_multiset()
            .add(order.to_multiset()));
    }
}

/// Each pop claims a fresh node: after `k` pops from contents `s`, exactly
/// the top `k` nodes are gone, and the next pop claims the node at
/// position `k` — never one already claimed. No two pops ever deliver the
/// same node's value.
pub proof fn lemma_pops_claim_distinct_nodes<T>(s: Seq<T>, k: int)
    requires
        0 <= k <= s.len(),
    ensures
        drained(s, k) == s.skip(k),
        k < s.len() ==> pop_result(drained(s, k)) == Some(s[k]),
    decreases k,
{
    if k == 0 {
        assert(s.skip(0) =~= s);
    } else {
        lemma_pops_claim_distinct_nodes(s, k - 1);
        assert(drained(s, k) == popped(s.skip(k - 1)));
        assert(s.skip(k - 1).len() == s.len() - (k - 1));
        assert(s.skip(k - 1).drop_first() =~= s.skip(k));
    }
}

/// Any interleaving of pushes onto an empty stack, drained to empty by
/// repeated pops, delivers exactly the multiset of the pushed values: no
/// loss, no duplication.
pub proof fn lemma_pushes_then_drain_deliver_all<T>(order: Seq<T>)
    ensures
        push_all(Seq::<T>::empty(), order).len() == order.len(),
        push_all(Seq::<T>::empty(), order).to_multiset() == order.to_multiset(),
        drained(push_all(Seq::<T>::empty(), order), order.len() as int).len() == 0,
{
    broadcast use group_to_multiset_ensures;

    lemma_push_all_len(Seq::<T>::empty(), order);
    lemma_push_all_multiset(Seq::<T>::empty(), order);
    assert(Seq::<T>::empty().to_multiset() =~= Multiset::empty());
    assert(Multiset::<T>::empty().add(order.to_multiset()) =~= order.to_multiset());
    let built = push_all(Seq::<T>::empty(), order);
    lemma_pops_claim_distinct_nodes(built, order.len() as int);
    assert(built.skip(order.len() as int).len() == 0);
}

/// A push immediately followed by a pop returns exactly the pushed value
/// and leaves the stack as it was.
pub proof fn lemma_push_then_pop<T>(s: Seq<T>, v: T)
    ensures
        pop_result(pushed(s, v)) == Some(v),
        popped(pushed(s, v)) == s,
{
    assert(pushed(s, v)[0] == v);
    assert(pushed(s, v).drop_first() =~= s);
}

} // verus!
