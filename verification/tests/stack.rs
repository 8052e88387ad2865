use treiber_stack::stack::destroy_chain;
use treiber_stack::stack::node_from_frag_vec;
use treiber_stack::stack::pin;
use treiber_stack::stack::unguarded;
use treiber_stack::stack::Stack;
use treiber_stack::stack::StackIter;

#[test]
fn basic_functionality() {
    let mut guard = pin();
    let mut ll: Stack<usize> = Stack::default();
    assert_eq!(ll.pop(&mut guard), None);
    ll.push(1);
    ll.push(2);
    ll.push(3);
    ll.push(4);
    ll.push(5);
    assert_eq!(ll.pop(&mut guard), Some(5));
    assert_eq!(ll.pop(&mut guard), Some(4));
    assert_eq!(ll.pop(&mut guard), Some(3));
    assert_eq!(ll.pop(&mut guard), Some(2));
    assert_eq!(ll.pop(&mut guard), Some(1));
    assert_eq!(ll.pop(&mut guard), None);
}

#[test]
fn pop_on_empty_is_none_and_does_not_block() {
    let mut guard = pin();
    let mut s: Stack<u64> = Stack::default();
    assert_eq!(s.pop(&mut guard), None);
    assert_eq!(s.pop(&mut guard), None);
}

#[test]
fn push_then_pop_returns_that_value() {
    let mut guard = pin();
    let mut s: Stack<u64> = Stack::default();
    s.push(7);
    s.push(41);
    assert_eq!(s.pop(&mut guard), Some(41));
}

#[test]
fn drain_yields_exact_multiset_of_pushes() {
    let mut guard = pin();
    let mut s: Stack<u64> = Stack::default();
    // Two producers' values landing in some interleaved order.
    let landed = [10, 200, 11, 201, 202, 12, 13, 203];
    for v in landed {
        s.push(v);
    }
    let mut drained = Vec::new();
    while let Some(v) = s.pop(&mut guard) {
        drained.push(v);
    }
    assert_eq!(drained.len(), landed.len());
    let mut expected = landed.to_vec();
    expected.sort();
    drained.sort();
    assert_eq!(drained, expected);
}

#[test]
fn compare_and_swap_success_publishes_new_chain() {
    let mut guard = pin();
    let mut s: Stack<u64> = Stack::default();
    s.push(9);
    let old = s.head(&guard);
    let chain = node_from_frag_vec(vec![1, 2, 3]);
    let res = s.compare_and_swap(old, Some(chain), &mut guard);
    assert!(res.is_ok());
    assert_eq!(s.pop(&mut guard), Some(1));
    assert_eq!(s.pop(&mut guard), Some(2));
    assert_eq!(s.pop(&mut guard), Some(3));
    assert_eq!(s.pop(&mut guard), None);
}

#[test]
fn compare_and_swap_fails_on_stale_snapshot_and_changes_nothing() {
    let mut guard = pin();
    let mut s: Stack<u64> = Stack::default();
    s.push(9);
    let stale = s.head(&guard);
    s.push(8);
    let chain = node_from_frag_vec(vec![1, 2, 3]);
    let res = s.compare_and_swap(stale, Some(chain), &mut guard);
    assert!(res.is_err());
    // The reported current head is usable for the retry.
    let current = res.unwrap_err();
    let chain = node_from_frag_vec(vec![1, 2, 3]);
    let res = s.compare_and_swap(current, Some(chain), &mut guard);
    assert!(res.is_ok());
    assert_eq!(s.pop(&mut guard), Some(1));
}

#[test]
fn compare_and_swap_to_null_empties_the_stack() {
    let mut guard = pin();
    let mut s: Stack<u64> = Stack::default();
    s.push(1);
    s.push(2);
    let old = s.head(&guard);
    let res = s.compare_and_swap(old, None, &mut guard);
    assert!(res.is_ok());
    assert_eq!(s.pop(&mut guard), None);
}

#[test]
fn compare_and_push_success_links_new_top() {
    let mut guard = pin();
    let mut s: Stack<u64> = Stack::default();
    s.push(5);
    let old = s.head(&guard);
    let res = s.compare_and_push(old, 6, &mut guard);
    assert!(res.is_ok());
    // The returned snapshot names the newly linked node, so a chained
    // optimistic update straight on top of it succeeds.
    let top = res.unwrap();
    let res = s.compare_and_push(top, 7, &mut guard);
    assert!(res.is_ok());
    assert_eq!(s.pop(&mut guard), Some(7));
    assert_eq!(s.pop(&mut guard), Some(6));
    assert_eq!(s.pop(&mut guard), Some(5));
}

#[test]
fn compare_and_push_fails_on_stale_snapshot_and_links_nothing() {
    let mut guard = pin();
    let mut s: Stack<u64> = Stack::default();
    s.push(5);
    let stale = s.head(&guard);
    s.push(6);
    let res = s.compare_and_push(stale, 7, &mut guard);
    assert!(res.is_err());
    assert_eq!(s.pop(&mut guard), Some(6));
    assert_eq!(s.pop(&mut guard), Some(5));
    assert_eq!(s.pop(&mut guard), None);
}

#[test]
fn equal_values_in_distinct_nodes_are_each_claimed_once() {
    let mut guard = pin();
    let mut s: Stack<u64> = Stack::default();
    s.push(7);
    s.push(7);
    assert_eq!(s.pop(&mut guard), Some(7));
    assert_eq!(s.pop(&mut guard), Some(7));
    assert_eq!(s.pop(&mut guard), None);
}

#[test]
fn head_snapshots_are_equal_exactly_when_nothing_moved() {
    let mut guard = pin();
    let mut s: Stack<u64> = Stack::default();
    let a = s.head(&guard);
    let b = s.head(&guard);
    assert_eq!(a, b);
    s.push(1);
    let c = s.head(&guard);
    assert_ne!(a, c);
    s.pop(&mut guard);
    let d = s.head(&guard);
    assert_ne!(c, d);
    assert_ne!(a, d);
}

#[test]
fn iterator_walks_snapshot_top_to_bottom() {
    let guard = pin();
    let mut s: Stack<u64> = Stack::default();
    s.push(1);
    s.push(2);
    s.push(3);
    let mut it = StackIter::from_ptr(s.top(&guard), &guard);
    assert_eq!(it.next(), Some(&3));
    assert_eq!(it.next(), Some(&2));
    assert_eq!(it.next(), Some(&1));
    assert_eq!(it.next(), None);
    assert_eq!(it.next(), None);
}

#[test]
fn iterator_on_empty_stack_yields_nothing() {
    let guard = pin();
    let s: Stack<u64> = Stack::default();
    let mut it = StackIter::from_ptr(s.top(&guard), &guard);
    assert_eq!(it.next(), None::<&u64>);
}

#[test]
fn bulk_builder_preserves_input_order() {
    let mut guard = unguarded();
    let mut s: Stack<u64> = Stack::default();
    let old = s.head(&guard);
    let chain = node_from_frag_vec(vec![1, 2, 3]);
    assert_eq!(*chain.value(), 1);
    let res = s.compare_and_swap(old, Some(chain), &mut guard);
    assert!(res.is_ok());
    assert_eq!(s.pop(&mut guard), Some(1));
    assert_eq!(s.pop(&mut guard), Some(2));
    assert_eq!(s.pop(&mut guard), Some(3));
    assert_eq!(s.pop(&mut guard), None);
}

#[test]
fn teardown_frees_each_node_exactly_once() {
    let mut s: Stack<String> = Stack::default();
    let n = 100;
    for i in 0..n {
        s.push(format!("value {}", i));
    }
    assert_eq!(s.teardown(), n);

    let empty: Stack<String> = Stack::default();
    assert_eq!(empty.teardown(), 0);
}

#[test]
fn destroying_an_orphaned_chain_frees_every_node() {
    let chain = node_from_frag_vec(vec![1, 2, 3, 4, 5]);
    assert_eq!(destroy_chain(chain), 5);
}
