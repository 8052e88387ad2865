//! The stack itself: nodes, guards, version tokens, and the head-slot
//! operations (push, pop, compare-and-push, compare-and-swap, teardown),
//! plus read-only iteration and the bulk chain builder.

use vstd::prelude::*;

verus! {

/// A node in the stack: one value and the link to the rest of the chain.
///
/// A node is exclusively owned by whatever currently links to it: its
/// predecessor node, the stack's head slot, or — before publication — the
/// caller that built it.
pub struct Node<T> {
    value: T,
    next: Option<Box<Node<T>>>,
}

impl<T> Node<T> {
    /// The values stored in this node and everything linked below it,
    /// top first.
    pub closed spec fn chain(self) -> Seq<T>
        decreases self,
    {
        match self.next {
            None => seq![self.value],
            Some(n) => seq![self.value] + n.chain(),
        }
    }

    /// Read-only access to this node's value.
    pub fn value(&self) -> (r: &T)
        ensures
            *r == self.chain()[0],
    {
        &self.value
    }
}

/// The values reachable from an optional chain head, top first.
pub open spec fn chain_view<T>(c: Option<Box<Node<T>>>) -> Seq<T> {
    match c {
        None => Seq::empty(),
        Some(n) => n.chain(),
    }
}

/// A reclamation guard: while one is held, no node unlinked after it was
/// acquired is destroyed, so pointer reads made under it stay valid.
///
/// Here the guard also keeps the deferred-destruction ledger: `deferred()`
/// counts the nodes this guard has been handed for destruction once no
/// reader can still observe them. The contracts of `pop`,
/// `compare_and_push` and `compare_and_swap` state exactly how many nodes
/// each call defers, which is what makes leak-freedom checkable.
pub struct Guard {
    deferred_nodes: Ghost<nat>,
}

impl Guard {
    /// How many unlinked nodes have been handed to this guard for deferred
    /// destruction so far.
    pub closed spec fn deferred(&self) -> nat {
        self.deferred_nodes@
    }
}

/// Marks the calling thread as active in the current reclamation epoch and
/// returns the guard that keeps its pointer reads safe.
pub fn pin() -> (g: Guard)
    ensures
        g.deferred() == 0,
{
    Guard { deferred_nodes: Ghost(0) }
}

/// A guard for provably single-threaded contexts (building a chain that is
/// not yet published, or tearing the structure down): pin bookkeeping is
/// skipped because no concurrent reader can exist. Must never be used while
/// real concurrent access is possible.
pub fn unguarded() -> (g: Guard)
    ensures
        g.deferred() == 0,
{
    Guard { deferred_nodes: Ghost(0) }
}

/// A snapshot of the head slot: an optimistic-concurrency version token,
/// not a reservation. It is the `expected` argument of `compare_and_swap`
/// and `compare_and_push`; two tokens are equal exactly when no successful
/// compare-and-swap hit the head slot between the two reads.
#[derive(Clone, Copy, Debug, PartialEq, Eq, Structural)]
pub struct Token {
    v: u64,
}

impl Token {
    /// The number of successful head compare-and-swaps the stack had seen
    /// when this token was taken.
    pub closed spec fn version(self) -> u64 {
        self.v
    }
}

/// What a push leaves in the stack: the new value on top of what was there.
pub open spec fn pushed<T>(s: Seq<T>, v: T) -> Seq<T> {
    seq![v] + s
}

/// What a pop returns: the top value, or nothing from an empty stack.
pub open spec fn pop_result<T>(s: Seq<T>) -> Option<T> {
    if s.len() == 0 {
        None
    } else {
        Some(s[0])
    }
}

/// What a pop leaves in the stack: everything below the old top.
pub open spec fn popped<T>(s: Seq<T>) -> Seq<T> {
    if s.len() == 0 {
        s
    } else {
        s.drop_first()
    }
}

/// A LIFO stack of linked nodes under a single head slot, with the ability
/// to atomically push, pop, compare-and-push, or swap out the whole chain.
///
/// The view `self@` is the sequence of stored values, top first.
/// `self.version()` counts the successful compare-and-swaps the head slot
/// has seen; it is what a `Token` is compared against, and it models
/// pointer identity of the head: under an active guard no unlinked node is
/// reclaimed and no node is ever relinked, so the head pointer equals an
/// earlier snapshot exactly when no successful compare-and-swap happened
/// in between.
///
/// Operations that can move the head ask for headroom in the version
/// counter; a fresh stack has room for `u64::MAX` successful
/// compare-and-swaps, so the bound is a machine limit, not behaviour.
pub struct Stack<T> {
    head: Option<Box<Node<T>>>,
    ver: u64,
}

impl<T> View for Stack<T> {
    type V = Seq<T>;

    closed spec fn view(&self) -> Seq<T> {
        chain_view(self.head)
    }
}

impl<T> Default for Stack<T> {
    /// An empty stack.
    fn default() -> (s: Stack<T>)
        ensures
            s@ == Seq::<T>::empty(),
            s.version() == 0,
    {
        Stack { head: None, ver: 0 }
    }
}

impl<T> Stack<T> {
    /// The number of successful compare-and-swaps the head slot has seen.
    pub closed spec fn version(&self) -> u64 {
        self.ver
    }

    /// Returns the current head snapshot, to be used as the `expected`
    /// argument of a later `compare_and_swap` or `compare_and_push`.
    pub fn head(&self, _guard: &Guard) -> (p: Token)
        ensures
            p.version() == self.version(),
    {
        Token { v: self.ver }
    }

    /// Add an item on top of the stack.
    ///
    /// The new node is built unpublished with a null link, so its
    /// construction needs no guard. A push never fails permanently: under
    /// contention the compare-and-swap retry loop only lands the link a
    /// step later, so its whole effect is the one successful link stated
    /// here.
    pub fn push(&mut self, value: T)
        requires
            old(self).version() < u64::MAX,
        ensures
            final(self)@ == pushed(old(self)@, value),
            final(self).version() == old(self).version() + 1,
    {
        let next = self.head.take();
        self.head = Some(Box::new(Node { value, next }));
        self.ver = self.ver + 1;
    }

    /// Pop the top item off the stack, or report that it is empty —
    /// without ever blocking.
    ///
    /// The popped value moves to the caller; the emptied node shell is
    /// handed to the guard for deferred destruction, never destroyed
    /// inline, so a concurrent reader that still holds a snapshot of it
    /// stays safe. Exactly one caller can claim a given node's value.
    pub fn pop(&mut self, guard: &mut Guard) -> (r: Option<T>)
        requires
            old(self).version() < u64::MAX,
        ensures
            r == pop_result(old(self)@),
            final(self)@ == popped(old(self)@),
            old(self)@.len() == 0 ==> final(self).version() == old(self).version()
                && final(guard).deferred() == old(guard).deferred(),
            old(self)@.len() > 0 ==> final(self).version() == old(self).version() + 1
                && final(guard).deferred() == old(guard).deferred() + 1,
    {
        match self.head.take() {
            None => None,
            Some(b) => {
                let n = *b;
                self.head = n.next;
                self.ver = self.ver + 1;
                guard.deferred_nodes = Ghost(guard.deferred() + 1);
                Some(n.value)
            },
        }
    }

    /// Link one new node carrying `new` on top of the stack, conditioned on
    /// the head still matching the snapshot `expected`.
    ///
    /// On success the returned token names the newly linked node, usable as
    /// a future `old` for chained optimistic updates. On failure the
    /// candidate node never joined the structure: its link is reset to null
    /// (so it cannot drag down the chain it pointed at but never owned) and
    /// its shell goes to deferred destruction, while the returned token
    /// reports the actual current head for the caller's retry.
    pub fn compare_and_push(&mut self, expected: Token, new: T, guard: &mut Guard) -> (r: Result<
        Token,
        Token,
    >)
        requires
            old(self).version() < u64::MAX,
        ensures
            r matches Ok(_) <==> expected.version() == old(self).version(),
            (match r {
                Ok(t) => final(self)@ == pushed(old(self)@, new) && final(self).version() == old(
                    self,
                ).version() + 1 && t.version() == final(self).version() && final(guard).deferred()
                    == old(guard).deferred(),
                Err(t) => final(self)@ == old(self)@ && final(self).version() == old(
                    self,
                ).version() && t.version() == old(self).version() && final(guard).deferred() == old(
                    guard,
                ).deferred() + 1,
            }),
    {
        if expected.v == self.ver {
            let next = self.head.take();
            self.head = Some(Box::new(Node { value: new, next }));
            self.ver = self.ver + 1;
            Ok(Token { v: self.ver })
        } else {
            guard.deferred_nodes = Ghost(guard.deferred() + 1);
            Err(Token { v: self.ver })
        }
    }

    /// Replace the whole chain under the head slot, conditioned on the head
    /// still matching the snapshot `expected`. `new` may be a single node, a
    /// prebuilt multi-node chain from `node_from_frag_vec`, or null.
    ///
    /// On success the head becomes `new` and the entire chain previously
    /// under the head — not its top node alone — is handed to deferred
    /// destruction. On failure nothing is published and the entire
    /// candidate chain rooted at `new` is handed to deferred destruction
    /// instead, so no node leaks either way; the returned token reports the
    /// actual current head.
    pub fn compare_and_swap(
        &mut self,
        expected: Token,
        new: Option<Box<Node<T>>>,
        guard: &mut Guard,
    ) -> (r: Result<Token, Token>)
        requires
            old(self).version() < u64::MAX,
        ensures
            r matches Ok(_) <==> expected.version() == old(self).version(),
            (match r {
                Ok(t) => final(self)@ == chain_view(new) && final(self).version() == old(
                    self,
                ).version() + 1 && t.version() == final(self).version() && final(guard).deferred()
                    == old(guard).deferred() + old(self)@.len(),
                Err(t) => final(self)@ == old(self)@ && final(self).version() == old(
                    self,
                ).version() && t.version() == old(self).version() && final(guard).deferred() == old(
                    guard,
                ).deferred() + chain_view(new).len(),
            }),
    {
        if expected.v == self.ver {
            let prev = self.head.take();
            self.head = new;
            self.ver = self.ver + 1;
            guard.deferred_nodes = Ghost(guard.deferred() + chain_view(prev).len());
            discard_chain(prev);
            Ok(Token { v: self.ver })
        } else {
            guard.deferred_nodes = Ghost(guard.deferred() + chain_view(new).len());
            discard_chain(new);
            Err(Token { v: self.ver })
        }
    }

    /// A guarded, non-owning read handle on the current top node, for
    /// read-only traversal with `StackIter::from_ptr`. Valid only while the
    /// guard is active.
    pub fn top<'g>(&'g self, _guard: &'g Guard) -> (r: Option<&'g Node<T>>)
        ensures
            match r {
                None => self@.len() == 0,
                Some(n) => n.chain() == self@,
            },
    {
        match &self.head {
            None => None,
            Some(b) => Some(&**b),
        }
    }

    /// Tear the stack down in a context where no concurrent access is
    /// possible, destroying every linked node and every contained value
    /// exactly once, iteratively rather than by call-stack recursion.
    /// Returns how many nodes it freed.
    pub fn teardown(self) -> (freed: usize)
        requires
            self@.len() <= usize::MAX,
        ensures
            freed == self@.len(),
    {
        let Stack { head, ver: _ } = self;
        match head {
            None => 0,
            Some(b) => destroy_chain(b),
        }
    }
}

/// Destroy a freestanding chain — one never published, or already unlinked,
/// with no live reader — value by value, iteratively rather than by
/// call-stack recursion, so arbitrarily long chains cannot overflow the
/// stack. Returns how many nodes it freed.
pub fn destroy_chain<T>(head: Box<Node<T>>) -> (freed: usize)
    requires
        head.chain().len() <= usize::MAX,
    ensures
        freed == head.chain().len(),
{
    let ghost total: Seq<T> = head.chain();
    let mut cur: Option<Box<Node<T>>> = Some(head);
    let mut freed: usize = 0;
    while cur.is_some()
        invariant
            total.len() <= usize::MAX,
            freed + chain_view(cur).len() == total.len(),
        decreases chain_view(cur).len(),
    {
        let b = cur.unwrap();
        let n = *b;
        cur = n.next;
        freed = freed + 1;
    }
    freed
}

/// An iterator over the nodes of a stack, from a guarded snapshot of its
/// top, top to bottom. Purely read-only: it never mutates and never
/// unlinks, and it is valid only while the guard it was created under is
/// still active — that is what keeps the traversed nodes from being
/// reclaimed underneath the reader. Not restartable: re-traversal takes a
/// fresh iterator from a fresh snapshot.
pub struct StackIter<'a, T> {
    inner: Option<&'a Node<T>>,
}

impl<'a, T> StackIter<'a, T> {
    /// The values not yet yielded, top first.
    pub closed spec fn remaining(&self) -> Seq<T> {
        match self.inner {
            None => Seq::empty(),
            Some(n) => n.chain(),
        }
    }

    /// Creates an iterator from a guarded snapshot of a chain's top node,
    /// as `Stack::top` returns it.
    pub fn from_ptr(ptr: Option<&'a Node<T>>, _guard: &'a Guard) -> (it: StackIter<'a, T>)
        ensures
            it.remaining() == (match ptr {
                None => Seq::<T>::empty(),
                Some(n) => n.chain(),
            }),
    {
        StackIter { inner: ptr }
    }

    /// The next value from the top of the snapshot, or nothing once the
    /// chain is exhausted.
    pub fn next(&mut self) -> (r: Option<&'a T>)
        ensures
            old(self).remaining().len() == 0 ==> r is None && final(self).remaining()
                == old(self).remaining(),
            old(self).remaining().len() > 0 ==> (match r {
                Some(v) => *v == old(self).remaining()[0],
                None => false,
            }) && final(self).remaining() == old(self).remaining().drop_first(),
    {
        match self.inner {
            None => None,
            Some(n) => {
                self.inner = match &n.next {
                    None => None,
                    Some(b) => Some(&**b),
                };
                Some(&n.value)
            },
        }
    }
}

/// Turns a non-empty ordered sequence of values into a freestanding chain
/// off any stack, first element on top, and returns ownership of the
/// chain's head for later atomic publication via `compare_and_swap`.
///
/// An empty input is a precondition violation, not a degenerate success: a
/// zero-node chain has no representation, and callers' compare-and-swap
/// protocols depend on receiving an actual node.
pub fn node_from_frag_vec<T>(from: Vec<T>) -> (r: Box<Node<T>>)
    requires
        from@.len() > 0,
    ensures
        r.chain() == from@,
{
    let ghost all: Seq<T> = from@;
    let mut rest = from;
    let mut last: Option<Box<Node<T>>> = None;
    while rest.len() > 0
        invariant
            all == rest@ + chain_view(last),
        decreases rest@.len(),
    {
        let item = rest.pop().unwrap();
        last = Some(Box::new(Node { value: item, next: last }));
    }
    match last {
        Some(r) => r,
        None => vstd::pervasive::unreached(),
    }
}

/// Drop a possibly-null chain iteratively; used where the stack itself
/// consumes a superseded or rejected chain.
fn discard_chain<T>(c: Option<Box<Node<T>>>) {
    let mut cur: Option<Box<Node<T>>> = c;
    while cur.is_some()
        decreases chain_view(cur).len(),
    {
        let b = cur.unwrap();
        let n = *b;
        cur = n.next;
    }
}

} // verus!
