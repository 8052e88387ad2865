//! A lock-free-style LIFO stack core: a singly linked chain of nodes under a
//! single head slot, with push, pop, compare-and-push, whole-chain
//! compare-and-swap, read-only iteration and bulk chain construction.
//!
//! Every head mutation is a single successful compare-and-swap against an
//! optimistic-concurrency version token, and every unlinked node is handed to
//! a guard's deferred-destruction ledger, so the contracts here state both the
//! exact contents after each operation and that no node leaks.

pub mod stack;
pub mod laws;
