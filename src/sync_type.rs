//! The choice of counter and free-list, made by a type.
use vstd::prelude::*;

use crate::counter::Counter;
use crate::stack::Stack;
use crate::sync_stack::SyncStack;

verus! {

/// Names the counter and the free-list stack that a [`crate::Pool`] uses.
///
/// Every change to a pool or its slots goes through `&mut`, so a plain
/// integer serves as the counter for both backends; they differ in the stack.
pub trait PoolSyncType {
    type Counter: Counter;
    type Stack: Stack<usize>;
}

/// A free-list of fixed capacity, [`crate::sync_stack::STACK_SIZE`] slots: a
/// pool on this backend keeps no more than that, whatever capacity it was
/// asked for.
pub struct PoolSync;

/// A growable free-list, held to the pool's capacity by the pool alone.
pub struct PoolUnsync;

impl PoolSyncType for PoolSync {
    type Counter = usize;
    type Stack = SyncStack<usize>;
}

impl PoolSyncType for PoolUnsync {
    type Counter = usize;
    type Stack = Vec<usize>;
}

} // verus!
