//! Pooled reference-counted allocation.
//!
//! A [`Pool`] keeps a bounded free-list of slots that were used before, and
//! hands them out again to new values of the same type. A [`PoolRef`] is a
//! shared, reference-counted handle to one slot: cloning it bumps the slot's
//! count, releasing it lowers the count, and when the count reaches zero the
//! payload is destroyed and the slot goes back on the free-list (or back to
//! the backing store, when the free-list is already at capacity).
//!
//! Slots live in the pool's arena and handles address them by index, so every
//! operation on a handle takes the pool that owns its slot. A [`PoolBox`] is
//! the exclusive variant: the only handle to its slot.
//!
//! A pool's backend ([`PoolUnsync`] by default, or [`PoolSync`]) picks the
//! stack that holds its free-list: a growable one, or one of fixed capacity
//! that also caps the pool's.
//!
//! Every operation is specified as a step on [`PoolModel`], the pool seen as
//! a value; the laws that relate several steps are proved on that model.
use vstd::prelude::*;

mod box_handle;
mod capability;
mod counter;
mod laws;
mod model;
mod pool;
mod ref_handle;
mod refbox;
mod stack;
mod sync_stack;
mod sync_type;

pub use crate::box_handle::PoolBox;
pub use crate::capability::{is_default, PoolClone, PoolDefault, PoolDefaultImpl};
pub use crate::counter::Counter;
pub use crate::laws::{
    lemma_capacity_conservation, lemma_copy_on_write_isolation, lemma_null_pool,
    lemma_pool_size_bounded, lemma_ref_count_accounting, lemma_reuse,
};
pub use crate::model::PoolModel;
pub use crate::pool::Pool;
pub use crate::ref_handle::{lemma_raw_round_trip, PoolRef};
pub use crate::refbox::RefBox;
pub use crate::stack::Stack;
pub use crate::sync_stack::{SyncStack, STACK_SIZE};
pub use crate::sync_type::{PoolSync, PoolSyncType, PoolUnsync};
