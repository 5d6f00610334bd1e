//! The exclusive handle: the only one to its slot.
use vstd::prelude::*;

use crate::capability::{is_default, PoolClone, PoolDefault};
use crate::model::{lemma_allocate, lemma_release, lemma_take_payload};
use crate::pool::Pool;
use crate::sync_type::PoolSyncType;

verus! {

/// The one handle to a slot of a [`Pool`]: the slot's count stays 1 while the
/// handle exists. Giving it back with [`PoolBox::release`] destroys the
/// payload and returns the slot to the pool.
pub struct PoolBox<A> {
    handle: usize,
    marker: std::marker::PhantomData<A>,
}

impl<A> View for PoolBox<A> {
    type V = usize;

    /// The slot that the handle refers to.
    closed spec fn view(&self) -> usize {
        self.handle
    }
}

impl<A> PoolBox<A> {
    fn wrap(handle: usize) -> (r: Self)
        ensures
            r@ == handle,
    {
        PoolBox { handle, marker: std::marker::PhantomData }
    }

    /// A handle to a new slot holding the default value of `A`.
    pub fn default<S: PoolSyncType>(pool: &mut Pool<A, S>) -> (r: Self)
        where
            A: PoolDefault,
        requires
            old(pool).wf(),
            old(pool)@.has_room(),
        ensures
            r@ == old(pool)@.next_slot(),
            is_default(final(pool)@.payload(r@)),
            final(pool)@ == old(pool)@.allocate(final(pool)@.payload(r@)),
            final(pool).wf(),
    {
        let h = pool.pop();
        pool.put_default(h);
        proof {
            lemma_allocate(old(pool)@, pool@.payload(h));
        }
        Self::wrap(h)
    }

    /// A handle to a new slot holding `value`.
    pub fn new<S: PoolSyncType>(pool: &mut Pool<A, S>, value: A) -> (r: Self)
        requires
            old(pool).wf(),
            old(pool)@.has_room(),
        ensures
            r@ == old(pool)@.next_slot(),
            final(pool)@ == old(pool)@.allocate(value),
            final(pool).wf(),
    {
        proof {
            lemma_allocate(old(pool)@, value);
        }
        let h = pool.pop();
        pool.put(h, value);
        Self::wrap(h)
    }

    /// A handle to a new slot holding a clone of `value`.
    pub fn clone_from<S: PoolSyncType>(pool: &mut Pool<A, S>, value: &A) -> (r: Self)
        where
            A: PoolClone,
        requires
            old(pool).wf(),
            old(pool)@.has_room(),
        ensures
            r@ == old(pool)@.next_slot(),
            cloned(*value, final(pool)@.payload(r@)),
            final(pool)@ == old(pool)@.allocate(final(pool)@.payload(r@)),
            final(pool).wf(),
    {
        let h = pool.pop();
        pool.put_clone(h, value);
        proof {
            lemma_allocate(old(pool)@, pool@.payload(h));
        }
        Self::wrap(h)
    }

    /// A handle to a new slot holding a clone of the payload of `this`.
    pub fn clone<S: PoolSyncType>(pool: &mut Pool<A, S>, this: &Self) -> (r: Self)
        where
            A: PoolClone,
        requires
            old(pool).wf(),
            old(pool)@.has_room(),
            old(pool)@.live(this@),
        ensures
            r@ == old(pool)@.next_slot(),
            r@ != this@,
            cloned(old(pool)@.payload(this@), final(pool)@.payload(r@)),
            final(pool)@ == old(pool)@.allocate(final(pool)@.payload(r@)),
            final(pool).wf(),
    {
        let mut copy: Option<A> = None;
        pool.value(this.handle).clone_uninit(&mut copy);
        let v = copy.unwrap();
        proof {
            lemma_allocate(old(pool)@, v);
        }
        let h = pool.pop();
        pool.put(h, v);
        Self::wrap(h)
    }

    /// The payload of the slot of `this`.
    pub fn value<'a, S: PoolSyncType>(pool: &'a Pool<A, S>, this: &Self) -> (r: &'a A)
        requires
            pool.wf(),
            pool@.live(this@),
        ensures
            *r == pool@.payload(this@),
    {
        pool.value(this.handle)
    }

    /// The payload of the slot of `this`, for writing.
    pub fn value_mut<'a, S: PoolSyncType>(pool: &'a mut Pool<A, S>, this: &Self) -> (r: &'a mut A)
        requires
            old(pool).wf(),
            old(pool)@.live(this@),
        ensures
            *r == old(pool)@.payload(this@),
            final(pool)@ == old(pool)@.set_payload(this@, *final(r)),
            final(pool).wf(),
    {
        pool.value_mut(this.handle)
    }

    /// Gives the handle back: the payload is destroyed and the slot goes to
    /// the pool's free-list, or to the backing store when the free-list is full.
    pub fn release<S: PoolSyncType>(pool: &mut Pool<A, S>, this: Self)
        requires
            old(pool).wf(),
            old(pool)@.live(this@),
            old(pool)@.count(this@) == 1,
        ensures
            final(pool)@ == old(pool)@.release(this@),
            final(pool).wf(),
    {
        proof {
            lemma_release(old(pool)@, this@);
        }
        pool.release(this.handle);
    }

    /// The payload moved out of the pool; the slot's storage goes to the
    /// backing store.
    pub fn into_inner<S: PoolSyncType>(pool: &mut Pool<A, S>, this: Self) -> (r: A)
        requires
            old(pool).wf(),
            old(pool)@.live(this@),
            old(pool)@.count(this@) == 1,
        ensures
            r == old(pool)@.payload(this@),
            final(pool)@ == old(pool)@.take_payload(this@),
            final(pool).wf(),
    {
        proof {
            lemma_take_payload(old(pool)@, this@);
        }
        pool.take(this.handle)
    }

    /// Whether the two handles refer to the same slot.
    pub fn ptr_eq(left: &Self, right: &Self) -> (r: bool)
        ensures
            r == (left@ == right@),
    {
        left.handle == right.handle
    }

    /// The slot's address, for keeping the handle outside of a `PoolBox`.
    pub fn into_raw(this: Self) -> (r: usize)
        ensures
            r == this@,
    {
        this.handle
    }

    /// The handle that [`PoolBox::into_raw`] turned into `raw`.
    pub fn from_raw(raw: usize) -> (r: Self)
        ensures
            r@ == raw,
    {
        Self::wrap(raw)
    }
}

} // verus!
