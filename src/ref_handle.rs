//! The shared, reference-counted handle to a slot of a pool.
use vstd::prelude::*;

use crate::capability::{is_default, PoolClone, PoolDefault};
use crate::model::{lemma_allocate, lemma_release, lemma_share, lemma_take_payload};
use crate::pool::Pool;
use crate::sync_type::PoolSyncType;

verus! {

/// A handle to a slot of a [`Pool`], shared with the other handles to it.
///
/// The slot counts its handles. A handle is given back with
/// [`PoolRef::release`]; the last one destroys the payload and returns the
/// slot to the pool. A handle dropped without that leaves its slot counted.
///
/// A handle is a plain slot index, not a pointer, so it has no unused bit
/// pattern: `Option<PoolRef<A>>` is one word larger than `PoolRef<A>`.
pub struct PoolRef<A> {
    handle: usize,
    marker: std::marker::PhantomData<A>,
}

impl<A> View for PoolRef<A> {
    type V = usize;

    /// The slot that the handle refers to.
    closed spec fn view(&self) -> usize {
        self.handle
    }
}

impl<A> PoolRef<A> {
    fn wrap(handle: usize) -> (r: Self)
        ensures
            r@ == handle,
    {
        PoolRef { handle, marker: std::marker::PhantomData }
    }

    /// A handle to a new slot holding the default value of `A`.
    pub fn default<S: PoolSyncType>(pool: &mut Pool<A, S>) -> (r: Self)
        where
            A: PoolDefault,
        requires
            old(pool).wf(),
            old(pool)@.has_room(),
        ensures
            r@ == old(pool)@.next_slot(),
            is_default(final(pool)@.payload(r@)),
            final(pool)@ == old(pool)@.allocate(final(pool)@.payload(r@)),
            final(pool).wf(),
    {
        let h = pool.pop();
        pool.put_default(h);
        proof {
            lemma_allocate(old(pool)@, pool@.payload(h));
        }
        Self::wrap(h)
    }

    /// A handle to a new slot holding `value`.
    pub fn new<S: PoolSyncType>(pool: &mut Pool<A, S>, value: A) -> (r: Self)
        requires
            old(pool).wf(),
            old(pool)@.has_room(),
        ensures
            r@ == old(pool)@.next_slot(),
            final(pool)@ == old(pool)@.allocate(value),
            final(pool).wf(),
    {
        proof {
            lemma_allocate(old(pool)@, value);
        }
        let h = pool.pop();
        pool.put(h, value);
        Self::wrap(h)
    }

    /// A handle to a new slot holding a clone of `value`.
    pub fn clone_from<S: PoolSyncType>(pool: &mut Pool<A, S>, value: &A) -> (r: Self)
        where
            A: PoolClone,
        requires
            old(pool).wf(),
            old(pool)@.has_room(),
        ensures
            r@ == old(pool)@.next_slot(),
            cloned(*value, final(pool)@.payload(r@)),
            final(pool)@ == old(pool)@.allocate(final(pool)@.payload(r@)),
            final(pool).wf(),
    {
        let h = pool.pop();
        pool.put_clone(h, value);
        proof {
            lemma_allocate(old(pool)@, pool@.payload(h));
        }
        Self::wrap(h)
    }

    /// A handle to a new slot holding a clone of the payload of `this`.
    pub fn cloned<S: PoolSyncType>(pool: &mut Pool<A, S>, this: &Self) -> (r: Self)
        where
            A: PoolClone,
        requires
            old(pool).wf(),
            old(pool)@.has_room(),
            old(pool)@.live(this@),
        ensures
            r@ == old(pool)@.next_slot(),
            cloned(old(pool)@.payload(this@), final(pool)@.payload(r@)),
            final(pool)@ == old(pool)@.allocate(final(pool)@.payload(r@)),
            final(pool).wf(),
    {
        let mut copy: Option<A> = None;
        pool.value(this.handle).clone_uninit(&mut copy);
        let v = copy.unwrap();
        proof {
            lemma_allocate(old(pool)@, v);
        }
        let h = pool.pop();
        pool.put(h, v);
        Self::wrap(h)
    }

    /// Another handle to the slot of `this`; the payload is not copied.
    pub fn clone<S: PoolSyncType>(pool: &mut Pool<A, S>, this: &Self) -> (r: Self)
        requires
            old(pool).wf(),
            old(pool)@.live(this@),
            old(pool)@.count(this@) < usize::MAX,
        ensures
            r@ == this@,
            final(pool)@ == old(pool)@.share(this@),
            final(pool).wf(),
    {
        proof {
            lemma_share(old(pool)@, this@);
        }
        pool.share(this.handle);
        Self::wrap(this.handle)
    }

    /// Gives the handle back. The last handle to a slot destroys its payload
    /// and returns the slot to the pool's free-list, or to the backing store
    /// when the free-list is full.
    pub fn release<S: PoolSyncType>(pool: &mut Pool<A, S>, this: Self)
        requires
            old(pool).wf(),
            old(pool)@.live(this@),
        ensures
            final(pool)@ == old(pool)@.release(this@),
            final(pool).wf(),
    {
        proof {
            lemma_release(old(pool)@, this@);
        }
        pool.release(this.handle);
    }

    /// The payload of the slot of `this`.
    pub fn value<'a, S: PoolSyncType>(pool: &'a Pool<A, S>, this: &Self) -> (r: &'a A)
        requires
            pool.wf(),
            pool@.live(this@),
        ensures
            *r == pool@.payload(this@),
    {
        pool.value(this.handle)
    }

    /// Whether the two handles refer to the same slot.
    pub fn ptr_eq(left: &Self, right: &Self) -> (r: bool)
        ensures
            r == (left@ == right@),
    {
        left.handle == right.handle
    }

    /// The number of handles to the slot of `this`.
    pub fn strong_count<S: PoolSyncType>(pool: &Pool<A, S>, this: &Self) -> (r: usize)
        requires
            pool.wf(),
            pool@.live(this@),
        ensures
            r == pool@.count(this@),
    {
        pool.count(this.handle)
    }

    /// The slot's address, for keeping the handle outside of a `PoolRef`.
    pub fn into_raw(this: Self) -> (r: usize)
        ensures
            r == this@,
    {
        this.handle
    }

    /// The handle that [`PoolRef::into_raw`] turned into `raw`.
    pub fn from_raw(raw: usize) -> (r: Self)
        ensures
            r@ == raw,
    {
        Self::wrap(raw)
    }

    /// Gives every handle of `these` back, first to last, as
    /// [`PoolRef::release`] does.
    pub fn release_all<S: PoolSyncType>(pool: &mut Pool<A, S>, these: Vec<Self>)
        requires
            old(pool).wf(),
            old(pool)@.can_release_all(these@.map_values(|r: Self| r@)),
        ensures
            final(pool)@ == old(pool)@.release_all(these@.map_values(|r: Self| r@)),
            final(pool).wf(),
    {
        let ghost hs = these@.map_values(|r: Self| r@);
        let mut i: usize = 0;
        assert(hs.skip(0) =~= hs);
        while i < these.len()
            invariant
                0 <= i <= these.len(),
                hs == these@.map_values(|r: Self| r@),
                pool.wf(),
                pool@.can_release_all(hs.skip(i as int)),
                pool@.release_all(hs.skip(i as int)) == old(pool)@.release_all(hs),
            decreases these.len() - i,
        {
            let h = these[i].handle;
            proof {
                assert(hs.skip(i as int)[0] == h);
                assert(hs.skip(i as int).drop_first() =~= hs.skip(i + 1));
                lemma_release(pool@, h);
            }
            pool.release(h);
            i = i + 1;
        }
        proof {
            assert(hs.skip(i as int) =~= Seq::<usize>::empty());
        }
    }

    /// The payload of `this`, for writing, after copy-on-write: where other
    /// handles share the slot, the payload is first cloned into a new slot,
    /// which `this` then refers to, and the old slot loses this handle.
    pub fn make_mut<'a, S: PoolSyncType>(pool: &'a mut Pool<A, S>, this: &mut Self) -> (r: &'a mut A)
        where
            A: PoolClone,
        requires
            old(pool).wf(),
            old(pool)@.count(old(this)@) > 1 ==> old(pool)@.has_room(),
            old(pool)@.live(old(this)@),
        ensures
            old(pool)@.count(old(this)@) > 1 ==> cloned(old(pool)@.payload(old(this)@), *r),
            old(pool)@.count(old(this)@) <= 1 ==> *r == old(pool)@.payload(old(this)@),
            final(this)@ == old(pool)@.unshare(old(this)@, *r).1,
            final(pool)@ == old(pool)@.unshare(old(this)@, *r).0.set_payload(final(this)@, *final(r)),
            final(pool).wf(),
    {
        let h = this.handle;
        if pool.is_shared(h) {
            let mut copy: Option<A> = None;
            pool.value(h).clone_uninit(&mut copy);
            let v = copy.unwrap();
            proof {
                lemma_allocate(old(pool)@, v);
            }
            let nh = pool.pop();
            pool.put(nh, v);
            proof {
                lemma_release(pool@, h);
            }
            pool.release(h);
            this.handle = nh;
        }
        pool.value_mut(this.handle)
    }

    /// The payload of `this`, for writing, where no other handle shares its
    /// slot; `None`, and nothing done, where one does.
    pub fn get_mut<'a, S: PoolSyncType>(pool: &'a mut Pool<A, S>, this: &Self) -> (r: Option<&'a mut A>)
        requires
            old(pool).wf(),
            old(pool)@.live(this@),
        ensures
            r is Some <==> old(pool)@.count(this@) == 1,
            match r {
                Some(v) => *v == old(pool)@.payload(this@) && final(pool)@ == old(pool)@.set_payload(
                    this@,
                    *final(v),
                ),
                None => final(pool)@ == old(pool)@,
            },
            final(pool).wf(),
    {
        if pool.count(this.handle) == 1 {
            Some(pool.value_mut(this.handle))
        } else {
            None
        }
    }

    /// The payload of `this` by value, where no other handle shares its slot;
    /// the slot's storage then goes to the backing store. Else `this`, with
    /// nothing done.
    pub fn try_unwrap<S: PoolSyncType>(pool: &mut Pool<A, S>, this: Self) -> (r: Result<A, Self>)
        requires
            old(pool).wf(),
            old(pool)@.live(this@),
        ensures
            r is Ok <==> old(pool)@.count(this@) == 1,
            match r {
                Ok(v) => v == old(pool)@.payload(this@) && final(pool)@ == old(pool)@.take_payload(
                    this@,
                ),
                Err(t) => t@ == this@ && final(pool)@ == old(pool)@,
            },
            final(pool).wf(),
    {
        if pool.count(this.handle) == 1 {
            proof {
                lemma_take_payload(old(pool)@, this@);
            }
            Ok(pool.take(this.handle))
        } else {
            Err(this)
        }
    }

    /// The payload of `this` by value: moved out where no other handle shares
    /// its slot, as [`PoolRef::try_unwrap`] does; else a clone of it, and
    /// `this` is released.
    pub fn unwrap_or_clone<S: PoolSyncType>(pool: &mut Pool<A, S>, this: Self) -> (r: A)
        where
            A: PoolClone,
        requires
            old(pool).wf(),
            old(pool)@.live(this@),
        ensures
            old(pool)@.count(this@) == 1 ==> r == old(pool)@.payload(this@) && final(pool)@
                == old(pool)@.take_payload(this@),
            old(pool)@.count(this@) > 1 ==> cloned(old(pool)@.payload(this@), r) && final(pool)@
                == old(pool)@.release(this@),
            final(pool).wf(),
    {
        if pool.count(this.handle) == 1 {
            proof {
                lemma_take_payload(old(pool)@, this@);
            }
            pool.take(this.handle)
        } else {
            let mut copy: Option<A> = None;
            pool.value(this.handle).clone_uninit(&mut copy);
            proof {
                lemma_release(old(pool)@, this@);
            }
            pool.release(this.handle);
            copy.unwrap()
        }
    }
}

/// A handle rebuilt by [`PoolRef::from_raw`] from what [`PoolRef::into_raw`]
/// made of `h` is `h` itself: the same slot, and so the same payload and the
/// same effect when released.
pub proof fn lemma_raw_round_trip<A>(h: PoolRef<A>, raw: usize, back: PoolRef<A>)
    requires
        raw == h@,
        back@ == raw,
    ensures
        back@ == h@,
        back == h,
{
}

} // verus!
