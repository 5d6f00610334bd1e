//! The pool: an arena of slots, a bounded free-list of vacant ones, and the
//! backing store's own list of vacant slots.
use vstd::prelude::*;

use crate::capability::{is_default, PoolClone, PoolDefault};
use crate::counter::Counter;
use crate::model::{lemma_fill_one, PoolModel};
use crate::refbox::RefBox;
use crate::stack::Stack;
use crate::sync_type::{PoolSyncType, PoolUnsync};

verus! {

/// A pool of reusable slots for values of type `A`.
///
/// At most `max_size` vacant slots wait on the free-list. A pool made with a
/// capacity of 0 keeps none: every slot goes straight back to the backing store.
/// The backend `S` picks the slots' counter and the free-list's stack.
pub struct Pool<A, S: PoolSyncType = PoolUnsync> {
    max_size: usize,
    boxes: Vec<RefBox<A, S::Counter>>,
    stack: S::Stack,
    spare: Vec<usize>,
}

impl<A, S: PoolSyncType> View for Pool<A, S> {
    type V = PoolModel<A>;

    closed spec fn view(&self) -> PoolModel<A> {
        PoolModel {
            max_size: self.max_size as nat,
            counts: self.boxes@.map_values(|b: RefBox<A, S::Counter>| b.count.value()),
            values: self.boxes@.map_values(|b: RefBox<A, S::Counter>| b.value),
            free: self.stack.items(),
            spare: self.spare@,
        }
    }
}

impl<A, S: PoolSyncType> Pool<A, S> {
    /// The pool's model is well formed, and its free-list fits in the
    /// backend's stack.
    pub open spec fn wf(&self) -> bool {
        self@.wf() && self@.max_size <= S::Stack::limit()
    }

    /// The capacity of a pool asked for `max_size`: no more than the
    /// backend's stack holds.
    pub open spec fn capacity_for(max_size: usize) -> nat {
        if max_size as nat <= S::Stack::limit() {
            max_size as nat
        } else {
            S::Stack::limit()
        }
    }

    /// A pool that keeps up to `max_size` vacant slots for reuse, or as many
    /// as the backend's stack holds if that is fewer.
    pub fn new(max_size: usize) -> (r: Self)
        ensures
            r@ == PoolModel::<A>::empty(Self::capacity_for(max_size)),
            r.wf(),
    {
        let limit = S::Stack::stack_limit();
        let max_size = if max_size <= limit {
            max_size
        } else {
            limit
        };
        let r = Pool { max_size, boxes: Vec::new(), stack: Stack::stack_new(), spare: Vec::new() };
        assert(r@.counts =~= Seq::<nat>::empty());
        assert(r@.values =~= Seq::<Option<A>>::empty());
        r
    }

    /// The most vacant slots the pool keeps.
    pub fn get_max_size(&self) -> (r: usize)
        ensures
            r == self@.max_size,
    {
        self.max_size
    }

    /// The number of vacant slots waiting on the free-list.
    pub fn get_pool_size(&self) -> (r: usize)
        ensures
            r == self@.pool_size(),
    {
        self.stack.stack_len()
    }

    /// Whether the free-list is at capacity; always so for capacity 0.
    pub fn is_full(&self) -> (r: bool)
        ensures
            r == self@.is_full(),
    {
        self.stack.stack_len() >= self.max_size
    }

    /// Takes the next slot off the free-list, or from the backing store.
    pub(crate) fn pop(&mut self) -> (h: usize)
        requires
            old(self).wf(),
            old(self)@.has_room(),
        ensures
            h == old(self)@.next_slot(),
            final(self)@ == old(self)@.take_slot(),
    {
        match self.stack.stack_pop() {
            Some(h) => h,
            None => self.take_backing(),
        }
    }

    /// Takes a vacant slot from the backing store: the last one handed back
    /// to it, else a new one.
    fn take_backing(&mut self) -> (h: usize)
        requires
            old(self).wf(),
            old(self)@.spare.len() > 0 || old(self)@.counts.len() < usize::MAX,
        ensures
            h == old(self)@.backing_slot(),
            final(self)@ == old(self)@.take_backing(),
    {
        match self.spare.pop() {
            Some(h) => h,
            None => {
                self.boxes.push(RefBox::vacant());
                let ghost m = self@;
                assert(m.counts =~= old(self)@.counts.push(0));
                assert(m.values =~= old(self)@.values.push(None));
                assert(m == old(self)@.take_backing());
                self.boxes.len() - 1
            },
        }
    }

    /// Tops the free-list up to capacity with vacant slots, so that the next
    /// allocations find them ready.
    pub fn fill(&mut self)
        requires
            old(self).wf(),
            old(self)@.counts.len() + old(self)@.max_size <= usize::MAX,
        ensures
            final(self)@ == old(self)@.fill(),
            final(self).wf(),
    {
        while self.stack.stack_len() < self.max_size
            invariant
                self.wf(),
                self@.fill() == old(self)@.fill(),
                self@.counts.len() + self@.max_size - self@.free.len() <= usize::MAX,
            decreases self.max_size - self@.free.len(),
        {
            proof {
                lemma_fill_one(self@);
            }
            let h = self.take_backing();
            let _ = self.stack.stack_push(h);
        }
    }

    /// This pool, filled to capacity.
    pub fn filled(self) -> (r: Self)
        requires
            self.wf(),
            self@.counts.len() + self@.max_size <= usize::MAX,
        ensures
            r@ == self@.fill(),
            r.wf(),
    {
        let mut p = self;
        p.fill();
        p
    }

    /// A pool for a payload type of the same layout, with the same capacity
    /// and as many vacant slots on its free-list as this one has. The two do
    /// not share slots afterwards: each pool's arena holds its own type.
    pub fn cast<B>(&self) -> (r: Pool<B, S>)
        requires
            self.wf(),
            vstd::layout::size_of::<A>() == vstd::layout::size_of::<B>(),
            vstd::layout::align_of::<A>() == vstd::layout::align_of::<B>(),
        ensures
            r@.max_size == self@.max_size,
            r@.pool_size() == self@.pool_size(),
            r@.counts.len() == self@.pool_size(),
            r@.spare.len() == 0,
            r.wf(),
    {
        let n = self.stack.stack_len();
        let mut r: Pool<B, S> = Pool::new(self.max_size);
        while r.stack.stack_len() < n
            invariant
                r.wf(),
                r@.max_size == self@.max_size,
                r@.spare.len() == 0,
                r@.counts.len() == r@.free.len(),
                r@.free.len() <= n,
                n == self@.pool_size(),
                n <= self@.max_size,
            decreases n - r@.free.len(),
        {
            proof {
                lemma_fill_one(r@);
            }
            let h = r.take_backing();
            let _ = r.stack.stack_push(h);
        }
        r
    }

    /// Slot `h`, vacant and off both lists, now holds `v` and one handle.
    pub(crate) fn put(&mut self, h: usize, v: A)
        requires
            old(self).wf(),
            old(self)@.vacant(h),
        ensures
            final(self)@ == old(self)@.put(h, v),
    {
        let b = &mut self.boxes[h];
        b.inc();
        b.value = Some(v);
        assert(self@.counts =~= old(self)@.put(h, v).counts);
        assert(self@.values =~= old(self)@.put(h, v).values);
    }

    /// Slot `h` now holds a default value and one handle.
    pub(crate) fn put_default(&mut self, h: usize)
        where
            A: PoolDefault,
        requires
            old(self).wf(),
            old(self)@.vacant(h),
        ensures
            is_default(final(self)@.payload(h)),
            final(self)@ == old(self)@.put(h, final(self)@.payload(h)),
    {
        let b = &mut self.boxes[h];
        A::default_uninit(&mut b.value);
        b.inc();
        assert(self@.counts =~= old(self)@.put(h, self@.payload(h)).counts);
        assert(self@.values =~= old(self)@.put(h, self@.payload(h)).values);
    }

    /// Slot `h` now holds a clone of `value` and one handle.
    pub(crate) fn put_clone(&mut self, h: usize, value: &A)
        where
            A: PoolClone,
        requires
            old(self).wf(),
            old(self)@.vacant(h),
        ensures
            cloned(*value, final(self)@.payload(h)),
            final(self)@ == old(self)@.put(h, final(self)@.payload(h)),
    {
        let b = &mut self.boxes[h];
        value.clone_uninit(&mut b.value);
        b.inc();
        assert(self@.counts =~= old(self)@.put(h, self@.payload(h)).counts);
        assert(self@.values =~= old(self)@.put(h, self@.payload(h)).values);
    }

    /// The number of handles to slot `h`.
    pub(crate) fn count(&self, h: usize) -> (r: usize)
        requires
            h < self@.counts.len(),
        ensures
            r == self@.count(h),
    {
        self.boxes[h].count()
    }

    /// Whether slot `h` has more than one handle.
    pub(crate) fn is_shared(&self, h: usize) -> (r: bool)
        requires
            h < self@.counts.len(),
        ensures
            r == (self@.count(h) > 1),
    {
        self.boxes[h].is_shared()
    }

    /// One more handle to slot `h`.
    pub(crate) fn share(&mut self, h: usize)
        requires
            old(self).wf(),
            old(self)@.live(h),
            old(self)@.count(h) < usize::MAX,
        ensures
            final(self)@ == old(self)@.share(h),
    {
        self.boxes[h].inc();
        assert(self@.counts =~= old(self)@.share(h).counts);
        assert(self@.values =~= old(self)@.values);
    }

    /// One handle to slot `h` goes away; the last one returns the slot to
    /// the free-list, or to the backing store when the free-list is full.
    pub(crate) fn release(&mut self, h: usize)
        requires
            old(self).wf(),
            old(self)@.live(h),
        ensures
            final(self)@ == old(self)@.release(h),
    {
        let prev = self.boxes[h].dec();
        if prev == 1 {
            self.boxes[h].value = None;
            if self.stack.stack_len() < self.max_size {
                let _ = self.stack.stack_push(h);
            } else {
                self.spare.push(h);
            }
        }
        assert(self@.counts =~= old(self)@.release(h).counts);
        assert(self@.values =~= old(self)@.release(h).values);
    }

    /// Moves the payload of slot `h`, which has one handle, out of the pool.
    pub(crate) fn take(&mut self, h: usize) -> (r: A)
        requires
            old(self).wf(),
            old(self)@.live(h),
            old(self)@.count(h) == 1,
        ensures
            r == old(self)@.payload(h),
            final(self)@ == old(self)@.take_payload(h),
    {
        let b = &mut self.boxes[h];
        let _ = b.dec();
        let v = b.value.take();
        self.spare.push(h);
        assert(self@.counts =~= old(self)@.take_payload(h).counts);
        assert(self@.values =~= old(self)@.take_payload(h).values);
        v.unwrap()
    }

    /// The payload of the live slot `h`.
    pub(crate) fn value(&self, h: usize) -> (r: &A)
        requires
            self.wf(),
            self@.live(h),
        ensures
            *r == self@.payload(h),
    {
        self.boxes[h].value_as_ref()
    }

    /// The payload of the live slot `h`, for writing.
    pub(crate) fn value_mut(&mut self, h: usize) -> (r: &mut A)
        requires
            old(self).wf(),
            old(self)@.live(h),
        ensures
            *r == old(self)@.payload(h),
            final(self)@ == old(self)@.set_payload(h, *final(r)),
    {
        let r = self.boxes[h].value_as_mut();
        proof {
            lemma_view_after_write(*old(self), h);
        }
        r
    }
}

/// A pool whose slot `h` was written, with its count kept, is the old one
/// with the payload of `h` set.
proof fn lemma_view_after_write<A, S: PoolSyncType>(p: Pool<A, S>, h: usize)
    requires
        p@.wf(),
        p@.live(h),
    ensures
        forall|q: Pool<A, S>, v: A|
            #![trigger q@, p@.set_payload(h, v)]
            q.max_size == p.max_size && q.stack.items() == p.stack.items() && q.spare@ == p.spare@
                && q.boxes@ == p.boxes@.update(h as int, RefBox { count: p.boxes@[h as int].count, value: Some(v) })
                ==> q@ == p@.set_payload(h, v),
{
    assert forall|q: Pool<A, S>, v: A|
        #![trigger q@, p@.set_payload(h, v)]
        q.max_size == p.max_size && q.stack.items() == p.stack.items() && q.spare@ == p.spare@
            && q.boxes@ == p.boxes@.update(h as int, RefBox { count: p.boxes@[h as int].count, value: Some(v) })
            implies q@ == p@.set_payload(h, v) by {
        assert(q@.counts =~= p@.set_payload(h, v).counts);
        assert(q@.values =~= p@.set_payload(h, v).values);
    }
}

} // verus!
