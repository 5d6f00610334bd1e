//! The mathematical picture of a pool: its slots, their counts and payloads,
//! and the two lists of vacant slots, with every operation as a step on it.
use vstd::prelude::*;

verus! {

/// A pool as a value.
///
/// Slot `h` holds `counts[h]` handles and the payload `values[h]`. A slot with
/// no handle is vacant: it holds no payload. Vacant slots sit either on the
/// free-list `free` (the pool proper, bounded by `max_size`, top at the end) or
/// on `spare`, the storage handed back to the backing store because the
/// free-list was at capacity.
pub struct PoolModel<A> {
    pub max_size: nat,
    pub counts: Seq<nat>,
    pub values: Seq<Option<A>>,
    pub free: Seq<usize>,
    pub spare: Seq<usize>,
}

impl<A> PoolModel<A> {
    /// A pool of the given capacity with no slot at all.
    pub open spec fn empty(max_size: nat) -> Self {
        PoolModel {
            max_size,
            counts: Seq::empty(),
            values: Seq::empty(),
            free: Seq::empty(),
            spare: Seq::empty(),
        }
    }

    /// Number of vacant slots on the free-list.
    pub open spec fn pool_size(self) -> nat {
        self.free.len()
    }

    pub open spec fn is_full(self) -> bool {
        self.free.len() >= self.max_size
    }

    /// Slot `h` exists and some handle refers to it.
    pub open spec fn live(self, h: usize) -> bool {
        h < self.counts.len() && self.counts[h as int] > 0
    }

    /// Slot `h` exists and no handle refers to it.
    pub open spec fn vacant(self, h: usize) -> bool {
        h < self.counts.len() && self.counts[h as int] == 0
    }

    pub open spec fn count(self, h: usize) -> nat {
        self.counts[h as int]
    }

    pub open spec fn payload(self, h: usize) -> A {
        self.values[h as int]->Some_0
    }

    pub open spec fn wf(self) -> bool {
        &&& self.values.len() == self.counts.len()
        &&& self.counts.len() <= usize::MAX
        &&& self.free.len() <= self.max_size
        &&& forall|i: int|
            0 <= i < self.counts.len() ==> (#[trigger] self.counts[i] > 0 <==> self.values[i] is Some)
        &&& forall|k: int| 0 <= k < self.free.len() ==> self.vacant(#[trigger] self.free[k])
        &&& forall|k: int| 0 <= k < self.spare.len() ==> self.vacant(#[trigger] self.spare[k])
        &&& forall|k: int, l: int|
            0 <= k < l < self.free.len() ==> #[trigger] self.free[k] != #[trigger] self.free[l]
        &&& forall|k: int, l: int|
            0 <= k < l < self.spare.len() ==> #[trigger] self.spare[k] != #[trigger] self.spare[l]
        &&& forall|k: int, l: int|
            0 <= k < self.free.len() && 0 <= l < self.spare.len() ==> #[trigger] self.free[k]
                != #[trigger] self.spare[l]
    }

    /// An allocation needs no more slots than an index can address.
    pub open spec fn has_room(self) -> bool {
        self.free.len() > 0 || self.spare.len() > 0 || self.counts.len() < usize::MAX
    }

    /// The slot that the backing store hands out next: the last one handed
    /// back to it, else a new one.
    pub open spec fn backing_slot(self) -> usize {
        if self.spare.len() > 0 {
            self.spare.last()
        } else {
            self.counts.len() as usize
        }
    }

    /// The pool once `backing_slot` has been taken from the backing store.
    pub open spec fn take_backing(self) -> Self {
        if self.spare.len() > 0 {
            PoolModel { spare: self.spare.drop_last(), ..self }
        } else {
            PoolModel { counts: self.counts.push(0), values: self.values.push(None), ..self }
        }
    }

    /// The slot that the next allocation takes: the top of the free-list,
    /// else one from the backing store.
    pub open spec fn next_slot(self) -> usize {
        if self.free.len() > 0 {
            self.free.last()
        } else {
            self.backing_slot()
        }
    }

    /// The pool once `next_slot` has been taken.
    pub open spec fn take_slot(self) -> Self {
        if self.free.len() > 0 {
            PoolModel { free: self.free.drop_last(), ..self }
        } else {
            self.take_backing()
        }
    }

    /// Slot `h` now holds `v` and one handle.
    pub open spec fn put(self, h: usize, v: A) -> Self {
        PoolModel {
            counts: self.counts.update(h as int, 1),
            values: self.values.update(h as int, Some(v)),
            ..self
        }
    }

    /// A new value in a slot of its own, with one handle.
    pub open spec fn allocate(self, v: A) -> Self {
        self.take_slot().put(self.next_slot(), v)
    }

    /// One more handle to slot `h`.
    pub open spec fn share(self, h: usize) -> Self {
        PoolModel { counts: self.counts.update(h as int, self.counts[h as int] + 1), ..self }
    }

    /// Slot `h` is emptied and its storage goes to the backing store.
    pub open spec fn vacate(self, h: usize) -> Self {
        PoolModel {
            counts: self.counts.update(h as int, 0),
            values: self.values.update(h as int, None),
            ..self
        }
    }

    /// One handle to slot `h` goes away. The last one destroys the payload and
    /// puts the slot on the free-list, or in the backing store when the
    /// free-list is full.
    pub open spec fn release(self, h: usize) -> Self {
        if self.counts[h as int] > 1 {
            PoolModel { counts: self.counts.update(h as int, (self.counts[h as int] - 1) as nat), ..self }
        } else if self.free.len() < self.max_size {
            PoolModel { free: self.free.push(h), ..self.vacate(h) }
        } else {
            PoolModel { spare: self.spare.push(h), ..self.vacate(h) }
        }
    }

    /// The payload of the unique handle to `h` is moved out; the slot's
    /// storage goes to the backing store, not to the free-list.
    pub open spec fn take_payload(self, h: usize) -> Self {
        PoolModel { spare: self.spare.push(h), ..self.vacate(h) }
    }

    /// Slot `h` now holds `v`, with its handles unchanged.
    pub open spec fn set_payload(self, h: usize, v: A) -> Self {
        PoolModel { values: self.values.update(h as int, Some(v)), ..self }
    }

    /// The handles `hs` released one after another, first to last.
    pub open spec fn release_all(self, hs: Seq<usize>) -> Self
        decreases hs.len(),
    {
        if hs.len() == 0 {
            self
        } else {
            self.release(hs[0]).release_all(hs.drop_first())
        }
    }

    /// Each of `hs` is live when its turn to be released comes.
    pub open spec fn can_release_all(self, hs: Seq<usize>) -> bool
        decreases hs.len(),
    {
        hs.len() == 0 || (self.live(hs[0]) && self.release(hs[0]).can_release_all(hs.drop_first()))
    }

    /// One vacant slot from the backing store pushed on the free-list.
    pub open spec fn fill_one(self) -> Self {
        PoolModel { free: self.free.push(self.backing_slot()), ..self.take_backing() }
    }

    /// The free-list topped up to capacity from the backing store.
    pub open spec fn fill(self) -> Self
        decreases self.max_size - self.free.len(),
    {
        if self.free.len() < self.max_size {
            self.fill_one().fill()
        } else {
            self
        }
    }

    /// Copy-on-write on a handle to `h`: where `h` is shared, a clone `c` of
    /// its payload goes into a new slot, which the handle then refers to.
    /// Gives the pool and the slot that the handle refers to afterwards.
    pub open spec fn unshare(self, h: usize, c: A) -> (Self, usize) {
        if self.counts[h as int] > 1 {
            (self.allocate(c).release(h), self.next_slot())
        } else {
            (self, h)
        }
    }
}

pub proof fn lemma_take_slot<A>(m: PoolModel<A>)
    requires
        m.wf(),
        m.has_room(),
    ensures
        m.take_slot().wf(),
        m.take_slot().vacant(m.next_slot()),
        m.take_slot().max_size == m.max_size,
        forall|h: usize| m.live(h) ==> m.take_slot().live(h) && m.take_slot().count(h) == m.count(h)
            && m.take_slot().payload(h) == m.payload(h),
        forall|k: int| 0 <= k < m.take_slot().free.len() ==> m.take_slot().free[k] != m.next_slot(),
        forall|k: int| 0 <= k < m.take_slot().spare.len() ==> m.take_slot().spare[k] != m.next_slot(),
{
}

pub proof fn lemma_allocate<A>(m: PoolModel<A>, v: A)
    requires
        m.wf(),
        m.has_room(),
    ensures
        m.allocate(v).wf(),
        m.allocate(v).max_size == m.max_size,
        !m.live(m.next_slot()),
        m.allocate(v).live(m.next_slot()),
        m.allocate(v).count(m.next_slot()) == 1,
        m.allocate(v).payload(m.next_slot()) == v,
        forall|h: usize| m.live(h) ==> m.allocate(v).live(h) && m.allocate(v).count(h) == m.count(h)
            && m.allocate(v).payload(h) == m.payload(h),
{
    lemma_take_slot(m);
}

pub proof fn lemma_share<A>(m: PoolModel<A>, h: usize)
    requires
        m.wf(),
        m.live(h),
    ensures
        m.share(h).wf(),
        m.share(h).live(h),
{
}

pub proof fn lemma_release<A>(m: PoolModel<A>, h: usize)
    requires
        m.wf(),
        m.live(h),
    ensures
        m.release(h).wf(),
        m.release(h).max_size == m.max_size,
        m.release(h).counts.len() == m.counts.len(),
        forall|g: usize| g != h && m.live(g) ==> m.release(h).live(g) && m.release(h).count(g) == m.count(g)
            && m.release(h).payload(g) == m.payload(g),
        m.count(h) > 1 ==> m.release(h).live(h) && m.release(h).count(h) == m.count(h) - 1
            && m.release(h).payload(h) == m.payload(h),
{
}

pub proof fn lemma_take_payload<A>(m: PoolModel<A>, h: usize)
    requires
        m.wf(),
        m.live(h),
        m.count(h) == 1,
    ensures
        m.take_payload(h).wf(),
        m.take_payload(h).max_size == m.max_size,
{
}

pub proof fn lemma_fill_one<A>(m: PoolModel<A>)
    requires
        m.wf(),
        m.free.len() < m.max_size,
        m.spare.len() > 0 || m.counts.len() < usize::MAX,
    ensures
        m.fill_one().wf(),
        m.fill_one().max_size == m.max_size,
        m.fill_one().free.len() == m.free.len() + 1,
{
}

} // verus!
