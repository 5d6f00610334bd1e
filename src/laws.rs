//! Properties of pools that span several operations, proved on the model
//! that every operation's contract is stated over.
use vstd::prelude::*;

use crate::model::{lemma_allocate, lemma_release, lemma_share, PoolModel};

verus! {

/// The free-list of a well-formed pool never holds more than its capacity.
pub proof fn lemma_pool_size_bounded<A>(m: PoolModel<A>)
    requires
        m.wf(),
    ensures
        m.pool_size() <= m.max_size,
{
}

/// Releasing the only handles to `hs`, distinct slots, one after another,
/// leaves `min(capacity, f + hs.len())` slots on a free-list that held `f`.
pub proof fn lemma_capacity_conservation<A>(m: PoolModel<A>, hs: Seq<usize>)
    requires
        m.wf(),
        hs.no_duplicates(),
        forall|k: int| 0 <= k < hs.len() ==> m.live(#[trigger] hs[k]) && m.count(hs[k]) == 1,
    ensures
        m.can_release_all(hs),
        m.release_all(hs).wf(),
        m.release_all(hs).pool_size() == vstd::math::min(
            m.max_size as int,
            (m.pool_size() + hs.len()) as int,
        ),
    decreases hs.len(),
{
    if hs.len() > 0 {
        let h = hs[0];
        let m1 = m.release(h);
        lemma_release(m, h);
        let rest = hs.drop_first();
        assert forall|k: int| 0 <= k < rest.len() implies m1.live(#[trigger] rest[k]) && m1.count(
            rest[k],
        ) == 1 by {
            assert(rest[k] == hs[k + 1]);
        }
        lemma_capacity_conservation(m1, rest);
    }
}

/// After the last handle to a slot is released, the next allocation takes a
/// slot from the free-list when it is not empty, that slot being the one
/// just released when the free-list had room for it; and the new handle's
/// payload is the new value, whatever the slot held before.
pub proof fn lemma_reuse<A>(m: PoolModel<A>, h: usize, v: A)
    requires
        m.wf(),
        m.live(h),
        m.count(h) == 1,
    ensures
        m.release(h).has_room(),
        !m.is_full() ==> m.release(h).next_slot() == h,
        m.release(h).allocate(v).payload(m.release(h).next_slot()) == v,
        m.release(h).allocate(v).count(m.release(h).next_slot()) == 1,
        !m.is_full() ==> m.release(h).allocate(v).pool_size() == m.pool_size(),
{
    lemma_release(m, h);
    lemma_allocate(m.release(h), v);
}

impl<A> PoolModel<A> {
    /// `k` more handles to slot `h`, one after another.
    pub open spec fn share_n(self, h: usize, k: nat) -> Self
        decreases k,
    {
        if k == 0 {
            self
        } else {
            self.share(h).share_n(h, (k - 1) as nat)
        }
    }

    /// `j` handles to slot `h` released, one after another.
    pub open spec fn release_n(self, h: usize, j: nat) -> Self
        decreases j,
    {
        if j == 0 {
            self
        } else {
            self.release(h).release_n(h, (j - 1) as nat)
        }
    }
}

proof fn lemma_share_n<A>(m: PoolModel<A>, h: usize, k: nat)
    requires
        m.wf(),
        m.live(h),
    ensures
        m.share_n(h, k).wf(),
        m.share_n(h, k).live(h),
        m.share_n(h, k).count(h) == m.count(h) + k,
        m.share_n(h, k).free == m.free,
        m.share_n(h, k).spare == m.spare,
        m.share_n(h, k).max_size == m.max_size,
    decreases k,
{
    if k > 0 {
        lemma_share(m, h);
        lemma_share_n(m.share(h), h, (k - 1) as nat);
    }
}

proof fn lemma_release_n<A>(m: PoolModel<A>, h: usize, j: nat)
    requires
        m.wf(),
        m.live(h),
        j < m.count(h),
    ensures
        m.release_n(h, j).wf(),
        m.release_n(h, j).live(h),
        m.release_n(h, j).count(h) == m.count(h) - j,
        m.release_n(h, j).free == m.free,
        m.release_n(h, j).spare == m.spare,
        m.release_n(h, j).max_size == m.max_size,
    decreases j,
{
    if j > 0 {
        lemma_release(m, h);
        lemma_release_n(m.release(h), h, (j - 1) as nat);
    }
}

/// A slot with one handle, given `k` more and then `j <= k + 1` of them
/// released, counts `k + 1 - j` handles; its storage goes back to the free-list
/// or the backing store with the last release, and with no other.
pub proof fn lemma_ref_count_accounting<A>(m: PoolModel<A>, h: usize, k: nat, j: nat)
    requires
        m.wf(),
        m.live(h),
        m.count(h) == 1,
        j <= k + 1,
    ensures
        j <= k ==> m.share_n(h, k).release_n(h, j).live(h) && m.share_n(h, k).release_n(h, j).count(
            h,
        ) == k + 1 - j && m.share_n(h, k).release_n(h, j).free == m.free && m.share_n(
            h,
            k,
        ).release_n(h, j).spare == m.spare,
        j == k + 1 ==> !m.share_n(h, k).release_n(h, j).live(h) && (m.share_n(h, k).release_n(
            h,
            j,
        ).free == m.free.push(h) && m.share_n(h, k).release_n(h, j).spare == m.spare || m.share_n(
            h,
            k,
        ).release_n(h, j).free == m.free && m.share_n(h, k).release_n(h, j).spare == m.spare.push(
            h,
        )),
{
    lemma_share_n(m, h, k);
    let s = m.share_n(h, k);
    if j <= k {
        lemma_release_n(s, h, j);
    } else {
        lemma_release_n(s, h, k);
        let t = s.release_n(h, k);
        assert(t.count(h) == 1);
        lemma_release(t, h);
        assert(t.release(h).release_n(h, 0) == t.release(h));
        lemma_release_n_last(s, h, k);
    }
}

proof fn lemma_release_n_last<A>(m: PoolModel<A>, h: usize, k: nat)
    ensures
        m.release_n(h, k + 1) == m.release_n(h, k).release(h),
    decreases k,
{
    assert(m.release_n(h, k + 1) == m.release(h).release_n(h, k));
    if k > 0 {
        lemma_release_n_last(m.release(h), h, (k - 1) as nat);
        assert(m.release_n(h, k) == m.release(h).release_n(h, (k - 1) as nat));
    } else {
        assert(m.release(h).release_n(h, 0) == m.release(h));
    }
}

/// Given a second handle to a slot, copy-on-write through it moves it to a
/// new slot, and whatever is then written there leaves the first handle's
/// slot, its payload and its count as they were.
pub proof fn lemma_copy_on_write_isolation<A>(m: PoolModel<A>, h: usize, c: A, w: A)
    requires
        m.wf(),
        m.live(h),
        m.has_room(),
    ensures
        m.share(h).unshare(h, c).1 != h,
        m.share(h).unshare(h, c).0.set_payload(m.share(h).unshare(h, c).1, w).live(h),
        m.share(h).unshare(h, c).0.set_payload(m.share(h).unshare(h, c).1, w).payload(h) == m.payload(
            h,
        ),
        m.share(h).unshare(h, c).0.set_payload(m.share(h).unshare(h, c).1, w).count(h) == m.count(h),
{
    lemma_share(m, h);
    let m1 = m.share(h);
    lemma_allocate(m1, c);
    lemma_release(m1.allocate(c), h);
}

/// A pool of capacity 0 keeps no slot on its free-list and is always full;
/// each step keeps its capacity at 0, the last release hands the slot to the
/// backing store, and an allocation holds the value it was given.
pub proof fn lemma_null_pool<A>(m: PoolModel<A>, h: usize, v: A)
    requires
        m.wf(),
        m.max_size == 0,
    ensures
        m.pool_size() == 0,
        m.is_full(),
        m.live(h) ==> m.release(h).max_size == 0 && m.release(h).pool_size() == 0,
        m.live(h) && m.count(h) == 1 ==> m.release(h).spare == m.spare.push(h),
        m.has_room() ==> m.allocate(v).max_size == 0 && m.allocate(v).pool_size() == 0 && m.allocate(
            v,
        ).payload(m.next_slot()) == v,
        m.live(h) ==> m.share(h).max_size == 0,
{
    if m.has_room() {
        lemma_allocate(m, v);
    }
}

} // verus!
