//! One slot of a pool's arena: a handle count and the payload it guards.
use vstd::prelude::*;

use crate::counter::Counter;

verus! {

/// A slot: how many handles refer to it, and its payload while it has any.
pub struct RefBox<A, C> {
    pub(crate) count: C,
    pub(crate) value: Option<A>,
}

impl<A, C: Counter> RefBox<A, C> {
    /// A slot that no handle refers to and that holds no payload.
    pub(crate) fn vacant() -> (r: Self)
        ensures
            r.count.value() == 0,
            r.value is None,
    {
        RefBox { count: Counter::counter_new(), value: None }
    }

    pub(crate) fn inc(&mut self)
        requires
            old(self).count.value() < usize::MAX,
        ensures
            final(self).count.value() == old(self).count.value() + 1,
            final(self).value == old(self).value,
    {
        self.count.inc();
    }

    /// Lowers the count and gives the count it had before.
    pub(crate) fn dec(&mut self) -> (r: usize)
        requires
            old(self).count.value() > 0,
        ensures
            r == old(self).count.value(),
            final(self).count.value() == old(self).count.value() - 1,
            final(self).value == old(self).value,
    {
        self.count.dec()
    }

    pub(crate) fn count(&self) -> (r: usize)
        ensures
            r == self.count.value(),
    {
        self.count.count()
    }

    pub(crate) fn is_shared(&self) -> (r: bool)
        ensures
            r == (self.count.value() > 1),
    {
        self.count.count() > 1
    }

    pub(crate) fn value_as_ref(&self) -> (r: &A)
        requires
            self.value is Some,
        ensures
            *r == self.value->Some_0,
    {
        self.value.as_ref().unwrap()
    }

    pub(crate) fn value_as_mut(&mut self) -> (r: &mut A)
        requires
            old(self).value is Some,
        ensures
            *r == old(self).value->Some_0,
            final(self).count == old(self).count,
            final(self).value == Some(*final(r)),
    {
        match &mut self.value {
            Some(v) => v,
            None => unreached(),
        }
    }
}

} // verus!
