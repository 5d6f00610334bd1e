//! The handle count kept in each slot.
use vstd::prelude::*;

verus! {

/// A count of handles.
pub trait Counter: Sized {
    spec fn value(&self) -> nat;

    /// A count of zero.
    fn counter_new() -> (r: Self)
        ensures
            r.value() == 0,
    ;

    fn inc(&mut self)
        requires
            old(self).value() < usize::MAX,
        ensures
            final(self).value() == old(self).value() + 1,
    ;

    /// Lowers the count and gives the count it had before.
    fn dec(&mut self) -> (r: usize)
        requires
            old(self).value() > 0,
        ensures
            r == old(self).value(),
            final(self).value() == old(self).value() - 1,
    ;

    fn count(&self) -> (r: usize)
        ensures
            r == self.value(),
    ;
}

impl Counter for usize {
    open spec fn value(&self) -> nat {
        *self as nat
    }

    fn counter_new() -> (r: usize) {
        0
    }

    fn inc(&mut self) {
        *self = *self + 1;
    }

    fn dec(&mut self) -> (r: usize) {
        let prev = *self;
        *self = prev - 1;
        prev
    }

    fn count(&self) -> (r: usize) {
        *self
    }
}

} // verus!
