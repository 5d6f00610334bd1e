//! The last-in, first-out list that holds a pool's vacant slots.
use vstd::prelude::*;

use crate::sync_stack::{SyncStack, STACK_SIZE};

verus! {

/// A LIFO stack, bounded or not.
pub trait Stack<A>: Sized {
    /// The items, top last.
    spec fn items(&self) -> Seq<A>;

    /// The most items the stack holds.
    spec fn limit() -> nat;

    fn stack_limit() -> (r: usize)
        ensures
            r == Self::limit(),
    ;

    fn stack_new() -> (r: Self)
        ensures
            r.items() == Seq::<A>::empty(),
    ;

    /// Pushes `value` where it fits; else hands it back.
    fn stack_push(&mut self, value: A) -> (r: Result<(), A>)
        ensures
            r is Ok <==> old(self).items().len() < Self::limit(),
            r is Ok ==> final(self).items() == old(self).items().push(value),
            r matches Err(v) ==> v == value && final(self).items() == old(self).items(),
    ;

    fn stack_pop(&mut self) -> (r: Option<A>)
        ensures
            old(self).items().len() == 0 ==> r is None && final(self).items() == old(self).items(),
            old(self).items().len() > 0 ==> r == Some(old(self).items().last()) && final(self).items()
                == old(self).items().drop_last(),
    ;

    fn stack_len(&self) -> (r: usize)
        ensures
            r == self.items().len(),
    ;
}

/// The growable stack: as many items as an index can count.
impl<A> Stack<A> for Vec<A> {
    open spec fn items(&self) -> Seq<A> {
        self@
    }

    open spec fn limit() -> nat {
        usize::MAX as nat
    }

    fn stack_limit() -> (r: usize) {
        usize::MAX
    }

    fn stack_new() -> (r: Vec<A>) {
        Vec::new()
    }

    fn stack_push(&mut self, value: A) -> (r: Result<(), A>) {
        if self.len() < usize::MAX {
            self.push(value);
            Ok(())
        } else {
            Err(value)
        }
    }

    fn stack_pop(&mut self) -> (r: Option<A>) {
        self.pop()
    }

    fn stack_len(&self) -> (r: usize) {
        self.len()
    }
}

/// The fixed-capacity stack: full at [`STACK_SIZE`] items.
impl<A> Stack<A> for SyncStack<A> {
    open spec fn items(&self) -> Seq<A> {
        self@
    }

    open spec fn limit() -> nat {
        STACK_SIZE as nat
    }

    fn stack_limit() -> (r: usize) {
        STACK_SIZE
    }

    fn stack_new() -> (r: SyncStack<A>) {
        SyncStack::new()
    }

    fn stack_push(&mut self, value: A) -> (r: Result<(), A>) {
        self.push(value)
    }

    fn stack_pop(&mut self) -> (r: Option<A>) {
        self.pop()
    }

    fn stack_len(&self) -> (r: usize) {
        self.len()
    }
}

} // verus!
