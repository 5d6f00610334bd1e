//! A stack of fixed capacity, which refuses items past it.
use vstd::prelude::*;

verus! {

/// The capacity of a [`SyncStack`].
pub const STACK_SIZE: usize = 1024;

/// A LIFO stack of at most [`STACK_SIZE`] items; a push past that hands the
/// item back rather than growing.
pub struct SyncStack<A> {
    data: Vec<A>,
}

impl<A> View for SyncStack<A> {
    type V = Seq<A>;

    /// The items, top last.
    closed spec fn view(&self) -> Seq<A> {
        self.data@
    }
}

impl<A> SyncStack<A> {
    pub closed spec fn wf(&self) -> bool {
        self.data@.len() <= STACK_SIZE
    }

    /// An empty stack.
    pub fn new() -> (r: Self)
        ensures
            r@ == Seq::<A>::empty(),
            r.wf(),
    {
        SyncStack { data: Vec::new() }
    }

    /// Takes the top item off, if there is one.
    pub fn pop(&mut self) -> (r: Option<A>)
        ensures
            old(self)@.len() == 0 ==> r is None && final(self)@ == old(self)@,
            old(self)@.len() > 0 ==> r == Some(old(self)@.last()) && final(self)@
                == old(self)@.drop_last(),
            old(self).wf() ==> final(self).wf(),
    {
        self.data.pop()
    }

    /// Puts `value` on top, or hands it back when the stack is full.
    pub fn push(&mut self, value: A) -> (r: Result<(), A>)
        ensures
            r is Ok <==> old(self)@.len() < STACK_SIZE,
            r is Ok ==> final(self)@ == old(self)@.push(value),
            r matches Err(v) ==> v == value && final(self)@ == old(self)@,
            old(self).wf() ==> final(self).wf(),
    {
        if self.data.len() >= STACK_SIZE {
            Err(value)
        } else {
            self.data.push(value);
            Ok(())
        }
    }

    /// The number of items.
    pub fn len(&self) -> (r: usize)
        ensures
            r == self@.len(),
    {
        self.data.len()
    }
}

} // verus!
