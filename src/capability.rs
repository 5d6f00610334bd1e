//! What a payload type offers to initialise a slot in place.
use vstd::prelude::*;

verus! {

/// `v` is a value that `A::default()` may return.
pub open spec fn is_default<A: Default>(v: A) -> bool {
    call_ensures(A::default, (), v)
}

/// Initialising a slot's (possibly empty) storage to a default value.
pub trait PoolDefault: Default {
    /// Fills `target` with what `Self::default()` gives, dropping what it held.
    fn default_uninit(target: &mut Option<Self>)
        ensures
            (*final(target)) is Some,
            is_default(final(target)->Some_0),
    ;
}

/// Cloning a value into a slot's (possibly empty) storage.
pub trait PoolClone: PoolDefault + Clone {
    /// Fills `target` with a clone of `self`, dropping what it held.
    fn clone_uninit(&self, target: &mut Option<Self>)
        ensures
            (*final(target)) is Some,
            cloned(*self, final(target)->Some_0),
    ;
}

/// Opts a type into [`PoolDefault`] and [`PoolClone`] by way of its ordinary
/// `Default` and `Clone`.
pub trait PoolDefaultImpl: Default {

}

impl<A: PoolDefaultImpl> PoolDefault for A {
    fn default_uninit(target: &mut Option<A>) {
        *target = Some(A::default());
    }
}

impl<A: PoolDefaultImpl + Clone> PoolClone for A {
    fn clone_uninit(&self, target: &mut Option<A>) {
        *target = Some(self.clone());
    }
}

impl PoolDefaultImpl for bool {

}

impl PoolDefaultImpl for u8 {

}

impl PoolDefaultImpl for u16 {

}

impl PoolDefaultImpl for u32 {

}

impl PoolDefaultImpl for u64 {

}

impl PoolDefaultImpl for u128 {

}

impl PoolDefaultImpl for usize {

}

impl PoolDefaultImpl for i8 {

}

impl PoolDefaultImpl for i16 {

}

impl PoolDefaultImpl for i32 {

}

impl PoolDefaultImpl for i64 {

}

impl PoolDefaultImpl for i128 {

}

impl PoolDefaultImpl for isize {

}

impl PoolDefaultImpl for String {

}

impl<A> PoolDefaultImpl for Option<A> {

}

impl<A> PoolDefaultImpl for Vec<A> {

}

} // verus!
