//! `Unique`, a mutable smart pointer that is never shared: it owns its value in a box of its
//! own. Its clone copies the value into a new box, so it is not a second handle to the same
//! value as a shared pointer's clone is; a `Unique` is the only handle to its value, and the
//! value can always be taken out. It serves as the mutable pointer that a shared one is turned
//! into by `IntoMut`, and is no shared pointer itself.
use vstd::prelude::*;
use crate::{SmartPointer, SmartPointerMut};

verus! {

/// A handle that owns its value alone.
pub struct Unique<T> {
    boxed: Box<T>,
}

impl<T> Unique<T> {
    /// The value this handle owns.
    pub closed spec fn value(&self) -> T {
        *self.boxed
    }
}

impl<T: Clone> Clone for Unique<T> {
    /// A second handle, to a copy of the value.
    fn clone(&self) -> (r: Self)
        ensures
            cloned(self.value(), r.value()),
    {
        Unique { boxed: Box::new((*self.boxed).clone()) }
    }
}

impl<T> core::ops::Deref for Unique<T> {
    type Target = T;

    fn deref(&self) -> (r: &T)
        ensures
            *r == self.value(),
    {
        &*self.boxed
    }
}

impl<T> core::ops::DerefMut for Unique<T> {
    fn deref_mut(&mut self) -> (r: &mut T)
        ensures
            *r == old(self).value(),
            final(self).value() == *final(r),
    {
        &mut *self.boxed
    }
}

impl<T> core::borrow::Borrow<T> for Unique<T> {
    fn borrow(&self) -> (r: &T)
        returns
            &self.value(),
    {
        &*self.boxed
    }
}

impl<T: Clone> SmartPointer<T> for Unique<T> {
    open spec fn pointee(&self) -> T {
        self.value()
    }

    proof fn lemma_deref_is_pointee(p: &Self, r: &T) {
    }

    fn new(t: T) -> (r: Self) {
        Unique { boxed: Box::new(t) }
    }

    fn try_unwrap(this: Self) -> (r: Result<T, Self>)
        ensures
            r == Ok::<T, Self>(this.value()),
    {
        Ok(*this.boxed)
    }
}

impl<T: Clone> SmartPointerMut<T> for Unique<T> {
    proof fn lemma_deref_mut_is_pointee(p: &mut Self, r: &mut T) {
    }
}

} // verus!
