//! Traits for smart pointers that share ownership of a value, with runtime-checked
//! conversion to exclusive, mutable access.
//!
//! A handle is modelled by the value it points to (`pointee`). Whether a handle is the only
//! one to its value is not part of the model: it changes when another handle is cloned or
//! dropped, which leaves the handle itself as it was, so no fact stated of the handle could
//! follow it. It is decided at run time by `IntoMut::can_make_mut`, which each pointer type
//! implements; the contracts say, for each outcome of that check, what holds.
//!
//! Of std's conversion traits only `Borrow` and `Deref` (`DerefMut` for the mutable kind)
//! are required: Verus takes neither `AsRef`, `AsMut`, `BorrowMut` nor `fmt::Pointer` as a
//! bound. Reading through `deref` is tied to the model by a law of the trait; reading
//! through `borrow` is not, since Verus cannot name `Borrow::borrow` in a contract.
use vstd::prelude::*;

pub mod unique;
pub mod laws;

verus! {

/// A pointer that shares ownership of a value of type `T` and grants read access to it.
///
/// A clone is a new handle to the same value, not a copy of it.
pub trait SmartPointer<T>: Sized + Clone + core::borrow::Borrow<T> + core::ops::Deref<
    Target = T,
> {
    /// The value this handle points to.
    spec fn pointee(&self) -> T;

    /// Reading through `deref` gives the value the handle points to.
    proof fn lemma_deref_is_pointee(p: &Self, r: &T)
        requires
            call_ensures(<Self as core::ops::Deref>::deref, (p,), r),
        ensures
            *r == p.pointee(),
    ;

    /// Wraps `t` in a fresh handle, which is the only one to point to it.
    fn new(t: T) -> (r: Self)
        ensures
            r.pointee() == t,
    ;

    /// Takes the value back out of `this` when no other handle points to it; otherwise
    /// `this` comes back unchanged.
    fn try_unwrap(this: Self) -> (r: Result<T, Self>)
        ensures
            match r {
                Ok(v) => v == this.pointee(),
                Err(h) => h == this,
            },
    ;
}

/// A `SmartPointer` that also grants mutable access to its value at all times. A handle of
/// such a type is never shared: no other handle points to the same value, by the way the type
/// is built. So its clone, which `SmartPointer` asks for, cannot share the value as a shared
/// pointer's clone does: it is a handle to a copy.
pub trait SmartPointerMut<T>: SmartPointer<T> + core::ops::DerefMut<Target = T> {
    /// Writing through `deref_mut` changes the value the handle points to.
    proof fn lemma_deref_mut_is_pointee(p: &mut Self, r: &mut T)
        requires
            call_ensures(<Self as core::ops::DerefMut>::deref_mut, (p,), r),
        ensures
            *old(r) == old(p).pointee(),
            final(p).pointee() == *final(r),
    ;
}

/// A `SmartPointer` that may grant mutable access, depending on a check at run time of
/// whether the handle is the only one to point to its value.
///
/// This is for pointer types whose clones share the value, such as reference-counted ones,
/// to implement; their counts live outside the handle, where Verus does not see them.
pub trait IntoMut<T>: SmartPointer<T> {
    /// The mutable pointer that a unique handle can be turned into.
    type MutablePointer: SmartPointerMut<T> + core::convert::Into<Self>;

    /// Turning a mutable pointer back into a shared one with `into` keeps the value it
    /// points to.
    proof fn lemma_into_keeps_pointee(m: Self::MutablePointer, r: Self)
        requires
            call_ensures(<Self::MutablePointer as core::convert::Into<Self>>::into, (m,), r),
        ensures
            r.pointee() == m.pointee(),
    ;

    /// The run-time check `can_make_mut` has said yes of this handle.
    ///
    /// This records an answer, not the present state: a clone made since the check leaves
    /// it true. That no clone of the handle is made between the check and the unchecked
    /// conversions is the caller's to keep; the checked ones leave no room for it.
    spec fn passed_check(&self) -> bool;

    /// Whether `this` is the only handle to its value, so that the conversions into
    /// mutable access may be made.
    fn can_make_mut(this: &Self) -> (r: bool)
        ensures
            r ==> this.passed_check(),
    ;

    /// Turns `this` into a mutable pointer to the same value, without checking that it is
    /// the only handle; the caller must know that it is.
    fn into_mut_unchecked(this: Self) -> (r: Self::MutablePointer)
        requires
            this.passed_check(),
        ensures
            r.pointee() == this.pointee(),
    ;

    /// Turns `this` into a mutable pointer to the same value if the check finds it the only
    /// handle to it, and hands it back unchanged otherwise.
    fn into_mut(this: Self) -> (r: Result<Self::MutablePointer, Self>)
        ensures
            match r {
                Ok(m) => this.passed_check() && m.pointee() == this.pointee(),
                Err(h) => h == this,
            },
    {
        if Self::can_make_mut(&this) {
            Ok(Self::into_mut_unchecked(this))
        } else {
            Err(this)
        }
    }

    /// Borrows the value of `this` mutably, without checking that it is the only handle;
    /// the caller must know that it is.
    ///
    /// The handle is borrowed mutably for as long as the returned reference lives, so it
    /// cannot be cloned meanwhile, and the new value is seen through the handle afterwards.
    fn get_mut_unchecked(this: &mut Self) -> (r: &mut T)
        requires
            old(this).passed_check(),
        ensures
            *r == old(this).pointee(),
            final(this).pointee() == *final(r),
    ;

    /// Borrows the value of `this` mutably if the check finds it the only handle to it, and
    /// returns `None`, leaving it unchanged, otherwise.
    fn get_mut(this: &mut Self) -> (r: Option<&mut T>)
        ensures
            match r {
                Some(m) => {
                    &&& old(this).passed_check()
                    &&& *m == old(this).pointee()
                    &&& final(this).pointee() == *final(m)
                },
                None => *final(this) == *old(this),
            },
    {
        if Self::can_make_mut(this) {
            Some(Self::get_mut_unchecked(this))
        } else {
            None
        }
    }
}

} // verus!
