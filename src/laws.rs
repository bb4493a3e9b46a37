//! Laws of smart pointers, proved from the traits' contracts alone, and the stronger one that
//! holds of `Unique`, whose handles are never shared.
use vstd::prelude::*;
use crate::{IntoMut, SmartPointer};
use crate::unique::Unique;

verus! {

/// When taking the value out of a fresh handle succeeds, it gives the value the handle was
/// made with.
pub proof fn lemma_new_then_unwrap<T, P: SmartPointer<T>>(v: T, h: P, r: Result<T, P>)
    requires
        call_ensures(P::new, (v,), h),
        call_ensures(P::try_unwrap, (h,), r),
    ensures
        r is Ok ==> r == Ok::<T, P>(v),
{
}

/// When taking the value out of a handle fails, the same handle comes back, pointing to the
/// same value, and can be tried again.
pub proof fn lemma_failed_unwrap_gives_back<T, P: SmartPointer<T>>(h: P, r: Result<T, P>)
    requires
        call_ensures(P::try_unwrap, (h,), r),
        r is Err,
    ensures
        r == Err::<T, P>(h),
        r->Err_0.pointee() == h.pointee(),
{
}

/// When turning a handle into a mutable pointer fails, the same handle comes back, pointing
/// to the same value, and can be tried again.
pub proof fn lemma_failed_into_mut_gives_back<T, P: IntoMut<T>>(
    h: P,
    r: Result<P::MutablePointer, P>,
)
    requires
        call_ensures(P::into_mut, (h,), r),
        r is Err,
    ensures
        r == Err::<P::MutablePointer, P>(h),
        r->Err_0.pointee() == h.pointee(),
{
}

/// Turning a handle into a mutable pointer and that back into a handle, with `into`, gives
/// a handle to the same value.
pub proof fn lemma_into_mut_round_trip<T, P: IntoMut<T>>(
    h: P,
    m: Result<P::MutablePointer, P>,
    back: P,
)
    requires
        call_ensures(P::into_mut, (h,), m),
        m is Ok,
        call_ensures(<P::MutablePointer as core::convert::Into<P>>::into, (m->Ok_0,), back),
    ensures
        back.pointee() == h.pointee(),
{
    P::lemma_into_keeps_pointee(m->Ok_0, back);
}

/// A value written through a mutable pointer is the value of the handle it is turned back
/// into with `into`.
pub proof fn lemma_write_then_back<T, P: IntoMut<T>>(
    m: &mut P::MutablePointer,
    r: &mut T,
    back: P,
)
    requires
        call_ensures(<P::MutablePointer as core::ops::DerefMut>::deref_mut, (m,), r),
        call_ensures(<P::MutablePointer as core::convert::Into<P>>::into, (*final(m),), back),
    ensures
        back.pointee() == *final(r),
{
    <P::MutablePointer as crate::SmartPointerMut<T>>::lemma_deref_mut_is_pointee(m, r);
    P::lemma_into_keeps_pointee(*final(m), back);
}

/// A fresh `Unique` handle gives its value back when it is taken out.
pub proof fn lemma_unique_new_then_unwrap<T: Clone>(v: T, h: Unique<T>, r: Result<T, Unique<T>>)
    requires
        call_ensures(<Unique<T> as SmartPointer<T>>::new, (v,), h),
        call_ensures(<Unique<T> as SmartPointer<T>>::try_unwrap, (h,), r),
    ensures
        r == Ok::<T, Unique<T>>(v),
{
}

} // verus!
