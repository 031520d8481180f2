//! The boundary to `core::any::Any`.
//!
//! The verifier cannot be told of the trait object `dyn Any`, so a value that
//! has been turned into one travels in a carrier whose inside the verifier does
//! not see. Each carrier stands for a [`Dynamic`], and each function of this
//! file holds one conversion into `dyn Any` or one call of a method of it. Their
//! contracts are believed, not proved.

use vstd::prelude::*;
use core::any::Any;
use core::fmt::Debug;
use crate::dynamic::Dynamic;

verus! {

/// A shared reference to a value as `&dyn Any`.
#[verifier::external_body]
pub struct ErasedRef<'a> {
    inner: &'a dyn Any,
}

/// An exclusive reference to a value as `&mut dyn Any`.
#[verifier::external_body]
pub struct ErasedMut<'a> {
    inner: &'a mut dyn Any,
}

/// An owned value as `Box<dyn Any>`.
#[verifier::external_body]
pub struct ErasedBox {
    inner: Box<dyn Any>,
}

/// The value that a shared carrier refers to.
pub uninterp spec fn ref_content(r: ErasedRef<'_>) -> Dynamic;

/// The value that an exclusive carrier refers to when it is made.
pub uninterp spec fn mut_content(r: ErasedMut<'_>) -> Dynamic;

/// The value that an exclusive carrier leaves behind when its borrow ends.
pub uninterp spec fn mut_outcome(r: ErasedMut<'_>) -> Dynamic;

/// The value that an owning carrier holds.
pub uninterp spec fn box_content(b: ErasedBox) -> Dynamic;

/// Converts `&T` to `&dyn Any`. The carrier refers to `*t`, of type `T`.
#[verifier::external_body]
pub(crate) fn erase_ref<T: 'static>(t: &T) -> (r: ErasedRef<'_>)
    ensures
        ref_content(r) == Dynamic::of(*t),
{
    ErasedRef { inner: t }
}

/// Converts `&mut T` to `&mut dyn Any`. The carrier refers to `*t`, of type
/// `T`, and what it leaves behind is what `*t` is when the borrow ends.
#[verifier::external_body]
pub(crate) fn erase_mut<T: 'static>(t: &mut T) -> (r: ErasedMut<'_>)
    ensures
        mut_content(r) == Dynamic::of(*old(t)),
        mut_outcome(r) == Dynamic::of(*final(t)),
{
    ErasedMut { inner: t }
}

/// Converts `Box<T>` to `Box<dyn Any>`. The carrier holds `*t`, of type `T`.
#[verifier::external_body]
pub(crate) fn erase_box<T: 'static>(t: Box<T>) -> (b: ErasedBox)
    ensures
        box_content(b) == Dynamic::of(*t),
{
    ErasedBox { inner: t }
}

/// Calls `<dyn Any>::is::<T>`, which compares the `TypeId` of the value's
/// concrete type with that of `T`: true exactly when the concrete type is `T`.
#[verifier::external_body]
pub(crate) fn erased_is<T: 'static>(r: ErasedRef<'_>) -> (b: bool)
    ensures
        b == ref_content(r).holds::<T>(),
{
    r.inner.is::<T>()
}

/// Calls `<dyn Any>::downcast_ref::<T>`: `Some` exactly when the concrete type
/// is `T`, and then a reference to the very value the carrier refers to.
#[verifier::external_body]
pub(crate) fn erased_downcast_ref<'a, T: 'static>(r: ErasedRef<'a>) -> (o: Option<&'a T>)
    ensures
        o.is_some() == ref_content(r).holds::<T>(),
        forall|t: T| ref_content(r) == #[trigger] Dynamic::of(t) ==> o == Some(&t),
{
    r.inner.downcast_ref::<T>()
}

/// Calls `<dyn Any>::downcast_mut::<T>`: `Some` exactly when the concrete type
/// is `T`, and then an exclusive reference to the very value the carrier refers
/// to, so that what is written through it is what the carrier leaves behind.
/// With `None` nothing can be written, and the value stays as it was.
#[verifier::external_body]
pub(crate) fn erased_downcast_mut<'a, T: 'static>(r: ErasedMut<'a>) -> (o: Option<&'a mut T>)
    ensures
        o.is_some() == mut_content(r).holds::<T>(),
        forall|t: T| mut_content(r) == #[trigger] Dynamic::of(t) ==> o.is_some() && *o.unwrap() == t,
        match o {
            Some(m) => mut_outcome(r) == Dynamic::of(*final(m)),
            None => mut_outcome(r) == mut_content(r),
        },
{
    r.inner.downcast_mut::<T>()
}

/// Calls `Box<dyn Any>::downcast::<T>`: `Ok` exactly when the concrete type is
/// `T`, and then the box of the very value the carrier held; else `Err` with
/// the carrier as it was.
#[verifier::external_body]
pub(crate) fn erased_downcast_box<T: 'static>(b: ErasedBox) -> (o: Result<Box<T>, ErasedBox>)
    ensures
        o.is_ok() == box_content(b).holds::<T>(),
        forall|t: T| box_content(b) == #[trigger] Dynamic::of(t) ==> o.is_ok() && *o->Ok_0 == t,
        o is Err ==> o->Err_0 == b,
{
    match b.inner.downcast::<T>() {
        Ok(value) => Ok(value),
        Err(inner) => Err(ErasedBox { inner }),
    }
}

/// Formats `t` with its `Debug` impl, as `format!("{:?}", t)` does. What the
/// text holds is up to that impl, so nothing is stated of it.
#[verifier::external_body]
pub(crate) fn format_debug<T: Debug>(t: &T) -> (text: String)
{
    format!("{:?}", t)
}

} // verus!
