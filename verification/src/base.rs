//! The base facet: handles with no promise about threads.

use vstd::prelude::*;
use core::fmt::Debug;
use crate::dynamic::Dynamic;
use crate::erased::ErasedBox;
use crate::erased::ErasedMut;
use crate::erased::ErasedRef;
use crate::erased::box_content;
use crate::erased::erase_box;
use crate::erased::erase_mut;
use crate::erased::erase_ref;
use crate::erased::erased_downcast_box;
use crate::erased::erased_downcast_mut;
use crate::erased::erased_downcast_ref;
use crate::erased::erased_is;
use crate::erased::format_debug;
use crate::erased::mut_content;
use crate::erased::mut_outcome;
use crate::erased::ref_content;

verus! {

/// A value of any type that can be formatted and whose type can be identified
/// at run time.
///
/// Every type that is `Debug` and `'static` has it, and no type needs to be
/// registered. A handle is a reference or a box of `dyn AnyDebug`: it presents
/// the value without its static type, and the operations on it test the type
/// and give the value back.
///
/// A handle on a smart pointer is a handle on the pointer, not on what it
/// points to: a `&Box<u32>` turned into `&dyn AnyDebug` holds a `Box<u32>`. To
/// get a handle on the value, start from a reference to the value itself. A
/// `Box<dyn AnyDebug>` is no such case: the operations go to the value in it.
pub trait AnyDebug: 'static {
    /// The value that this is, its static type forgotten.
    spec fn dynamic(&self) -> Dynamic;

    /// Formats the value as its `Debug` impl does, from what it holds at the
    /// time of the call.
    fn debug_string(&self) -> String;

    /// This value as `&dyn Any`. The operations on a handle are built on it.
    fn as_any(&self) -> (r: ErasedRef<'_>)
        ensures
            ref_content(r) == self.dynamic(),
    ;

    /// This value as `&mut dyn Any`. The operations on a handle are built on
    /// it.
    fn as_any_mut(&mut self) -> (r: ErasedMut<'_>)
        ensures
            mut_content(r) == old(self).dynamic(),
            mut_outcome(r) == final(self).dynamic(),
    ;

    /// This value as `Box<dyn Any>`. The operations on a handle are built on
    /// it.
    fn into_any(self: Box<Self>) -> (b: ErasedBox)
        ensures
            box_content(b) == self.dynamic(),
    ;
}

impl<T: 'static + Debug> AnyDebug for T {
    open spec fn dynamic(&self) -> Dynamic {
        Dynamic::of(*self)
    }

    fn debug_string(&self) -> String {
        format_debug(self)
    }

    fn as_any(&self) -> (r: ErasedRef<'_>) {
        erase_ref(self)
    }

    fn as_any_mut(&mut self) -> (r: ErasedMut<'_>) {
        erase_mut(self)
    }

    fn into_any(self: Box<Self>) -> (b: ErasedBox) {
        erase_box(self)
    }
}

impl dyn AnyDebug {
    /// Returns a shared reference to the value if its concrete type is `T`,
    /// and `None` if it is not.
    pub fn downcast_ref<T: AnyDebug>(&self) -> (o: Option<&T>)
        ensures
            o is Some <==> self.dynamic().holds::<T>(),
            forall|t: T| self.dynamic() == #[trigger] Dynamic::of(t) ==> o == Some(&t),
    {
        erased_downcast_ref::<T>(self.as_any())
    }

    /// Returns an exclusive reference to the value if its concrete type is
    /// `T`, and `None` if it is not.
    ///
    /// The reference goes to the value itself: what is written through it is
    /// what the handle presents afterwards. With `None` the value stays as it
    /// was.
    pub fn downcast_mut<T: AnyDebug>(&mut self) -> (o: Option<&mut T>)
        ensures
            o is Some <==> old(self).dynamic().holds::<T>(),
            forall|t: T|
                old(self).dynamic() == #[trigger] Dynamic::of(t) ==> (o matches Some(m) && *m == t),
            match o {
                Some(m) => final(self).dynamic() == Dynamic::of(*final(m)),
                None => final(self).dynamic() == old(self).dynamic(),
            },
    {
        erased_downcast_mut::<T>(self.as_any_mut())
    }

    /// Returns the value in a box of its own type if its concrete type is `T`.
    ///
    /// # Errors
    ///
    /// If the concrete type is not `T`, the handle comes back as it was, so
    /// that another type can be tried.
    pub fn downcast<T: AnyDebug>(self: Box<Self>) -> (o: Result<Box<T>, Box<Self>>)
        ensures
            o is Ok <==> self.dynamic().holds::<T>(),
            forall|t: T|
                self.dynamic() == #[trigger] Dynamic::of(t) ==> (o matches Ok(value) && *value == t),
            o matches Err(handle) ==> handle == self,
    {
        if self.is::<T>() {
            match erased_downcast_box::<T>(self.into_any()) {
                Ok(value) => Ok(value),
                Err(_) => unreached(),
            }
        } else {
            // Bound before it is returned, so that the handle keeps its own type.
            let unchanged = Err(self);
            unchanged
        }
    }

    /// Returns `true` if the concrete type of the value is `T`.
    pub fn is<T: AnyDebug>(&self) -> (b: bool)
        ensures
            b == self.dynamic().holds::<T>(),
    {
        erased_is::<T>(self.as_any())
    }
}

} // verus!
