//! The mathematical model of a dynamically typed value.
//!
//! A handle of this library presents a value whose static type the holder does
//! not know. What such a handle stands for is a [`Dynamic`]: a value together
//! with its concrete type. Every contract of the library is stated over it.

use vstd::prelude::*;

verus! {

/// The values a [`Dynamic`] can stand for: those of every type that lives for
/// the whole program, which is what run-time type identity asks for.
pub trait Typed {
}

impl<T: 'static> Typed for T {
}

/// A value together with its concrete type, the static type forgotten.
///
/// A `Dynamic` is the verifier's own notion of a value behind a trait object.
/// The verifier knows that [`Dynamic::of`] is a function of the type and the
/// value, and no more: that different types give different results, and
/// different values of one type too, is known only through the contracts of the
/// operations that test the type and give the value back.
pub struct Dynamic {
    pub value: Box<dyn Typed>,
}

impl Dynamic {
    /// The dynamic value that `t` is once its type `T` is forgotten.
    pub open spec fn of<T: 'static>(t: T) -> Dynamic {
        Dynamic { value: Box::new(t) }
    }

    /// Whether the concrete type of this value is `T`: whether it is
    /// `Dynamic::of(t)` for some `t` of type `T`.
    pub open spec fn holds<T: 'static>(self) -> bool {
        exists|t: T| self == #[trigger] Dynamic::of(t)
    }
}

} // verus!
