//! The mathematical model of exported values.

use vstd::prelude::*;

verus! {

/// A value that may stand in the exported tree. Its model is what the value
/// holds, with every string and vector read through to its contents; two
/// exported values are structurally equal when their models are equal.
pub trait Portable {
    type Model;

    spec fn model(&self) -> Self::Model;
}

impl Portable for bool {
    type Model = bool;

    open spec fn model(&self) -> bool {
        *self
    }
}

impl Portable for String {
    type Model = Seq<char>;

    open spec fn model(&self) -> Seq<char> {
        self@
    }
}

impl<T: Portable> Portable for Option<T> {
    type Model = Option<T::Model>;

    open spec fn model(&self) -> Option<T::Model> {
        match self {
            Some(t) => Some(t.model()),
            None => None,
        }
    }
}

impl<T: Portable> Portable for Box<T> {
    type Model = T::Model;

    open spec fn model(&self) -> T::Model {
        (**self).model()
    }
}

impl<T: Portable> Portable for Vec<T> {
    type Model = Seq<T::Model>;

    open spec fn model(&self) -> Seq<T::Model> {
        Seq::new(self@.len(), |i: int| self@[i].model())
    }
}

impl<T: Portable, E: Portable> Portable for Result<T, E> {
    type Model = Result<T::Model, E::Model>;

    open spec fn model(&self) -> Result<T::Model, E::Model> {
        match self {
            Ok(t) => Ok(t.model()),
            Err(e) => Err(e.model()),
        }
    }
}

} // verus!
