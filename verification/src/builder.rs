//! A shared way to open a request builder for any of the service's APIs.

use vstd::prelude::*;

verus! {

/// Opens a builder for one API given a model name.
pub trait Builder {
    type Item;

    /// A fresh builder for the given model.
    fn new(model_name: &str) -> Self::Item;
}

/// Entry point tying a model family to its builder.
pub struct BigModel<T> {
    pub marker: core::marker::PhantomData<T>,
}

impl<T> BigModel<T> where T: Builder {
    /// A fresh builder of the family's kind.
    pub fn new(name: &str) -> T::Item {
        T::new(name)
    }
}

} // verus!
