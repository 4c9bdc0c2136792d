//! The model-family entry points.

pub mod charglm;
pub mod glm_4;

pub use glm_4::GLM4;

use vstd::prelude::*;

verus! {

/// Entry point tying a model family to its builder.
pub struct BigModel<T> {
    pub marker: core::marker::PhantomData<T>,
}

impl<T> BigModel<T> where T: crate::builder::Builder {
    /// A fresh builder of the family's kind.
    pub fn new(name: &str) -> T::Item {
        T::new(name)
    }
}

} // verus!
