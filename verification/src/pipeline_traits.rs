use vstd::prelude::*;

verus! {

/// The bound that every value carried through a pipeline meets.
pub trait Sharable: Send + Sync + Clone + Copy + Default + 'static {}

impl<T: Send + Sync + Clone + Copy + Default + 'static> Sharable for T {}

/// Marks a step that starts a pipeline branch.
pub trait Source {}

/// Marks a step that ends a pipeline branch.
pub trait Sink {}

/// A value that can be generated from nothing.
pub trait Unit: Send + Sized {
    fn gen() -> Self;
}

impl Unit for () {
    fn gen() -> Self {
        ()
    }
}

} // verus!
