use crate::family::Family;
use std::rc::Rc;
use vstd::prelude::*;

verus! {

/// The shared, single-thread variant of the mode contract: the receiver of a
/// transition is a non-atomic reference-counted handle, an [`Rc`], so the
/// same mode instance may be referenced from several places within one
/// thread.
///
/// A transition consumes only the caller's handle. It is meaningful when
/// that handle is the last live reference; an implementation that finds
/// other references still live should return a handle to an unchanged mode
/// rather than transition, since the shared instance cannot be taken apart.
///
/// Through the adapter below, `Rc<T>` implements the uniform
/// [`Mode`](crate::Mode) contract whenever `T` implements this trait, so a
/// family may choose `Rc<T>` as its storage representation.
pub trait Mode: Sized {
    /// The family grouping every mode this one may transition to or from.
    type Family: Family;

    /// The mathematical transition function: the output that [`Mode::swap`]
    /// produces from the shared mode and the given input. It depends only on
    /// the mode value the handle refers to.
    spec fn swap_spec(self, input: <Self::Family as Family>::Input) -> <Self::Family as Family>::Output;

    /// Consume the caller's handle to this mode together with `input` and
    /// produce the family's output.
    fn swap(self: Rc<Self>, input: <Self::Family as Family>::Input) -> (output: <Self::Family as Family>::Output)
        ensures
            output == (*self).swap_spec(input),
    ;
}

/// The generic adapter lifting the shared, single-thread variant into the
/// uniform contract: a reference-counted mode transitions exactly as the
/// mode it refers to.
impl<T, F> crate::mode::Mode for Rc<T> where F: Family, T: Mode<Family = F> {
    type Family = F;

    open spec fn swap_spec(self, input: F::Input) -> F::Output {
        (*self).swap_spec(input)
    }

    fn swap(self, input: F::Input) -> (output: F::Output) {
        <T as Mode>::swap(self, input)
    }
}

} // verus!
