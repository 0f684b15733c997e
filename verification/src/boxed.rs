use crate::family::Family;
use vstd::prelude::*;

verus! {

/// The exclusive-ownership variant of the mode contract: the receiver of a
/// transition is a sole, movable owner of the mode instance, held in a
/// [`Box`]. This is the default variant for single-owner state machines.
///
/// Through the adapter below, `Box<T>` implements the uniform
/// [`Mode`](crate::Mode) contract whenever `T` implements this trait, so a
/// family may choose `Box<T>` as its storage representation.
pub trait Mode: Sized {
    /// The family grouping every mode this one may transition to or from.
    type Family: Family;

    /// The mathematical transition function: the output that [`Mode::swap`]
    /// produces from the boxed mode and the given input.
    spec fn swap_spec(self, input: <Self::Family as Family>::Input) -> <Self::Family as Family>::Output;

    /// Consume the box holding this mode together with `input` and produce
    /// the family's output. Sole ownership lets the implementation move any
    /// owned field directly into the replacement it constructs.
    fn swap(self: Box<Self>, input: <Self::Family as Family>::Input) -> (output: <Self::Family as Family>::Output)
        ensures
            output == (*self).swap_spec(input),
    ;
}

/// The generic adapter lifting the exclusive-ownership variant into the
/// uniform contract: a boxed mode transitions exactly as the mode it holds.
impl<T, F> crate::mode::Mode for Box<T> where F: Family, T: Mode<Family = F> {
    type Family = F;

    open spec fn swap_spec(self, input: F::Input) -> F::Output {
        (*self).swap_spec(input)
    }

    fn swap(self, input: F::Input) -> (output: F::Output) {
        <T as Mode>::swap(self, input)
    }
}

} // verus!
