use crate::family::Family;
use vstd::prelude::*;

verus! {

/// The contract every state of a state machine satisfies: given ownership of
/// itself and an input value, produce the family's output — either itself,
/// wrapped back up, or a freshly constructed different mode.
///
/// An [`Automaton`](crate::Automaton) holds a single instance of a type
/// conforming to this trait and lets it replace itself through
/// [`Mode::swap`]. Because `swap` consumes the receiver, an implementation is
/// free to destructure itself and relocate any owned field directly into the
/// replacement it constructs, without an intermediate copy.
///
/// This is the uniform form of the contract, implemented directly by
/// exclusively owned mode types. The ownership-specific variants in
/// [`boxed`](crate::boxed), [`rc`](crate::rc) and [`sync`](crate::sync) are
/// each lifted into this one by a generic adapter, so the automaton is
/// written once against this trait alone.
pub trait Mode: Sized {
    /// The family grouping every mode this one may transition to or from.
    type Family: Family;

    /// The mathematical transition function: the output that [`Mode::swap`]
    /// produces from this mode and the given input.
    spec fn swap_spec(self, input: <Self::Family as Family>::Input) -> <Self::Family as Family>::Output;

    /// Consume this mode together with `input` and produce the family's
    /// output: the same state reconstructed, to stay, or a different mode of
    /// the same family, to transition.
    fn swap(self, input: <Self::Family as Family>::Input) -> (output: <Self::Family as Family>::Output)
        ensures
            output == self.swap_spec(input),
    ;
}

} // verus!
