use vstd::prelude::*;

verus! {

/// A compile-time grouping of all the mode types that may become active in
/// the same [`Automaton`](crate::Automaton).
///
/// A family is a type-level tag only: it is never instantiated, and it
/// exposes no runtime operations. Its four associated types constrain
/// everything else. Every mode declares conformance to exactly one family,
/// and the automaton is generic over the family rather than over individual
/// mode types, which is what lets a single automaton type host an open set of
/// otherwise unrelated mode types.
pub trait Family {
    /// The public-facing interface type through which external callers
    /// interact with whichever mode is currently active.
    type Base;

    /// The storage representation used to hold a conforming mode instance,
    /// for example an exclusively owned box or a reference-counted handle.
    type Mode;

    /// The context value passed into a transition attempt; the unit type when
    /// transitions need no external context.
    type Input;

    /// The result produced by a transition attempt, conventionally equal to
    /// [`Family::Mode`] so that transitions chain indefinitely.
    type Output;
}

} // verus!
