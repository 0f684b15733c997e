//! A small library for building behavioral state machines.
//!
//! An [`Automaton`] holds exactly one active state at a time, called a
//! [`Mode`]. All modes that may become active in the same automaton are
//! grouped by a [`Family`], which fixes the interface type through which
//! callers interact with the active mode, the storage representation that
//! holds it, and the input and output types of a transition attempt.
//!
//! A transition consumes the outgoing mode by value together with an input
//! value and produces the family's output, conventionally the storage for the
//! incoming mode. Because the outgoing mode is consumed, its implementation
//! may move owned resources directly into the replacement it constructs, with
//! no copy and no window in which both states exist redundantly.
//!
//! The mode contract exists in three ownership variants that differ only in
//! how the receiver is owned: exclusively owned ([`boxed`]), shared and
//! reference-counted within one thread ([`rc`]), and shared and
//! reference-counted across threads ([`sync`]). Each variant is lifted into
//! the one uniform [`Mode`] contract, so the automaton is written once
//! against that contract.

pub mod activity;
mod automaton;
pub mod boxed;
pub mod countdown;
pub mod courier;
mod family;
pub mod laws;
mod mode;
pub mod rc;
pub mod sync;

pub use crate::automaton::Automaton;
pub use crate::family::Family;
pub use crate::mode::Mode;
