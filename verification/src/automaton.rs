use crate::family::Family;
use crate::mode::Mode;
use vstd::prelude::*;

verus! {

/// The runtime container of a state machine: holds exactly one mode instance
/// of the family `F`, in the family's storage representation, and drives the
/// transition protocol on demand.
///
/// An automaton is constructed from an initial mode by [`Automaton::with_mode`].
/// Across its lifetime the stored mode is replaced by [`Automaton::next`] and
/// [`Automaton::next_with_input`], never duplicated, and it is destroyed
/// together with its current mode. A state with no active mode is never
/// observable: [`Automaton::wf`] holds from construction on and every
/// operation preserves it.
pub struct Automaton<F: Family> {
    mode: Option<F::Mode>,
}

impl<F: Family> Automaton<F> {
    /// Well-formedness: the automaton holds exactly one live mode. Every
    /// constructor establishes this and every operation preserves it.
    pub closed spec fn wf(self) -> bool {
        self.mode is Some
    }

    /// The mode that is currently active.
    pub closed spec fn current(self) -> F::Mode {
        self.mode.unwrap()
    }

    /// Construct an automaton whose active mode is `mode`. Never fails: no
    /// invalid automaton state is representable.
    pub fn with_mode(mode: F::Mode) -> (automaton: Self)
        ensures
            automaton.wf(),
            automaton.current() == mode,
    {
        Automaton { mode: Some(mode) }
    }

    /// Borrow the active mode, through which every capability of the
    /// family's interface is reachable. The concrete state behind it is
    /// whatever the last transition installed.
    pub fn borrow_mode(&self) -> (mode: &F::Mode)
        requires
            self.wf(),
        ensures
            *mode == self.current(),
    {
        self.mode.as_ref().unwrap()
    }

    /// Mutably borrow the active mode, so that capabilities of the family's
    /// interface that update the active state in place are reachable.
    /// Which mode is active cannot change through this borrow: the automaton
    /// still holds the same slot, updated to whatever the caller leaves in it.
    pub fn borrow_mode_mut(&mut self) -> (mode: &mut F::Mode)
        requires
            old(self).wf(),
        ensures
            *mode == old(self).current(),
            final(self).wf(),
            final(self).current() == *final(mode),
    {
        match &mut self.mode {
            Some(mode) => mode,
            None => vstd::pervasive::unreached(),
        }
    }
}

impl<F> Automaton<F> where F: Family<Output = <F as Family>::Mode>, <F as Family>::Mode: Mode<Family = F> {
    /// Drive one transition attempt: consume the active mode into its
    /// [`swap`](crate::Mode::swap) together with `input`, and install the
    /// mode it produces as the new active mode.
    ///
    /// This is the sole operation that changes which mode is active. It runs
    /// to completion before anything else can observe the automaton, so an
    /// observer sees either the pre-transition mode or the post-transition
    /// mode, never a partial state.
    pub fn next_with_input(&mut self, input: F::Input)
        requires
            old(self).wf(),
        ensures
            final(self).wf(),
            final(self).current() == old(self).current().swap_spec(input),
    {
        let mode = self.mode.take().unwrap();
        self.mode = Some(mode.swap(input));
    }

    /// Drive one transition attempt for a family whose transitions need no
    /// external context.
    pub fn next(&mut self)
        where F: Family<Input = ()>,
        requires
            old(self).wf(),
        ensures
            final(self).wf(),
            final(self).current() == old(self).current().swap_spec(()),
    {
        self.next_with_input(());
    }
}

} // verus!
