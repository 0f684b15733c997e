use crate::family::Family;
use crate::laws::{lemma_ownership_variants_equivalent, lemma_steady_mode_stays, run};
use std::rc::Rc;
use std::sync::Arc;
use vstd::prelude::*;

verus! {

/// A demonstration state machine implemented in all three ownership
/// variants: a countdown that ticks toward zero and then expires.
///
/// The one transition decision, [`CountdownMode::step_spec`], is shared by
/// the [`boxed`](crate::boxed), [`rc`](crate::rc) and [`sync`](crate::sync)
/// implementations below, so the three storages drive the very same logic —
/// which [`lemma_countdown_variants_agree`] turns into a proof that their
/// observable state sequences are identical.
#[derive(Clone, Copy, Debug, PartialEq, Eq, Structural)]
pub enum CountdownMode {
    /// Still counting down.
    Ticking { remaining: u32 },
    /// Reached zero; every further transition stays here.
    Expired,
}

impl CountdownMode {
    /// The transition decision: tick once, or expire at zero.
    pub open spec fn step_spec(self) -> CountdownMode {
        match self {
            CountdownMode::Ticking { remaining } => {
                if remaining == 0 {
                    CountdownMode::Expired
                } else {
                    CountdownMode::Ticking { remaining: (remaining - 1) as u32 }
                }
            },
            CountdownMode::Expired => CountdownMode::Expired,
        }
    }

    /// Compute the transition decision.
    pub fn step(self) -> (next: CountdownMode)
        ensures
            next == self.step_spec(),
    {
        match self {
            CountdownMode::Ticking { remaining } => {
                if remaining == 0 {
                    CountdownMode::Expired
                } else {
                    CountdownMode::Ticking { remaining: remaining - 1 }
                }
            },
            CountdownMode::Expired => CountdownMode::Expired,
        }
    }
}

/// The countdown family in its exclusive-ownership embedding.
pub struct CountdownFamily;

impl Family for CountdownFamily {
    type Base = CountdownMode;

    type Mode = Box<CountdownMode>;

    type Input = ();

    type Output = Box<CountdownMode>;
}

impl crate::boxed::Mode for CountdownMode {
    type Family = CountdownFamily;

    open spec fn swap_spec(self, input: ()) -> Box<CountdownMode> {
        Box::new(self.step_spec())
    }

    fn swap(self: Box<Self>, _input: ()) -> (output: Box<CountdownMode>) {
        let next = (*self).step();
        if next == *self {
            self
        } else {
            Box::new(next)
        }
    }
}

/// The countdown family in its shared, single-thread embedding.
pub struct RcCountdownFamily;

impl Family for RcCountdownFamily {
    type Base = CountdownMode;

    type Mode = Rc<CountdownMode>;

    type Input = ();

    type Output = Rc<CountdownMode>;
}

impl crate::rc::Mode for CountdownMode {
    type Family = RcCountdownFamily;

    open spec fn swap_spec(self, input: ()) -> Rc<CountdownMode> {
        Rc::new(self.step_spec())
    }

    fn swap(self: Rc<Self>, _input: ()) -> (output: Rc<CountdownMode>) {
        let next = (*self).step();
        if next == *self {
            self
        } else {
            Rc::new(next)
        }
    }
}

/// The countdown family in its shared, cross-thread embedding.
pub struct ArcCountdownFamily;

impl Family for ArcCountdownFamily {
    type Base = CountdownMode;

    type Mode = Arc<CountdownMode>;

    type Input = ();

    type Output = Arc<CountdownMode>;
}

impl crate::sync::Mode for CountdownMode {
    type Family = ArcCountdownFamily;

    open spec fn swap_spec(self, input: ()) -> Arc<CountdownMode> {
        Arc::new(self.step_spec())
    }

    fn swap(self: Arc<Self>, _input: ()) -> (output: Arc<CountdownMode>) {
        let next = (*self).step();
        if next == *self {
            self
        } else {
            Arc::new(next)
        }
    }
}

/// An expired countdown is a steady state: transitions of any number leave
/// the active mode, and everything observable of it, unchanged.
pub proof fn lemma_expired_is_steady(inputs: Seq<()>)
    ensures
        run::<CountdownFamily>(Box::new(CountdownMode::Expired), inputs)
            == Box::new(CountdownMode::Expired),
{
    let mode: Box<CountdownMode> = Box::new(CountdownMode::Expired);
    lemma_steady_mode_stays::<CountdownFamily>(mode, inputs);
}

/// One countdown, driven by the same number of transitions from the same
/// starting state, passes through identical state sequences whether it is
/// held exclusively, shared within one thread, or shared across threads.
pub proof fn lemma_countdown_variants_agree(start: CountdownMode, inputs: Seq<()>)
    ensures
        *(run::<CountdownFamily>(Box::new(start), inputs))
            == *(run::<RcCountdownFamily>(Rc::new(start), inputs)),
        *(run::<CountdownFamily>(Box::new(start), inputs))
            == *(run::<ArcCountdownFamily>(Arc::new(start), inputs)),
{
    lemma_ownership_variants_equivalent::<
        CountdownFamily,
        RcCountdownFamily,
        ArcCountdownFamily,
        CountdownMode,
    >(Box::new(start), Rc::new(start), Arc::new(start), inputs);
}

} // verus!
