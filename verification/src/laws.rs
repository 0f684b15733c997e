use crate::family::Family;
use crate::mode::Mode;
use std::rc::Rc;
use std::sync::Arc;
use vstd::prelude::*;

verus! {

/// The mode reached from `mode` after one transition per element of
/// `inputs`, in order: the mathematical meaning of a sequence of
/// [`next_with_input`](crate::Automaton::next_with_input) calls, each of
/// which ensures that the active mode advances by exactly one
/// [`swap_spec`](crate::Mode::swap_spec) step.
pub open spec fn run<F>(mode: F::Mode, inputs: Seq<F::Input>) -> F::Mode
    where F: Family<Output = <F as Family>::Mode>, <F as Family>::Mode: Mode<Family = F>
    decreases inputs.len(),
{
    if inputs.len() == 0 {
        mode
    } else {
        run::<F>(mode.swap_spec(inputs[0]), inputs.drop_first())
    }
}

/// A mode whose transition always reproduces itself is a steady state: a
/// sequence of transitions of any length, zero included, leaves the active
/// mode — and with it everything observable through the family's interface —
/// exactly as it was.
pub proof fn lemma_steady_mode_stays<F>(mode: F::Mode, inputs: Seq<F::Input>)
    where F: Family<Output = <F as Family>::Mode>, <F as Family>::Mode: Mode<Family = F>
    requires
        forall|input: F::Input| #[trigger] mode.swap_spec(input) == mode,
    ensures
        run::<F>(mode, inputs) == mode,
    decreases inputs.len(),
{
    if inputs.len() > 0 {
        lemma_steady_mode_stays::<F>(mode, inputs.drop_first());
    }
}

/// A value that every transition of a family carries over unchanged — such
/// as the identity tag of an owned resource that each outgoing mode
/// relocates into its replacement — is still intact, with no transition ever
/// having rebuilt or duplicated it, after a sequence of transitions of any
/// length.
pub proof fn lemma_carried_value_preserved<F, V>(
    mode: F::Mode,
    inputs: Seq<F::Input>,
    value: spec_fn(F::Mode) -> V,
)
    where F: Family<Output = <F as Family>::Mode>, <F as Family>::Mode: Mode<Family = F>
    requires
        forall|m: F::Mode, input: F::Input| value(#[trigger] m.swap_spec(input)) == value(m),
    ensures
        value(run::<F>(mode, inputs)) == value(mode),
    decreases inputs.len(),
{
    if inputs.len() > 0 {
        lemma_carried_value_preserved::<F, V>(mode.swap_spec(inputs[0]), inputs.drop_first(), value);
    }
}

/// The three ownership variants of the mode contract are equivalent: a mode
/// type whose exclusive, single-thread-shared and cross-thread-shared
/// transition functions agree, driven from the corresponding storage by one
/// and the same input sequence, passes through identical mode values in all
/// three storages.
pub proof fn lemma_ownership_variants_equivalent<FB, FR, FA, T>(
    b: Box<T>,
    r: Rc<T>,
    a: Arc<T>,
    inputs: Seq<<FB as Family>::Input>,
)
    where
        FB: Family<Mode = Box<T>, Output = Box<T>>,
        FR: Family<Mode = Rc<T>, Output = Rc<T>, Input = <FB as Family>::Input>,
        FA: Family<Mode = Arc<T>, Output = Arc<T>, Input = <FB as Family>::Input>,
        T: crate::boxed::Mode<Family = FB> + crate::rc::Mode<Family = FR> + crate::sync::Mode<Family = FA>,
    requires
        *b == *r,
        *b == *a,
        forall|m: T, input: <FB as Family>::Input| {
            &&& *(#[trigger] <T as crate::boxed::Mode>::swap_spec(m, input))
                == *(<T as crate::rc::Mode>::swap_spec(m, input))
            &&& *(<T as crate::boxed::Mode>::swap_spec(m, input))
                == *(<T as crate::sync::Mode>::swap_spec(m, input))
        },
    ensures
        *(run::<FB>(b, inputs)) == *(run::<FR>(r, inputs)),
        *(run::<FB>(b, inputs)) == *(run::<FA>(a, inputs)),
    decreases inputs.len(),
{
    if inputs.len() > 0 {
        let input = inputs[0];
        lemma_ownership_variants_equivalent::<FB, FR, FA, T>(
            <Box<T> as Mode>::swap_spec(b, input),
            <Rc<T> as Mode>::swap_spec(r, input),
            <Arc<T> as Mode>::swap_spec(a, input),
            inputs.drop_first(),
        );
    }
}

} // verus!
