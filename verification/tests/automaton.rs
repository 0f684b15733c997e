use mode::countdown::{CountdownFamily, CountdownMode};
use mode::courier::{CourierFamily, ParcelMode};
use mode::Automaton;

#[test]
fn with_mode_installs_the_initial_mode() {
    let timer: Automaton<CountdownFamily> =
        Automaton::with_mode(Box::new(CountdownMode::Ticking { remaining: 9 }));
    assert_eq!(**timer.borrow_mode(), CountdownMode::Ticking { remaining: 9 });
}

#[test]
fn automaton_always_exposes_a_mode() {
    let parcel = ParcelMode::AtDepot { tag: 1, payload: vec![] };
    let mut route: Automaton<CourierFamily> = Automaton::with_mode(parcel);

    // Right and wrong handoff codes alike: after every transition attempt
    // the automaton holds exactly one live mode to borrow.
    for code in [2, 1, 0, 1, 1, 1] {
        route.next_with_input(code);
        assert_eq!(route.borrow_mode().tag(), 1);
    }
}

#[test]
fn borrow_mode_mut_leaves_the_written_state() {
    let mut timer: Automaton<CountdownFamily> =
        Automaton::with_mode(Box::new(CountdownMode::Ticking { remaining: 1 }));

    **timer.borrow_mode_mut() = CountdownMode::Ticking { remaining: 8 };
    assert_eq!(**timer.borrow_mode(), CountdownMode::Ticking { remaining: 8 });

    timer.next();
    assert_eq!(**timer.borrow_mode(), CountdownMode::Ticking { remaining: 7 });
}
