use mode::countdown::{ArcCountdownFamily, CountdownFamily, CountdownMode, RcCountdownFamily};
use mode::rc::Mode as RcMode;
use mode::sync::Mode as ArcMode;
use mode::Automaton;
use std::rc::Rc;
use std::sync::Arc;

#[test]
fn ownership_variants_track_each_other() {
    let start = CountdownMode::Ticking { remaining: 2 };
    let mut exclusive: Automaton<CountdownFamily> = Automaton::with_mode(Box::new(start));
    let mut shared: Automaton<RcCountdownFamily> = Automaton::with_mode(Rc::new(start));
    let mut concurrent: Automaton<ArcCountdownFamily> = Automaton::with_mode(Arc::new(start));

    let expected = [
        CountdownMode::Ticking { remaining: 1 },
        CountdownMode::Ticking { remaining: 0 },
        CountdownMode::Expired,
        CountdownMode::Expired,
    ];
    for step in expected {
        exclusive.next();
        shared.next();
        concurrent.next();
        assert_eq!(**exclusive.borrow_mode(), step);
        assert_eq!(**shared.borrow_mode(), step);
        assert_eq!(**concurrent.borrow_mode(), step);
    }
}

#[test]
fn expired_countdown_is_steady() {
    let mut timer: Automaton<CountdownFamily> =
        Automaton::with_mode(Box::new(CountdownMode::Expired));

    for _attempt in 0..5 {
        timer.next();
        assert_eq!(**timer.borrow_mode(), CountdownMode::Expired);
    }
}

#[test]
fn step_ticks_down_to_expiry() {
    assert_eq!(
        CountdownMode::Ticking { remaining: 5 }.step(),
        CountdownMode::Ticking { remaining: 4 }
    );
    assert_eq!(CountdownMode::Ticking { remaining: 0 }.step(), CountdownMode::Expired);
    assert_eq!(CountdownMode::Expired.step(), CountdownMode::Expired);
}

#[test]
fn shared_handles_swap_directly() {
    let last: Rc<CountdownMode> = Rc::new(CountdownMode::Ticking { remaining: 1 });
    let out = RcMode::swap(last, ());
    assert_eq!(*out, CountdownMode::Ticking { remaining: 0 });

    let last: Arc<CountdownMode> = Arc::new(CountdownMode::Ticking { remaining: 0 });
    let out = ArcMode::swap(last, ());
    assert_eq!(*out, CountdownMode::Expired);
}
