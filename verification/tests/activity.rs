use mode::activity::{ActivityFamily, ActivityMode};
use mode::Automaton;

fn cycle(person: &mut Automaton<ActivityFamily>) -> ActivityMode {
    person.borrow_mode_mut().update();
    person.next();
    **person.borrow_mode()
}

#[test]
fn working_eating_sleeping_cycle() {
    let initial: Box<ActivityMode> = Box::new(ActivityMode::Working { hours_worked: 0 });
    let mut person: Automaton<ActivityFamily> = Automaton::with_mode(initial);

    // Four hours of work, then the automaton switches to lunch.
    for hour in 1..4u32 {
        assert_eq!(cycle(&mut person), ActivityMode::Working { hours_worked: hour });
    }
    assert_eq!(
        cycle(&mut person),
        ActivityMode::Eating { hours_worked: 4, calories_consumed: 0 }
    );

    // Five hundred calories later it is back to work, since fewer than
    // eight hours are worked.
    for meal in 1..5u32 {
        assert_eq!(
            cycle(&mut person),
            ActivityMode::Eating { hours_worked: 4, calories_consumed: meal * 100 }
        );
    }
    assert_eq!(cycle(&mut person), ActivityMode::Working { hours_worked: 4 });

    // Four more hours reach eight, which sends the automaton to dinner.
    for hour in 5..8u32 {
        assert_eq!(cycle(&mut person), ActivityMode::Working { hours_worked: hour });
    }
    assert_eq!(
        cycle(&mut person),
        ActivityMode::Eating { hours_worked: 8, calories_consumed: 0 }
    );

    // After dinner, eight hours worked means bed instead of more work.
    for meal in 1..5u32 {
        assert_eq!(
            cycle(&mut person),
            ActivityMode::Eating { hours_worked: 8, calories_consumed: meal * 100 }
        );
    }
    assert_eq!(cycle(&mut person), ActivityMode::Sleeping { hours_rested: 0 });

    // Eight hours of rest lead to breakfast with the counters cleared.
    for hour in 1..8u32 {
        assert_eq!(cycle(&mut person), ActivityMode::Sleeping { hours_rested: hour });
    }
    assert_eq!(
        cycle(&mut person),
        ActivityMode::Eating { hours_worked: 0, calories_consumed: 0 }
    );
}

#[test]
fn update_advances_within_the_state() {
    let initial: Box<ActivityMode> = Box::new(ActivityMode::Working { hours_worked: 0 });
    let mut person: Automaton<ActivityFamily> = Automaton::with_mode(initial);

    person.borrow_mode_mut().update();
    person.borrow_mode_mut().update();
    assert_eq!(**person.borrow_mode(), ActivityMode::Working { hours_worked: 2 });
}

#[test]
fn transition_waits_for_its_threshold() {
    let initial: Box<ActivityMode> = Box::new(ActivityMode::Working { hours_worked: 1 });
    let mut person: Automaton<ActivityFamily> = Automaton::with_mode(initial);

    // Below every threshold the mode keeps returning itself.
    for _attempt in 0..3 {
        person.next();
        assert_eq!(**person.borrow_mode(), ActivityMode::Working { hours_worked: 1 });
    }
}
