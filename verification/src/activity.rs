use crate::family::Family;
use vstd::prelude::*;

verus! {

/// A demonstration state machine over a single concrete type: one person's
/// day, alternating between working, eating and sleeping.
///
/// The states live in one enum and the family stores the active one behind
/// exclusively owned storage, so transitions go through the
/// [`boxed`](crate::boxed) variant of the mode contract. Progress within a
/// state happens through [`ActivityMode::update`], reached in place through
/// [`borrow_mode_mut`](crate::Automaton::borrow_mode_mut); changing state is
/// the transition's business alone.
#[derive(Clone, Copy, Debug, PartialEq, Eq, Structural)]
pub enum ActivityMode {
    /// Working through the day, one hour per update.
    Working { hours_worked: u32 },
    /// Having a meal, a hundred calories per update.
    Eating { hours_worked: u32, calories_consumed: u32 },
    /// Resting at night, one hour per update.
    Sleeping { hours_rested: u32 },
}

impl ActivityMode {
    /// Whether one more update stays within the counters' range.
    pub open spec fn can_update(self) -> bool {
        match self {
            ActivityMode::Working { hours_worked } => hours_worked < u32::MAX,
            ActivityMode::Eating { calories_consumed, .. } => calories_consumed <= u32::MAX - 100,
            ActivityMode::Sleeping { hours_rested } => hours_rested < u32::MAX,
        }
    }

    /// The activity after one update: the same state, one step further.
    pub open spec fn update_spec(self) -> ActivityMode {
        match self {
            ActivityMode::Working { hours_worked } => ActivityMode::Working {
                hours_worked: (hours_worked + 1) as u32,
            },
            ActivityMode::Eating { hours_worked, calories_consumed } => ActivityMode::Eating {
                hours_worked,
                calories_consumed: (calories_consumed + 100) as u32,
            },
            ActivityMode::Sleeping { hours_rested } => ActivityMode::Sleeping {
                hours_rested: (hours_rested + 1) as u32,
            },
        }
    }

    /// Advance the current activity in place: work one more hour, consume a
    /// hundred more calories, or rest one more hour.
    pub fn update(&mut self)
        requires
            old(self).can_update(),
        ensures
            *final(self) == old(self).update_spec(),
    {
        match self {
            ActivityMode::Working { hours_worked } => {
                *hours_worked = *hours_worked + 1;
            },
            ActivityMode::Eating { calories_consumed, .. } => {
                *calories_consumed = *calories_consumed + 100;
            },
            ActivityMode::Sleeping { hours_rested } => {
                *hours_rested = *hours_rested + 1;
            },
        }
    }

    /// The transition decision: where the day goes next from this state.
    ///
    /// Work pauses for lunch after four hours and ends after eight; a meal
    /// of five hundred calories leads back to work, or to bed once eight
    /// hours are worked; eight hours of rest lead to breakfast with the
    /// counters cleared. Any other state stays as it is.
    pub open spec fn step_spec(self) -> ActivityMode {
        match self {
            ActivityMode::Working { hours_worked } => {
                if hours_worked == 4 || hours_worked >= 8 {
                    ActivityMode::Eating { hours_worked, calories_consumed: 0 }
                } else {
                    self
                }
            },
            ActivityMode::Eating { hours_worked, calories_consumed } => {
                if calories_consumed >= 500 {
                    if hours_worked >= 8 {
                        ActivityMode::Sleeping { hours_rested: 0 }
                    } else {
                        ActivityMode::Working { hours_worked }
                    }
                } else {
                    self
                }
            },
            ActivityMode::Sleeping { hours_rested } => {
                if hours_rested >= 8 {
                    ActivityMode::Eating { hours_worked: 0, calories_consumed: 0 }
                } else {
                    self
                }
            },
        }
    }

    /// Compute the transition decision.
    pub fn step(self) -> (next: ActivityMode)
        ensures
            next == self.step_spec(),
    {
        match self {
            ActivityMode::Working { hours_worked } => {
                if hours_worked == 4 || hours_worked >= 8 {
                    ActivityMode::Eating { hours_worked, calories_consumed: 0 }
                } else {
                    self
                }
            },
            ActivityMode::Eating { hours_worked, calories_consumed } => {
                if calories_consumed >= 500 {
                    if hours_worked >= 8 {
                        ActivityMode::Sleeping { hours_rested: 0 }
                    } else {
                        ActivityMode::Working { hours_worked }
                    }
                } else {
                    self
                }
            },
            ActivityMode::Sleeping { hours_rested } => {
                if hours_rested >= 8 {
                    ActivityMode::Eating { hours_worked: 0, calories_consumed: 0 }
                } else {
                    self
                }
            },
        }
    }
}

/// The family tying the activity states together: callers interact with the
/// active [`ActivityMode`], held behind exclusively owned storage, and
/// transitions need no external context.
pub struct ActivityFamily;

impl Family for ActivityFamily {
    type Base = ActivityMode;

    type Mode = Box<ActivityMode>;

    type Input = ();

    type Output = Box<ActivityMode>;
}

impl crate::boxed::Mode for ActivityMode {
    type Family = ActivityFamily;

    open spec fn swap_spec(self, input: ()) -> Box<ActivityMode> {
        Box::new(self.step_spec())
    }

    fn swap(self: Box<Self>, _input: ()) -> (output: Box<ActivityMode>) {
        let next = (*self).step();
        if next == *self {
            self
        } else {
            Box::new(next)
        }
    }
}

} // verus!
