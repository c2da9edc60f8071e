use vstd::prelude::*;

verus! {

/// The way a tween runs through its time: once or over and over, forwards
/// or backwards.
#[derive(Debug, Clone, Copy, PartialEq, Eq, Structural)]
pub enum InterpolationType {
    /// Runs once, from start to end.
    NoLoop,
    /// Runs once, from end to start.
    NoLoopBackwards,
    /// Starts again from the start each time it reaches the end.
    FullLoop,
    /// Starts again from the end each time it reaches the start.
    FullLoopBackwards,
    /// Turns round at the end; now on its way forwards.
    YoyoLoop,
    /// Turns round at the end; now on its way backwards.
    YoyoLoopBackwards,
}

impl InterpolationType {
    /// The number of the mode: its place in the declaration, from zero.
    pub open spec fn spec_index(self) -> int {
        match self {
            InterpolationType::NoLoop => 0,
            InterpolationType::NoLoopBackwards => 1,
            InterpolationType::FullLoop => 2,
            InterpolationType::FullLoopBackwards => 3,
            InterpolationType::YoyoLoop => 4,
            InterpolationType::YoyoLoopBackwards => 5,
        }
    }

    /// The mode reads its time from the end: its number is odd.
    pub open spec fn spec_is_backwards(self) -> bool {
        self.spec_index() % 2 == 1
    }

    /// The mode starts over when its time is up: its number is two or more.
    pub open spec fn spec_is_looping(self) -> bool {
        self.spec_index() >= 2
    }

    /// The mode after the time has run past the end: a yoyo changes
    /// direction, every other mode stays as it is.
    pub open spec fn spec_turned(self) -> InterpolationType {
        match self {
            InterpolationType::YoyoLoop => InterpolationType::YoyoLoopBackwards,
            InterpolationType::YoyoLoopBackwards => InterpolationType::YoyoLoop,
            other => other,
        }
    }

    /// The number of the mode.
    pub fn index(self) -> (number: i32)
        ensures
            number == self.spec_index(),
    {
        match self {
            InterpolationType::NoLoop => 0,
            InterpolationType::NoLoopBackwards => 1,
            InterpolationType::FullLoop => 2,
            InterpolationType::FullLoopBackwards => 3,
            InterpolationType::YoyoLoop => 4,
            InterpolationType::YoyoLoopBackwards => 5,
        }
    }

    /// Tells whether the mode reads its time from the end.
    pub fn is_backwards(self) -> (backwards: bool)
        ensures
            backwards == self.spec_is_backwards(),
    {
        self.index() % 2 == 1
    }

    /// Tells whether the mode starts over when its time is up.
    pub fn is_looping(self) -> (looping: bool)
        ensures
            looping == self.spec_is_looping(),
    {
        self.index() >= 2
    }

    /// The mode to go on with after a step of a looping tween. `overran`
    /// says whether the step took the time past the end.
    pub fn after_step(self, overran: bool) -> (next: InterpolationType)
        ensures
            next == if overran {
                self.spec_turned()
            } else {
                self
            },
            next.spec_is_looping() == self.spec_is_looping(),
            overran ==> next.spec_turned() == self,
    {
        if overran {
            match self {
                InterpolationType::YoyoLoop => InterpolationType::YoyoLoopBackwards,
                InterpolationType::YoyoLoopBackwards => InterpolationType::YoyoLoop,
                other => other,
            }
        } else {
            self
        }
    }
}

} // verus!
