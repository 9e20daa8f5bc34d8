//! What the clock is showing.

use vstd::prelude::*;

verus! {

/// The four faces of the clock.
#[derive(Copy, Clone, PartialEq, Eq, Structural, Debug)]
pub enum Function {
    Clock,
    Date,
    Alarm,
    Display,
}

impl Function {
    /// The face that follows: clock, date and alarm take turns, and a text gives way to the clock.
    pub open spec fn following(self) -> Function {
        match self {
            Function::Clock => Function::Date,
            Function::Date => Function::Alarm,
            Function::Alarm | Function::Display => Function::Clock,
        }
    }

    /// The face that a press of the function button leads to.
    pub fn next(self) -> (r: Function)
        ensures
            r == self.following(),
    {
        match self {
            Function::Clock => Function::Date,
            Function::Date => Function::Alarm,
            Function::Alarm => Function::Clock,
            _ => Function::Clock,
        }
    }
}

/// Three presses lead back to where they began, unless a text was shown; a text is never reached
/// by pressing.
pub proof fn faces_take_turns(function: Function)
    ensures
        function.following() != Function::Display,
        function != Function::Display ==> function.following().following().following()
            == function,
        function.following() != function,
{
}

/// From the clock a press leads to the date, from there to the alarm, and from there back; from a
/// text it leads to the clock.
pub proof fn faces_have_an_order()
    ensures
        Function::Clock.following() == Function::Date,
        Function::Date.following() == Function::Alarm,
        Function::Alarm.following() == Function::Clock,
        Function::Display.following() == Function::Clock,
{
}

} // verus!
