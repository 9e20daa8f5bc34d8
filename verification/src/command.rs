//! The messages that the parts of the clock send to each other.

use crate::function::Function;
use crate::text::Text;
use vstd::prelude::*;

verus! {

/// How many commands can be on their way to the clock.
pub const COMMAND_CAPACITY: usize = 10;

/// What the buttons and the host ask of the clock. Pairs are hour and minute, or month and day.
#[derive(Debug, PartialEq, Eq)]
pub enum Command {
    SetFunction(Function),
    NextFunction,
    ToogleAlarmState,
    HourMonth,
    MinuteDay,
    SetClock(u8, u8),
    SetDate(u8, u8),
    SetAlarm(u8, u8),
    EnableAlarm,
    DisableAlarm,
    Display(Text),
}

/// What the display is told to show: a number with an optional point after a digit counted from
/// the right, a text that moves on by one place each time the given number of timer ticks has
/// passed, or nothing.
#[derive(Debug, PartialEq, Eq)]
pub enum SevenSegmentCommand {
    Number(usize, Option<u8>),
    Buffer(Text, u64),
    Clear,
}

} // verus!
