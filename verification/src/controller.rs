//! The clock itself: which face it shows, its alarm, and how commands change them.
//!
//! A [`Controller`] takes the clock through its rounds. In each it sets the lamps, refreshes the
//! face and waits for a command. Whatever has to be done outside is an [`Action`], and what came
//! of it is the [`Event`] of the next step.

use crate::command::{Command, SevenSegmentCommand};
use crate::function::Function;
use crate::shift::Level;
use crate::time::{ticks_of_millis, DateTime};
use vstd::prelude::*;

verus! {

/// How long a round waits for a command, in milliseconds.
pub const ROUND_MILLIS: u64 = 500;

/// How long a text stands still before it moves on, in milliseconds.
pub const SCROLL_MILLIS: u64 = 600;

/// The lamps. A low level lights one.
#[derive(Copy, Clone, PartialEq, Eq, Structural, Debug)]
pub struct Leds {
    pub clock: Level,
    pub date: Level,
    pub alarm: Level,
    pub alarm_enabled: Level,
}

/// A change to the date and time.
#[derive(Copy, Clone, PartialEq, Eq, Structural, Debug)]
pub enum Adjustment {
    NextHour,
    NextMinute,
    NextMonth,
    NextDay,
    SetClock(u8, u8),
    SetDate(u8, u8),
}

impl Adjustment {
    /// What this makes of a date and time; it may be none. Setting the clock also moves on to the
    /// next month.
    pub open spec fn adjusted(self, now: DateTime) -> DateTime {
        match self {
            Adjustment::NextHour => DateTime {
                hour: ((now.hour + 1) % 24) as u8,
                second: 0,
                microsecond: 0,
                ..now
            },
            Adjustment::NextMinute => DateTime {
                minute: ((now.minute + 1) % 60) as u8,
                second: 0,
                microsecond: 0,
                ..now
            },
            Adjustment::NextMonth => DateTime {
                month: (now.month % 12 + 1) as u8,
                second: 0,
                microsecond: 0,
                ..now
            },
            Adjustment::NextDay => DateTime {
                day: (now.day % 31 + 1) as u8,
                second: 0,
                microsecond: 0,
                ..now
            },
            Adjustment::SetClock(hour, minute) => DateTime {
                month: (now.month % 12 + 1) as u8,
                hour,
                minute,
                second: 0,
                microsecond: 0,
                ..now
            },
            Adjustment::SetDate(month, day) => DateTime { month, day, microsecond: 0, ..now },
        }
    }

    /// The adjusted date and time, if it is one.
    pub fn apply(self, now: &DateTime) -> (r: Option<DateTime>)
        requires
            now.valid(),
        ensures
            r == self.adjusted(*now).checked(),
    {
        let mut month: u8 = now.month;
        let mut day: u8 = now.day;
        let mut hour: u8 = now.hour;
        let mut minute: u8 = now.minute;
        let mut second: u8 = 0;
        match self {
            Adjustment::NextHour => {
                hour = (hour + 1) % 24;
            },
            Adjustment::NextMinute => {
                minute = (minute + 1) % 60;
            },
            Adjustment::NextMonth => {
                month = month % 12 + 1;
            },
            Adjustment::NextDay => {
                day = day % 31 + 1;
            },
            Adjustment::SetClock(new_hour, new_minute) => {
                month = month % 12 + 1;
                hour = new_hour;
                minute = new_minute;
            },
            Adjustment::SetDate(new_month, new_day) => {
                month = new_month;
                day = new_day;
                second = now.second;
            },
        }
        DateTime::new(now.year, month, day, now.day_of_week, hour, minute, second, 0)
    }
}

/// What a round is waiting for.
#[derive(Copy, Clone, PartialEq, Eq, Structural, Debug)]
pub enum Phase {
    /// The lamps are being set.
    Lighting,
    /// The date and time are being read for the face.
    Refreshing,
    /// The face is being sent to the display.
    Showing,
    /// A command may come.
    Waiting,
    /// The date and time are being read, to be adjusted.
    Adjusting(Adjustment),
    /// The adjusted date and time are being stored.
    Storing,
    /// A text is being sent to the display.
    Announcing,
}

/// What is to be done.
#[derive(Debug, PartialEq, Eq)]
pub enum Action {
    /// Set the lamps.
    SetLeds(Leds),
    /// Read the date and time.
    ReadClock,
    /// Send this to the display.
    Show(SevenSegmentCommand),
    /// Wait for a command, for as many milliseconds at most.
    AwaitCommand(u64),
    /// Store the date and time.
    StoreClock(DateTime),
}

/// What came of it.
#[derive(Debug, PartialEq, Eq)]
pub enum Event {
    /// The lamps are set.
    LedsSet,
    /// The date and time are read.
    ClockRead(DateTime),
    /// The date and time could not be read.
    ClockUnreadable,
    /// The display has been sent what it is to show.
    Shown,
    /// A command has come.
    Received(Command),
    /// No command has come in time.
    Elapsed,
    /// The date and time are stored, or could not be.
    Stored,
}

/// The state of the clock. The alarm is an hour and a minute.
#[derive(Copy, Clone, Debug)]
pub struct Controller {
    pub function: Function,
    pub alarm_enabled: bool,
    pub alarm: (u8, u8),
    pub phase: Phase,
}

/// Two numbers of two digits side by side, with a point where it is wanted.
pub open spec fn pair_face(left: u8, right: u8, point: Option<u8>) -> SevenSegmentCommand {
    SevenSegmentCommand::Number((left * 100 + right) as usize, point)
}

/// The face of the clock. Its point blinks with the second.
pub open spec fn clock_face(now: DateTime) -> SevenSegmentCommand {
    pair_face(
        now.hour,
        now.minute,
        if now.microsecond > 500_000 {
            Some(2u8)
        } else {
            None
        },
    )
}

/// The face of the date.
pub open spec fn date_face(now: DateTime) -> SevenSegmentCommand {
    pair_face(now.month, now.day, Some(2u8))
}

/// The level that lights a lamp or leaves it dark.
pub open spec fn lamp(lit: bool) -> Level {
    if lit {
        Level::Low
    } else {
        Level::High
    }
}

impl Controller {
    /// The clock when it is switched on.
    pub open spec fn initial() -> Controller {
        Controller {
            function: Function::Clock,
            alarm_enabled: false,
            alarm: (0, 0),
            phase: Phase::Lighting,
        }
    }

    /// The date and time are only read for a face that shows one of them.
    pub open spec fn well_formed(self) -> bool {
        self.phase == Phase::Refreshing ==> self.function == Function::Clock || self.function
            == Function::Date
    }

    /// The alarm is a time of day.
    pub open spec fn alarm_valid(self) -> bool {
        self.alarm.0 < 24 && self.alarm.1 < 60
    }

    /// The lamp of the face is lit, and that of the alarm if it is enabled.
    pub open spec fn lamps(self) -> Leds {
        Leds {
            clock: lamp(self.function == Function::Clock),
            date: lamp(self.function == Function::Date),
            alarm: lamp(self.function == Function::Alarm),
            alarm_enabled: lamp(self.alarm_enabled),
        }
    }

    /// The command would count the alarm past what a byte holds.
    pub open spec fn overflows(self, command: Command) -> bool {
        &&& self.function == Function::Alarm
        &&& command == Command::HourMonth && self.alarm.0 == 255 || command == Command::MinuteDay
            && self.alarm.1 == 255
    }

    /// The event is one that can come of what is being done.
    pub open spec fn accepts(self, event: Event) -> bool {
        match event {
            Event::LedsSet => self.phase == Phase::Lighting,
            Event::ClockRead(now) => now.valid() && (self.phase == Phase::Refreshing
                || self.phase is Adjusting),
            Event::ClockUnreadable => self.phase == Phase::Refreshing || self.phase is Adjusting,
            Event::Shown => self.phase == Phase::Showing || self.phase == Phase::Announcing,
            Event::Received(command) => self.phase == Phase::Waiting && !self.overflows(command),
            Event::Elapsed => self.phase == Phase::Waiting,
            Event::Stored => self.phase == Phase::Storing,
        }
    }

    /// A new round begins.
    pub open spec fn new_round(self) -> (Controller, Action) {
        (Controller { phase: Phase::Lighting, ..self }, Action::SetLeds(self.lamps()))
    }

    /// The face is refreshed. A text stays on the display as it is.
    pub open spec fn refresh(self) -> (Controller, Action) {
        match self.function {
            Function::Clock | Function::Date => (
                Controller { phase: Phase::Refreshing, ..self },
                Action::ReadClock,
            ),
            Function::Alarm => (
                Controller { phase: Phase::Showing, ..self },
                Action::Show(pair_face(self.alarm.0, self.alarm.1, Some(2u8))),
            ),
            Function::Display => self.wait(),
        }
    }

    /// A command is waited for.
    pub open spec fn wait(self) -> (Controller, Action) {
        (Controller { phase: Phase::Waiting, ..self }, Action::AwaitCommand(ROUND_MILLIS))
    }

    /// An adjustment begins: the date and time are read first.
    pub open spec fn adjust(self, adjustment: Adjustment) -> (Controller, Action) {
        (Controller { phase: Phase::Adjusting(adjustment), ..self }, Action::ReadClock)
    }

    /// A command is carried out. The buttons change what is shown: the clock, the date or the
    /// alarm; they do nothing to a text.
    pub open spec fn obey(self, command: Command) -> (Controller, Action) {
        match command {
            Command::NextFunction => (Controller {
                function: self.function.following(),
                ..self
            }).new_round(),
            Command::SetFunction(function) => (Controller { function, ..self }).new_round(),
            Command::ToogleAlarmState => (Controller {
                alarm_enabled: !self.alarm_enabled,
                ..self
            }).new_round(),
            Command::EnableAlarm => (Controller { alarm_enabled: true, ..self }).new_round(),
            Command::DisableAlarm => (Controller { alarm_enabled: false, ..self }).new_round(),
            Command::SetAlarm(hour, minute) => (Controller {
                alarm: (hour, minute),
                ..self
            }).new_round(),
            Command::HourMonth => match self.function {
                Function::Clock => self.adjust(Adjustment::NextHour),
                Function::Date => self.adjust(Adjustment::NextMonth),
                Function::Alarm => (Controller {
                    alarm: (((self.alarm.0 + 1) % 24) as u8, self.alarm.1),
                    ..self
                }).new_round(),
                Function::Display => self.new_round(),
            },
            Command::MinuteDay => match self.function {
                Function::Clock => self.adjust(Adjustment::NextMinute),
                Function::Date => self.adjust(Adjustment::NextDay),
                Function::Alarm => (Controller {
                    alarm: (self.alarm.0, ((self.alarm.1 + 1) % 60) as u8),
                    ..self
                }).new_round(),
                Function::Display => self.new_round(),
            },
            Command::SetClock(hour, minute) => self.adjust(Adjustment::SetClock(hour, minute)),
            Command::SetDate(month, day) => self.adjust(Adjustment::SetDate(month, day)),
            Command::Display(text) => (
                Controller { function: Function::Display, phase: Phase::Announcing, ..self },
                Action::Show(
                    SevenSegmentCommand::Buffer(
                        text,
                        (SCROLL_MILLIS * crate::time::TICKS_PER_MILLISECOND) as u64,
                    ),
                ),
            ),
        }
    }

    /// What the clock does after an event: its next state and what is to be done. Where the date
    /// and time cannot be read, or cannot be adjusted as wanted, a new round begins.
    pub open spec fn after(self, event: Event) -> (Controller, Action) {
        match event {
            Event::LedsSet => self.refresh(),
            Event::ClockRead(now) => match self.phase {
                Phase::Adjusting(adjustment) => match adjustment.adjusted(now).checked() {
                    Some(adjusted) => (
                        Controller { phase: Phase::Storing, ..self },
                        Action::StoreClock(adjusted),
                    ),
                    None => self.new_round(),
                },
                _ => (
                    Controller { phase: Phase::Showing, ..self },
                    Action::Show(
                        if self.function == Function::Clock {
                            clock_face(now)
                        } else {
                            date_face(now)
                        },
                    ),
                ),
            },
            Event::ClockUnreadable => self.new_round(),
            Event::Shown => if self.phase == Phase::Showing {
                self.wait()
            } else {
                self.new_round()
            },
            Event::Received(command) => self.obey(command),
            Event::Elapsed => self.new_round(),
            Event::Stored => self.new_round(),
        }
    }

    /// The clock when it is switched on, and the first thing to do.
    pub fn start() -> (r: (Controller, Action))
        ensures
            r.0.well_formed(),
            r == Controller::initial().new_round(),
    {
        let mut controller = Controller {
            function: Function::Clock,
            alarm_enabled: false,
            alarm: (0, 0),
            phase: Phase::Lighting,
        };
        let action = controller.begin_round();
        (controller, action)
    }

    /// The levels of the lamps.
    pub fn leds(&self) -> (r: Leds)
        ensures
            r == self.lamps(),
    {
        let mut leds = Leds {
            clock: Level::High,
            date: Level::High,
            alarm: Level::High,
            alarm_enabled: if self.alarm_enabled {
                Level::Low
            } else {
                Level::High
            },
        };
        match self.function {
            Function::Clock => {
                leds.clock = Level::Low;
            },
            Function::Date => {
                leds.date = Level::Low;
            },
            Function::Alarm => {
                leds.alarm = Level::Low;
            },
            Function::Display => {},
        }
        leds
    }

    /// Tells whether an event is one that can come of what is being done.
    pub fn expects(&self, event: &Event) -> (r: bool)
        ensures
            r == (self.well_formed() && self.accepts(*event)),
    {
        let reading = match self.phase {
            Phase::Refreshing => self.function == Function::Clock || self.function
                == Function::Date,
            Phase::Adjusting(_) => true,
            _ => false,
        };
        match event {
            Event::LedsSet => self.phase == Phase::Lighting,
            Event::ClockRead(now) => reading && now.is_valid(),
            Event::ClockUnreadable => reading,
            Event::Shown => self.phase == Phase::Showing || self.phase == Phase::Announcing,
            Event::Received(command) => self.phase == Phase::Waiting && !(self.function
                == Function::Alarm && match command {
                Command::HourMonth => self.alarm.0 == 255,
                Command::MinuteDay => self.alarm.1 == 255,
                _ => false,
            }),
            Event::Elapsed => self.phase == Phase::Waiting,
            Event::Stored => self.phase == Phase::Storing,
        }
    }

    /// Takes note of an event and says what is to be done next.
    pub fn step(&mut self, event: Event) -> (action: Action)
        requires
            old(self).well_formed(),
            old(self).accepts(event),
        ensures
            final(self).well_formed(),
            (*final(self), action) == old(self).after(event),
    {
        match event {
            Event::LedsSet => match self.function {
                Function::Clock | Function::Date => {
                    self.phase = Phase::Refreshing;
                    Action::ReadClock
                },
                Function::Alarm => {
                    self.phase = Phase::Showing;
                    Action::Show(pair(self.alarm.0, self.alarm.1, Some(2)))
                },
                Function::Display => self.begin_wait(),
            },
            Event::ClockRead(now) => match self.phase {
                Phase::Adjusting(adjustment) => match adjustment.apply(&now) {
                    Some(adjusted) => {
                        self.phase = Phase::Storing;
                        Action::StoreClock(adjusted)
                    },
                    None => self.begin_round(),
                },
                _ => {
                    self.phase = Phase::Showing;
                    if self.function == Function::Clock {
                        let point: Option<u8> = if now.microsecond > 500_000 {
                            Some(2)
                        } else {
                            None
                        };
                        Action::Show(pair(now.hour, now.minute, point))
                    } else {
                        Action::Show(pair(now.month, now.day, Some(2)))
                    }
                },
            },
            Event::ClockUnreadable => self.begin_round(),
            Event::Shown => {
                if self.phase == Phase::Showing {
                    self.begin_wait()
                } else {
                    self.begin_round()
                }
            },
            Event::Received(command) => self.carry_out(command),
            Event::Elapsed => self.begin_round(),
            Event::Stored => self.begin_round(),
        }
    }

    /// Carries out a command.
    fn carry_out(&mut self, command: Command) -> (action: Action)
        requires
            !old(self).overflows(command),
        ensures
            final(self).well_formed(),
            (*final(self), action) == old(self).obey(command),
    {
        match command {
            Command::NextFunction => {
                self.function = self.function.next();
                self.begin_round()
            },
            Command::HourMonth => match self.function {
                Function::Clock => self.begin_adjustment(Adjustment::NextHour),
                Function::Alarm => {
                    self.alarm = ((self.alarm.0 + 1) % 24, self.alarm.1);
                    self.begin_round()
                },
                Function::Date => self.begin_adjustment(Adjustment::NextMonth),
                _ => self.begin_round(),
            },
            Command::MinuteDay => match self.function {
                Function::Clock => self.begin_adjustment(Adjustment::NextMinute),
                Function::Alarm => {
                    self.alarm = (self.alarm.0, (self.alarm.1 + 1) % 60);
                    self.begin_round()
                },
                Function::Date => self.begin_adjustment(Adjustment::NextDay),
                _ => self.begin_round(),
            },
            Command::SetFunction(function) => {
                self.function = function;
                self.begin_round()
            },
            Command::ToogleAlarmState => {
                self.alarm_enabled = !self.alarm_enabled;
                self.begin_round()
            },
            Command::SetClock(hour, minute) => self.begin_adjustment(
                Adjustment::SetClock(hour, minute),
            ),
            Command::SetDate(month, day) => self.begin_adjustment(Adjustment::SetDate(month, day)),
            Command::SetAlarm(hour, minute) => {
                self.alarm = (hour, minute);
                self.begin_round()
            },
            Command::EnableAlarm => {
                self.alarm_enabled = true;
                self.begin_round()
            },
            Command::DisableAlarm => {
                self.alarm_enabled = false;
                self.begin_round()
            },
            Command::Display(text) => {
                self.function = Function::Display;
                self.phase = Phase::Announcing;
                Action::Show(SevenSegmentCommand::Buffer(text, ticks_of_millis(SCROLL_MILLIS)))
            },
        }
    }

    fn begin_round(&mut self) -> (action: Action)
        ensures
            final(self).well_formed(),
            (*final(self), action) == old(self).new_round(),
    {
        self.phase = Phase::Lighting;
        Action::SetLeds(self.leds())
    }

    fn begin_wait(&mut self) -> (action: Action)
        ensures
            final(self).well_formed(),
            (*final(self), action) == old(self).wait(),
    {
        self.phase = Phase::Waiting;
        Action::AwaitCommand(ROUND_MILLIS)
    }

    fn begin_adjustment(&mut self, adjustment: Adjustment) -> (action: Action)
        ensures
            final(self).well_formed(),
            (*final(self), action) == old(self).adjust(adjustment),
    {
        self.phase = Phase::Adjusting(adjustment);
        Action::ReadClock
    }
}

/// Two numbers of two digits side by side.
fn pair(left: u8, right: u8, point: Option<u8>) -> (r: SevenSegmentCommand)
    ensures
        r == pair_face(left, right, point),
{
    SevenSegmentCommand::Number(left as usize * 100 + right as usize, point)
}

} // verus!
