//! What each step of the clock does, from what comes to what is done about it.

use crate::command::{Command, SevenSegmentCommand};
use crate::controller::{Action, Adjustment, Controller, Event, Phase};
use crate::display::{
    commands_begin_at_the_right, places_show_decimal_digits, sweep_lights_each_place, DisplayEvent,
    DisplayState,
};
use crate::function::Function;
use crate::glyph::SEGMENT_MAP_DIGIT;
use crate::shift::Level;
use crate::text::Text;
use crate::time::DateTime;
use vstd::prelude::*;

verus! {

/// A round begins for a clock: nothing about it changes, and its lamps are set. The lamp of the
/// face it shows is the only one of the three that is low, and that of the alarm is low while the
/// alarm is enabled.
pub open spec fn lights_up(clock: Controller, outcome: (Controller, Action)) -> bool {
    let (next, action) = outcome;
    &&& next.function == clock.function
    &&& next.alarm_enabled == clock.alarm_enabled
    &&& next.alarm == clock.alarm
    &&& next.phase == Phase::Lighting
    &&& action matches Action::SetLeds(leds)
    &&& leds.clock == Level::Low <==> clock.function == Function::Clock
    &&& leds.date == Level::Low <==> clock.function == Function::Date
    &&& leds.alarm == Level::Low <==> clock.function == Function::Alarm
    &&& leds.alarm_enabled == Level::Low <==> clock.alarm_enabled
}

/// The clock is switched on with the time of day on its face and an alarm at midnight that is not
/// enabled; of its lamps that of the clock is lit, and no other.
pub proof fn clock_is_switched_on()
    ensures
        ({
            let (clock, action) = Controller::initial().new_round();
            &&& clock == (Controller {
                function: Function::Clock,
                alarm_enabled: false,
                alarm: (0, 0),
                phase: Phase::Lighting,
            })
            &&& action matches Action::SetLeds(leds)
            &&& leds.clock == Level::Low
            &&& leds.date == Level::High
            &&& leds.alarm == Level::High
            &&& leds.alarm_enabled == Level::High
        }),
{
}

/// A round that begins changes nothing about the clock, and its lamps tell what it shows.
pub proof fn rounds_light_up(clock: Controller)
    ensures
        lights_up(clock, clock.new_round()),
{
}

/// A round begins when no command has come, when a time has been stored, when the clock cannot be
/// read, and when a text has been sent to the display.
pub proof fn rounds_begin_with_the_lamps(clock: Controller, event: Event)
    requires
        event == Event::Elapsed || event == Event::Stored || event == Event::ClockUnreadable || (
        event == Event::Shown && clock.phase == Phase::Announcing),
    ensures
        lights_up(clock, clock.after(event)),
{
}

/// Once the lamps are set the face is refreshed: the time is read for the clock and the date, the
/// alarm is shown as it is, with a point between hour and minute, and a text is left alone.
pub proof fn lamps_come_before_the_face(clock: Controller)
    ensures
        ({
            let (next, action) = clock.after(Event::LedsSet);
            &&& next == (Controller { phase: next.phase, ..clock })
            &&& clock.function == Function::Clock || clock.function == Function::Date ==> next.phase
                == Phase::Refreshing && action == Action::ReadClock
            &&& clock.function == Function::Alarm ==> next.phase == Phase::Showing && (
            action matches Action::Show(SevenSegmentCommand::Number(number, point)) && number
                == clock.alarm.0 * 100 + clock.alarm.1 && point == Some(2u8))
            &&& clock.function == Function::Display ==> next.phase == Phase::Waiting && action
                == Action::AwaitCommand(500)
        }),
{
}

/// The clock face shows the hour and the minute that have been read, whatever the seconds, and its
/// point in the second half of each second.
pub proof fn clock_face_shows_the_time(clock: Controller, now: DateTime)
    requires
        clock.function == Function::Clock,
        clock.phase == Phase::Refreshing,
        now.valid(),
    ensures
        ({
            let (next, action) = clock.after(Event::ClockRead(now));
            &&& next == (Controller { phase: Phase::Showing, ..clock })
            &&& action matches Action::Show(SevenSegmentCommand::Number(number, point))
            &&& number == now.hour * 100 + now.minute
            &&& now.microsecond > 500_000 ==> point == Some(2u8)
            &&& now.microsecond <= 500_000 ==> point == None::<u8>
        }),
{
}

/// The date face shows the month and the day that have been read, with a point between them,
/// whatever the time of day.
pub proof fn date_face_shows_the_date(clock: Controller, now: DateTime)
    requires
        clock.function == Function::Date,
        clock.phase == Phase::Refreshing,
        now.valid(),
    ensures
        ({
            let (next, action) = clock.after(Event::ClockRead(now));
            &&& next == (Controller { phase: Phase::Showing, ..clock })
            &&& action matches Action::Show(SevenSegmentCommand::Number(number, point))
            &&& number == now.month * 100 + now.day
            &&& point == Some(2u8)
        }),
{
}

/// Once a face is shown a command is waited for, for half a second.
pub proof fn faces_wait_for_commands(clock: Controller)
    requires
        clock.phase == Phase::Showing,
    ensures
        clock.after(Event::Shown) == (
            Controller { phase: Phase::Waiting, ..clock },
            Action::AwaitCommand(500),
        ),
{
}

/// Whatever the alarm is, the function button turns the clock from the time to the date, from the
/// date to the alarm, and from the alarm or a text to the time, and a round begins with that face.
pub proof fn function_button_turns_the_face(clock: Controller)
    ensures
        ({
            let outcome = clock.after(Event::Received(Command::NextFunction));
            &&& clock.function == Function::Clock ==> lights_up(
                Controller { function: Function::Date, ..clock },
                outcome,
            )
            &&& clock.function == Function::Date ==> lights_up(
                Controller { function: Function::Alarm, ..clock },
                outcome,
            )
            &&& clock.function == Function::Alarm || clock.function == Function::Display
                ==> lights_up(Controller { function: Function::Clock, ..clock }, outcome)
        }),
{
}

/// Three presses of the function button, whatever else but commands comes between them, lead a
/// clock that shows the time, the date or the alarm back to that face, with its alarm as it was.
pub proof fn three_presses_lead_back(clock: Controller, second: Controller, third: Controller)
    requires
        clock.function != Function::Display,
        second == (Controller {
            phase: second.phase,
            ..clock.after(Event::Received(Command::NextFunction)).0
        }),
        third == (Controller {
            phase: third.phase,
            ..second.after(Event::Received(Command::NextFunction)).0
        }),
    ensures
        ({
            let last = third.after(Event::Received(Command::NextFunction)).0;
            &&& last.function == clock.function
            &&& last.alarm == clock.alarm
            &&& last.alarm_enabled == clock.alarm_enabled
            &&& second.function != clock.function
            &&& third.function != clock.function
        }),
{
}

/// A face that is asked for is shown, whatever was shown before.
pub proof fn faces_can_be_chosen(clock: Controller, function: Function)
    ensures
        lights_up(
            Controller { function, ..clock },
            clock.after(Event::Received(Command::SetFunction(function))),
        ),
{
}

/// The alarm is switched over, enabled or disabled as asked, whatever is shown, and its time is
/// set to what is asked for. A round begins each time, and nothing else changes.
pub proof fn alarm_is_set_as_asked(clock: Controller, hour: u8, minute: u8)
    ensures
        lights_up(
            Controller { alarm_enabled: !clock.alarm_enabled, ..clock },
            clock.after(Event::Received(Command::ToogleAlarmState)),
        ),
        lights_up(
            Controller { alarm_enabled: true, ..clock },
            clock.after(Event::Received(Command::EnableAlarm)),
        ),
        lights_up(
            Controller { alarm_enabled: false, ..clock },
            clock.after(Event::Received(Command::DisableAlarm)),
        ),
        lights_up(
            Controller { alarm: (hour, minute), ..clock },
            clock.after(Event::Received(Command::SetAlarm(hour, minute))),
        ),
{
}

/// While the alarm is shown, the hour button moves its hour on by one and the minute button its
/// minute, round the day and round the hour. Each leaves the rest alone.
pub proof fn buttons_set_the_alarm(clock: Controller)
    requires
        clock.function == Function::Alarm,
    ensures
        ({
            let outcome = clock.after(Event::Received(Command::HourMonth));
            let hour = outcome.0.alarm.0;
            &&& hour == (clock.alarm.0 + 1) % 24
            &&& lights_up(Controller { alarm: (hour, clock.alarm.1), ..clock }, outcome)
        }),
        ({
            let outcome = clock.after(Event::Received(Command::MinuteDay));
            let minute = outcome.0.alarm.1;
            &&& minute == (clock.alarm.1 + 1) % 60
            &&& lights_up(Controller { alarm: (clock.alarm.0, minute), ..clock }, outcome)
        }),
{
}

/// While a text is shown, the two setting buttons do nothing but begin a round.
pub proof fn buttons_leave_a_text_alone(clock: Controller)
    requires
        clock.function == Function::Display,
    ensures
        lights_up(clock, clock.after(Event::Received(Command::HourMonth))),
        lights_up(clock, clock.after(Event::Received(Command::MinuteDay))),
{
}

/// A command has the time read first, which is then stored anew: the clock is left as it was, but
/// for what it waits for. Where the time cannot be read, a round begins.
pub open spec fn stores(clock: Controller, command: Command, now: DateTime, stored: DateTime) -> bool {
    let (asking, read) = clock.after(Event::Received(command));
    &&& asking == (Controller { phase: asking.phase, ..clock })
    &&& asking.phase is Adjusting
    &&& asking.accepts(Event::ClockRead(now))
    &&& read == Action::ReadClock
    &&& asking.after(Event::ClockRead(now)) == (
        Controller { phase: Phase::Storing, ..clock },
        Action::StoreClock(stored),
    )
    &&& lights_up(clock, asking.after(Event::ClockUnreadable))
}

/// While the time is shown, whatever the alarm is, the hour button stores the time that is read
/// with its hour moved on by one, round the day, and its seconds reset. All else is kept.
pub proof fn hour_button_sets_the_hour(clock: Controller, now: DateTime) -> (stored: DateTime)
    requires
        clock.function == Function::Clock,
        now.valid(),
    ensures
        stores(clock, Command::HourMonth, now, stored),
        stored.hour == (now.hour + 1) % 24,
        stored.minute == now.minute,
        stored.second == 0,
        stored.microsecond == 0,
        stored.year == now.year,
        stored.month == now.month,
        stored.day == now.day,
        stored.day_of_week == now.day_of_week,
{
    clock.after(Event::Received(Command::HourMonth)).0.after(Event::ClockRead(now)).1->StoreClock_0
}

/// While the time is shown, whatever the alarm is, the minute button stores the time that is read
/// with its minute moved on by one, round the hour, and its seconds reset. All else is kept.
pub proof fn minute_button_sets_the_minute(clock: Controller, now: DateTime) -> (stored: DateTime)
    requires
        clock.function == Function::Clock,
        now.valid(),
    ensures
        stores(clock, Command::MinuteDay, now, stored),
        stored.hour == now.hour,
        stored.minute == (now.minute + 1) % 60,
        stored.second == 0,
        stored.microsecond == 0,
        stored.year == now.year,
        stored.month == now.month,
        stored.day == now.day,
        stored.day_of_week == now.day_of_week,
{
    clock.after(Event::Received(Command::MinuteDay)).0.after(Event::ClockRead(now)).1->StoreClock_0
}

/// While the date is shown, whatever the alarm is, the hour button stores the time that is read
/// with its month moved on by one, round the year, and its seconds reset. All else is kept.
pub proof fn hour_button_sets_the_month(clock: Controller, now: DateTime) -> (stored: DateTime)
    requires
        clock.function == Function::Date,
        now.valid(),
    ensures
        stores(clock, Command::HourMonth, now, stored),
        stored.month == (if now.month == 12 {
            1int
        } else {
            now.month + 1
        }),
        stored.day == now.day,
        stored.second == 0,
        stored.microsecond == 0,
        stored.hour == now.hour,
        stored.minute == now.minute,
        stored.year == now.year,
        stored.day_of_week == now.day_of_week,
{
    clock.after(Event::Received(Command::HourMonth)).0.after(Event::ClockRead(now)).1->StoreClock_0
}

/// While the date is shown, whatever the alarm is, the minute button stores the time that is read
/// with its day moved on by one, round the longest month, and its seconds reset. All else is kept.
pub proof fn minute_button_sets_the_day(clock: Controller, now: DateTime) -> (stored: DateTime)
    requires
        clock.function == Function::Date,
        now.valid(),
    ensures
        stores(clock, Command::MinuteDay, now, stored),
        stored.day == (if now.day == 31 {
            1int
        } else {
            now.day + 1
        }),
        stored.month == now.month,
        stored.second == 0,
        stored.microsecond == 0,
        stored.hour == now.hour,
        stored.minute == now.minute,
        stored.year == now.year,
        stored.day_of_week == now.day_of_week,
{
    clock.after(Event::Received(Command::MinuteDay)).0.after(Event::ClockRead(now)).1->StoreClock_0
}

/// A time of day that is set is stored with its seconds reset, on the same day of the next month,
/// whatever the clock shows.
pub proof fn times_of_day_are_stored(
    clock: Controller,
    hour: u8,
    minute: u8,
    now: DateTime,
) -> (stored: DateTime)
    requires
        hour < 24,
        minute < 60,
        now.valid(),
    ensures
        stores(clock, Command::SetClock(hour, minute), now, stored),
        stored.hour == hour,
        stored.minute == minute,
        stored.second == 0,
        stored.microsecond == 0,
        stored.month == (if now.month == 12 {
            1int
        } else {
            now.month + 1
        }),
        stored.day == now.day,
        stored.year == now.year,
        stored.day_of_week == now.day_of_week,
{
    clock.after(Event::Received(Command::SetClock(hour, minute))).0.after(
        Event::ClockRead(now),
    ).1->StoreClock_0
}

/// A month and a day that are set are stored with the time of day that is read, to the second,
/// whatever the clock shows.
pub proof fn days_of_the_year_are_stored(
    clock: Controller,
    month: u8,
    day: u8,
    now: DateTime,
) -> (stored: DateTime)
    requires
        1 <= month <= 12,
        1 <= day <= 31,
        now.valid(),
    ensures
        stores(clock, Command::SetDate(month, day), now, stored),
        stored.month == month,
        stored.day == day,
        stored.hour == now.hour,
        stored.minute == now.minute,
        stored.second == now.second,
        stored.microsecond == 0,
        stored.year == now.year,
        stored.day_of_week == now.day_of_week,
{
    clock.after(Event::Received(Command::SetDate(month, day))).0.after(
        Event::ClockRead(now),
    ).1->StoreClock_0
}

/// A time of day or a day of the year that is none is not stored: the time is read, and a round
/// begins with nothing changed.
pub proof fn others_are_not_stored(clock: Controller, left: u8, right: u8, now: DateTime)
    requires
        now.valid(),
    ensures
        ({
            let (asking, read) = clock.after(Event::Received(Command::SetClock(left, right)));
            &&& read == Action::ReadClock
            &&& asking == (Controller { phase: asking.phase, ..clock })
            &&& left >= 24 || right >= 60 ==> lights_up(
                clock,
                asking.after(Event::ClockRead(now)),
            )
        }),
        ({
            let (asking, read) = clock.after(Event::Received(Command::SetDate(left, right)));
            &&& read == Action::ReadClock
            &&& asking == (Controller { phase: asking.phase, ..clock })
            &&& left == 0 || left > 12 || right == 0 || right > 31 ==> lights_up(
                clock,
                asking.after(Event::ClockRead(now)),
            )
        }),
{
}

/// What becomes of a date and time by each adjustment, field by field.
pub proof fn adjustments_change_what_they_name(adjustment: Adjustment, now: DateTime)
    requires
        now.valid(),
    ensures
        ({
            let made = adjustment.adjusted(now);
            &&& made.year == now.year
            &&& made.day_of_week == now.day_of_week
            &&& made.microsecond == 0
            &&& made.second == (if adjustment is SetDate {
                now.second as int
            } else {
                0
            })
            &&& made.hour == (match adjustment {
                Adjustment::NextHour => if now.hour < 23 {
                    now.hour + 1
                } else {
                    0int
                },
                Adjustment::SetClock(hour, _) => hour as int,
                _ => now.hour as int,
            })
            &&& made.minute == (match adjustment {
                Adjustment::NextMinute => if now.minute < 59 {
                    now.minute + 1
                } else {
                    0int
                },
                Adjustment::SetClock(_, minute) => minute as int,
                _ => now.minute as int,
            })
            &&& made.month == (match adjustment {
                Adjustment::NextMonth | Adjustment::SetClock(_, _) => if now.month < 12 {
                    now.month + 1
                } else {
                    1int
                },
                Adjustment::SetDate(month, _) => month as int,
                _ => now.month as int,
            })
            &&& made.day == (match adjustment {
                Adjustment::NextDay => if now.day < 31 {
                    now.day + 1
                } else {
                    1int
                },
                Adjustment::SetDate(_, day) => day as int,
                _ => now.day as int,
            })
        }),
{
}

/// A text is sent to the display as it came, to move on every 600 milliseconds, and the clock
/// turns to it with its alarm as it was.
pub proof fn texts_are_announced(clock: Controller, text: Text)
    ensures
        ({
            let (next, action) = clock.after(Event::Received(Command::Display(text)));
            &&& next == (Controller {
                function: Function::Display,
                phase: Phase::Announcing,
                ..clock
            })
            &&& action == Action::Show(SevenSegmentCommand::Buffer(text, 600_000))
        }),
{
}

/// A clock takes note of an event exactly if it waits for it: the lamps, a time that is one or the
/// news that there is none, the display, a command or that none came, or the storing. Of commands
/// only a press is refused that would count an alarm of 255 further.
pub proof fn clock_notes_what_it_waits_for(clock: Controller, event: Event)
    requires
        clock.phase == Phase::Refreshing ==> clock.function == Function::Clock || clock.function
            == Function::Date,
    ensures
        clock.well_formed(),
        clock.accepts(event) <==> match clock.phase {
            Phase::Lighting => event is LedsSet,
            Phase::Refreshing | Phase::Adjusting(_) => event is ClockUnreadable || (
            event matches Event::ClockRead(now) && now.valid()),
            Phase::Showing | Phase::Announcing => event is Shown,
            Phase::Waiting => event is Elapsed || (event matches Event::Received(command) && !(
            clock.function == Function::Alarm && (command is HourMonth && clock.alarm.0 == 255
                || command is MinuteDay && clock.alarm.1 == 255))),
            Phase::Storing => event is Stored,
        },
{
}

/// The time is read for a face that shows the time or the date and for no other.
pub proof fn only_two_faces_read_the_time(clock: Controller)
    ensures
        clock.well_formed() <==> clock.phase != Phase::Refreshing || clock.function
            == Function::Clock || clock.function == Function::Date,
{
}

/// A reader of the display sees, from left to right, the two digits of the hour and the two digits
/// of the minute that have been read, and the point after the hour in the second half of each
/// second.
pub proof fn time_is_read_off_the_display(
    clock: Controller,
    now: DateTime,
    before: DisplayState,
    place: int,
)
    requires
        clock.function == Function::Clock,
        clock.phase == Phase::Refreshing,
        now.valid(),
        0 <= place < 4,
    ensures
        clock.after(Event::ClockRead(now)).1 matches Action::Show(shown) && (before.after(
            DisplayEvent::Received(shown),
        ).refreshed((3 - place) as nat).drive() matches Some(word) && word.value
            == SEGMENT_MAP_DIGIT@[
            if place == 0 {
                now.hour as int / 10
            } else if place == 1 {
                now.hour as int % 10
            } else if place == 2 {
                now.minute as int / 10
            } else {
                now.minute as int % 10
            }] - (if place == 1 && now.microsecond > 500_000 {
            128int
        } else {
            0int
        })),
{
    clock_face_shows_the_time(clock, now);
    let shown = clock.after(Event::ClockRead(now)).1->Show_0;
    let begin = before.after(DisplayEvent::Received(shown));
    commands_begin_at_the_right(before, shown);
    sweep_lights_each_place(begin, (3 - place) as nat);
    let state = begin.refreshed((3 - place) as nat);
    let (number, point) = (shown->Number_0, shown->Number_1);
    places_show_decimal_digits(state, number, point);
    assert(number == now.hour * 100 + now.minute);
    assert(number as int / 1000 % 10 == now.hour as int / 10);
    assert(number as int / 100 % 10 == now.hour as int % 10);
    assert(number as int / 10 % 10 == now.minute as int / 10);
    assert(number as int % 10 == now.minute as int % 10);
}

} // verus!
