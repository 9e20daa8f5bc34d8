//! What holds of the clock as a whole.

use crate::command::{Command, SevenSegmentCommand};
use crate::controller::{
    clock_face, date_face, pair_face, Action, Adjustment, Controller, Event, Phase,
};
use crate::display::{
    digit_at, every_byte_is_shown, moves_are_due, number_drive, sweep_lights_each_place,
    text_drive, windows, DisplayEvent, DisplayState,
};
use crate::function::Function;
use crate::glyph::letter_glyph;
use crate::shift::Level;
use crate::text::{Text, TEXT_CAPACITY};
use crate::time::DateTime;
use crate::usb::{out_decision_due, OutDecision, Request, UsbRequest};
use vstd::prelude::*;

verus! {

/// The event can come of the action.
pub open spec fn answers(action: Action, event: Event) -> bool {
    match action {
        Action::SetLeds(_) => event == Event::LedsSet,
        Action::ReadClock => event == Event::ClockUnreadable || (event matches Event::ClockRead(now)
            && now.valid()),
        Action::Show(_) => event == Event::Shown,
        Action::AwaitCommand(_) => event is Received || event == Event::Elapsed,
        Action::StoreClock(_) => event == Event::Stored,
    }
}

/// The clock goes on whatever comes of an action: every event that can come of it is accepted,
/// but for a press that would count an alarm past what a byte holds, and no other event is.
pub proof fn rounds_go_on(clock: Controller, event: Event, answer: Event)
    requires
        clock.well_formed(),
        clock.accepts(event),
    ensures
        ({
            let (next, action) = clock.after(event);
            &&& next.well_formed()
            &&& next.accepts(answer) <==> answers(action, answer) && !(answer matches Event::Received(
                command,
            ) && next.overflows(command))
        }),
{
}

/// The clock starts out waiting for the lamps.
pub proof fn rounds_begin(answer: Event)
    ensures
        ({
            let (clock, action) = Controller::initial().new_round();
            &&& clock.well_formed()
            &&& clock.alarm_valid()
            &&& clock.accepts(answer) <==> answers(action, answer)
        }),
{
}

/// The alarm stays a time of day as long as the host sets none that is not, and no press of a
/// button is refused then.
pub proof fn alarm_stays_valid(clock: Controller, event: Event, command: Command)
    requires
        clock.alarm_valid(),
        clock.accepts(event),
        event matches Event::Received(Command::SetAlarm(hour, minute)) ==> hour < 24 && minute
            < 60,
    ensures
        clock.after(event).0.alarm_valid(),
        !clock.overflows(command),
{
}

/// Only commands change the face or the alarm.
pub proof fn only_commands_change_settings(clock: Controller, event: Event)
    requires
        event !is Received,
    ensures
        clock.after(event).0.function == clock.function,
        clock.after(event).0.alarm == clock.alarm,
        clock.after(event).0.alarm_enabled == clock.alarm_enabled,
{
}

/// The alarm is enabled and disabled by the commands for that alone, its time is set by its own
/// command or by buttons while it is shown, and the face changes by the commands for that alone.
pub proof fn commands_change_what_they_name(clock: Controller, command: Command)
    ensures
        ({
            let next = clock.obey(command).0;
            &&& next.alarm_enabled != clock.alarm_enabled ==> command == Command::ToogleAlarmState
                || command == Command::EnableAlarm || command == Command::DisableAlarm
            &&& next.alarm != clock.alarm ==> command is SetAlarm || clock.function
                == Function::Alarm && (command == Command::HourMonth || command
                == Command::MinuteDay)
            &&& next.function != clock.function ==> command == Command::NextFunction
                || command is SetFunction || command is Display
        }),
{
}

/// Toggling the alarm twice leaves it as it was; enabling and disabling it set it whatever it was.
pub proof fn alarm_switches(clock: Controller)
    ensures
        clock.obey(Command::ToogleAlarmState).0.obey(Command::ToogleAlarmState).0
            == clock.new_round().0,
        clock.obey(Command::EnableAlarm).0.alarm_enabled,
        !clock.obey(Command::DisableAlarm).0.alarm_enabled,
        clock.obey(Command::ToogleAlarmState).0.alarm_enabled == !clock.alarm_enabled,
{
}

/// At most one face lamp is lit, none for a text, and the alarm's lamp tells whether it is
/// enabled.
pub proof fn lamps_tell_the_state(clock: Controller)
    ensures
        clock.lamps().clock == Level::Low <==> clock.function == Function::Clock,
        clock.lamps().date == Level::Low <==> clock.function == Function::Date,
        clock.lamps().alarm == Level::Low <==> clock.function == Function::Alarm,
        clock.lamps().alarm_enabled == Level::Low <==> clock.alarm_enabled,
{
}

/// Only dates and times in range are ever stored.
pub proof fn stored_times_are_valid(clock: Controller, event: Event)
    ensures
        clock.after(event).1 matches Action::StoreClock(stored) ==> stored.valid(),
{
}

/// A step of the buttons always makes a date and time out of one, and so it is stored.
pub proof fn button_adjustments_are_stored(clock: Controller, adjustment: Adjustment, now: DateTime)
    requires
        now.valid(),
        clock.phase == Phase::Adjusting(adjustment),
        adjustment !is SetClock,
        adjustment !is SetDate,
    ensures
        adjustment.adjusted(now).valid(),
        clock.after(Event::ClockRead(now)).1 == Action::StoreClock(adjustment.adjusted(now)),
{
}

/// A step of the buttons moves one field on and resets the seconds; the rest stays.
pub proof fn button_adjustments_keep_the_rest(now: DateTime)
    ensures
        Adjustment::NextHour.adjusted(now) == (DateTime {
            second: 0,
            microsecond: 0,
            hour: Adjustment::NextHour.adjusted(now).hour,
            ..now
        }),
        Adjustment::NextMinute.adjusted(now) == (DateTime {
            second: 0,
            microsecond: 0,
            minute: Adjustment::NextMinute.adjusted(now).minute,
            ..now
        }),
        Adjustment::NextMonth.adjusted(now) == (DateTime {
            second: 0,
            microsecond: 0,
            month: Adjustment::NextMonth.adjusted(now).month,
            ..now
        }),
        Adjustment::NextDay.adjusted(now) == (DateTime {
            second: 0,
            microsecond: 0,
            day: Adjustment::NextDay.adjusted(now).day,
            ..now
        }),
{
}

/// The date and time after an adjustment has been made `n` times.
pub open spec fn adjusted_times(adjustment: Adjustment, now: DateTime, n: nat) -> DateTime
    decreases n,
{
    if n == 0 {
        now
    } else {
        adjustment.adjusted(adjusted_times(adjustment, now, (n - 1) as nat))
    }
}

/// Hours, minutes, months and days are counted round.
pub proof fn adjustments_go_round(now: DateTime, n: nat)
    requires
        now.valid(),
    ensures
        adjusted_times(Adjustment::NextHour, now, n).hour == (now.hour + n) % 24,
        adjusted_times(Adjustment::NextMinute, now, n).minute == (now.minute + n) % 60,
        adjusted_times(Adjustment::NextMonth, now, n).month == (now.month - 1 + n) % 12 + 1,
        adjusted_times(Adjustment::NextDay, now, n).day == (now.day - 1 + n) % 31 + 1,
    decreases n,
{
    if n > 0 {
        adjustments_go_round(now, (n - 1) as nat);
        one_more(now.hour + n - 1, 24);
        one_more(now.minute + n - 1, 60);
        one_more(now.month + n - 2, 12);
        one_more(now.day + n - 2, 31);
    }
}

/// Counting one further and round again can be done at once or step by step.
proof fn one_more(count: int, turn: int)
    requires
        turn > 1,
    ensures
        0 <= count % turn < turn,
        (count % turn + 1) % turn == (count + 1) % turn,
{
    vstd::arithmetic::div_mod::lemma_add_mod_noop(count, 1, turn);
    vstd::arithmetic::div_mod::lemma_small_mod(1, turn as nat);
    vstd::arithmetic::div_mod::lemma_mod_bound(count, turn);
}

/// The state after a button has been pressed `n` times.
pub open spec fn pressed_times(clock: Controller, command: Command, n: nat) -> Controller
    decreases n,
{
    if n == 0 {
        clock
    } else {
        pressed_times(clock, command, (n - 1) as nat).obey(command).0
    }
}

/// Presses count a valid alarm round the day and the hour, each button its own part.
pub proof fn alarm_goes_round(clock: Controller, n: nat)
    requires
        clock.alarm_valid(),
        clock.function == Function::Alarm,
    ensures
        pressed_times(clock, Command::HourMonth, n).function == Function::Alarm,
        pressed_times(clock, Command::HourMonth, n).alarm.0 == (clock.alarm.0 + n) % 24,
        pressed_times(clock, Command::HourMonth, n).alarm.1 == clock.alarm.1,
        pressed_times(clock, Command::MinuteDay, n).function == Function::Alarm,
        pressed_times(clock, Command::MinuteDay, n).alarm.0 == clock.alarm.0,
        pressed_times(clock, Command::MinuteDay, n).alarm.1 == (clock.alarm.1 + n) % 60,
    decreases n,
{
    if n > 0 {
        alarm_goes_round(clock, (n - 1) as nat);
        one_more(clock.alarm.0 + n - 1, 24);
        one_more(clock.alarm.1 + n - 1, 60);
    }
}

/// A time that the host sets is stored exactly if it is one, whatever the clock shows; the clock
/// face then shows that time.
pub proof fn set_clock_is_shown(clock: Controller, hour: u8, minute: u8, now: DateTime)
    requires
        now.valid(),
    ensures
        ({
            let (asking, read) = clock.obey(Command::SetClock(hour, minute));
            let (next, action) = asking.after(Event::ClockRead(now));
            &&& read == Action::ReadClock
            &&& hour < 24 && minute < 60 ==> {
                &&& action matches Action::StoreClock(stored)
                &&& clock_face(stored) == pair_face(hour, minute, None)
            }
            &&& !(hour < 24 && minute < 60) ==> (next, action) == clock.new_round()
        }),
{
}

/// A date that the host sets is stored exactly if its month and day are in range, whatever the
/// clock shows; the date face then shows that date, and the time goes on.
pub proof fn set_date_is_shown(clock: Controller, month: u8, day: u8, now: DateTime)
    requires
        now.valid(),
    ensures
        ({
            let (asking, read) = clock.obey(Command::SetDate(month, day));
            let (next, action) = asking.after(Event::ClockRead(now));
            let in_range = 1 <= month <= 12 && 1 <= day <= 31;
            &&& read == Action::ReadClock
            &&& in_range ==> {
                &&& action matches Action::StoreClock(stored)
                &&& date_face(stored) == pair_face(month, day, Some(2u8))
                &&& stored.hour == now.hour && stored.minute == now.minute && stored.second
                    == now.second
            }
            &&& !in_range ==> (next, action) == clock.new_round()
        }),
{
}

/// An alarm that the host sets is what the alarm face shows from then on.
pub proof fn set_alarm_is_shown(clock: Controller, hour: u8, minute: u8)
    requires
        clock.function == Function::Alarm,
    ensures
        ({
            let next = clock.obey(Command::SetAlarm(hour, minute)).0;
            next.after(Event::LedsSet).1 == Action::Show(pair_face(hour, minute, Some(2u8)))
        }),
{
}

/// A text goes to the display as it came, and the clock turns to showing it.
pub proof fn text_goes_to_the_display(clock: Controller, text: Text)
    ensures
        ({
            let (next, action) = clock.obey(Command::Display(text));
            &&& action matches Action::Show(SevenSegmentCommand::Buffer(shown, ticks))
            &&& shown == text
            &&& next.function == Function::Display
        }),
{
}

/// While a text is shown, nothing else is sent to the display but another text, and the setting
/// buttons do nothing.
pub proof fn text_stays(clock: Controller, event: Event)
    requires
        clock.function == Function::Display,
        clock.well_formed(),
        clock.accepts(event),
    ensures
        clock.after(event).1 is Show ==> (event matches Event::Received(command)
            && command is Display),
        clock.obey(Command::HourMonth) == clock.new_round(),
        clock.obey(Command::MinuteDay) == clock.new_round(),
{
}

/// Two numbers below a hundred are shown side by side, two digits each.
pub proof fn pair_shows_both(left: u8, right: u8, point: Option<u8>)
    requires
        left < 100,
        right < 100,
    ensures
        pair_face(left, right, point) matches SevenSegmentCommand::Number(number, shown) && shown
            == point && digit_at(number as int, 3) == left / 10 && digit_at(number as int, 2) == left
            % 10 && digit_at(number as int, 1) == right / 10 && digit_at(number as int, 0) == right
            % 10,
{
}

/// A face that is sent to the display is swept digit by digit, from the right to the left, and
/// over again.
pub proof fn number_is_swept(before: DisplayState, number: usize, point: Option<u8>, n: nat)
    requires
        n < 4,
    ensures
        ({
            let begin = before.after(
                DisplayEvent::Received(SevenSegmentCommand::Number(number, point)),
            );
            &&& begin.refreshed(n).drive() == Some(number_drive(number as int, point, 3 - n))
            &&& begin.refreshed(4) == begin
        }),
{
    sweep_lights_each_place(
        DisplayState::begin(SevenSegmentCommand::Number(number, point)),
        n,
    );
}

/// A host sets the clock with a request whose value has the hour in its upper byte and the minute
/// in its lower one: the clock face then shows them.
pub proof fn host_sets_the_clock(
    req: Request,
    data: Seq<u8>,
    decision: OutDecision,
    clock: Controller,
    now: DateTime,
)
    requires
        req.for_vendor_interface(),
        req.request == UsbRequest::SetClock.code(),
        req.high() < 24,
        req.low() < 60,
        out_decision_due(req, data, decision),
        now.valid(),
    ensures
        decision matches OutDecision::Forward(command) && clock.obey(command).1
            == Action::ReadClock && (clock.obey(command).0.after(
            Event::ClockRead(now),
        ).1 matches Action::StoreClock(stored) && clock_face(stored) == pair_face(
            req.high(),
            req.low(),
            None,
        )),
{
    set_clock_is_shown(clock, req.high(), req.low(), now);
}

/// A host sets the date with a request whose value has the month in its upper byte and the day in
/// its lower one: the date face then shows them.
pub proof fn host_sets_the_date(
    req: Request,
    data: Seq<u8>,
    decision: OutDecision,
    clock: Controller,
    now: DateTime,
)
    requires
        req.for_vendor_interface(),
        req.request == UsbRequest::SetDate.code(),
        1 <= req.high() <= 12,
        1 <= req.low() <= 31,
        out_decision_due(req, data, decision),
        now.valid(),
    ensures
        decision matches OutDecision::Forward(command) && clock.obey(command).1
            == Action::ReadClock && (clock.obey(command).0.after(
            Event::ClockRead(now),
        ).1 matches Action::StoreClock(stored) && date_face(stored) == pair_face(
            req.high(),
            req.low(),
            Some(2u8),
        )),
{
    set_date_is_shown(clock, req.high(), req.low(), now);
}

/// A host sets the alarm with a request whose value has the hour in its upper byte and the minute
/// in its lower one: the alarm is then just that, whatever it was.
pub proof fn host_sets_the_alarm(
    req: Request,
    data: Seq<u8>,
    decision: OutDecision,
    clock: Controller,
)
    requires
        req.for_vendor_interface(),
        req.request == UsbRequest::SetAlarm.code(),
        out_decision_due(req, data, decision),
    ensures
        decision matches OutDecision::Forward(command) && clock.obey(command).0.alarm == (
            req.high(),
            req.low(),
        ),
{
}

/// A text that a host sends, and that is not too long, goes through the clock to the display,
/// where each of its bytes is shown in every round that it makes.
pub proof fn host_text_is_shown(
    req: Request,
    data: Seq<u8>,
    decision: OutDecision,
    clock: Controller,
    before: DisplayState,
    i: int,
    round: nat,
)
    requires
        req.for_vendor_interface(),
        req.request == UsbRequest::Display.code(),
        data.len() <= TEXT_CAPACITY,
        out_decision_due(req, data, decision),
        0 <= i < data.len(),
    ensures
        decision matches OutDecision::Forward(command) && (clock.obey(
            command,
        ).1 matches Action::Show(shown) && (shown matches SevenSegmentCommand::Buffer(text, ticks)
            && text@ == data && ticks == 600_000) && exists|moves: nat, sweeps: nat|
            #![trigger before.after(DisplayEvent::Received(shown)).scrolled(moves).refreshed(sweeps)]
            {
                let state = before.after(DisplayEvent::Received(shown)).scrolled(moves).refreshed(
                    sweeps,
                );
                &&& moves as int / windows(data.len() as int) == round
                &&& state.well_formed()
                &&& state.start + state.active == i
                &&& state.drive() == Some(text_drive(data, state.start, i - state.start))
                &&& state.drive() matches Some(word) && word.value == letter_glyph(data[i])
                &&& moves_are_due(shown->Buffer_0, 600_000, moves, sweeps)
            }),
{
    let command = decision->Forward_0;
    let text = command->Display_0;
    text_goes_to_the_display(clock, text);
    let shown = clock.obey(command).1->Show_0;
    every_byte_is_shown(text, shown->Buffer_1, i, round);
    assert(shown == SevenSegmentCommand::Buffer(text, shown->Buffer_1));
    assert(before.after(DisplayEvent::Received(shown)) == DisplayState::begin(shown));
}

} // verus!
