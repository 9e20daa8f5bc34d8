use embassy_stm32::rtc::DayOfWeek;
use segment_clock::command::{Command, SevenSegmentCommand};
use segment_clock::controller::{Action, Adjustment, Controller, Event, Leds, Phase};
use segment_clock::function::Function;
use segment_clock::shift::Level;
use segment_clock::text::Text;
use segment_clock::time::DateTime;

fn now() -> DateTime {
    DateTime::new(2025, 12, 31, DayOfWeek::Wednesday, 23, 59, 41, 250_000).unwrap()
}

fn step(controller: &mut Controller, event: Event) -> Action {
    assert!(controller.expects(&event));
    controller.step(event)
}

/// A clock that waits for a command.
fn waiting(function: Function, alarm: (u8, u8)) -> Controller {
    Controller { function, alarm_enabled: false, alarm, phase: Phase::Waiting }
}

fn lamps(clock: Level, date: Level, alarm: Level, alarm_enabled: Level) -> Action {
    Action::SetLeds(Leds { clock, date, alarm, alarm_enabled })
}

fn number(number: usize, point: Option<u8>) -> Action {
    Action::Show(SevenSegmentCommand::Number(number, point))
}

#[test]
fn first_round_shows_the_time() {
    let (mut controller, action) = Controller::start();
    assert_eq!(action, lamps(Level::Low, Level::High, Level::High, Level::High));
    assert_eq!(step(&mut controller, Event::LedsSet), Action::ReadClock);
    assert_eq!(step(&mut controller, Event::ClockRead(now())), number(2359, None));
    assert_eq!(step(&mut controller, Event::Shown), Action::AwaitCommand(500));
    let action = step(&mut controller, Event::Elapsed);
    assert_eq!(action, lamps(Level::Low, Level::High, Level::High, Level::High));
}

#[test]
fn point_blinks_in_the_second_half() {
    for (microsecond, point) in [(500_000, None), (500_001, Some(2)), (999_999, Some(2))] {
        let (mut controller, _) = Controller::start();
        step(&mut controller, Event::LedsSet);
        let read = Event::ClockRead(DateTime { microsecond, ..now() });
        assert_eq!(step(&mut controller, read), number(2359, point));
    }
}

#[test]
fn unreadable_clock_begins_a_new_round() {
    let (mut controller, first) = Controller::start();
    step(&mut controller, Event::LedsSet);
    assert_eq!(step(&mut controller, Event::ClockUnreadable), first);
    assert_eq!(controller.phase, Phase::Lighting);
}

#[test]
fn date_face_shows_month_and_day() {
    let mut controller = waiting(Function::Clock, (0, 0));
    let action = step(&mut controller, Event::Received(Command::NextFunction));
    assert_eq!(action, lamps(Level::High, Level::Low, Level::High, Level::High));
    assert_eq!(step(&mut controller, Event::LedsSet), Action::ReadClock);
    assert_eq!(step(&mut controller, Event::ClockRead(now())), number(1231, Some(2)));
}

#[test]
fn alarm_face_needs_no_clock() {
    let mut controller = waiting(Function::Date, (6, 45));
    let action = step(&mut controller, Event::Received(Command::NextFunction));
    assert_eq!(action, lamps(Level::High, Level::High, Level::Low, Level::High));
    assert_eq!(step(&mut controller, Event::LedsSet), number(645, Some(2)));
    assert_eq!(step(&mut controller, Event::Shown), Action::AwaitCommand(500));
}

#[test]
fn text_is_shown_once_and_stays() {
    let mut controller = waiting(Function::Clock, (0, 0));
    let text = Text::from_slice(b"hi there").unwrap();
    let action = step(&mut controller, Event::Received(Command::Display(text)));
    let text = Text::from_slice(b"hi there").unwrap();
    assert_eq!(action, Action::Show(SevenSegmentCommand::Buffer(text, 600_000)));
    let action = step(&mut controller, Event::Shown);
    assert_eq!(action, lamps(Level::High, Level::High, Level::High, Level::High));
    assert_eq!(step(&mut controller, Event::LedsSet), Action::AwaitCommand(500));
    for command in [Command::HourMonth, Command::MinuteDay] {
        step(&mut controller, Event::Received(command));
        assert_eq!(step(&mut controller, Event::LedsSet), Action::AwaitCommand(500));
    }
    step(&mut controller, Event::Received(Command::NextFunction));
    assert_eq!(controller.function, Function::Clock);
}

#[test]
fn face_can_be_chosen() {
    let mut controller = waiting(Function::Clock, (0, 0));
    step(&mut controller, Event::Received(Command::SetFunction(Function::Alarm)));
    assert_eq!(controller.function, Function::Alarm);
}

#[test]
fn alarm_can_be_switched() {
    let mut controller = waiting(Function::Clock, (0, 0));
    let action = step(&mut controller, Event::Received(Command::ToogleAlarmState));
    assert_eq!(action, lamps(Level::Low, Level::High, Level::High, Level::Low));
    let expectations = [
        (Command::ToogleAlarmState, false),
        (Command::EnableAlarm, true),
        (Command::EnableAlarm, true),
        (Command::DisableAlarm, false),
        (Command::DisableAlarm, false),
    ];
    for (command, enabled) in expectations {
        controller.phase = Phase::Waiting;
        step(&mut controller, Event::Received(command));
        assert_eq!(controller.alarm_enabled, enabled);
    }
}

#[test]
fn alarm_is_counted_round() {
    let mut controller = waiting(Function::Alarm, (22, 58));
    for hour in [23, 0, 1] {
        controller.phase = Phase::Waiting;
        step(&mut controller, Event::Received(Command::HourMonth));
        assert_eq!(controller.alarm, (hour, 58));
    }
    for minute in [59, 0, 1] {
        controller.phase = Phase::Waiting;
        step(&mut controller, Event::Received(Command::MinuteDay));
        assert_eq!(controller.alarm, (1, minute));
    }
}

#[test]
fn alarm_is_taken_as_it_comes() {
    let mut controller = waiting(Function::Alarm, (0, 0));
    step(&mut controller, Event::Received(Command::SetAlarm(255, 254)));
    assert_eq!(controller.alarm, (255, 254));
    assert_eq!(step(&mut controller, Event::LedsSet), number(25_754, Some(2)));
    step(&mut controller, Event::Shown);
    assert!(!controller.expects(&Event::Received(Command::HourMonth)));
    assert!(controller.expects(&Event::Received(Command::MinuteDay)));
    step(&mut controller, Event::Received(Command::MinuteDay));
    assert_eq!(controller.alarm, (255, 15));
}

#[test]
fn buttons_adjust_what_is_shown() {
    let expectations = [
        (Function::Clock, Command::HourMonth, DateTime { hour: 0, ..now() }),
        (Function::Clock, Command::MinuteDay, DateTime { minute: 0, ..now() }),
        (Function::Date, Command::HourMonth, DateTime { month: 1, ..now() }),
        (Function::Date, Command::MinuteDay, DateTime { day: 1, ..now() }),
    ];
    for (function, command, expected) in expectations {
        let mut controller = waiting(function, (1, 2));
        assert_eq!(step(&mut controller, Event::Received(command)), Action::ReadClock);
        let stored = DateTime { second: 0, microsecond: 0, ..expected };
        let action = step(&mut controller, Event::ClockRead(now()));
        assert_eq!(action, Action::StoreClock(stored));
        assert!(matches!(step(&mut controller, Event::Stored), Action::SetLeds(_)));
        assert_eq!((controller.function, controller.alarm), (function, (1, 2)));
    }
}

#[test]
fn adjustments_come_round() {
    let turns = [
        (Adjustment::NextHour, 24),
        (Adjustment::NextMinute, 60),
        (Adjustment::NextMonth, 12),
        (Adjustment::NextDay, 31),
    ];
    for (adjustment, turn) in turns {
        let mut time = now();
        for _ in 0..turn {
            time = adjustment.apply(&time).unwrap();
        }
        assert_eq!(time, DateTime { second: 0, microsecond: 0, ..now() });
    }
}

#[test]
fn set_clock_is_stored() {
    let mut controller = waiting(Function::Date, (0, 0));
    let action = step(&mut controller, Event::Received(Command::SetClock(7, 5)));
    assert_eq!(action, Action::ReadClock);
    let stored = DateTime { month: 1, hour: 7, minute: 5, second: 0, microsecond: 0, ..now() };
    let action = step(&mut controller, Event::ClockRead(now()));
    assert_eq!(action, Action::StoreClock(stored));
}

#[test]
fn set_date_keeps_the_time() {
    let mut controller = waiting(Function::Clock, (0, 0));
    step(&mut controller, Event::Received(Command::SetDate(2, 29)));
    let stored = DateTime { month: 2, day: 29, microsecond: 0, ..now() };
    let action = step(&mut controller, Event::ClockRead(now()));
    assert_eq!(action, Action::StoreClock(stored));
}

#[test]
fn impossible_times_are_not_stored() {
    let impossible = [
        Command::SetClock(24, 0),
        Command::SetClock(0, 60),
        Command::SetDate(0, 1),
        Command::SetDate(13, 1),
        Command::SetDate(1, 0),
        Command::SetDate(1, 32),
    ];
    for command in impossible {
        let mut controller = waiting(Function::Clock, (0, 0));
        step(&mut controller, Event::Received(command));
        let action = step(&mut controller, Event::ClockRead(now()));
        assert!(matches!(action, Action::SetLeds(_)));
    }
}

#[test]
fn adjustment_needs_a_reading() {
    let mut controller = waiting(Function::Clock, (0, 0));
    step(&mut controller, Event::Received(Command::HourMonth));
    let action = step(&mut controller, Event::ClockUnreadable);
    assert!(matches!(action, Action::SetLeds(_)));
}

#[test]
fn only_fitting_events_are_expected() {
    let (controller, _) = Controller::start();
    assert!(controller.expects(&Event::LedsSet));
    assert!(!controller.expects(&Event::Shown));
    assert!(!controller.expects(&Event::Stored));
    assert!(!controller.expects(&Event::Elapsed));
    assert!(!controller.expects(&Event::ClockUnreadable));
    assert!(!controller.expects(&Event::Received(Command::NextFunction)));
    let reading = Controller { phase: Phase::Refreshing, ..controller };
    assert!(reading.expects(&Event::ClockRead(now())));
    assert!(!reading.expects(&Event::ClockRead(DateTime { minute: 60, ..now() })));
    let stray = Controller { function: Function::Alarm, ..reading };
    assert!(!stray.expects(&Event::ClockRead(now())));
}
