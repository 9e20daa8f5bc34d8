use segment_clock::buttons::{Button, ButtonAction, ButtonEvent, Buttons};
use segment_clock::command::Command;
use segment_clock::shift::Level;
use segment_clock::time::TICKS_PER_SECOND;

fn held_for(ticks: u64) -> ButtonAction {
    let (mut buttons, action) = Buttons::start();
    assert_eq!(action, ButtonAction::AwaitPress);
    let pressed = ButtonEvent::Pressed(Button::Function);
    assert!(buttons.expects(&pressed));
    assert_eq!(buttons.step(pressed), ButtonAction::SampleFunction);
    let sampled = ButtonEvent::Sampled(Level::Low);
    assert!(buttons.expects(&sampled));
    assert_eq!(buttons.step(sampled), ButtonAction::AwaitRelease);
    let released = ButtonEvent::Released(ticks);
    assert!(buttons.expects(&released));
    buttons.step(released)
}

#[test]
fn setting_buttons_send_at_once() {
    for (button, command) in [
        (Button::HourMonth, Command::HourMonth),
        (Button::MinuteDay, Command::MinuteDay),
    ] {
        let (mut buttons, _) = Buttons::start();
        assert_eq!(buttons.step(ButtonEvent::Pressed(button)), ButtonAction::Send(command));
        assert!(buttons.expects(&ButtonEvent::Sent));
        assert_eq!(buttons.step(ButtonEvent::Sent), ButtonAction::AwaitPress);
        assert_eq!(buttons, Buttons::Idle);
    }
}

#[test]
fn tick_rate_is_the_timers() {
    assert_eq!(embassy_time::TICK_HZ, TICKS_PER_SECOND);
}

#[test]
fn short_press_chooses_the_next_face() {
    assert_eq!(held_for(0), ButtonAction::Send(Command::NextFunction));
    assert_eq!(held_for(1_000_000), ButtonAction::Send(Command::NextFunction));
}

#[test]
fn long_press_switches_the_alarm() {
    assert_eq!(held_for(1_000_001), ButtonAction::Send(Command::ToogleAlarmState));
    assert_eq!(held_for(u64::MAX), ButtonAction::Send(Command::ToogleAlarmState));
}

#[test]
fn button_that_is_up_again_was_pressed_shortly() {
    let (mut buttons, _) = Buttons::start();
    buttons.step(ButtonEvent::Pressed(Button::Function));
    let action = buttons.step(ButtonEvent::Sampled(Level::High));
    assert_eq!(action, ButtonAction::Send(Command::NextFunction));
}

#[test]
fn only_what_was_asked_for_is_expected() {
    let (buttons, _) = Buttons::start();
    assert!(buttons.expects(&ButtonEvent::Pressed(Button::MinuteDay)));
    assert!(!buttons.expects(&ButtonEvent::Sampled(Level::Low)));
    assert!(!buttons.expects(&ButtonEvent::Released(3)));
    assert!(!buttons.expects(&ButtonEvent::Sent));
}

#[test]
fn run_sends_one_command_for_each_press() {
    let events = [
        ButtonEvent::Pressed(Button::MinuteDay),
        ButtonEvent::Sent,
        ButtonEvent::Pressed(Button::Function),
        ButtonEvent::Sampled(Level::High),
        ButtonEvent::Sent,
        ButtonEvent::Pressed(Button::Function),
        ButtonEvent::Sampled(Level::Low),
        ButtonEvent::Released(2_000_000),
        ButtonEvent::Sent,
        ButtonEvent::Pressed(Button::HourMonth),
        ButtonEvent::Sent,
        ButtonEvent::Pressed(Button::Function),
        ButtonEvent::Sampled(Level::Low),
        ButtonEvent::Released(5),
        ButtonEvent::Sent,
    ];
    let (mut buttons, _) = Buttons::start();
    let mut sent = Vec::new();
    for event in events {
        assert!(buttons.expects(&event));
        if let ButtonAction::Send(command) = buttons.step(event) {
            sent.push(command);
        }
    }
    let expected = vec![
        Command::MinuteDay,
        Command::NextFunction,
        Command::ToogleAlarmState,
        Command::HourMonth,
        Command::NextFunction,
    ];
    assert_eq!(sent, expected);
    assert_eq!(buttons, Buttons::Idle);
}

#[test]
fn nothing_is_noted_while_a_command_waits() {
    let (mut buttons, _) = Buttons::start();
    let action = buttons.step(ButtonEvent::Pressed(Button::HourMonth));
    assert_eq!(action, ButtonAction::Send(Command::HourMonth));
    for button in [Button::Function, Button::HourMonth, Button::MinuteDay] {
        assert!(!buttons.expects(&ButtonEvent::Pressed(button)));
    }
    assert!(!buttons.expects(&ButtonEvent::Sampled(Level::High)));
    assert!(!buttons.expects(&ButtonEvent::Released(1)));
    assert!(buttons.expects(&ButtonEvent::Sent));
    assert_eq!(buttons.step(ButtonEvent::Sent), ButtonAction::AwaitPress);
    assert!(buttons.expects(&ButtonEvent::Pressed(Button::HourMonth)));
}
