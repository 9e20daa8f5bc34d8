//! The three buttons. The function button tells a short press from a long one.

use crate::command::Command;
use crate::shift::Level;
use crate::time::{ticks_of_secs, TICKS_PER_SECOND};
use vstd::prelude::*;

verus! {

/// A press of the function button that lasts for more seconds than this is a long one.
pub const LONG_PRESS_SECS: u64 = 1;

/// A button.
#[derive(Copy, Clone, PartialEq, Eq, Structural, Debug)]
pub enum Button {
    Function,
    HourMonth,
    MinuteDay,
}

/// What is to be done.
#[derive(Debug, PartialEq, Eq)]
pub enum ButtonAction {
    /// Wait until a button is pressed.
    AwaitPress,
    /// Look at the level of the function button, which is low while it is down.
    SampleFunction,
    /// Wait until the function button is let go, and measure how long that takes.
    AwaitRelease,
    /// Send the command.
    Send(Command),
}

/// What came of it.
#[derive(Copy, Clone, PartialEq, Eq, Structural, Debug)]
pub enum ButtonEvent {
    /// A button is pressed.
    Pressed(Button),
    /// The function button has this level.
    Sampled(Level),
    /// The function button is let go after so many timer ticks.
    Released(u64),
    /// The command is sent.
    Sent,
}

/// What the buttons are waiting for.
#[derive(Copy, Clone, PartialEq, Eq, Structural, Debug)]
pub enum Buttons {
    Idle,
    Sampling,
    Held,
    Sending,
}

/// The command of a press of the function button, by how many timer ticks it lasted: a long one
/// switches the alarm, a short one chooses the next face.
pub open spec fn function_press(ticks: u64) -> Command {
    if ticks > LONG_PRESS_SECS * TICKS_PER_SECOND {
        Command::ToogleAlarmState
    } else {
        Command::NextFunction
    }
}

impl Buttons {
    /// The event is one that can come of what is being done.
    pub open spec fn accepts(self, event: ButtonEvent) -> bool {
        match event {
            ButtonEvent::Pressed(_) => self == Buttons::Idle,
            ButtonEvent::Sampled(_) => self == Buttons::Sampling,
            ButtonEvent::Released(_) => self == Buttons::Held,
            ButtonEvent::Sent => self == Buttons::Sending,
        }
    }

    /// What the buttons do after an event: what they wait for next and what is to be done. A
    /// function button that is up again by the time it is looked at was pressed shortly.
    pub open spec fn after(event: ButtonEvent) -> (Buttons, ButtonAction) {
        match event {
            ButtonEvent::Pressed(Button::Function) => (
                Buttons::Sampling,
                ButtonAction::SampleFunction,
            ),
            ButtonEvent::Pressed(Button::HourMonth) => (
                Buttons::Sending,
                ButtonAction::Send(Command::HourMonth),
            ),
            ButtonEvent::Pressed(Button::MinuteDay) => (
                Buttons::Sending,
                ButtonAction::Send(Command::MinuteDay),
            ),
            ButtonEvent::Sampled(Level::Low) => (Buttons::Held, ButtonAction::AwaitRelease),
            ButtonEvent::Sampled(Level::High) => (
                Buttons::Sending,
                ButtonAction::Send(Command::NextFunction),
            ),
            ButtonEvent::Released(ticks) => (
                Buttons::Sending,
                ButtonAction::Send(function_press(ticks)),
            ),
            ButtonEvent::Sent => (Buttons::Idle, ButtonAction::AwaitPress),
        }
    }

    /// The buttons at rest, and the first thing to do.
    pub fn start() -> (r: (Buttons, ButtonAction))
        ensures
            r == (Buttons::Idle, ButtonAction::AwaitPress),
    {
        (Buttons::Idle, ButtonAction::AwaitPress)
    }

    /// Tells whether an event is one that can come of what is being done.
    pub fn expects(&self, event: &ButtonEvent) -> (r: bool)
        ensures
            r == self.accepts(*event),
    {
        match event {
            ButtonEvent::Pressed(_) => *self == Buttons::Idle,
            ButtonEvent::Sampled(_) => *self == Buttons::Sampling,
            ButtonEvent::Released(_) => *self == Buttons::Held,
            ButtonEvent::Sent => *self == Buttons::Sending,
        }
    }

    /// Takes note of an event and says what is to be done next.
    pub fn step(&mut self, event: ButtonEvent) -> (action: ButtonAction)
        requires
            old(self).accepts(event),
        ensures
            (*final(self), action) == Buttons::after(event),
    {
        match event {
            ButtonEvent::Pressed(Button::Function) => {
                *self = Buttons::Sampling;
                ButtonAction::SampleFunction
            },
            ButtonEvent::Pressed(Button::HourMonth) => self.send(Command::HourMonth),
            ButtonEvent::Pressed(Button::MinuteDay) => self.send(Command::MinuteDay),
            ButtonEvent::Sampled(Level::Low) => {
                *self = Buttons::Held;
                ButtonAction::AwaitRelease
            },
            ButtonEvent::Sampled(Level::High) => self.send(Command::NextFunction),
            ButtonEvent::Released(ticks) => {
                if ticks > ticks_of_secs(LONG_PRESS_SECS) {
                    self.send(Command::ToogleAlarmState)
                } else {
                    self.send(Command::NextFunction)
                }
            },
            ButtonEvent::Sent => {
                *self = Buttons::Idle;
                ButtonAction::AwaitPress
            },
        }
    }

    fn send(&mut self, command: Command) -> (action: ButtonAction)
        ensures
            (*final(self), action) == (Buttons::Sending, ButtonAction::Send(command)),
    {
        *self = Buttons::Sending;
        ButtonAction::Send(command)
    }
}

/// The event can come of the action.
pub open spec fn button_answers(action: ButtonAction, event: ButtonEvent) -> bool {
    match action {
        ButtonAction::AwaitPress => event is Pressed,
        ButtonAction::SampleFunction => event is Sampled,
        ButtonAction::AwaitRelease => event is Released,
        ButtonAction::Send(_) => event == ButtonEvent::Sent,
    }
}

/// The buttons go on whatever comes of an action: exactly the events that can come of it are
/// accepted.
pub proof fn buttons_go_on(event: ButtonEvent, answer: ButtonEvent)
    ensures
        ({
            let (next, action) = Buttons::after(event);
            next.accepts(answer) <==> button_answers(action, answer)
        }),
        Buttons::Idle.accepts(answer) <==> button_answers(ButtonAction::AwaitPress, answer),
{
}

/// Every press sends one command before the next press is waited for: the two setting buttons at
/// once, the function button as soon as it is known how long it was down.
pub proof fn each_press_sends_one_command(level: Level, ticks: u64)
    ensures
        Buttons::after(ButtonEvent::Pressed(Button::HourMonth)).1 == ButtonAction::Send(
            Command::HourMonth,
        ),
        Buttons::after(ButtonEvent::Pressed(Button::MinuteDay)).1 == ButtonAction::Send(
            Command::MinuteDay,
        ),
        Buttons::after(ButtonEvent::Pressed(Button::Function)).0.accepts(
            ButtonEvent::Sampled(level),
        ),
        level == Level::High ==> Buttons::after(ButtonEvent::Sampled(level)).1
            == ButtonAction::Send(Command::NextFunction),
        level == Level::Low ==> Buttons::after(ButtonEvent::Sampled(level)).0.accepts(
            ButtonEvent::Released(ticks),
        ),
        Buttons::after(ButtonEvent::Released(ticks)).1 == ButtonAction::Send(function_press(ticks)),
        forall|event: ButtonEvent| #[trigger]
            Buttons::after(event).1 == ButtonAction::AwaitPress <==> event == ButtonEvent::Sent,
{
}

/// The longer a press lasts, the more it is a long one: once it is, it stays so.
pub proof fn long_presses_stay_long(ticks: u64, longer: u64)
    requires
        ticks <= longer,
        function_press(ticks) == Command::ToogleAlarmState,
    ensures
        function_press(longer) == Command::ToogleAlarmState,
{
}

/// A press from its beginning to its end. The function button is up again when it is looked at, or
/// held for a number of timer ticks.
pub enum Press {
    HourMonth,
    MinuteDay,
    Brief,
    Held(u64),
}

impl Press {
    /// The button.
    pub open spec fn button(self) -> Button {
        match self {
            Press::HourMonth => Button::HourMonth,
            Press::MinuteDay => Button::MinuteDay,
            Press::Brief | Press::Held(_) => Button::Function,
        }
    }

    /// What happens in the course of the press, up to when its command is sent.
    pub open spec fn events(self) -> Seq<ButtonEvent> {
        match self {
            Press::HourMonth | Press::MinuteDay => seq![
                ButtonEvent::Pressed(self.button()),
                ButtonEvent::Sent,
            ],
            Press::Brief => seq![
                ButtonEvent::Pressed(Button::Function),
                ButtonEvent::Sampled(Level::High),
                ButtonEvent::Sent,
            ],
            Press::Held(ticks) => seq![
                ButtonEvent::Pressed(Button::Function),
                ButtonEvent::Sampled(Level::Low),
                ButtonEvent::Released(ticks),
                ButtonEvent::Sent,
            ],
        }
    }

    /// The one command of the press.
    pub open spec fn command(self) -> Command {
        match self {
            Press::HourMonth => Command::HourMonth,
            Press::MinuteDay => Command::MinuteDay,
            Press::Brief => Command::NextFunction,
            Press::Held(ticks) => function_press(ticks),
        }
    }
}

/// What happens in the course of presses one after the other.
pub open spec fn events_of(presses: Seq<Press>) -> Seq<ButtonEvent>
    decreases presses.len(),
{
    if presses.len() == 0 {
        seq![]
    } else {
        events_of(presses.drop_last()) + presses.last().events()
    }
}

/// The commands of presses, in their order.
pub open spec fn commands_of(presses: Seq<Press>) -> Seq<Command> {
    Seq::new(presses.len(), |i: int| presses[i].command())
}

/// What the buttons wait for after a run of events from rest.
pub open spec fn waiting_after(events: Seq<ButtonEvent>) -> Buttons {
    if events.len() == 0 {
        Buttons::Idle
    } else {
        Buttons::after(events.last()).0
    }
}

/// What is to be done after a run of events from rest.
pub open spec fn action_after(events: Seq<ButtonEvent>) -> ButtonAction {
    if events.len() == 0 {
        ButtonAction::AwaitPress
    } else {
        Buttons::after(events.last()).1
    }
}

/// Each event of the run can come of what was being done.
pub open spec fn accepted_run(events: Seq<ButtonEvent>) -> bool
    decreases events.len(),
{
    events.len() > 0 ==> accepted_run(events.drop_last()) && waiting_after(
        events.drop_last(),
    ).accepts(events.last())
}

/// The commands that are to be sent in the course of a run, in their order.
pub open spec fn commands_in(events: Seq<ButtonEvent>) -> Seq<Command>
    decreases events.len(),
{
    if events.len() == 0 {
        seq![]
    } else {
        match Buttons::after(events.last()).1 {
            ButtonAction::Send(command) => commands_in(events.drop_last()).push(command),
            _ => commands_in(events.drop_last()),
        }
    }
}

/// A run that goes on with one more event.
proof fn run_pushed(events: Seq<ButtonEvent>, event: ButtonEvent)
    ensures
        accepted_run(events.push(event)) <==> accepted_run(events) && waiting_after(events).accepts(
            event,
        ),
        waiting_after(events.push(event)) == Buttons::after(event).0,
        action_after(events.push(event)) == Buttons::after(event).1,
        commands_in(events.push(event)) == (match Buttons::after(event).1 {
            ButtonAction::Send(command) => commands_in(events).push(command),
            _ => commands_in(events),
        }),
{
    assert(events.push(event).drop_last() =~= events);
}

/// A run at rest goes on with a part of a press: the command is sent at the end and not before.
proof fn run_with_press(events: Seq<ButtonEvent>, press: Press, n: int)
    requires
        accepted_run(events),
        waiting_after(events) == Buttons::Idle,
        0 <= n <= press.events().len(),
    ensures
        ({
            let run = events + press.events().take(n);
            &&& accepted_run(run)
            &&& n == 0 || n == press.events().len() <==> waiting_after(run) == Buttons::Idle
            &&& commands_in(run) == (if n < press.events().len() - 1 {
                commands_in(events)
            } else {
                commands_in(events).push(press.command())
            })
        }),
    decreases n,
{
    let run = events + press.events().take(n);
    if n == 0 {
        assert(run =~= events);
    } else {
        let before = events + press.events().take(n - 1);
        run_with_press(events, press, n - 1);
        assert(run =~= before.push(press.events()[n - 1]));
        run_pushed(before, press.events()[n - 1]);
        if n > 1 {
            assert(before.last() == press.events()[n - 2]);
        } else {
            assert(before =~= events);
        }
    }
}

/// Presses one after the other are taken as they come, each sends its one command, and the
/// commands have the order of the presses: none is lost and none is sent twice.
pub proof fn presses_send_in_order(presses: Seq<Press>)
    ensures
        accepted_run(events_of(presses)),
        waiting_after(events_of(presses)) == Buttons::Idle,
        commands_in(events_of(presses)) == commands_of(presses),
    decreases presses.len(),
{
    if presses.len() == 0 {
        assert(commands_of(presses) =~= seq![]);
    } else {
        let fewer = presses.drop_last();
        let press = presses.last();
        presses_send_in_order(fewer);
        let len = press.events().len() as int;
        run_with_press(events_of(fewer), press, len);
        assert(press.events().take(len) =~= press.events());
        assert(commands_of(presses) =~= commands_of(fewer).push(press.command()));
    }
}

/// Nothing else can happen: every run is made of whole presses and the beginning of one more, and
/// sends the commands of the whole presses, and that of the last one once it is known.
pub proof fn runs_are_presses(events: Seq<ButtonEvent>) -> (r: (Seq<Press>, Press, int))
    requires
        accepted_run(events),
    ensures
        ({
            let (presses, press, n) = r;
            &&& 0 <= n < press.events().len()
            &&& events == events_of(presses) + press.events().take(n)
            &&& commands_in(events) == (if n < press.events().len() - 1 {
                commands_of(presses)
            } else {
                commands_of(presses).push(press.command())
            })
        }),
    decreases events.len(),
{
    if events.len() == 0 {
        let none = Seq::<Press>::empty();
        assert(events =~= events_of(none) + Press::Brief.events().take(0));
        assert(commands_of(none) =~= seq![]);
        (none, Press::Brief, 0)
    } else {
        let before = events.drop_last();
        let event = events.last();
        let (presses, press, n) = runs_are_presses(before);
        presses_send_in_order(presses);
        run_with_press(events_of(presses), press, n);
        if n == 0 {
            assert(before =~= events_of(presses));
        } else {
            assert(before.last() == press.events()[n - 1]);
        }
        let next_press = match event {
            ButtonEvent::Pressed(Button::HourMonth) => Press::HourMonth,
            ButtonEvent::Pressed(Button::MinuteDay) => Press::MinuteDay,
            ButtonEvent::Pressed(Button::Function) => Press::Brief,
            ButtonEvent::Sampled(Level::High) => Press::Brief,
            ButtonEvent::Sampled(Level::Low) => Press::Held(0),
            ButtonEvent::Released(ticks) => Press::Held(ticks),
            ButtonEvent::Sent => press,
        };
        assert(n + 1 <= next_press.events().len());
        assert(next_press.events().take(n + 1) =~= press.events().take(n).push(event));
        assert(events =~= before.push(event));
        assert(events =~= events_of(presses) + next_press.events().take(n + 1));
        run_with_press(events_of(presses), next_press, n + 1);
        if event == ButtonEvent::Sent {
            let done = presses.push(press);
            assert(done.drop_last() =~= presses);
            assert(press.events().take(n + 1) =~= press.events());
            presses_send_in_order(done);
            assert(events =~= events_of(done) + press.events().take(0));
            (done, press, 0)
        } else {
            (presses, next_press, n + 1)
        }
    }
}

/// The buttons send four commands, and the function button alone switches the alarm or chooses
/// the next face.
pub proof fn presses_have_four_commands(press: Press)
    ensures
        press.command() == Command::NextFunction || press.command() == Command::ToogleAlarmState
            || press.command() == Command::HourMonth || press.command() == Command::MinuteDay,
        press.command() == Command::HourMonth <==> press.button() == Button::HourMonth,
        press.command() == Command::MinuteDay <==> press.button() == Button::MinuteDay,
        press.command() == Command::ToogleAlarmState ==> press is Held,
{
}

/// Each button has its command, whatever came before. The function button chooses the next face,
/// unless it is held for more than a second: then it switches the alarm.
pub proof fn buttons_have_their_commands(ticks: u64)
    ensures
        Buttons::after(ButtonEvent::Pressed(Button::HourMonth)) == (
            Buttons::Sending,
            ButtonAction::Send(Command::HourMonth),
        ),
        Buttons::after(ButtonEvent::Pressed(Button::MinuteDay)) == (
            Buttons::Sending,
            ButtonAction::Send(Command::MinuteDay),
        ),
        Buttons::after(ButtonEvent::Pressed(Button::Function)) == (
            Buttons::Sampling,
            ButtonAction::SampleFunction,
        ),
        Buttons::after(ButtonEvent::Sampled(Level::High)) == (
            Buttons::Sending,
            ButtonAction::Send(Command::NextFunction),
        ),
        Buttons::after(ButtonEvent::Sampled(Level::Low)) == (
            Buttons::Held,
            ButtonAction::AwaitRelease,
        ),
        Buttons::after(ButtonEvent::Released(ticks)).0 == Buttons::Sending,
        ticks > 1_000_000 ==> Buttons::after(ButtonEvent::Released(ticks)).1 == ButtonAction::Send(
            Command::ToogleAlarmState,
        ),
        ticks <= 1_000_000 ==> Buttons::after(ButtonEvent::Released(ticks)).1
            == ButtonAction::Send(Command::NextFunction),
        Buttons::after(ButtonEvent::Sent) == (Buttons::Idle, ButtonAction::AwaitPress),
{
}

/// The buttons take note of what they wait for and of nothing else.
pub proof fn buttons_note_what_they_wait_for(buttons: Buttons, event: ButtonEvent)
    ensures
        buttons.accepts(event) <==> match buttons {
            Buttons::Idle => event is Pressed,
            Buttons::Sampling => event is Sampled,
            Buttons::Held => event is Released,
            Buttons::Sending => event is Sent,
        },
{
}

} // verus!
