//! Commands on their way to the clock: a queue with little room, which the buttons wait for and
//! the host does not.

use crate::buttons::{
    accepted_run, action_after, commands_in, waiting_after, ButtonAction, ButtonEvent, Buttons,
};
use crate::command::{Command, COMMAND_CAPACITY};
use crate::usb::{response, OutResponse};
use vstd::prelude::*;

verus! {

/// What happens on the way.
pub enum QueueStep {
    /// The buttons take note of an event.
    Buttons(ButtonEvent),
    /// The host passes a command on.
    Host(Command),
    /// The clock takes the command that has waited longest.
    Take,
}

/// The buttons, what they are doing, the commands in the queue, and those that the buttons have
/// put there so far.
pub struct Line {
    pub buttons: Buttons,
    pub action: ButtonAction,
    pub queue: Seq<Command>,
    pub sent: Seq<Command>,
}

impl Line {
    /// The beginning: nothing is on its way.
    pub open spec fn initial() -> Line {
        Line {
            buttons: Buttons::Idle,
            action: ButtonAction::AwaitPress,
            queue: seq![],
            sent: seq![],
        }
    }

    /// There is room for one more command.
    pub open spec fn has_room(self) -> bool {
        self.queue.len() < COMMAND_CAPACITY
    }

    /// The step can happen: a command of the buttons is sent only when there is room for it.
    pub open spec fn enables(self, step: QueueStep) -> bool {
        match step {
            QueueStep::Buttons(event) => self.buttons.accepts(event) && (event == ButtonEvent::Sent
                ==> self.has_room()),
            QueueStep::Host(_) => true,
            QueueStep::Take => self.queue.len() > 0,
        }
    }

    /// What becomes of the line. A host's command is dropped where there is no room.
    pub open spec fn after(self, step: QueueStep) -> Line {
        match step {
            QueueStep::Buttons(event) => {
                let (buttons, action) = Buttons::after(event);
                match self.action {
                    ButtonAction::Send(command) if event == ButtonEvent::Sent => Line {
                        buttons,
                        action,
                        queue: self.queue.push(command),
                        sent: self.sent.push(command),
                    },
                    _ => Line { buttons, action, ..self },
                }
            },
            QueueStep::Host(command) => if self.has_room() {
                Line { queue: self.queue.push(command), ..self }
            } else {
                self
            },
            QueueStep::Take => Line { queue: self.queue.drop_first(), ..self },
        }
    }

    /// What becomes of the line after steps one after the other.
    pub open spec fn after_all(self, steps: Seq<QueueStep>) -> Line
        decreases steps.len(),
    {
        if steps.len() == 0 {
            self
        } else {
            self.after_all(steps.drop_last()).after(steps.last())
        }
    }

    /// Each of the steps can happen when its turn comes.
    pub open spec fn enables_all(self, steps: Seq<QueueStep>) -> bool
        decreases steps.len(),
    {
        steps.len() > 0 ==> self.enables_all(steps.drop_last()) && self.after_all(
            steps.drop_last(),
        ).enables(steps.last())
    }

    /// The command that the buttons are sending, if they are.
    pub open spec fn pending(self) -> Seq<Command> {
        match self.action {
            ButtonAction::Send(command) => seq![command],
            _ => seq![],
        }
    }
}

/// What the buttons take note of in the course of steps.
pub open spec fn button_events(steps: Seq<QueueStep>) -> Seq<ButtonEvent>
    decreases steps.len(),
{
    if steps.len() == 0 {
        seq![]
    } else {
        match steps.last() {
            QueueStep::Buttons(event) => button_events(steps.drop_last()).push(event),
            _ => button_events(steps.drop_last()),
        }
    }
}

/// Whatever the host and the clock do meanwhile, the buttons' commands get into the queue in the
/// order of the presses, each once; one that has not is being sent still. The queue never
/// overflows.
pub proof fn no_press_is_lost(steps: Seq<QueueStep>)
    requires
        Line::initial().enables_all(steps),
    ensures
        ({
            let line = Line::initial().after_all(steps);
            let events = button_events(steps);
            &&& accepted_run(events)
            &&& line.buttons == waiting_after(events)
            &&& line.action == action_after(events)
            &&& line.sent + line.pending() == commands_in(events)
            &&& line.queue.len() <= COMMAND_CAPACITY
        }),
    decreases steps.len(),
{
    let line = Line::initial().after_all(steps);
    if steps.len() == 0 {
        assert(line.sent + line.pending() =~= commands_in(button_events(steps)));
    } else {
        let fewer = steps.drop_last();
        let before = Line::initial().after_all(fewer);
        no_press_is_lost(fewer);
        match steps.last() {
            QueueStep::Buttons(event) => {
                let events = button_events(fewer);
                assert(events.push(event).drop_last() =~= events);
                assert(line.sent + line.pending() =~= commands_in(events.push(event)));
            },
            _ => {},
        }
    }
}

/// A press whose command finds the queue full waits: until the clock takes a command, the buttons
/// take note of nothing, and they go on sending the same command.
pub proof fn full_queue_holds_the_buttons(steps: Seq<QueueStep>, command: Command, step: QueueStep)
    requires
        Line::initial().enables_all(steps),
        Line::initial().after_all(steps).action == ButtonAction::Send(command),
        !Line::initial().after_all(steps).has_room(),
        Line::initial().after_all(steps).enables(step),
    ensures
        ({
            let line = Line::initial().after_all(steps);
            let next = line.after(step);
            &&& !(step is Buttons)
            &&& next.action == ButtonAction::Send(command)
            &&& next.buttons == line.buttons
            &&& next.sent == line.sent
            &&& next.has_room() <==> step is Take
        }),
{
    no_press_is_lost(steps);
}

/// As soon as there is room the command that waited gets in, behind all others, and the next press
/// is waited for.
pub proof fn room_lets_the_command_in(steps: Seq<QueueStep>, command: Command)
    requires
        Line::initial().enables_all(steps),
        Line::initial().after_all(steps).action == ButtonAction::Send(command),
        Line::initial().after_all(steps).has_room(),
    ensures
        ({
            let line = Line::initial().after_all(steps);
            let next = line.after(QueueStep::Buttons(ButtonEvent::Sent));
            &&& line.enables(QueueStep::Buttons(ButtonEvent::Sent))
            &&& next.queue == line.queue.push(command)
            &&& next.sent == line.sent.push(command)
            &&& next.action == ButtonAction::AwaitPress
        }),
{
    no_press_is_lost(steps);
}

/// The host is told the truth: its request is accepted exactly if its command has got into the
/// queue, behind all others. Otherwise the queue is as it was. The buttons notice neither.
pub proof fn host_is_told_the_truth(line: Line, command: Command)
    ensures
        ({
            let next = line.after(QueueStep::Host(command));
            let answer = response(line.has_room());
            &&& answer == OutResponse::Accepted <==> next.queue == line.queue.push(command)
            &&& answer == OutResponse::Rejected <==> next.queue == line.queue
            &&& next.buttons == line.buttons
            &&& next.action == line.action
            &&& next.sent == line.sent
        }),
{
    assert(line.queue.push(command).len() == line.queue.len() + 1);
}

/// The queue has room until it holds ten commands. What the host sends when it is full is lost,
/// and what the clock takes is what has waited longest.
pub proof fn queue_holds_ten(line: Line, command: Command)
    ensures
        line.queue.len() < 10 ==> line.after(QueueStep::Host(command)).queue == line.queue.push(
            command,
        ),
        line.queue.len() >= 10 ==> line.after(QueueStep::Host(command)).queue == line.queue,
        line.enables(QueueStep::Host(command)),
        line.enables(QueueStep::Take) <==> line.queue.len() > 0,
        line.queue.len() > 0 ==> seq![line.queue[0]] + line.after(QueueStep::Take).queue
            == line.queue,
        line.enables(QueueStep::Buttons(ButtonEvent::Sent)) <==> line.buttons == Buttons::Sending
            && line.queue.len() < 10,
{
    if line.queue.len() > 0 {
        assert(seq![line.queue[0]] + line.after(QueueStep::Take).queue =~= line.queue);
    }
}

} // verus!
