//! The display: one place is lit at a time, from right to left and over again, and a text that is
//! too long moves through the four places.

use crate::command::SevenSegmentCommand;
use crate::glyph::{
    digit_segments, digits_follow_their_value, digits_show_alike, letter_glyph, letter_segments,
    places_are_selected_by_bit, point_bit, DARK, NO_PLACE, POINT, SEGMENT_MAP_DIGIT, SEVEN_SEGMENT,
};
use crate::text::Text;
use vstd::prelude::*;

verus! {

/// The number of places.
pub const PLACES: usize = 4;

/// How long a place stays lit, in milliseconds.
pub const DWELL_MILLIS: u64 = 1;

/// What the driver of the display is loaded with: the code of a place and the segments to light
/// there.
#[derive(Copy, Clone, PartialEq, Eq, Structural, Debug)]
pub struct Drive {
    pub segment: u8,
    pub value: u8,
}

/// What happens to the display.
#[derive(Debug, PartialEq, Eq)]
pub enum DisplayEvent {
    /// A new command has come.
    Received(SevenSegmentCommand),
    /// A text has stood still for long enough.
    Scrolled,
    /// The place has been lit for long enough.
    Refreshed,
}

impl DisplayEvent {
    /// Tells whether a text starts to stand still with this event, so that the time until it moves
    /// on is counted from here: it does when it comes and when it has moved.
    pub fn restarts_scroll(&self) -> (r: bool)
        ensures
            r == (self is Received || self is Scrolled),
    {
        match self {
            DisplayEvent::Refreshed => false,
            _ => true,
        }
    }
}

/// How long a place stays lit.
#[derive(Copy, Clone, PartialEq, Eq, Structural, Debug)]
pub enum Dwell {
    /// For as many milliseconds.
    Millis(u64),
    /// The display is refreshed at once.
    AtOnce,
    /// A sweep over no places never ends, and nothing else is done from then on.
    Endless,
}

/// The digit of `number` at a place counted from the right.
pub open spec fn digit_at(number: int, place: int) -> int {
    if place == 0 {
        number % 10
    } else if place == 1 {
        number / 10 % 10
    } else if place == 2 {
        number / 100 % 10
    } else {
        number / 1000 % 10
    }
}

/// The place of a point, counted from the right, where the display has that place.
pub open spec fn visible_point(point: Option<u8>) -> Option<u8> {
    match point {
        Some(place) => if place < PLACES {
            point
        } else {
            None
        },
        None => None,
    }
}

/// The drive that shows one digit of a number, at a place counted from the left.
pub open spec fn number_drive(number: int, point: Option<u8>, active: int) -> Drive {
    Drive {
        segment: SEVEN_SEGMENT@[active],
        value: crate::glyph::digit_glyph(
            digit_at(number, 3 - active),
            point matches Some(p) && p == 3 - active,
        ),
    }
}

/// The drive that shows one byte of a text that has been moved on by `start` bytes, at a place
/// counted from the left.
pub open spec fn text_drive(text: Seq<u8>, start: int, active: int) -> Drive {
    Drive {
        segment: SEVEN_SEGMENT@[active],
        value: crate::glyph::letter_glyph(text[start + active]),
    }
}

/// The furthest that a text of `len` bytes moves: its last four bytes are shown then.
pub open spec fn last_start(len: int) -> int {
    if len > PLACES {
        len - PLACES
    } else {
        0
    }
}

/// Where a text stands after it has moved on once more: one byte further, or at its beginning
/// again.
pub open spec fn next_start(len: int, start: int) -> int {
    if start < last_start(len) {
        start + 1
    } else {
        0
    }
}

/// The rightmost place that a command uses.
pub open spec fn top_place(command: SevenSegmentCommand) -> int {
    match command {
        SevenSegmentCommand::Number(_, _) => 3,
        SevenSegmentCommand::Buffer(text, _) => if text@.len() >= PLACES {
            3
        } else if text@.len() > 0 {
            text@.len() - 1
        } else {
            0
        },
        SevenSegmentCommand::Clear => 0,
    }
}

/// What the display is doing: the command that it shows, how far a text has moved, and the place
/// that is lit, counted from the left.
pub struct DisplayState {
    pub command: SevenSegmentCommand,
    pub start: int,
    pub active: int,
}

impl DisplayState {
    /// The beginning of a command.
    pub open spec fn begin(command: SevenSegmentCommand) -> DisplayState {
        DisplayState { command, start: 0, active: top_place(command) }
    }

    /// The lit place is one that the command uses, and a text never moves past its end.
    pub open spec fn well_formed(self) -> bool {
        &&& 0 <= self.active <= top_place(self.command)
        &&& 0 <= self.start
        &&& match self.command {
            SevenSegmentCommand::Buffer(text, _) => self.start <= last_start(text@.len() as int),
            _ => self.start == 0,
        }
    }

    /// What the driver is loaded with, if anything: an empty text has nothing to light.
    pub open spec fn drive(self) -> Option<Drive> {
        match self.command {
            SevenSegmentCommand::Number(number, point) => Some(
                number_drive(number as int, point, self.active),
            ),
            SevenSegmentCommand::Buffer(text, _) => if text@.len() > 0 {
                Some(text_drive(text@, self.start, self.active))
            } else {
                None
            },
            SevenSegmentCommand::Clear => Some(Drive { segment: NO_PLACE, value: DARK }),
        }
    }

    /// There is no place to sweep over: an empty text is to be shown.
    pub open spec fn endless(self) -> bool {
        self.command matches SevenSegmentCommand::Buffer(text, _) && text@.len() == 0
    }

    /// How long the lit place stays so.
    pub open spec fn dwell(self) -> Dwell {
        if self.endless() {
            Dwell::Endless
        } else if self.command is Clear {
            Dwell::AtOnce
        } else {
            Dwell::Millis(DWELL_MILLIS)
        }
    }

    /// After how many timer ticks the command moves on, if it does.
    pub open spec fn scroll(self) -> Option<u64> {
        match self.command {
            SevenSegmentCommand::Buffer(text, ticks) => if text@.len() > 0 {
                Some(ticks)
            } else {
                None
            },
            _ => None,
        }
    }

    /// The event can happen. Only a text moves, and an endless sweep is neither refreshed nor moved
    /// on: only a command that was there before it began can take its place.
    pub open spec fn accepts(self, event: DisplayEvent) -> bool {
        match event {
            DisplayEvent::Received(_) => true,
            DisplayEvent::Scrolled => self.scroll() is Some,
            DisplayEvent::Refreshed => !self.endless(),
        }
    }

    /// What the display does after an event.
    pub open spec fn after(self, event: DisplayEvent) -> DisplayState {
        match event {
            DisplayEvent::Received(command) => DisplayState::begin(command),
            DisplayEvent::Scrolled => match self.command {
                SevenSegmentCommand::Buffer(text, _) => DisplayState {
                    start: next_start(text@.len() as int, self.start),
                    active: top_place(self.command),
                    ..self
                },
                _ => self,
            },
            DisplayEvent::Refreshed => DisplayState {
                active: if self.active > 0 {
                    self.active - 1
                } else {
                    top_place(self.command)
                },
                ..self
            },
        }
    }

    /// What the display does after the lit place has changed `n` times.
    pub open spec fn refreshed(self, n: nat) -> DisplayState
        decreases n,
    {
        if n == 0 {
            self
        } else {
            self.refreshed((n - 1) as nat).after(DisplayEvent::Refreshed)
        }
    }

    /// The drives of one undisturbed sweep over the places of the command. An empty text has no
    /// places, and nothing is driven.
    pub open spec fn pass(self) -> Seq<Drive> {
        if self.endless() {
            seq![]
        } else {
            Seq::new(
                (top_place(self.command) + 1) as nat,
                |n: int| self.refreshed(n as nat).drive()->0,
            )
        }
    }

    /// What the display does after events one after the other.
    pub open spec fn after_all(self, events: Seq<DisplayEvent>) -> DisplayState
        decreases events.len(),
    {
        if events.len() == 0 {
            self
        } else {
            self.after_all(events.drop_last()).after(events.last())
        }
    }

    /// What the display does after a text has moved on `n` times.
    pub open spec fn scrolled(self, n: nat) -> DisplayState
        decreases n,
    {
        if n == 0 {
            self
        } else {
            self.scrolled((n - 1) as nat).after(DisplayEvent::Scrolled)
        }
    }
}

/// The display.
#[derive(Debug, PartialEq, Eq)]
pub struct Display {
    command: SevenSegmentCommand,
    start: usize,
    active: usize,
    /// What is left of a number once the digits to the right of the lit place are taken off.
    rest: usize,
}

impl View for Display {
    type V = DisplayState;

    closed spec fn view(&self) -> DisplayState {
        DisplayState {
            command: self.command,
            start: self.start as int,
            active: self.active as int,
        }
    }
}

impl Display {
    /// The display is in a state that it can get into.
    pub closed spec fn well_formed(&self) -> bool {
        &&& self@.well_formed()
        &&& self.command matches SevenSegmentCommand::Number(number, _) ==> self.rest == number / (
        if self.active == 3 {
            1usize
        } else if self.active == 2 {
            10usize
        } else if self.active == 1 {
            100usize
        } else {
            1000usize
        })
    }

    /// A display that shows nothing.
    pub fn new() -> (r: Display)
        ensures
            r.well_formed(),
            r@ == DisplayState::begin(SevenSegmentCommand::Clear),
    {
        Display { command: SevenSegmentCommand::Clear, start: 0, active: 0, rest: 0 }
    }

    /// The display at the beginning of a command.
    fn begin(command: SevenSegmentCommand) -> (r: Display)
        ensures
            r.well_formed(),
            r@ == DisplayState::begin(command),
    {
        let rest: usize = match &command {
            SevenSegmentCommand::Number(number, _) => *number,
            _ => 0,
        };
        let active: usize = rightmost_place(&command);
        Display { command, start: 0, active, rest }
    }

    /// What to load the driver with. There is nothing to load for an empty text.
    pub fn drive(&self) -> (r: Option<Drive>)
        requires
            self.well_formed(),
        ensures
            r == self@.drive(),
    {
        match &self.command {
            SevenSegmentCommand::Number(_, point) => {
                let lit = match point {
                    Some(point) => 3 - self.active == *point as usize,
                    None => false,
                };
                Some(
                    Drive {
                        segment: SEVEN_SEGMENT[self.active],
                        value: digit_segments(self.rest % 10, lit),
                    },
                )
            },
            SevenSegmentCommand::Buffer(text, _) => {
                if text.len() > 0 {
                    Some(
                        Drive {
                            segment: SEVEN_SEGMENT[self.active],
                            value: letter_segments(text.byte(self.start + self.active)),
                        },
                    )
                } else {
                    None
                }
            },
            SevenSegmentCommand::Clear => Some(Drive { segment: NO_PLACE, value: DARK }),
        }
    }

    /// How long to wait before the display is [`DisplayEvent::Refreshed`].
    pub fn dwell(&self) -> (r: Dwell)
        ensures
            r == self@.dwell(),
    {
        match &self.command {
            SevenSegmentCommand::Number(_, _) => Dwell::Millis(DWELL_MILLIS),
            SevenSegmentCommand::Buffer(text, _) => {
                if text.len() > 0 {
                    Dwell::Millis(DWELL_MILLIS)
                } else {
                    Dwell::Endless
                }
            },
            SevenSegmentCommand::Clear => Dwell::AtOnce,
        }
    }

    /// After how many timer ticks the display is [`DisplayEvent::Scrolled`], counted from the last
    /// event that [restarts](DisplayEvent::restarts_scroll) the count. Only a text moves.
    pub fn scroll_ticks(&self) -> (r: Option<u64>)
        ensures
            r == self@.scroll(),
    {
        match &self.command {
            SevenSegmentCommand::Buffer(text, ticks) => {
                if text.len() > 0 {
                    Some(*ticks)
                } else {
                    None
                }
            },
            _ => None,
        }
    }

    /// Tells whether an event can happen.
    pub fn expects(&self, event: &DisplayEvent) -> (r: bool)
        ensures
            r == self@.accepts(*event),
    {
        match event {
            DisplayEvent::Received(_) => true,
            DisplayEvent::Scrolled => self.scroll_ticks().is_some(),
            DisplayEvent::Refreshed => self.dwell() != Dwell::Endless,
        }
    }

    /// Takes note of an event.
    pub fn step(&mut self, event: DisplayEvent)
        requires
            old(self).well_formed(),
            old(self)@.accepts(event),
        ensures
            final(self).well_formed(),
            final(self)@ == old(self)@.after(event),
    {
        match event {
            DisplayEvent::Received(command) => {
                *self = Display::begin(command);
            },
            DisplayEvent::Scrolled => {
                if let SevenSegmentCommand::Buffer(text, _) = &self.command {
                    let start: usize = following_start(text.len(), self.start);
                    self.start = start;
                    self.active = rightmost_place(&self.command);
                }
            },
            DisplayEvent::Refreshed => {
                if self.active > 0 {
                    self.active = self.active - 1;
                    self.rest = self.rest / 10;
                } else {
                    self.active = rightmost_place(&self.command);
                    self.rest = match &self.command {
                        SevenSegmentCommand::Number(number, _) => *number,
                        _ => 0,
                    };
                }
            },
        }
    }
}

/// The rightmost place that a command uses.
fn rightmost_place(command: &SevenSegmentCommand) -> (r: usize)
    ensures
        r == top_place(*command),
{
    match command {
        SevenSegmentCommand::Number(_, _) => 3,
        SevenSegmentCommand::Buffer(text, _) => {
            let len: usize = text.len();
            if len >= PLACES {
                3
            } else if len > 0 {
                len - 1
            } else {
                0
            }
        },
        SevenSegmentCommand::Clear => 0,
    }
}

/// Where a text of `len` bytes stands after it has moved on from `start`.
fn following_start(len: usize, start: usize) -> (r: usize)
    requires
        start <= last_start(len as int),
    ensures
        r == next_start(len as int, start as int),
{
    if start < len.saturating_sub(PLACES) {
        start + 1
    } else {
        0
    }
}

/// Whatever happens, the lit place stays one that the command uses, and a text stays within its
/// bounds.
pub proof fn display_stays_well_formed(state: DisplayState, event: DisplayEvent)
    requires
        state.well_formed(),
    ensures
        state.after(event).well_formed(),
{
}

/// A new command starts from its beginning, whatever was shown before.
pub proof fn commands_leave_no_trace(
    state: DisplayState,
    other: DisplayState,
    command: SevenSegmentCommand,
)
    ensures
        state.after(DisplayEvent::Received(command)) == other.after(
            DisplayEvent::Received(command),
        ),
        state.after(DisplayEvent::Received(command)).drive() == DisplayState::begin(
            command,
        ).drive(),
{
}

/// Each sweep lights the places that the command uses once each, from right to left, and then
/// begins again.
pub proof fn sweep_lights_each_place(state: DisplayState, n: nat)
    requires
        !state.endless(),
        state.active == top_place(state.command),
        state.active >= 0,
        n <= state.active,
    ensures
        state.refreshed(n) == (DisplayState { active: state.active - n, ..state }),
        state.refreshed((state.active + 1) as nat) == state,
{
    sweep_step(state, n);
    sweep_step(state, state.active as nat);
}

proof fn sweep_step(state: DisplayState, n: nat)
    requires
        state.active == top_place(state.command),
        n <= state.active,
    ensures
        state.refreshed(n) == (DisplayState { active: state.active - n, ..state }),
    decreases n,
{
    if n > 0 {
        sweep_step(state, (n - 1) as nat);
    }
}

/// Two numbers look the same on all places exactly if their last four digits are the same and
/// the point stands in the same place or in none.
pub proof fn number_shows_last_four_digits(
    number: int,
    point: Option<u8>,
    other: int,
    other_point: Option<u8>,
)
    requires
        number >= 0,
        other >= 0,
    ensures
        (forall|active: int|
            0 <= active < 4 ==> #[trigger] number_drive(number, point, active) == number_drive(
                other,
                other_point,
                active,
            )) <==> number % 10_000 == other % 10_000 && visible_point(point) == visible_point(
            other_point,
        ),
{
    let same_place = |active: int|
        digit_at(number, 3 - active) == digit_at(other, 3 - active) && (point matches Some(p) && p
            == 3 - active) == (other_point matches Some(p) && p == 3 - active);
    assert forall|active: int| 0 <= active < 4 implies (#[trigger] number_drive(
        number,
        point,
        active,
    ) == number_drive(other, other_point, active) <==> same_place(active)) by {
        crate::glyph::digits_are_told_apart(
            digit_at(number, 3 - active),
            point matches Some(p) && p == 3 - active,
            digit_at(other, 3 - active),
            other_point matches Some(p) && p == 3 - active,
        );
    }
    four_digits(number);
    four_digits(other);
    if forall|active: int|
        0 <= active < 4 ==> #[trigger] number_drive(number, point, active) == number_drive(
            other,
            other_point,
            active,
        ) {
        assert(number_drive(number, point, 0) == number_drive(other, other_point, 0));
        assert(number_drive(number, point, 1) == number_drive(other, other_point, 1));
        assert(number_drive(number, point, 2) == number_drive(other, other_point, 2));
        assert(number_drive(number, point, 3) == number_drive(other, other_point, 3));
        assert(same_place(0) && same_place(1) && same_place(2) && same_place(3));
    }
    if number % 10_000 == other % 10_000 && visible_point(point) == visible_point(other_point) {
        assert forall|active: int| 0 <= active < 4 implies #[trigger] number_drive(
            number,
            point,
            active,
        ) == number_drive(other, other_point, active) by {
            assert(same_place(active));
        }
    }
}

/// The last four digits of a number make up its remainder.
proof fn four_digits(number: int)
    requires
        number >= 0,
    ensures
        number % 10_000 == digit_at(number, 0) + 10 * digit_at(number, 1) + 100 * digit_at(number, 2)
            + 1000 * digit_at(number, 3),
        forall|place: int| 0 <= #[trigger] digit_at(number, place) < 10,
{
    let tens = number / 10;
    let hundreds = tens / 10;
    let thousands = hundreds / 10;
    let above = thousands / 10;
    assert(number / 100 == hundreds);
    assert(number / 1000 == thousands);
    assert(number == 10 * tens + number % 10);
    assert(tens == 10 * hundreds + tens % 10);
    assert(hundreds == 10 * thousands + hundreds % 10);
    assert(thousands == 10 * above + thousands % 10);
    let low = number % 10 + 10 * (tens % 10) + 100 * (hundreds % 10) + 1000 * (thousands % 10);
    assert(number == 10_000 * above + low);
    assert(number % 10_000 == low);
}

/// The sweep of a number shows its last four digits, from the right.
proof fn number_pass(number: usize, point: Option<u8>)
    ensures
        DisplayState::begin(SevenSegmentCommand::Number(number, point)).pass() == Seq::new(
            4,
            |n: int| number_drive(number as int, point, 3 - n),
        ),
{
    let begin = DisplayState::begin(SevenSegmentCommand::Number(number, point));
    assert forall|n: int| 0 <= n < 4 implies begin.pass()[n] == number_drive(
        number as int,
        point,
        3 - n,
    ) by {
        sweep_step(begin, n as nat);
    }
}

/// A point changes one word of a whole sweep, that of its digit, and there only the highest bit:
/// dark without the point, lit with it. Beyond the four places it changes nothing.
pub proof fn point_changes_one_word(number: usize, place: u8)
    ensures
        ({
            let plain = DisplayState::begin(SevenSegmentCommand::Number(number, None)).pass();
            let pointed = DisplayState::begin(
                SevenSegmentCommand::Number(number, Some(place)),
            ).pass();
            &&& plain.len() == 4
            &&& place >= 4 ==> pointed == plain
            &&& place < 4 ==> {
                let word = plain[place as int];
                &&& word.value & POINT == POINT
                &&& pointed == plain.update(
                    place as int,
                    Drive { segment: word.segment, value: (word.value - POINT) as u8 },
                )
                &&& pointed[place as int].value & POINT == 0
                &&& pointed[place as int].value | POINT == word.value
            }
        }),
{
    number_pass(number, None);
    number_pass(number, Some(place));
    let plain = DisplayState::begin(SevenSegmentCommand::Number(number, None)).pass();
    let pointed = DisplayState::begin(SevenSegmentCommand::Number(number, Some(place))).pass();
    four_digits(number as int);
    if place >= 4 {
        assert(pointed =~= plain);
    } else {
        let word = plain[place as int];
        let value = word.value;
        point_bit(digit_at(number as int, place as int), false);
        point_bit(digit_at(number as int, place as int), true);
        assert(value >= 0x80 ==> value & 0x80 == 0x80 && ((value - 0x80) as u8) & 0x80 == 0 && ((value - 0x80) as u8) | 0x80 == value) by (bit_vector);
        assert(pointed =~= plain.update(
            place as int,
            Drive { segment: word.segment, value: (value - POINT) as u8 },
        ));
    }
}

/// The four last digits of a number as a text.
pub open spec fn digits_text(number: int) -> Seq<u8> {
    Seq::new(4, |i: int| ('0' as u8 + digit_at(number, 3 - i)) as u8)
}

/// A text of four digits, zeros in front, is swept word for word like the number without a point.
pub proof fn digits_text_shows_the_number(number: usize, text: Text, ticks: u64)
    requires
        text@ == digits_text(number as int),
    ensures
        DisplayState::begin(SevenSegmentCommand::Buffer(text, ticks)).pass()
            == DisplayState::begin(SevenSegmentCommand::Number(number, None)).pass(),
{
    number_pass(number, None);
    four_digits(number as int);
    let begin = DisplayState::begin(SevenSegmentCommand::Buffer(text, ticks));
    let plain = DisplayState::begin(SevenSegmentCommand::Number(number, None));
    assert forall|n: int| 0 <= n < 4 implies begin.pass()[n] == plain.pass()[n] by {
        sweep_step(begin, n as nat);
        digits_show_alike(digit_at(number as int, n) as u8);
        assert(begin.pass()[n] == text_drive(text@, 0, 3 - n));
    }
    assert(begin.pass() =~= plain.pass());
}

/// The lower case of a letter; any other byte as it is.
pub open spec fn lower_case(byte: u8) -> u8 {
    if 'A' as u8 <= byte <= 'Z' as u8 {
        (byte + 32) as u8
    } else {
        byte
    }
}

/// The texts are the same but for the case of their letters.
pub open spec fn same_but_for_case(text: Seq<u8>, other: Seq<u8>) -> bool {
    &&& text.len() == other.len()
    &&& forall|i: int|
        0 <= i < text.len() ==> lower_case(#[trigger] text[i]) == lower_case(other[i])
}

/// Whatever happens to the display, two texts that are the same but for the case of their letters
/// show alike at every moment.
pub proof fn case_never_shows(text: Text, other: Text, ticks: u64, events: Seq<DisplayEvent>)
    requires
        same_but_for_case(text@, other@),
    ensures
        ({
            let state = DisplayState::begin(SevenSegmentCommand::Buffer(text, ticks)).after_all(
                events,
            );
            let twin = DisplayState::begin(SevenSegmentCommand::Buffer(other, ticks)).after_all(
                events,
            );
            &&& state.drive() == twin.drive()
            &&& state.dwell() == twin.dwell()
            &&& state.scroll() == twin.scroll()
        }),
{
    case_run(text, other, ticks, events);
    let state = DisplayState::begin(SevenSegmentCommand::Buffer(text, ticks)).after_all(events);
    if state.command == SevenSegmentCommand::Buffer(text, ticks) && text@.len() > 0 {
        let i = state.start + state.active;
        assert(lower_case(text@[i]) == lower_case(other@[i]));
    }
}

/// The two displays stay in step: both show their first text at the same place, or the same
/// command.
proof fn case_run(text: Text, other: Text, ticks: u64, events: Seq<DisplayEvent>)
    requires
        text@.len() == other@.len(),
    ensures
        ({
            let state = DisplayState::begin(SevenSegmentCommand::Buffer(text, ticks)).after_all(
                events,
            );
            let twin = DisplayState::begin(SevenSegmentCommand::Buffer(other, ticks)).after_all(
                events,
            );
            &&& state.well_formed()
            &&& state == twin || (state.command == SevenSegmentCommand::Buffer(text, ticks) && twin
                == (DisplayState { command: SevenSegmentCommand::Buffer(other, ticks), ..state }))
        }),
    decreases events.len(),
{
    if events.len() > 0 {
        case_run(text, other, ticks, events.drop_last());
    }
}

/// The number of windows that a text of `len` bytes goes through before it starts over.
pub open spec fn windows(len: int) -> int {
    last_start(len) + 1
}

/// A text moves on by one byte at a time until its last four bytes are shown, then stands at its
/// beginning again, and so on for ever: how often it has moved tells where it stands, and what is
/// shown lies within it.
pub proof fn text_moves_round(text: Text, ticks: u64, n: nat)
    requires
        text@.len() > 0,
    ensures
        ({
            let begin = DisplayState::begin(SevenSegmentCommand::Buffer(text, ticks));
            let start = n as int % windows(text@.len() as int);
            &&& begin.scrolled(n) == (DisplayState { start, ..begin })
            &&& 0 <= start
            &&& start + top_place(begin.command) < text@.len()
        }),
    decreases n,
{
    if n > 0 {
        text_moves_round(text, ticks, (n - 1) as nat);
        next_window(n - 1, windows(text@.len() as int));
    } else {
        small_window(0, windows(text@.len() as int));
    }
    vstd::arithmetic::div_mod::lemma_mod_bound(n as int, windows(text@.len() as int));
}

/// Counting on goes to the next remainder, or round to zero.
proof fn next_window(n: int, count: int)
    requires
        n >= 0,
        count > 0,
    ensures
        (n + 1) % count == (if n % count < count - 1 {
            n % count + 1
        } else {
            0
        }),
{
    vstd::arithmetic::div_mod::lemma_fundamental_div_mod(n, count);
    vstd::arithmetic::div_mod::lemma_mod_bound(n, count);
    let q = n / count;
    if n % count < count - 1 {
        assert(n + 1 == q * count + (n % count + 1)) by (nonlinear_arith)
            requires
                n == count * q + n % count,
        ;
        vstd::arithmetic::div_mod::lemma_fundamental_div_mod_converse(
            n + 1,
            count,
            q,
            n % count + 1,
        );
    } else {
        assert(n + 1 == (q + 1) * count) by (nonlinear_arith)
            requires
                n == count * q + n % count,
                n % count == count - 1,
        ;
        vstd::arithmetic::div_mod::lemma_fundamental_div_mod_converse(n + 1, count, q + 1, 0);
    }
}

proof fn small_window(n: int, count: int)
    requires
        0 <= n < count,
    ensures
        n % count == n,
{
    vstd::arithmetic::div_mod::lemma_small_mod(n as nat, count as nat);
}

/// How often a text has moved on in the course of events.
pub open spec fn times_moved(events: Seq<DisplayEvent>) -> nat
    decreases events.len(),
{
    if events.len() == 0 {
        0
    } else {
        times_moved(events.drop_last()) + (if events.last() is Scrolled {
            1nat
        } else {
            0nat
        })
    }
}

/// Until another command comes, a text stands where its moves have brought it, however often its
/// places were lit in between.
pub proof fn moves_tell_the_window(text: Text, ticks: u64, events: Seq<DisplayEvent>)
    requires
        text@.len() > 0,
        forall|i: int| 0 <= i < events.len() ==> !(#[trigger] events[i] is Received),
    ensures
        ({
            let state = DisplayState::begin(SevenSegmentCommand::Buffer(text, ticks)).after_all(
                events,
            );
            &&& state.command == SevenSegmentCommand::Buffer(text, ticks)
            &&& state.start == times_moved(events) as int % windows(text@.len() as int)
            &&& 0 <= state.start + state.active < text@.len()
            &&& state.drive() == Some(text_drive(text@, state.start, state.active))
        }),
    decreases events.len(),
{
    let count = windows(text@.len() as int);
    let begin = DisplayState::begin(SevenSegmentCommand::Buffer(text, ticks));
    if events.len() > 0 {
        moves_tell_the_window(text, ticks, events.drop_last());
        next_window(times_moved(events.drop_last()) as int, count);
        assert(!(events[events.len() - 1] is Received));
    } else {
        small_window(0, count);
    }
    vstd::arithmetic::div_mod::lemma_mod_bound(times_moved(events) as int, count);
    case_run(text, text, ticks, events);
}

/// The text moves on after as many timer ticks and not otherwise, and each place stays lit for a
/// millisecond.
pub open spec fn text_goes_on(state: DisplayState, ticks: u64) -> bool {
    &&& state.scroll() == Some(ticks)
    &&& state.accepts(DisplayEvent::Scrolled)
    &&& state.accepts(DisplayEvent::Refreshed)
    &&& state.dwell() == Dwell::Millis(1)
}

/// All along the way of a text through so many moves and then so many places, what happens next
/// is due: the move after the ticks of the command, the next place after a millisecond.
pub open spec fn moves_are_due(text: Text, ticks: u64, moves: nat, sweeps: nat) -> bool {
    let begin = DisplayState::begin(SevenSegmentCommand::Buffer(text, ticks));
    &&& forall|m: nat| m <= moves ==> text_goes_on(#[trigger] begin.scrolled(m), ticks)
    &&& forall|n: nat|
        n <= sweeps ==> text_goes_on(#[trigger] begin.scrolled(moves).refreshed(n), ticks)
}

/// Every byte of a text is shown in every round that the text makes through the display: after a
/// number of moves within that round, and some places further on in the sweep.
pub proof fn every_byte_is_shown(text: Text, ticks: u64, i: int, round: nat)
    requires
        0 <= i < text@.len(),
    ensures
        exists|moves: nat, sweeps: nat|
            #![trigger DisplayState::begin(SevenSegmentCommand::Buffer(text, ticks)).scrolled(moves).refreshed(sweeps)]
            {
                let state = DisplayState::begin(SevenSegmentCommand::Buffer(text, ticks)).scrolled(
                    moves,
                ).refreshed(sweeps);
                &&& moves as int / windows(text@.len() as int) == round
                &&& state.well_formed()
                &&& state.start + state.active == i
                &&& state.drive() == Some(text_drive(text@, state.start, i - state.start))
                &&& state.drive() matches Some(word) && word.value == letter_glyph(text@[i])
                &&& moves_are_due(text, ticks, moves, sweeps)
            },
{
    let len = text@.len() as int;
    let within = if i <= last_start(len) {
        i
    } else {
        last_start(len)
    };
    let moves = (round * windows(len) + within) as nat;
    assert(0 <= round * windows(len)) by (nonlinear_arith)
        requires
            0 <= round,
            0 < windows(len),
    ;
    vstd::arithmetic::div_mod::lemma_fundamental_div_mod_converse(
        moves as int,
        windows(len),
        round as int,
        within,
    );
    let moved = DisplayState::begin(SevenSegmentCommand::Buffer(text, ticks)).scrolled(moves);
    text_moves_round(text, ticks, moves);
    let sweeps = (moved.active - (i - within)) as nat;
    sweep_lights_each_place(moved, sweeps);
    assert(moved.refreshed(sweeps).drive() == Some(text_drive(text@, within, i - within)));
    assert(moves_are_due(text, ticks, moves, sweeps)) by {
        assert forall|m: nat| m <= moves implies text_goes_on(
            #[trigger] DisplayState::begin(SevenSegmentCommand::Buffer(text, ticks)).scrolled(m),
            ticks,
        ) by {
            text_moves_round(text, ticks, m);
        }
        assert forall|n: nat| n <= sweeps implies text_goes_on(
            #[trigger] moved.refreshed(n),
            ticks,
        ) by {
            sweep_lights_each_place(moved, n);
        }
    }
}

/// Whatever happens to it, a text with anything to show goes on until another command comes,
/// however long it is: it moves on after the ticks that came with it, again and again.
pub proof fn text_never_stops(text: Text, ticks: u64, events: Seq<DisplayEvent>)
    requires
        text@.len() > 0,
        forall|i: int| 0 <= i < events.len() ==> !(#[trigger] events[i] is Received),
    ensures
        text_goes_on(
            DisplayState::begin(SevenSegmentCommand::Buffer(text, ticks)).after_all(events),
            ticks,
        ),
{
    moves_tell_the_window(text, ticks, events);
}

/// What goes on by itself: a text with anything to show moves on after its own ticks, numbers and
/// texts have each place lit for a millisecond, a cleared display is cleared again at once, and an
/// empty text holds the display for ever.
pub proof fn commands_take_their_time(state: DisplayState)
    ensures
        state.command matches SevenSegmentCommand::Number(_, _) ==> state.scroll() == None::<u64>
            && state.dwell() == Dwell::Millis(1),
        state.command matches SevenSegmentCommand::Buffer(text, ticks) ==> (text@.len() >= 1
            ==> state.scroll() == Some(ticks) && state.dwell() == Dwell::Millis(1)) && (text@.len()
            < 1 ==> state.scroll() == None::<u64> && state.dwell() == Dwell::Endless),
        state.command matches SevenSegmentCommand::Clear ==> state.scroll() == None::<u64>
            && state.dwell() == Dwell::AtOnce,
        state.accepts(DisplayEvent::Scrolled) <==> state.scroll() is Some,
        state.accepts(DisplayEvent::Refreshed) <==> state.dwell() != Dwell::Endless,
        forall|command: SevenSegmentCommand|
            #[trigger] state.accepts(DisplayEvent::Received(command)),
{
}

/// How many places a text of `len` bytes takes.
pub open spec fn places_taken(len: nat) -> int {
    if len < 4 {
        len as int
    } else {
        4
    }
}

/// A command begins with its rightmost place: the fourth for a number, the last that it takes for
/// a text; and a text begins with its first bytes.
pub proof fn commands_begin_at_the_right(before: DisplayState, command: SevenSegmentCommand)
    ensures
        ({
            let state = before.after(DisplayEvent::Received(command));
            &&& state == DisplayState::begin(command)
            &&& state.command == command
            &&& state.start == 0
            &&& state.well_formed()
            &&& command is Number ==> state.active == 3
            &&& command matches SevenSegmentCommand::Buffer(text, _) ==> (text@.len() > 0
                ==> state.active == places_taken(text@.len()) - 1)
        }),
{
}

/// A text that moves on is shown one byte further, or from its beginning if its last byte was
/// shown, and its sweep begins again.
pub proof fn moves_go_one_byte_on(state: DisplayState)
    requires
        state.well_formed(),
        state.command matches SevenSegmentCommand::Buffer(text, _) && text@.len() > 0,
    ensures
        ({
            let text = state.command->Buffer_0;
            let taken = places_taken(text@.len());
            let next = state.after(DisplayEvent::Scrolled);
            &&& 0 <= state.start
            &&& 0 <= state.active < taken
            &&& state.start + taken <= text@.len()
            &&& state.start + taken < text@.len() ==> next.start == state.start + 1
            &&& state.start + taken == text@.len() ==> next.start == 0
            &&& next.active == taken - 1
            &&& next.command == state.command
        }),
{
}

/// The next place to be lit is the one to the left, or the rightmost again after the leftmost.
/// Nothing else changes.
pub proof fn sweeps_go_to_the_left(state: DisplayState)
    requires
        state.well_formed(),
        !(state.command is Clear),
        state.command matches SevenSegmentCommand::Buffer(text, _) ==> text@.len() > 0,
    ensures
        ({
            let next = state.after(DisplayEvent::Refreshed);
            &&& next.command == state.command
            &&& next.start == state.start
            &&& state.active > 0 ==> next.active == state.active - 1
            &&& state.active == 0 ==> next.active == (match state.command {
                SevenSegmentCommand::Buffer(text, _) => places_taken(text@.len()) - 1,
                _ => 3,
            })
        }),
{
}

/// A cleared display stays as it is: no place is selected, and no segment is lit.
pub proof fn cleared_display_stays_dark(state: DisplayState)
    requires
        state.well_formed(),
        state.command is Clear,
    ensures
        state.drive() == Some(Drive { segment: 240, value: 255 }),
        state.after(DisplayEvent::Refreshed) == state,
{
}

/// A state is one that the display can get into exactly if the lit place is one that the command
/// takes, and what a text shows lies within it.
pub proof fn states_are_within_bounds(state: DisplayState)
    ensures
        state.well_formed() <==> match state.command {
            SevenSegmentCommand::Number(_, _) => 0 <= state.active < 4 && state.start == 0,
            SevenSegmentCommand::Buffer(text, _) => if text@.len() > 0 {
                &&& 0 <= state.active < places_taken(text@.len())
                &&& 0 <= state.start
                &&& state.start + places_taken(text@.len()) <= text@.len()
            } else {
                state.active == 0 && state.start == 0
            },
            SevenSegmentCommand::Clear => state.active == 0 && state.start == 0,
        },
{
}

/// The bit that selects a place, counted from the left.
pub open spec fn place_bit(place: int) -> int {
    if place == 0 {
        1
    } else if place == 1 {
        2
    } else if place == 2 {
        4
    } else {
        8
    }
}

/// A place of a number shows the digit that stands there when the number is written with its ones
/// at the right, and the point if it is that digit's.
pub proof fn places_show_decimal_digits(state: DisplayState, number: usize, point: Option<u8>)
    requires
        state.command == SevenSegmentCommand::Number(number, point),
        0 <= state.active < 4,
    ensures
        ({
            let shift = if state.active == 3 {
                1int
            } else if state.active == 2 {
                10int
            } else if state.active == 1 {
                100int
            } else {
                1000int
            };
            let pointed = point matches Some(p) && p + state.active == 3;
            &&& state.drive() matches Some(word)
            &&& word.segment == 240 + place_bit(state.active)
            &&& word.value == SEGMENT_MAP_DIGIT@[number as int / shift % 10] - (if pointed {
                128int
            } else {
                0int
            })
        }),
{
    let digit = digit_at(number as int, 3 - state.active);
    four_digits(number as int);
    digits_follow_their_value(digit);
    places_are_selected_by_bit(state.active);
}

/// A place of a text shows the byte that lies as far into the text as the text has moved and the
/// place is from the left. An empty text lights nothing.
pub proof fn places_show_bytes(state: DisplayState, text: Text, ticks: u64)
    requires
        state.command == SevenSegmentCommand::Buffer(text, ticks),
        0 <= state.active < 4,
    ensures
        text@.len() > 0 ==> (state.drive() matches Some(word) && word.segment == 240 + place_bit(
            state.active,
        ) && word.value == letter_glyph(text@[state.start + state.active])),
        text@.len() == 0 ==> state.drive() is None,
{
    places_are_selected_by_bit(state.active);
}

/// What a reader sees of a text after any number of moves, at each place that it takes: the bytes
/// from where it stands on, left to right. It stands as many bytes on as it has moved, counted
/// round the windows that it has.
pub proof fn windows_show_the_text(
    before: DisplayState,
    text: Text,
    ticks: u64,
    moves: nat,
    place: int,
)
    requires
        0 <= place < places_taken(text@.len()),
    ensures
        ({
            let taken = places_taken(text@.len());
            let start = moves as int % (text@.len() - taken + 1);
            let begin = before.after(
                DisplayEvent::Received(SevenSegmentCommand::Buffer(text, ticks)),
            );
            &&& begin.scrolled(moves).refreshed((taken - 1 - place) as nat).drive() matches Some(
                word,
            )
            &&& word.segment == 240 + place_bit(place)
            &&& word.value == letter_glyph(text@[start + place])
            &&& begin.scrolled(moves).refreshed(taken as nat) == begin.scrolled(moves)
        }),
{
    let moved = DisplayState::begin(SevenSegmentCommand::Buffer(text, ticks)).scrolled(moves);
    text_moves_round(text, ticks, moves);
    let sweeps = (places_taken(text@.len()) - 1 - place) as nat;
    sweep_lights_each_place(moved, sweeps);
    places_show_bytes(moved.refreshed(sweeps), text, ticks);
}

} // verus!
