use segment_clock::command::SevenSegmentCommand;
use segment_clock::display::{Display, DisplayEvent, Drive, Dwell};
use segment_clock::glyph::letter_segments;
use segment_clock::text::Text;

fn showing(command: SevenSegmentCommand) -> Display {
    let mut display = Display::new();
    display.step(DisplayEvent::Received(command));
    display
}

fn text(bytes: &[u8]) -> SevenSegmentCommand {
    SevenSegmentCommand::Buffer(Text::from_slice(bytes).unwrap(), 600_000)
}

fn sweep(display: &mut Display, places: usize) -> Vec<(u8, u8)> {
    let mut drives = Vec::new();
    for _ in 0..places {
        let drive = display.drive().unwrap();
        drives.push((drive.segment, drive.value));
        display.step(DisplayEvent::Refreshed);
    }
    drives
}

#[test]
fn cleared_display_is_dark() {
    let mut display = Display::new();
    assert_eq!(display.drive(), Some(Drive { segment: 0xf0, value: 0xff }));
    assert_eq!(display.dwell(), Dwell::AtOnce);
    assert_eq!(display.scroll_ticks(), None);
    assert!(!display.expects(&DisplayEvent::Scrolled));
    assert!(display.expects(&DisplayEvent::Refreshed));
    display.step(DisplayEvent::Refreshed);
    assert_eq!(display, Display::new());
}

#[test]
fn number_is_swept_from_the_right() {
    let mut display = showing(SevenSegmentCommand::Number(1234, Some(2)));
    assert_eq!(display.dwell(), Dwell::Millis(1));
    assert_eq!(display.scroll_ticks(), None);
    let expected = vec![(0xf8, 0x99), (0xf4, 0xB0), (0xf2, 0x24), (0xf1, 0xF9)];
    assert_eq!(sweep(&mut display, 4), expected);
    assert_eq!(sweep(&mut display, 4), expected);
}

#[test]
fn point_can_stand_anywhere_or_nowhere() {
    let mut last = showing(SevenSegmentCommand::Number(0, Some(0)));
    assert_eq!(sweep(&mut last, 4), vec![(0xf8, 0x40), (0xf4, 0xC0), (0xf2, 0xC0), (0xf1, 0xC0)]);
    let mut first = showing(SevenSegmentCommand::Number(0, Some(3)));
    assert_eq!(sweep(&mut first, 4), vec![(0xf8, 0xC0), (0xf4, 0xC0), (0xf2, 0xC0), (0xf1, 0x40)]);
    let mut beyond = showing(SevenSegmentCommand::Number(0, Some(4)));
    let mut none = showing(SevenSegmentCommand::Number(0, None));
    assert_eq!(sweep(&mut beyond, 4), sweep(&mut none, 4));
}

#[test]
fn last_four_digits_are_shown() {
    let mut long = showing(SevenSegmentCommand::Number(98_705, None));
    let mut short = showing(SevenSegmentCommand::Number(8_705, None));
    let mut other = showing(SevenSegmentCommand::Number(8_706, None));
    let shown = sweep(&mut long, 4);
    assert_eq!(shown, sweep(&mut short, 4));
    assert_ne!(shown, sweep(&mut other, 4));
    assert_eq!(shown, vec![(0xf8, 0x92), (0xf4, 0xC0), (0xf2, 0xF8), (0xf1, 0x80)]);
}

#[test]
fn new_command_starts_over() {
    let mut display = showing(SevenSegmentCommand::Number(1234, None));
    display.step(DisplayEvent::Refreshed);
    display.step(DisplayEvent::Received(SevenSegmentCommand::Number(5678, None)));
    assert_eq!(display, showing(SevenSegmentCommand::Number(5678, None)));
}

#[test]
fn short_text_uses_the_left_places() {
    let mut display = showing(text(b"a1"));
    assert_eq!(display.dwell(), Dwell::Millis(1));
    assert_eq!(display.scroll_ticks(), Some(600_000));
    let expected = vec![(0xf2, 0xF9), (0xf1, 136)];
    assert_eq!(sweep(&mut display, 2), expected);
    display.step(DisplayEvent::Scrolled);
    assert_eq!(sweep(&mut display, 2), expected);
}

#[test]
fn long_text_moves_and_comes_back() {
    let bytes = b"hello-1";
    let mut display = showing(text(bytes));
    for start in [0, 1, 2, 3, 0, 1] {
        let expected: Vec<(u8, u8)> = vec![
            (0xf8, letter_segments(bytes[start + 3])),
            (0xf4, letter_segments(bytes[start + 2])),
            (0xf2, letter_segments(bytes[start + 1])),
            (0xf1, letter_segments(bytes[start])),
        ];
        assert_eq!(sweep(&mut display, 4), expected);
        display.step(DisplayEvent::Refreshed);
        display.step(DisplayEvent::Scrolled);
    }
}

#[test]
fn text_of_four_stands_still() {
    let mut display = showing(text(b"stop"));
    let before = sweep(&mut display, 4);
    display.step(DisplayEvent::Scrolled);
    assert_eq!(sweep(&mut display, 4), before);
}

#[test]
fn empty_text_is_swept_for_ever() {
    let mut display = showing(text(b""));
    assert_eq!(display.drive(), None);
    assert_eq!(display.dwell(), Dwell::Endless);
    assert_eq!(display.scroll_ticks(), None);
    assert!(!display.expects(&DisplayEvent::Refreshed));
    assert!(!display.expects(&DisplayEvent::Scrolled));
    let command = DisplayEvent::Received(SevenSegmentCommand::Number(7, None));
    assert!(display.expects(&command));
    display.step(command);
    assert_eq!(display, showing(SevenSegmentCommand::Number(7, None)));
}

#[test]
fn scroll_is_counted_from_the_last_window() {
    assert!(DisplayEvent::Received(SevenSegmentCommand::Clear).restarts_scroll());
    assert!(DisplayEvent::Scrolled.restarts_scroll());
    assert!(!DisplayEvent::Refreshed.restarts_scroll());
}

#[test]
fn point_changes_one_word_of_a_sweep() {
    for number in [0, 7, 1234, 9999, 56_789] {
        let plain = sweep(&mut showing(SevenSegmentCommand::Number(number, None)), 4);
        for place in 0..6u8 {
            let point = Some(place);
            let pointed = sweep(&mut showing(SevenSegmentCommand::Number(number, point)), 4);
            let mut expected = plain.clone();
            if place < 4 {
                expected[place as usize].1 &= 0x7f;
            }
            assert_eq!(pointed, expected);
        }
        assert!(plain.iter().all(|word| word.1 & 0x80 == 0x80));
    }
}

#[test]
fn padded_digits_show_the_number() {
    for number in [0usize, 7, 42, 305, 1234, 9999] {
        let digits = format!("{:04}", number);
        let mut words = showing(text(digits.as_bytes()));
        let mut number = showing(SevenSegmentCommand::Number(number, None));
        assert_eq!(sweep(&mut words, 4), sweep(&mut number, 4));
    }
}

#[test]
fn case_shows_in_no_window() {
    let mut lower = showing(text(b"hello_2 world"));
    let mut upper = showing(text(b"HeLLO_2 WORLD"));
    for _ in 0..12 {
        assert_eq!(sweep(&mut lower, 4), sweep(&mut upper, 4));
        lower.step(DisplayEvent::Scrolled);
        upper.step(DisplayEvent::Scrolled);
    }
}

#[test]
fn moves_count_the_window() {
    for len in [1usize, 3, 4, 5, 9, 64] {
        let bytes: Vec<u8> = (0..len).map(|i| b'a' + (i % 26) as u8).collect();
        let windows = len.max(4) - 3;
        let mut display = showing(text(&bytes));
        for moves in 0..200 {
            let start = moves % windows;
            let places = len.min(4);
            let expected: Vec<u8> = bytes[start..start + places]
                .iter()
                .rev()
                .map(|b| letter_segments(*b))
                .collect();
            let shown: Vec<u8> = sweep(&mut display, places).iter().map(|word| word.1).collect();
            assert_eq!(shown, expected);
            display.step(DisplayEvent::Scrolled);
        }
    }
}

#[test]
fn longest_text_shows_every_byte() {
    let bytes: Vec<u8> = (0..64u8).map(|i| b'0' + i % 10).collect();
    let mut display = showing(text(&bytes));
    let mut first = Vec::new();
    for _ in 0..61 {
        let drives = sweep(&mut display, 4);
        first.push(drives[3].1);
        if first.len() == 61 {
            first.extend([drives[2].1, drives[1].1, drives[0].1]);
        }
        display.step(DisplayEvent::Scrolled);
    }
    let expected: Vec<u8> = bytes.iter().map(|b| letter_segments(*b)).collect();
    assert_eq!(first, expected);
    assert_eq!(display, showing(text(&bytes)));
}
