use embassy_stm32::rtc::DayOfWeek;
use segment_clock::text::{Text, TEXT_CAPACITY};
use segment_clock::time::DateTime;

#[test]
fn texts_hold_their_bytes() {
    let text = Text::from_slice(b"abc").unwrap();
    assert_eq!(text.len(), 3);
    assert_eq!((text.byte(0), text.byte(1), text.byte(2)), (b'a', b'b', b'c'));
    assert_eq!(Text::from_slice(b"").unwrap().len(), 0);
}

#[test]
fn texts_are_bounded() {
    let bytes = [7u8; TEXT_CAPACITY + 1];
    assert_eq!(Text::from_slice(&bytes[..TEXT_CAPACITY]).unwrap().len(), 64);
    assert!(Text::from_slice(&bytes).is_none());
}

#[test]
fn fields_are_kept() {
    let time = DateTime::new(2025, 11, 30, DayOfWeek::Sunday, 23, 58, 57, 999_999).unwrap();
    assert_eq!((time.year, time.month, time.day), (2025, 11, 30));
    assert_eq!(time.day_of_week, DayOfWeek::Sunday);
    assert_eq!((time.hour, time.minute, time.second), (23, 58, 57));
    assert_eq!(time.microsecond, 999_999);
    assert!(time.is_valid());
}

#[test]
fn fields_have_ranges() {
    let day = DayOfWeek::Monday;
    assert!(DateTime::new(0, 1, 1, day, 0, 0, 0, 0).is_some());
    assert!(DateTime::new(4095, 12, 31, day, 23, 59, 59, 999_999).is_some());
    assert!(DateTime::new(2025, 2, 31, day, 0, 0, 0, 0).is_some());
    assert!(DateTime::new(4096, 1, 1, day, 0, 0, 0, 0).is_none());
    assert!(DateTime::new(2025, 0, 1, day, 0, 0, 0, 0).is_none());
    assert!(DateTime::new(2025, 13, 1, day, 0, 0, 0, 0).is_none());
    assert!(DateTime::new(2025, 1, 0, day, 0, 0, 0, 0).is_none());
    assert!(DateTime::new(2025, 1, 32, day, 0, 0, 0, 0).is_none());
    assert!(DateTime::new(2025, 1, 1, day, 24, 0, 0, 0).is_none());
    assert!(DateTime::new(2025, 1, 1, day, 0, 60, 0, 0).is_none());
    assert!(DateTime::new(2025, 1, 1, day, 0, 0, 60, 0).is_none());
    assert!(DateTime::new(2025, 1, 1, day, 0, 0, 0, 1_000_000).is_none());
}

#[test]
fn invalid_times_are_told() {
    let time = DateTime::new(2025, 1, 1, DayOfWeek::Monday, 0, 0, 0, 0).unwrap();
    assert!(!DateTime { hour: 24, ..time }.is_valid());
}
