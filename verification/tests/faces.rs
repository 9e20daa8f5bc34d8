use segment_clock::function::Function;
use segment_clock::glyph::{digit_segments, letter_segments, SEGMENT_MAP_DIGIT, SEVEN_SEGMENT};

#[test]
fn faces_follow_each_other() {
    assert_eq!(Function::Clock.next(), Function::Date);
    assert_eq!(Function::Date.next(), Function::Alarm);
    assert_eq!(Function::Alarm.next(), Function::Clock);
    assert_eq!(Function::Display.next(), Function::Clock);
}

#[test]
fn three_presses_lead_back() {
    for function in [Function::Clock, Function::Date, Function::Alarm] {
        assert_eq!(function.next().next().next(), function);
    }
}

#[test]
fn digits_have_their_segments() {
    let expected: [u8; 10] = [0xC0, 0xF9, 0xA4, 0xB0, 0x99, 0x92, 0x82, 0xF8, 0x80, 0x90];
    for (digit, segments) in expected.iter().enumerate() {
        assert_eq!(digit_segments(digit, false), *segments);
        assert_eq!(digit_segments(digit, true), *segments - 0x80);
    }
}

#[test]
fn digits_and_points_differ() {
    let mut seen: Vec<u8> = Vec::new();
    for digit in 0..10 {
        for point in [false, true] {
            let segments = digit_segments(digit, point);
            assert!(!seen.contains(&segments));
            seen.push(segments);
        }
    }
}

#[test]
fn letters_have_their_segments() {
    assert_eq!(letter_segments(b'a'), 136);
    assert_eq!(letter_segments(b'b'), 131);
    assert_eq!(letter_segments(b'k'), 182);
    assert_eq!(letter_segments(b'o'), 163);
    assert_eq!(letter_segments(b'y'), 145);
    assert_eq!(letter_segments(b'z'), 182);
    assert_eq!(letter_segments(b'.'), 0x7f);
    assert_eq!(letter_segments(b'-'), 0xbf);
    assert_eq!(letter_segments(b'_'), 0xf7);
    for dark in [b' ', b'@', b'[', b'`', b'{', b'/', b':', 0, 255] {
        assert_eq!(letter_segments(dark), 0xff);
    }
}

#[test]
fn case_makes_no_difference() {
    for letter in b'a'..=b'z' {
        assert_eq!(letter_segments(letter), letter_segments(letter.to_ascii_uppercase()));
    }
}

#[test]
fn digits_look_alike_in_a_text() {
    for digit in 0..10u8 {
        assert_eq!(letter_segments(b'0' + digit), SEGMENT_MAP_DIGIT[digit as usize]);
    }
}

#[test]
fn places_share_no_bit() {
    for place in 0..4 {
        for other in 0..4 {
            if place != other {
                assert_eq!(SEVEN_SEGMENT[place] & SEVEN_SEGMENT[other], 0xf0);
            }
        }
    }
}
