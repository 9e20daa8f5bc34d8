//! Which segments to light for a digit or a letter, and how to select a place of the display.
//!
//! A segment is lit by a zero bit; the highest bit is the point.

use vstd::prelude::*;

verus! {

/// The segments of the digits 0 to 9.
pub const SEGMENT_MAP_DIGIT: [u8; 10] = [
    0xC0, 0xF9, 0xA4, 0xB0, 0x99, 0x92, 0x82, 0xF8, 0x80, 0x90,
];

/// The segments of the letters A to Z, then of the digits 0 to 9.
pub const SEGMENT_MAP_ALPHA: [u8; 36] = [
    136, 131, 167, 161, 134, 142, 144, 139, 207, 241, 182, 199, 182, 171, 163, 140, 152, 175, 146,
    135, 227, 182, 182, 182, 145, 182, 0xC0, 0xF9, 0xA4, 0xB0, 0x99, 0x92, 0x82, 0xF8, 0x80, 0x90,
];

/// The codes that select the four places, left to right.
pub const SEVEN_SEGMENT: [u8; 4] = [0xf1, 0xf2, 0xf4, 0xf8];

/// The bit of the point.
pub const POINT: u8 = 0x80;

/// The code that selects no place.
pub const NO_PLACE: u8 = 0xf0;

/// No segment lit.
pub const DARK: u8 = 0xff;

/// The segments of a digit, with the point flipped where it is wanted.
pub open spec fn digit_glyph(digit: int, point: bool) -> u8 {
    SEGMENT_MAP_DIGIT@[digit] ^ (if point { POINT } else { 0u8 })
}

/// The segments of a byte of a text. Letters show alike in both cases; what has no picture is
/// dark.
pub open spec fn letter_glyph(letter: u8) -> u8 {
    if 'a' as u8 <= letter <= 'z' as u8 {
        SEGMENT_MAP_ALPHA@[letter - 'a' as u8]
    } else if 'A' as u8 <= letter <= 'Z' as u8 {
        SEGMENT_MAP_ALPHA@[letter - 'A' as u8]
    } else if '0' as u8 <= letter <= '9' as u8 {
        SEGMENT_MAP_ALPHA@[26 + (letter - '0' as u8)]
    } else if letter == '.' as u8 {
        0x7f
    } else if letter == '-' as u8 {
        0xbf
    } else if letter == '_' as u8 {
        0xf7
    } else {
        DARK
    }
}

/// The segments of a digit.
pub fn digit_segments(digit: usize, point: bool) -> (r: u8)
    requires
        digit < 10,
    ensures
        r == digit_glyph(digit as int, point),
{
    SEGMENT_MAP_DIGIT[digit] ^ if point {
        POINT
    } else {
        0
    }
}

/// The segments of a byte of a text.
pub fn letter_segments(letter: u8) -> (r: u8)
    ensures
        r == letter_glyph(letter),
{
    if letter >= 'a' as u8 && letter <= 'z' as u8 {
        SEGMENT_MAP_ALPHA[(letter - 'a' as u8) as usize]
    } else if letter >= 'A' as u8 && letter <= 'Z' as u8 {
        SEGMENT_MAP_ALPHA[(letter - 'A' as u8) as usize]
    } else if letter >= '0' as u8 && letter <= '9' as u8 {
        SEGMENT_MAP_ALPHA[26 + (letter - '0' as u8) as usize]
    } else if letter == '.' as u8 {
        0x7f
    } else if letter == '-' as u8 {
        0xbf
    } else if letter == '_' as u8 {
        0xf7
    } else {
        DARK
    }
}

/// A letter shows the same in upper and lower case.
pub proof fn case_does_not_show(position: u8)
    requires
        position < 26,
    ensures
        letter_glyph(('a' as u8 + position) as u8) == letter_glyph(('A' as u8 + position) as u8),
{
}

/// A digit in a text shows as it does in a number without a point.
pub proof fn digits_show_alike(digit: u8)
    requires
        digit < 10,
    ensures
        letter_glyph(('0' as u8 + digit) as u8) == digit_glyph(digit as int, false),
{
    let plain = SEGMENT_MAP_DIGIT@[digit as int];
    assert(plain ^ 0u8 == plain) by (bit_vector);
}

/// Different digits show differently, and a digit with its point shows like no digit without.
pub proof fn digits_are_told_apart(digit: int, point: bool, other: int, other_point: bool)
    requires
        0 <= digit < 10,
        0 <= other < 10,
    ensures
        digit_glyph(digit, point) == digit_glyph(other, other_point) <==> digit == other && point
            == other_point,
{
    point_bit(digit, point);
    point_bit(other, other_point);
}

/// No digit's own picture uses the point: its bit stays dark until the point is wanted, and
/// wanting it lights that bit and no other.
pub proof fn point_bit(digit: int, point: bool)
    requires
        0 <= digit < 10,
    ensures
        SEGMENT_MAP_DIGIT@[digit] >= POINT,
        digit_glyph(digit, point) == SEGMENT_MAP_DIGIT@[digit] - (if point { POINT as int } else { 0 }),
{
    let plain = SEGMENT_MAP_DIGIT@[digit];
    assert(plain ^ 0u8 == plain) by (bit_vector);
    assert(plain >= 0x80 ==> plain ^ 0x80u8 == plain - 0x80) by (bit_vector);
}

/// The code of a place has one bit of its own: no two places share a selecting bit.
pub proof fn places_are_told_apart(place: int, other: int)
    requires
        0 <= place < 4,
        0 <= other < 4,
        place != other,
    ensures
        SEVEN_SEGMENT@[place] & SEVEN_SEGMENT@[other] == NO_PLACE,
        SEVEN_SEGMENT@[place] != NO_PLACE,
{
    assert(0xf1u8 & 0xf2 == 0xf0 && 0xf1u8 & 0xf4 == 0xf0 && 0xf1u8 & 0xf8 == 0xf0 && 0xf2u8 & 0xf1
        == 0xf0 && 0xf2u8 & 0xf4 == 0xf0 && 0xf2u8 & 0xf8 == 0xf0 && 0xf4u8 & 0xf1 == 0xf0 && 0xf4u8
        & 0xf2 == 0xf0 && 0xf4u8 & 0xf8 == 0xf0 && 0xf8u8 & 0xf1 == 0xf0 && 0xf8u8 & 0xf2 == 0xf0
        && 0xf8u8 & 0xf4 == 0xf0) by (bit_vector);
}

/// Every letter, in either case, is drawn by the picture at its position in the alphabet.
pub proof fn letters_follow_the_alphabet(position: int)
    requires
        0 <= position < 26,
    ensures
        letter_glyph((97 + position) as u8) == SEGMENT_MAP_ALPHA@[position],
        letter_glyph((65 + position) as u8) == SEGMENT_MAP_ALPHA@[position],
{
}

/// Every digit in a text is drawn by the picture at its value.
pub proof fn digits_follow_their_value(digit: int)
    requires
        0 <= digit < 10,
    ensures
        letter_glyph((48 + digit) as u8) == SEGMENT_MAP_DIGIT@[digit],
        SEGMENT_MAP_ALPHA@[26 + digit] == SEGMENT_MAP_DIGIT@[digit],
        digit_glyph(digit, false) == SEGMENT_MAP_DIGIT@[digit],
        digit_glyph(digit, true) == SEGMENT_MAP_DIGIT@[digit] - 128,
{
    digits_show_alike(digit as u8);
    point_bit(digit, false);
    point_bit(digit, true);
}

/// Of all that is neither letter nor digit, the full stop lights the point alone, the hyphen the
/// middle stroke alone and the underscore the bottom stroke alone; the rest stays dark.
pub proof fn signs_light_one_stroke(byte: u8)
    requires
        !(97 <= byte <= 122),
        !(65 <= byte <= 90),
        !(48 <= byte <= 57),
    ensures
        letter_glyph(byte) == 255 - (if byte == 46 {
            128int
        } else if byte == 45 {
            64int
        } else if byte == 95 {
            8int
        } else {
            0int
        }),
{
}

/// The stroke of a weight is lit: its bit is zero.
pub open spec fn lit(glyph: u8, weight: int) -> bool {
    glyph as int / weight % 2 == 0
}

/// The digits are drawn with the strokes that a reader expects: top, upper right, lower right,
/// bottom, lower left, upper left and middle, and no point.
pub proof fn digits_are_drawn_by_strokes(digit: int)
    requires
        0 <= digit < 10,
    ensures
        ({
            let glyph = SEGMENT_MAP_DIGIT@[digit];
            &&& lit(glyph, 1) <==> digit != 1 && digit != 4
            &&& lit(glyph, 2) <==> digit != 5 && digit != 6
            &&& lit(glyph, 4) <==> digit != 2
            &&& lit(glyph, 8) <==> digit != 1 && digit != 4 && digit != 7
            &&& lit(glyph, 16) <==> digit == 0 || digit == 2 || digit == 6 || digit == 8
            &&& lit(glyph, 32) <==> digit != 1 && digit != 2 && digit != 3 && digit != 7
            &&& lit(glyph, 64) <==> digit != 0 && digit != 1 && digit != 7
            &&& !lit(glyph, 128)
        }),
{
    assert(digit == 0 || digit == 1 || digit == 2 || digit == 3 || digit == 4 || digit == 5 || digit
        == 6 || digit == 7 || digit == 8 || digit == 9);
}

/// The pictures of the letters, A to Z. None of them uses the point.
pub proof fn letter_pictures(position: int)
    requires
        0 <= position < 26,
    ensures
        SEGMENT_MAP_ALPHA@.take(26) == seq![
            136u8, 131, 167, 161, 134, 142, 144, 139, 207, 241, 182, 199, 182, 171, 163, 140, 152,
            175, 146, 135, 227, 182, 182, 182, 145, 182,
        ],
        !lit(SEGMENT_MAP_ALPHA@[position], 128),
{
    assert(SEGMENT_MAP_ALPHA@.take(26) =~= seq![
        136u8, 131, 167, 161, 134, 142, 144, 139, 207, 241, 182, 199, 182, 171, 163, 140, 152,
        175, 146, 135, 227, 182, 182, 182, 145, 182,
    ]);
    let glyph = SEGMENT_MAP_ALPHA@.take(26)[position];
    assert(glyph >= 128);
    assert(glyph as int / 128 == 1);
}

/// A place is selected by its own bit above the four bits that are always set, the leftmost place
/// by the lowest.
pub proof fn places_are_selected_by_bit(place: int)
    requires
        0 <= place < 4,
    ensures
        SEVEN_SEGMENT@[place] == 240 + (if place == 0 {
            1int
        } else if place == 1 {
            2int
        } else if place == 2 {
            4int
        } else {
            8int
        }),
{
}

} // verus!
