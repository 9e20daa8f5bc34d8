//! Loading the display's driver: a chain of two shift registers behind three pins.

use vstd::prelude::*;

verus! {

/// The level of a pin.
#[derive(Copy, Clone, PartialEq, Eq, Structural, Debug)]
pub enum Level {
    Low,
    High,
}

/// One pin is set.
#[derive(Copy, Clone, PartialEq, Eq, Structural, Debug)]
pub enum PinAction {
    Latch(Level),
    Clock(Level),
    Data(Level),
}

/// The number of pin actions that load the driver.
pub const SHIFT_ACTIONS: usize = 50;

/// The level of a bit.
pub open spec fn bit_level(byte: u8, bit: u8) -> Level {
    if (byte >> bit) & 1 == 1 {
        Level::High
    } else {
        Level::Low
    }
}

/// The bits of a byte as levels, highest first.
pub open spec fn byte_levels(byte: u8) -> Seq<Level> {
    Seq::new(8, |i: int| bit_level(byte, (7 - i) as u8))
}

/// Each level is put on the data pin and clocked in.
pub open spec fn clocked(levels: Seq<Level>) -> Seq<PinAction>
    decreases levels.len(),
{
    if levels.len() == 0 {
        seq![]
    } else {
        clocked(levels.drop_last()) + seq![
            PinAction::Data(levels.last()),
            PinAction::Clock(Level::High),
            PinAction::Clock(Level::Low),
        ]
    }
}

/// The levels that go into the driver, in their order: the segments, then the place.
pub open spec fn driver_levels(segment: u8, value: u8) -> Seq<Level> {
    byte_levels(value) + byte_levels(segment)
}

/// The pin actions that load the driver: while the latch is low the levels are clocked in.
pub open spec fn shift_sequence(segment: u8, value: u8) -> Seq<PinAction> {
    seq![PinAction::Latch(Level::Low)] + clocked(driver_levels(segment, value)) + seq![
        PinAction::Latch(Level::High),
    ]
}

/// The level of a bit.
fn level_of(byte: u8, bit: u8) -> (r: Level)
    requires
        bit < 8,
    ensures
        r == bit_level(byte, bit),
{
    if (byte >> bit) & 1 == 1 {
        Level::High
    } else {
        Level::Low
    }
}

/// The pin actions that light the segments of `value` at the place that `segment` selects.
pub fn shift_out(segment: u8, value: u8) -> (r: [PinAction; SHIFT_ACTIONS])
    ensures
        r@ == shift_sequence(segment, value),
{
    let ghost levels = driver_levels(segment, value);
    let mut actions: [PinAction; SHIFT_ACTIONS] = [PinAction::Latch(Level::Low); SHIFT_ACTIONS];
    let mut i: usize = 0;
    assert(actions@.take(1) == seq![PinAction::Latch(Level::Low)] + clocked(levels.take(0)));
    while i < 16
        invariant
            i <= 16,
            actions@.len() == SHIFT_ACTIONS,
            levels == driver_levels(segment, value),
            actions@.take(1 + 3 * i) == seq![PinAction::Latch(Level::Low)] + clocked(
                levels.take(i as int),
            ),
        decreases 16 - i,
    {
        let level = if i < 8 {
            level_of(value, 7 - i as u8)
        } else {
            level_of(segment, 15 - i as u8)
        };
        let ghost before = actions@;
        actions[1 + 3 * i] = PinAction::Data(level);
        actions[2 + 3 * i] = PinAction::Clock(Level::High);
        actions[3 + 3 * i] = PinAction::Clock(Level::Low);
        proof {
            assert(level == levels[i as int]);
            assert(levels.take(i + 1).drop_last() == levels.take(i as int));
            assert(actions@.take(1 + 3 * (i + 1)) == before.take(1 + 3 * i) + seq![
                PinAction::Data(level),
                PinAction::Clock(Level::High),
                PinAction::Clock(Level::Low),
            ]);
        }
        i = i + 1;
    }
    let ghost before = actions@;
    actions[49] = PinAction::Latch(Level::High);
    proof {
        assert(levels.take(16) == levels);
        assert(actions@ == before.take(49) + seq![PinAction::Latch(Level::High)]);
    }
    actions
}

/// The driver: the levels of its pins, the levels that have been clocked in last, and those that
/// it puts out.
pub struct Driver {
    pub data: Level,
    pub clock: Level,
    pub latch: Level,
    pub shifted: Seq<Level>,
    pub output: Seq<Level>,
}

impl Driver {
    /// The driver has two registers of eight bits.
    pub open spec fn well_formed(self) -> bool {
        self.shifted.len() == 16
    }

    /// What the driver does when a pin is set: the data level moves in when the clock rises, and
    /// what has moved in is put out when the latch rises.
    pub open spec fn after(self, action: PinAction) -> Driver {
        match action {
            PinAction::Data(level) => Driver { data: level, ..self },
            PinAction::Clock(level) => Driver {
                clock: level,
                shifted: if self.clock == Level::Low && level == Level::High {
                    self.shifted.drop_first().push(self.data)
                } else {
                    self.shifted
                },
                ..self
            },
            PinAction::Latch(level) => Driver {
                latch: level,
                output: if self.latch == Level::Low && level == Level::High {
                    self.shifted
                } else {
                    self.output
                },
                ..self
            },
        }
    }

    /// What the driver does when pins are set one after the other.
    pub open spec fn after_all(self, actions: Seq<PinAction>) -> Driver
        decreases actions.len(),
    {
        if actions.len() == 0 {
            self
        } else {
            self.after_all(actions.drop_last()).after(actions.last())
        }
    }
}

/// Setting pins in two goes is setting them in one.
proof fn after_all_joined(driver: Driver, first: Seq<PinAction>, second: Seq<PinAction>)
    ensures
        driver.after_all(first + second) == driver.after_all(first).after_all(second),
    decreases second.len(),
{
    if second.len() == 0 {
        assert(first + second == first);
    } else {
        after_all_joined(driver, first, second.drop_last());
        assert((first + second).drop_last() == first + second.drop_last());
        assert((first + second).last() == second.last());
    }
}

/// Clocking levels in moves them into the registers, and leaves the latch and the output alone.
proof fn levels_move_in(driver: Driver, levels: Seq<Level>)
    requires
        driver.well_formed(),
        driver.clock == Level::Low,
    ensures
        ({
            let after = driver.after_all(clocked(levels));
            &&& after.well_formed()
            &&& after.clock == Level::Low
            &&& after.latch == driver.latch
            &&& after.output == driver.output
            &&& levels.len() <= 16 ==> after.shifted == driver.shifted.skip(levels.len() as int)
                + levels
        }),
    decreases levels.len(),
{
    if levels.len() == 0 {
        assert(driver.shifted.skip(0) + levels == driver.shifted);
    } else {
        let fewer = levels.drop_last();
        levels_move_in(driver, fewer);
        let mid = driver.after_all(clocked(fewer));
        let pulse = seq![
            PinAction::Data(levels.last()),
            PinAction::Clock(Level::High),
            PinAction::Clock(Level::Low),
        ];
        after_all_joined(driver, clocked(fewer), pulse);
        let data = mid.after(pulse[0]);
        let high = data.after(pulse[1]);
        assert(mid.after_all(pulse) == high.after(pulse[2])) by {
            assert(pulse.drop_last().drop_last().drop_last() =~= seq![]);
            assert(pulse.drop_last().drop_last().last() == pulse[0]);
            assert(pulse.drop_last().last() == pulse[1]);
            reveal_with_fuel(Driver::after_all, 4);
        }
        if levels.len() <= 16 {
            assert((driver.shifted.skip(fewer.len() as int) + fewer).drop_first().push(
                levels.last(),
            ) == driver.shifted.skip(levels.len() as int) + levels);
        }
    }
}

/// Whatever the driver held, it puts out the segments and the place once it has been loaded, and
/// its clock rests low, ready to be loaded again.
pub proof fn driver_is_loaded(driver: Driver, segment: u8, value: u8)
    requires
        driver.well_formed(),
        driver.clock == Level::Low,
    ensures
        ({
            let after = driver.after_all(shift_sequence(segment, value));
            &&& after.well_formed()
            &&& after.clock == Level::Low
            &&& after.output == byte_levels(value) + byte_levels(segment)
        }),
{
    let levels = driver_levels(segment, value);
    let start = seq![PinAction::Latch(Level::Low)];
    let end = seq![PinAction::Latch(Level::High)];
    let begun = driver.after(PinAction::Latch(Level::Low));
    assert(driver.after_all(start) == begun) by {
        assert(start.drop_last() =~= seq![]);
        reveal_with_fuel(Driver::after_all, 2);
    }
    levels_move_in(begun, levels);
    after_all_joined(driver, start, clocked(levels));
    after_all_joined(driver, start + clocked(levels), end);
    assert(begun.shifted.skip(16) + levels == levels);
    let full = begun.after_all(clocked(levels));
    assert(full.after_all(end) == full.after(PinAction::Latch(Level::High))) by {
        assert(end.drop_last() =~= seq![]);
        reveal_with_fuel(Driver::after_all, 2);
    }
}

/// The latch stays low and the output does not change before the last pin action: nothing is
/// shown half loaded.
pub proof fn output_holds_while_loading(driver: Driver, segment: u8, value: u8, n: int)
    requires
        0 <= n < shift_sequence(segment, value).len(),
    ensures
        driver.after_all(shift_sequence(segment, value).take(n)).output == driver.output,
        n > 0 ==> driver.after_all(shift_sequence(segment, value).take(n)).latch == Level::Low,
    decreases n,
{
    if n > 0 {
        output_holds_while_loading(driver, segment, value, n - 1);
        let all = shift_sequence(segment, value);
        assert(all.take(n).drop_last() == all.take(n - 1));
        assert(all.take(n).last() == all[n - 1]);
        if n > 1 {
            clocked_leaves_latch(driver_levels(segment, value), n - 2);
        }
    }
}

/// Clocking levels in never sets the latch.
proof fn clocked_leaves_latch(levels: Seq<Level>, i: int)
    requires
        0 <= i < clocked(levels).len(),
    ensures
        clocked(levels)[i] !is Latch,
    decreases levels.len(),
{
    if levels.len() > 0 {
        if i < clocked(levels.drop_last()).len() {
            clocked_leaves_latch(levels.drop_last(), i);
        }
    }
}

/// The pin actions stand in one pattern, whatever is loaded: the latch falls, sixteen levels are
/// put on the data pin and clocked in, and the latch rises. What is loaded shows in the levels on
/// the data pin and nowhere else.
pub proof fn pin_pattern_is_fixed(segment: u8, value: u8, other_segment: u8, other_value: u8)
    ensures
        ({
            let actions = shift_sequence(segment, value);
            let other = shift_sequence(other_segment, other_value);
            &&& actions.len() == SHIFT_ACTIONS
            &&& actions[0] == PinAction::Latch(Level::Low)
            &&& forall|i: int|
                #![trigger driver_levels(segment, value)[i]]
                0 <= i < 16 ==> {
                    &&& actions[1 + 3 * i] == PinAction::Data(driver_levels(segment, value)[i])
                    &&& actions[2 + 3 * i] == PinAction::Clock(Level::High)
                    &&& actions[3 + 3 * i] == PinAction::Clock(Level::Low)
                }
            &&& actions[49] == PinAction::Latch(Level::High)
            &&& other.len() == SHIFT_ACTIONS
            &&& forall|j: int|
                0 <= j < SHIFT_ACTIONS ==> #[trigger] actions[j] == other[j] || (actions[j] is Data
                    && other[j] is Data)
        }),
{
    let actions = shift_sequence(segment, value);
    let other = shift_sequence(other_segment, other_value);
    clocked_pattern(driver_levels(segment, value));
    clocked_pattern(driver_levels(other_segment, other_value));
    let clocks = clocked(driver_levels(segment, value));
    let other_clocks = clocked(driver_levels(other_segment, other_value));
    assert forall|i: int| 0 <= i < 16 implies {
        &&& actions[1 + 3 * i] == PinAction::Data(#[trigger] driver_levels(segment, value)[i])
        &&& actions[2 + 3 * i] == PinAction::Clock(Level::High)
        &&& actions[3 + 3 * i] == PinAction::Clock(Level::Low)
    } by {
        assert(clocks[3 * i] == actions[1 + 3 * i]);
        assert(clocks[3 * i + 1] == actions[2 + 3 * i]);
        assert(clocks[3 * i + 2] == actions[3 + 3 * i]);
    }
    assert forall|j: int| 0 <= j < SHIFT_ACTIONS implies #[trigger] actions[j] == other[j] || (
    actions[j] is Data && other[j] is Data) by {
        if 0 < j < 49 {
            let i = (j - 1) / 3;
            let level = driver_levels(segment, value)[i];
            let other_level = driver_levels(other_segment, other_value)[i];
            assert(actions[j] == clocks[j - 1]);
            assert(other[j] == other_clocks[j - 1]);
            assert(j - 1 == 3 * i || j - 1 == 3 * i + 1 || j - 1 == 3 * i + 2);
        }
    }
}

/// Each level takes three pin actions.
proof fn clocked_pattern(levels: Seq<Level>)
    ensures
        clocked(levels).len() == 3 * levels.len(),
        forall|i: int|
            #![trigger levels[i]]
            0 <= i < levels.len() ==> {
                &&& clocked(levels)[3 * i] == PinAction::Data(levels[i])
                &&& clocked(levels)[3 * i + 1] == PinAction::Clock(Level::High)
                &&& clocked(levels)[3 * i + 2] == PinAction::Clock(Level::Low)
            },
    decreases levels.len(),
{
    if levels.len() > 0 {
        let fewer = levels.drop_last();
        clocked_pattern(fewer);
        assert forall|i: int| 0 <= i < levels.len() implies {
            &&& clocked(levels)[3 * i] == PinAction::Data(#[trigger] levels[i])
            &&& clocked(levels)[3 * i + 1] == PinAction::Clock(Level::High)
            &&& clocked(levels)[3 * i + 2] == PinAction::Clock(Level::Low)
        } by {
            if i < fewer.len() {
                assert(fewer[i] == levels[i]);
            }
        }
    }
}

/// The levels that are on the data pin each time the clock rises.
pub open spec fn samples(driver: Driver, actions: Seq<PinAction>) -> Seq<Level>
    decreases actions.len(),
{
    if actions.len() == 0 {
        seq![]
    } else {
        let before = driver.after_all(actions.drop_last());
        let earlier = samples(driver, actions.drop_last());
        if actions.last() == PinAction::Clock(Level::High) && before.clock == Level::Low {
            earlier.push(before.data)
        } else {
            earlier
        }
    }
}

/// The number that levels stand for, highest first.
pub open spec fn levels_word(levels: Seq<Level>) -> int
    decreases levels.len(),
{
    if levels.len() == 0 {
        0
    } else {
        2 * levels_word(levels.drop_last()) + (if levels.last() == Level::High {
            1int
        } else {
            0int
        })
    }
}

/// Sampling pin actions in two goes is sampling them in one.
proof fn samples_joined(driver: Driver, first: Seq<PinAction>, second: Seq<PinAction>)
    ensures
        samples(driver, first + second) == samples(driver, first) + samples(
            driver.after_all(first),
            second,
        ),
    decreases second.len(),
{
    if second.len() == 0 {
        assert(first + second == first);
        assert(samples(driver, first) + seq![] == samples(driver, first));
    } else {
        let fewer = second.drop_last();
        samples_joined(driver, first, fewer);
        after_all_joined(driver, first, fewer);
        assert((first + second).drop_last() == first + fewer);
        assert((first + second).last() == second.last());
        assert(samples(driver, first + second) =~= samples(driver, first) + samples(
            driver.after_all(first),
            second,
        ));
    }
}

/// What is clocked in is what is sampled.
proof fn clocked_samples(driver: Driver, levels: Seq<Level>)
    requires
        driver.well_formed(),
        driver.clock == Level::Low,
    ensures
        samples(driver, clocked(levels)) == levels,
    decreases levels.len(),
{
    if levels.len() == 0 {
        assert(levels =~= seq![]);
    } else {
        let fewer = levels.drop_last();
        clocked_samples(driver, fewer);
        levels_move_in(driver, fewer);
        let mid = driver.after_all(clocked(fewer));
        let pulse = seq![
            PinAction::Data(levels.last()),
            PinAction::Clock(Level::High),
            PinAction::Clock(Level::Low),
        ];
        samples_joined(driver, clocked(fewer), pulse);
        assert(samples(mid, pulse) == seq![levels.last()]) by {
            assert(pulse.drop_last() =~= seq![pulse[0], pulse[1]]);
            assert(seq![pulse[0], pulse[1]].drop_last() =~= seq![pulse[0]]);
            assert(seq![pulse[0]].drop_last() =~= seq![]);
            reveal_with_fuel(Driver::after_all, 4);
            reveal_with_fuel(samples, 4);
            assert(samples(mid, pulse) =~= seq![levels.last()]);
        }
        assert(fewer + seq![levels.last()] == levels);
    }
}

/// The number of levels in a row is made of the numbers of its parts.
proof fn words_joined(high: Seq<Level>, low: Seq<Level>)
    requires
        low.len() == 8,
    ensures
        levels_word(high + low) == 256 * levels_word(high) + levels_word(low),
{
    words_joined_at(high, low, 8);
    assert(low.take(8) == low);
    reveal_with_fuel(weight, 9);
}

/// Two to the power of `n`.
spec fn weight(n: nat) -> int
    decreases n,
{
    if n == 0 {
        1
    } else {
        2 * weight((n - 1) as nat)
    }
}

proof fn words_joined_at(high: Seq<Level>, low: Seq<Level>, n: nat)
    requires
        n <= low.len(),
    ensures
        levels_word(high + low.take(n as int)) == weight(n) * levels_word(high) + levels_word(
            low.take(n as int),
        ),
    decreases n,
{
    let part = low.take(n as int);
    if n == 0 {
        assert(high + part == high);
    } else {
        let fewer = low.take(n - 1);
        words_joined_at(high, low, (n - 1) as nat);
        assert(part.drop_last() == fewer);
        assert((high + part).drop_last() == high + fewer);
        assert((high + part).last() == part.last());
        let (w, h) = (weight((n - 1) as nat), levels_word(high));
        assert(2 * (w * h) == (2 * w) * h) by (nonlinear_arith);
    }
}

/// The levels of a byte read back as that byte.
pub proof fn levels_read_back(byte: u8)
    ensures
        levels_word(byte_levels(byte)) == byte,
{
    assert(byte == 128 * ((byte >> 7u8) & 1) + 64 * ((byte >> 6u8) & 1) + 32 * ((byte >> 5u8) & 1)
        + 16 * ((byte >> 4u8) & 1) + 8 * ((byte >> 3u8) & 1) + 4 * ((byte >> 2u8) & 1) + 2 * ((byte
        >> 1u8) & 1) + ((byte >> 0u8) & 1)) by (bit_vector);
    assert forall|bit: u8| #[trigger] (byte >> bit) & 1 == 0 || (byte >> bit) & 1 == 1 by {
        let shifted = byte >> bit;
        assert(shifted & 1 == 0 || shifted & 1 == 1) by (bit_vector);
    }
    let levels = byte_levels(byte);
    assert(levels.take(8) == levels);
    assert forall|n: int| 0 < n <= 8 implies (#[trigger] levels.take(n)).drop_last() == levels.take(
        n - 1,
    ) && levels.take(n).last() == levels[n - 1] by {
    }
    assert(levels_word(levels.take(0)) == 0);
    assert(levels_word(levels.take(1)) == (byte >> 7u8) & 1);
    assert(levels_word(levels.take(2)) == 2 * levels_word(levels.take(1)) + ((byte >> 6u8) & 1));
    assert(levels_word(levels.take(3)) == 2 * levels_word(levels.take(2)) + ((byte >> 5u8) & 1));
    assert(levels_word(levels.take(4)) == 2 * levels_word(levels.take(3)) + ((byte >> 4u8) & 1));
    assert(levels_word(levels.take(5)) == 2 * levels_word(levels.take(4)) + ((byte >> 3u8) & 1));
    assert(levels_word(levels.take(6)) == 2 * levels_word(levels.take(5)) + ((byte >> 2u8) & 1));
    assert(levels_word(levels.take(7)) == 2 * levels_word(levels.take(6)) + ((byte >> 1u8) & 1));
    assert(levels_word(levels.take(8)) == 2 * levels_word(levels.take(7)) + ((byte >> 0u8) & 1));
}

/// While the driver is loaded the clock rises sixteen times, and what is on the data pin then reads
/// as one word: the segments in its upper byte, the place in its lower one.
pub proof fn loaded_word_reads_back(driver: Driver, segment: u8, value: u8)
    requires
        driver.well_formed(),
        driver.clock == Level::Low,
    ensures
        ({
            let sampled = samples(driver, shift_sequence(segment, value));
            &&& sampled == driver_levels(segment, value)
            &&& sampled.len() == 16
            &&& levels_word(sampled) == value * 256 + segment
            &&& levels_word(sampled) == ((value as u16) << 8u16 | segment as u16)
        }),
{
    let levels = driver_levels(segment, value);
    let start = seq![PinAction::Latch(Level::Low)];
    let end = seq![PinAction::Latch(Level::High)];
    let begun = driver.after(PinAction::Latch(Level::Low));
    assert(driver.after_all(start) == begun && samples(driver, start) == Seq::<Level>::empty()) by {
        assert(start.drop_last() =~= seq![]);
        reveal_with_fuel(Driver::after_all, 2);
        reveal_with_fuel(samples, 2);
    }
    clocked_samples(begun, levels);
    samples_joined(driver, start, clocked(levels));
    samples_joined(driver, start + clocked(levels), end);
    let full = driver.after_all(start + clocked(levels));
    assert(samples(full, end) == Seq::<Level>::empty()) by {
        assert(end.drop_last() =~= seq![]);
        reveal_with_fuel(samples, 2);
    }
    assert(Seq::<Level>::empty() + levels == levels);
    assert(levels + Seq::<Level>::empty() == levels);
    levels_read_back(value);
    levels_read_back(segment);
    words_joined(byte_levels(value), byte_levels(segment));
    assert(((value as u16) << 8u16 | segment as u16) == value * 256 + segment) by (bit_vector);
}

/// Different places or segments are loaded as different words, and swapping the two swaps the
/// bytes of the word.
pub proof fn loaded_words_differ(segment: u8, value: u8, other_segment: u8, other_value: u8)
    ensures
        ({
            let word = levels_word(driver_levels(segment, value));
            let other = levels_word(driver_levels(other_segment, other_value));
            let swapped = levels_word(driver_levels(value, segment));
            &&& word == other <==> segment == other_segment && value == other_value
            &&& swapped == word % 256 * 256 + word / 256
        }),
{
    levels_read_back(segment);
    levels_read_back(value);
    levels_read_back(other_segment);
    levels_read_back(other_value);
    words_joined(byte_levels(value), byte_levels(segment));
    words_joined(byte_levels(other_value), byte_levels(other_segment));
    words_joined(byte_levels(segment), byte_levels(value));
}

} // verus!
