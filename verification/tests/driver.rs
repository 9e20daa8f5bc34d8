use segment_clock::shift::{shift_out, Level, PinAction, SHIFT_ACTIONS};

#[test]
fn pins_are_set_in_order() {
    let actions = shift_out(0xf1, 0x24);
    assert_eq!(actions.len(), SHIFT_ACTIONS);
    assert_eq!(actions[0], PinAction::Latch(Level::Low));
    let bits = [0, 0, 1, 0, 0, 1, 0, 0, 1, 1, 1, 1, 0, 0, 0, 1];
    for (i, bit) in bits.iter().enumerate() {
        let level = if *bit == 1 { Level::High } else { Level::Low };
        assert_eq!(actions[1 + 3 * i], PinAction::Data(level));
        assert_eq!(actions[2 + 3 * i], PinAction::Clock(Level::High));
        assert_eq!(actions[3 + 3 * i], PinAction::Clock(Level::Low));
    }
    assert_eq!(actions[49], PinAction::Latch(Level::High));
}

/// Two shift registers in a chain, filled with `held` before they are loaded.
fn load(held: u16, segment: u8, value: u8) -> (u16, Vec<u16>) {
    let (mut data, mut clock, mut latch) = (Level::Low, Level::Low, Level::High);
    let (mut shifted, mut output) = (held, held);
    let mut outputs = Vec::new();
    for action in shift_out(segment, value) {
        match action {
            PinAction::Data(level) => data = level,
            PinAction::Clock(level) => {
                if clock == Level::Low && level == Level::High {
                    shifted = (shifted << 1) | (if data == Level::High { 1 } else { 0 });
                }
                clock = level;
            }
            PinAction::Latch(level) => {
                if latch == Level::Low && level == Level::High {
                    output = shifted;
                }
                latch = level;
            }
        }
        outputs.push(output);
    }
    (output, outputs)
}

#[test]
fn driver_puts_out_what_was_shifted() {
    for (segment, value) in [(0xf1, 0xC0), (0xf8, 0x24), (0xf0, 0xff), (0x00, 0xA5), (0xff, 0x00)] {
        for held in [0x0000, 0xffff, 0x1234] {
            let (output, _) = load(held, segment, value);
            assert_eq!(output, (value as u16) << 8 | segment as u16);
        }
    }
}

#[test]
fn output_is_steady_while_loading() {
    let (_, outputs) = load(0x1234, 0xf2, 0x99);
    assert!(outputs[..49].iter().all(|output| *output == 0x1234));
    assert_eq!(outputs[49], 0x99f2);
}

#[test]
fn pattern_does_not_depend_on_what_is_loaded() {
    let first = shift_out(0x00, 0x00);
    for (segment, value) in [(0xf1, 0xC0), (0xff, 0xff), (0x5a, 0xa5)] {
        let actions = shift_out(segment, value);
        for i in 0..SHIFT_ACTIONS {
            let data = matches!(actions[i], PinAction::Data(_));
            assert_eq!(data, matches!(first[i], PinAction::Data(_)));
            assert!(data || actions[i] == first[i]);
        }
    }
}

#[test]
fn words_tell_their_bytes() {
    let words: Vec<u16> = [(0xf1, 0xC0), (0xC0, 0xf1), (0xf2, 0xC0), (0xf1, 0x24)]
        .iter()
        .map(|pair| load(0, pair.0, pair.1).0)
        .collect();
    assert_eq!(words[0], 0xC0f1);
    assert_eq!(words[1], words[0].swap_bytes());
    for i in 0..4 {
        for j in 0..4 {
            assert_eq!(words[i] == words[j], i == j);
        }
    }
}
