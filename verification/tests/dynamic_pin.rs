use dynpin::mode::{
    Dynamic, PinModeError, PinState, MODE_SELECT_INPUT, MODE_SELECT_OUTPUT, OUTPUT_TYPE_OPEN_DRAIN,
    OUTPUT_TYPE_PUSH_PULL, PULL_DOWN, PULL_NONE, PULL_UP,
};
use dynpin::pin::DynamicPin;
use dynpin::regs::{InputDataReg, ModeSelectReg, OutputDataReg, OutputTypeReg, PullConfigReg};

fn field2(word: u32, i: u8) -> u32 {
    (word >> (2 * i as u32)) & 3
}

fn bit1(word: u32, i: u8) -> u32 {
    (word >> i as u32) & 1
}

const ALL_MODES: [Dynamic; 5] = [
    Dynamic::InputFloating,
    Dynamic::InputPullUp,
    Dynamic::InputPullDown,
    Dynamic::OutputPushPull,
    Dynamic::OutputOpenDrain,
];

#[test]
fn mode_select_field_table() {
    assert_eq!(Dynamic::InputFloating.mode_select_field(), MODE_SELECT_INPUT);
    assert_eq!(Dynamic::InputPullUp.mode_select_field(), MODE_SELECT_INPUT);
    assert_eq!(Dynamic::InputPullDown.mode_select_field(), MODE_SELECT_INPUT);
    assert_eq!(Dynamic::OutputPushPull.mode_select_field(), MODE_SELECT_OUTPUT);
    assert_eq!(Dynamic::OutputOpenDrain.mode_select_field(), MODE_SELECT_OUTPUT);
    assert_eq!(MODE_SELECT_INPUT, 0b00);
    assert_eq!(MODE_SELECT_OUTPUT, 0b01);
}

#[test]
fn output_type_field_table() {
    assert_eq!(Dynamic::InputFloating.output_type_field(), None);
    assert_eq!(Dynamic::InputPullUp.output_type_field(), None);
    assert_eq!(Dynamic::InputPullDown.output_type_field(), None);
    assert_eq!(
        Dynamic::OutputPushPull.output_type_field(),
        Some(OUTPUT_TYPE_PUSH_PULL)
    );
    assert_eq!(
        Dynamic::OutputOpenDrain.output_type_field(),
        Some(OUTPUT_TYPE_OPEN_DRAIN)
    );
    assert_eq!(OUTPUT_TYPE_PUSH_PULL, 0b0);
    assert_eq!(OUTPUT_TYPE_OPEN_DRAIN, 0b1);
}

#[test]
fn capability_table() {
    assert!(Dynamic::InputFloating.is_input());
    assert!(Dynamic::InputFloating.is_interruptable());
    assert!(!Dynamic::InputFloating.is_output());
    assert!(Dynamic::InputPullUp.is_input());
    assert!(Dynamic::InputPullUp.is_interruptable());
    assert!(!Dynamic::InputPullUp.is_output());
    assert!(Dynamic::InputPullDown.is_input());
    assert!(Dynamic::InputPullDown.is_interruptable());
    assert!(!Dynamic::InputPullDown.is_output());
    assert!(!Dynamic::OutputPushPull.is_input());
    assert!(!Dynamic::OutputPushPull.is_interruptable());
    assert!(Dynamic::OutputPushPull.is_output());
    assert!(Dynamic::OutputOpenDrain.is_input());
    assert!(Dynamic::OutputOpenDrain.is_interruptable());
    assert!(Dynamic::OutputOpenDrain.is_output());
}

#[test]
fn tracked_mode_follows_every_transition() {
    let mut pin = DynamicPin::new('A', 4, Dynamic::OutputPushPull);
    let mut moder = ModeSelectReg { port: 'A', bits: 0 };
    let mut otyper = OutputTypeReg { port: 'A', bits: 0 };
    let mut pupdr = PullConfigReg { port: 'A', bits: 0 };
    let mut odr = OutputDataReg { port: 'A', bits: 0 };

    pin.make_floating_input(&mut moder, &mut pupdr);
    assert_eq!(pin.mode, Dynamic::InputFloating);
    pin.make_pull_up_input(&mut moder, &mut pupdr);
    assert_eq!(pin.mode, Dynamic::InputPullUp);
    pin.make_pull_down_input(&mut moder, &mut pupdr);
    assert_eq!(pin.mode, Dynamic::InputPullDown);
    pin.make_push_pull_output(&mut moder, &mut otyper);
    assert_eq!(pin.mode, Dynamic::OutputPushPull);
    pin.make_open_drain_output(&mut moder, &mut otyper);
    assert_eq!(pin.mode, Dynamic::OutputOpenDrain);
    pin.make_push_pull_output_in_state(&mut moder, &mut otyper, &mut odr, PinState::High);
    assert_eq!(pin.mode, Dynamic::OutputPushPull);
    pin.make_open_drain_output_in_state(&mut moder, &mut otyper, &mut odr, PinState::Low);
    assert_eq!(pin.mode, Dynamic::OutputOpenDrain);
}

#[test]
fn transition_outcome_matches_new_mode_capabilities() {
    // After each transition, the accessor that succeeds or fails is exactly
    // the one the new tracked mode's capability predicates announce.
    for initial in ALL_MODES {
        let mut pin = DynamicPin::new('B', 9, initial);
        let mut moder = ModeSelectReg { port: 'B', bits: 0 };
        let mut otyper = OutputTypeReg { port: 'B', bits: 0 };
        let mut pupdr = PullConfigReg { port: 'B', bits: 0 };
        let mut odr = OutputDataReg { port: 'B', bits: 0 };
        let idr = InputDataReg { port: 'B', bits: 0 };

        pin.make_open_drain_output(&mut moder, &mut otyper);
        assert!(pin.mode.is_output());
        assert!(pin.mode.is_input());
        assert_eq!(pin.set_high(&mut odr), Ok(()));
        assert!(pin.is_low(&idr).is_ok());

        pin.make_pull_up_input(&mut moder, &mut pupdr);
        assert!(!pin.mode.is_output());
        assert!(pin.mode.is_input());
        assert_eq!(pin.set_high(&mut odr), Err(PinModeError::IncorrectMode));
        assert!(pin.is_low(&idr).is_ok());

        pin.make_push_pull_output(&mut moder, &mut otyper);
        assert!(pin.mode.is_output());
        assert!(!pin.mode.is_input());
        assert_eq!(pin.set_low(&mut odr), Ok(()));
        assert_eq!(pin.is_low(&idr), Err(PinModeError::IncorrectMode));
    }
}

#[test]
fn is_high_negates_is_low_in_every_mode() {
    for mode in ALL_MODES {
        for bits in [0u32, 1 << 6] {
            let pin = DynamicPin::new('C', 6, mode);
            let idr = InputDataReg { port: 'C', bits };
            let low = pin.is_low(&idr);
            let high = pin.is_high(&idr);
            match (low, high) {
                (Ok(l), Ok(h)) => {
                    assert!(mode.is_input());
                    assert_eq!(h, !l);
                }
                (Err(el), Err(eh)) => {
                    assert!(!mode.is_input());
                    assert_eq!(el, eh);
                    assert_eq!(el, PinModeError::IncorrectMode);
                }
                _ => panic!("is_low and is_high must succeed or fail together"),
            }
        }
    }
}

#[test]
fn push_pull_output_drives_but_never_reads() {
    // A handle constructed in push-pull output drives the line, and both
    // read accessors refuse with the incorrect-mode error.
    let mut pin = DynamicPin::new('A', 3, Dynamic::OutputPushPull);
    let mut odr = OutputDataReg { port: 'A', bits: 0 };
    let idr = InputDataReg { port: 'A', bits: 0b1000 };

    assert_eq!(pin.set_high(&mut odr), Ok(()));
    assert_eq!(bit1(odr.bits, 3), 1);
    assert_eq!(pin.is_low(&idr), Err(PinModeError::IncorrectMode));
    assert_eq!(pin.is_high(&idr), Err(PinModeError::IncorrectMode));
}

#[test]
fn floating_input_reads_but_never_drives() {
    // After make_floating_input, a write refuses and leaves the
    // output-data register untouched, and a read returns the sensed bit.
    let mut pin = DynamicPin::new('A', 5, Dynamic::OutputPushPull);
    let mut moder = ModeSelectReg { port: 'A', bits: 0 };
    let mut pupdr = PullConfigReg { port: 'A', bits: 0 };
    let mut odr = OutputDataReg {
        port: 'A',
        bits: 0xa5a5,
    };

    pin.make_floating_input(&mut moder, &mut pupdr);
    assert_eq!(pin.set_high(&mut odr), Err(PinModeError::IncorrectMode));
    assert_eq!(odr.bits, 0xa5a5);

    let idr_low = InputDataReg { port: 'A', bits: 0 };
    let idr_high = InputDataReg {
        port: 'A',
        bits: 1 << 5,
    };
    assert_eq!(pin.is_low(&idr_low), Ok(true));
    assert_eq!(pin.is_low(&idr_high), Ok(false));
    assert_eq!(pin.is_high(&idr_high), Ok(true));
}

#[test]
fn open_drain_output_both_drives_and_reads() {
    // The open-drain variant alone permits both a drive and a sense
    // operation.
    let mut pin = DynamicPin::new('D', 2, Dynamic::InputFloating);
    let mut moder = ModeSelectReg { port: 'D', bits: 0 };
    let mut otyper = OutputTypeReg { port: 'D', bits: 0 };
    let mut odr = OutputDataReg { port: 'D', bits: 0xffff };
    let idr = InputDataReg { port: 'D', bits: 0 };

    pin.make_open_drain_output(&mut moder, &mut otyper);
    assert_eq!(field2(moder.bits, 2), MODE_SELECT_OUTPUT);
    assert_eq!(bit1(otyper.bits, 2), OUTPUT_TYPE_OPEN_DRAIN);
    assert_eq!(pin.set_low(&mut odr), Ok(()));
    assert_eq!(bit1(odr.bits, 2), 0);
    assert_eq!(pin.is_low(&idr), Ok(true));
}

#[test]
fn pull_up_then_pull_down_rewrites_only_the_pull_field() {
    // Pull-up then pull-down on the same handle moves the
    // pull-configuration field 01 -> 10 while mode-select stays 00.
    let mut pin = DynamicPin::new('A', 7, Dynamic::OutputPushPull);
    let mut moder = ModeSelectReg { port: 'A', bits: 0 };
    let mut pupdr = PullConfigReg { port: 'A', bits: 0 };

    pin.make_pull_up_input(&mut moder, &mut pupdr);
    assert_eq!(field2(pupdr.bits, 7), PULL_UP);
    assert_eq!(field2(moder.bits, 7), MODE_SELECT_INPUT);

    pin.make_pull_down_input(&mut moder, &mut pupdr);
    assert_eq!(field2(pupdr.bits, 7), PULL_DOWN);
    assert_eq!(field2(moder.bits, 7), MODE_SELECT_INPUT);
    assert_eq!(pin.mode, Dynamic::InputPullDown);
}

#[test]
fn floating_input_clears_the_pull_field() {
    let mut pin = DynamicPin::new('A', 1, Dynamic::InputPullUp);
    let mut moder = ModeSelectReg { port: 'A', bits: 0 };
    let mut pupdr = PullConfigReg {
        port: 'A',
        bits: PULL_UP << 2,
    };

    pin.make_floating_input(&mut moder, &mut pupdr);
    assert_eq!(field2(pupdr.bits, 1), PULL_NONE);
    assert_eq!(field2(moder.bits, 1), MODE_SELECT_INPUT);
}

#[test]
fn interleaved_transitions_on_two_pins_do_not_cross_corrupt() {
    // Two handles for different pin indices on the same port run their
    // read-modify-write sequences interleaved; the final register state
    // holds both pins' intended fields, exactly as a serial execution in
    // either order would.
    let start_moder: u32 = 0x5555_0003;
    let start_pupdr: u32 = 0x0000_ff00;

    // Interleaved: pin 3 writes mode-select, then pin 11 writes
    // mode-select, then pin 3 writes pull, then pin 11 writes pull.
    let mut pin_a = DynamicPin::new('E', 3, Dynamic::OutputPushPull);
    let mut pin_b = DynamicPin::new('E', 11, Dynamic::OutputOpenDrain);
    let mut moder = ModeSelectReg { port: 'E', bits: start_moder };
    let mut pupdr = PullConfigReg { port: 'E', bits: start_pupdr };
    pin_a.make_pull_up_input(&mut moder, &mut pupdr);
    pin_b.make_pull_down_input(&mut moder, &mut pupdr);
    let interleaved = (moder.bits, pupdr.bits);

    // Serial, the other order.
    let mut pin_a2 = DynamicPin::new('E', 3, Dynamic::OutputPushPull);
    let mut pin_b2 = DynamicPin::new('E', 11, Dynamic::OutputOpenDrain);
    let mut moder2 = ModeSelectReg { port: 'E', bits: start_moder };
    let mut pupdr2 = PullConfigReg { port: 'E', bits: start_pupdr };
    pin_b2.make_pull_down_input(&mut moder2, &mut pupdr2);
    pin_a2.make_pull_up_input(&mut moder2, &mut pupdr2);
    let reversed = (moder2.bits, pupdr2.bits);

    assert_eq!(interleaved, reversed);
    assert_eq!(field2(moder.bits, 3), MODE_SELECT_INPUT);
    assert_eq!(field2(moder.bits, 11), MODE_SELECT_INPUT);
    assert_eq!(field2(pupdr.bits, 3), PULL_UP);
    assert_eq!(field2(pupdr.bits, 11), PULL_DOWN);
    // Every other pin's fields are bit-for-bit what they were.
    for j in 0..16u8 {
        if j != 3 && j != 11 {
            assert_eq!(field2(moder.bits, j), field2(start_moder, j));
            assert_eq!(field2(pupdr.bits, j), field2(start_pupdr, j));
        }
    }
}

#[test]
fn transitions_leave_other_pins_fields_untouched() {
    let start: u32 = 0xdead_beef;
    let mut pin = DynamicPin::new('F', 0, Dynamic::InputFloating);
    let mut moder = ModeSelectReg { port: 'F', bits: start };
    let mut otyper = OutputTypeReg { port: 'F', bits: start };

    pin.make_open_drain_output(&mut moder, &mut otyper);
    for j in 1..16u8 {
        assert_eq!(field2(moder.bits, j), field2(start, j));
        assert_eq!(bit1(otyper.bits, j), bit1(start, j));
    }
    assert_eq!(field2(moder.bits, 0), MODE_SELECT_OUTPUT);
    assert_eq!(bit1(otyper.bits, 0), OUTPUT_TYPE_OPEN_DRAIN);
}

#[test]
fn output_in_state_applies_the_requested_level() {
    let mut pin = DynamicPin::new('A', 12, Dynamic::InputPullDown);
    let mut moder = ModeSelectReg { port: 'A', bits: 0 };
    let mut otyper = OutputTypeReg { port: 'A', bits: 0 };
    let mut odr = OutputDataReg { port: 'A', bits: 0 };

    pin.make_push_pull_output_in_state(&mut moder, &mut otyper, &mut odr, PinState::High);
    assert_eq!(bit1(odr.bits, 12), 1);
    assert_eq!(bit1(otyper.bits, 12), OUTPUT_TYPE_PUSH_PULL);
    assert_eq!(field2(moder.bits, 12), MODE_SELECT_OUTPUT);
    assert_eq!(pin.mode, Dynamic::OutputPushPull);

    pin.make_open_drain_output_in_state(&mut moder, &mut otyper, &mut odr, PinState::Low);
    assert_eq!(bit1(odr.bits, 12), 0);
    assert_eq!(bit1(otyper.bits, 12), OUTPUT_TYPE_OPEN_DRAIN);
    assert_eq!(field2(moder.bits, 12), MODE_SELECT_OUTPUT);
    assert_eq!(pin.mode, Dynamic::OutputOpenDrain);
}

#[test]
fn set_low_clears_only_this_pins_output_bit() {
    let mut pin = DynamicPin::new('A', 8, Dynamic::OutputPushPull);
    let mut odr = OutputDataReg {
        port: 'A',
        bits: 0xffff,
    };
    assert_eq!(pin.set_low(&mut odr), Ok(()));
    assert_eq!(odr.bits, 0xffff & !(1 << 8));
    assert_eq!(pin.set_high(&mut odr), Ok(()));
    assert_eq!(odr.bits, 0xffff);
}

#[test]
fn self_transition_reasserts_the_register_fields() {
    // A transition into the mode already held is a no-op effect but still
    // re-asserts the register fields.
    let mut pin = DynamicPin::new('A', 2, Dynamic::InputFloating);
    // The registers disagree with the tracked mode on purpose: the
    // transition rewrites this pin's fields regardless.
    let mut moder = ModeSelectReg {
        port: 'A',
        bits: MODE_SELECT_OUTPUT << 4,
    };
    let mut pupdr = PullConfigReg {
        port: 'A',
        bits: PULL_DOWN << 4,
    };
    pin.make_floating_input(&mut moder, &mut pupdr);
    assert_eq!(pin.mode, Dynamic::InputFloating);
    assert_eq!(field2(moder.bits, 2), MODE_SELECT_INPUT);
    assert_eq!(field2(pupdr.bits, 2), PULL_NONE);
}
