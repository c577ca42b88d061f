//! The pin handle: one tracked [`Dynamic`] value bound to a fixed
//! (port, pin-index) pair, with the five mode-transition operations and the
//! guarded accessors built on the capability predicates.

use vstd::prelude::*;
use crate::mode::Dynamic;
use crate::mode::PinModeError;
use crate::mode::PinState;
use crate::mode::MODE_SELECT_INPUT;
use crate::mode::MODE_SELECT_OUTPUT;
use crate::mode::OUTPUT_TYPE_PUSH_PULL;
use crate::mode::OUTPUT_TYPE_OPEN_DRAIN;
use crate::mode::PULL_NONE;
use crate::mode::PULL_UP;
use crate::mode::PULL_DOWN;
use crate::mode::write_result;
use crate::mode::read_low_result;
use crate::mode::read_high_result;
use crate::regs::ModeSelectReg;
use crate::regs::OutputTypeReg;
use crate::regs::PullConfigReg;
use crate::regs::OutputDataReg;
use crate::regs::InputDataReg;
use crate::regs::field2;
use crate::regs::bit1;
use crate::regs::set_field2;
use crate::regs::set_bit1;
use crate::regs::write_field2;
use crate::regs::write_bit1;
use crate::regs::read_bit1;

verus! {

/// Pin type with dynamic mode.
///
/// The handle is created from an already-configured pin: the caller
/// supplies the `Dynamic` value that describes the configuration the
/// hardware currently holds, and from then on every transition operation
/// keeps the tracked mode equal to the fields it wrote.
pub struct DynamicPin {
    /// Port letter: `'A'` for the first port, `'B'` for the second, etc.
    pub port: char,
    /// Pin number within the port, from 0 to 15.
    pub index: u8,
    /// Current pin mode
    pub mode: Dynamic,
}

impl DynamicPin {
    /// A handle is well formed when its pin number addresses one of the
    /// sixteen field positions of its port's registers.
    pub open spec fn wf(self) -> bool {
        self.index < 16
    }

    /// Converts an already-configured pin into dynamic tracking. `mode`
    /// must describe the configuration the hardware currently holds; it is
    /// not re-derived from the registers.
    pub fn new(port: char, index: u8, mode: Dynamic) -> (r: DynamicPin)
        requires
            index < 16,
        ensures
            r.wf(),
            r.port == port,
            r.index == index,
            r.mode == mode,
    {
        DynamicPin { port, index, mode }
    }

    /// Switch pin into pull-up input
    pub fn make_pull_up_input(&mut self, moder: &mut ModeSelectReg, pupdr: &mut PullConfigReg)
        requires
            old(self).wf(),
            old(moder).port == old(self).port,
            old(pupdr).port == old(self).port,
        ensures
            final(self).wf(),
            final(self).port == old(self).port,
            final(self).index == old(self).index,
            final(self).mode == Dynamic::InputPullUp,
            final(moder).port == old(moder).port,
            final(pupdr).port == old(pupdr).port,
            final(moder).bits == set_field2(
                old(moder).bits,
                old(self).index as u32,
                MODE_SELECT_INPUT,
            ),
            final(pupdr).bits == set_field2(old(pupdr).bits, old(self).index as u32, PULL_UP),
            field2(final(moder).bits, old(self).index as u32) == MODE_SELECT_INPUT,
            field2(final(pupdr).bits, old(self).index as u32) == PULL_UP,
            forall|j: u32|
                j < 16 && j != old(self).index as u32 ==> field2(final(moder).bits, j) == field2(
                    old(moder).bits,
                    j,
                ),
            forall|j: u32|
                j < 16 && j != old(self).index as u32 ==> field2(final(pupdr).bits, j) == field2(
                    old(pupdr).bits,
                    j,
                ),
    {
        moder.bits = write_field2(moder.bits, self.index, MODE_SELECT_INPUT);
        pupdr.bits = write_field2(pupdr.bits, self.index, PULL_UP);
        self.mode = Dynamic::InputPullUp;
    }

    /// Switch pin into pull-down input
    pub fn make_pull_down_input(&mut self, moder: &mut ModeSelectReg, pupdr: &mut PullConfigReg)
        requires
            old(self).wf(),
            old(moder).port == old(self).port,
            old(pupdr).port == old(self).port,
        ensures
            final(self).wf(),
            final(self).port == old(self).port,
            final(self).index == old(self).index,
            final(self).mode == Dynamic::InputPullDown,
            final(moder).port == old(moder).port,
            final(pupdr).port == old(pupdr).port,
            final(moder).bits == set_field2(
                old(moder).bits,
                old(self).index as u32,
                MODE_SELECT_INPUT,
            ),
            final(pupdr).bits == set_field2(old(pupdr).bits, old(self).index as u32, PULL_DOWN),
            field2(final(moder).bits, old(self).index as u32) == MODE_SELECT_INPUT,
            field2(final(pupdr).bits, old(self).index as u32) == PULL_DOWN,
            forall|j: u32|
                j < 16 && j != old(self).index as u32 ==> field2(final(moder).bits, j) == field2(
                    old(moder).bits,
                    j,
                ),
            forall|j: u32|
                j < 16 && j != old(self).index as u32 ==> field2(final(pupdr).bits, j) == field2(
                    old(pupdr).bits,
                    j,
                ),
    {
        moder.bits = write_field2(moder.bits, self.index, MODE_SELECT_INPUT);
        pupdr.bits = write_field2(pupdr.bits, self.index, PULL_DOWN);
        self.mode = Dynamic::InputPullDown;
    }

    /// Switch pin into floating input
    pub fn make_floating_input(&mut self, moder: &mut ModeSelectReg, pupdr: &mut PullConfigReg)
        requires
            old(self).wf(),
            old(moder).port == old(self).port,
            old(pupdr).port == old(self).port,
        ensures
            final(self).wf(),
            final(self).port == old(self).port,
            final(self).index == old(self).index,
            final(self).mode == Dynamic::InputFloating,
            final(moder).port == old(moder).port,
            final(pupdr).port == old(pupdr).port,
            final(moder).bits == set_field2(
                old(moder).bits,
                old(self).index as u32,
                MODE_SELECT_INPUT,
            ),
            final(pupdr).bits == set_field2(old(pupdr).bits, old(self).index as u32, PULL_NONE),
            field2(final(moder).bits, old(self).index as u32) == MODE_SELECT_INPUT,
            field2(final(pupdr).bits, old(self).index as u32) == PULL_NONE,
            forall|j: u32|
                j < 16 && j != old(self).index as u32 ==> field2(final(moder).bits, j) == field2(
                    old(moder).bits,
                    j,
                ),
            forall|j: u32|
                j < 16 && j != old(self).index as u32 ==> field2(final(pupdr).bits, j) == field2(
                    old(pupdr).bits,
                    j,
                ),
    {
        moder.bits = write_field2(moder.bits, self.index, MODE_SELECT_INPUT);
        pupdr.bits = write_field2(pupdr.bits, self.index, PULL_NONE);
        self.mode = Dynamic::InputFloating;
    }

    /// Switch pin into push-pull output
    pub fn make_push_pull_output(&mut self, moder: &mut ModeSelectReg, otyper: &mut OutputTypeReg)
        requires
            old(self).wf(),
            old(moder).port == old(self).port,
            old(otyper).port == old(self).port,
        ensures
            final(self).wf(),
            final(self).port == old(self).port,
            final(self).index == old(self).index,
            final(self).mode == Dynamic::OutputPushPull,
            final(moder).port == old(moder).port,
            final(otyper).port == old(otyper).port,
            final(moder).bits == set_field2(
                old(moder).bits,
                old(self).index as u32,
                MODE_SELECT_OUTPUT,
            ),
            final(otyper).bits == set_bit1(
                old(otyper).bits,
                old(self).index as u32,
                OUTPUT_TYPE_PUSH_PULL,
            ),
            field2(final(moder).bits, old(self).index as u32) == MODE_SELECT_OUTPUT,
            bit1(final(otyper).bits, old(self).index as u32) == OUTPUT_TYPE_PUSH_PULL,
            forall|j: u32|
                j < 16 && j != old(self).index as u32 ==> field2(final(moder).bits, j) == field2(
                    old(moder).bits,
                    j,
                ),
            forall|j: u32|
                j < 16 && j != old(self).index as u32 ==> bit1(final(otyper).bits, j) == bit1(
                    old(otyper).bits,
                    j,
                ),
    {
        otyper.bits = write_bit1(otyper.bits, self.index, OUTPUT_TYPE_PUSH_PULL);
        moder.bits = write_field2(moder.bits, self.index, MODE_SELECT_OUTPUT);
        self.mode = Dynamic::OutputPushPull;
    }

    /// Switch pin into push-pull output with required voltage state
    pub fn make_push_pull_output_in_state(
        &mut self,
        moder: &mut ModeSelectReg,
        otyper: &mut OutputTypeReg,
        odr: &mut OutputDataReg,
        state: PinState,
    )
        requires
            old(self).wf(),
            old(moder).port == old(self).port,
            old(otyper).port == old(self).port,
            old(odr).port == old(self).port,
        ensures
            final(self).wf(),
            final(self).port == old(self).port,
            final(self).index == old(self).index,
            final(self).mode == Dynamic::OutputPushPull,
            final(moder).port == old(moder).port,
            final(otyper).port == old(otyper).port,
            final(odr).port == old(odr).port,
            final(moder).bits == set_field2(
                old(moder).bits,
                old(self).index as u32,
                MODE_SELECT_OUTPUT,
            ),
            final(otyper).bits == set_bit1(
                old(otyper).bits,
                old(self).index as u32,
                OUTPUT_TYPE_PUSH_PULL,
            ),
            final(odr).bits == set_bit1(
                old(odr).bits,
                old(self).index as u32,
                if state == PinState::High {
                    1u32
                } else {
                    0u32
                },
            ),
            field2(final(moder).bits, old(self).index as u32) == MODE_SELECT_OUTPUT,
            bit1(final(otyper).bits, old(self).index as u32) == OUTPUT_TYPE_PUSH_PULL,
            bit1(final(odr).bits, old(self).index as u32) == (if state == PinState::High {
                1u32
            } else {
                0u32
            }),
            forall|j: u32|
                j < 16 && j != old(self).index as u32 ==> field2(final(moder).bits, j) == field2(
                    old(moder).bits,
                    j,
                ),
            forall|j: u32|
                j < 16 && j != old(self).index as u32 ==> bit1(final(otyper).bits, j) == bit1(
                    old(otyper).bits,
                    j,
                ),
            forall|j: u32|
                j < 16 && j != old(self).index as u32 ==> bit1(final(odr).bits, j) == bit1(
                    old(odr).bits,
                    j,
                ),
    {
        let level: u32 = match state {
            PinState::High => 1,
            PinState::Low => 0,
        };
        odr.bits = write_bit1(odr.bits, self.index, level);
        otyper.bits = write_bit1(otyper.bits, self.index, OUTPUT_TYPE_PUSH_PULL);
        moder.bits = write_field2(moder.bits, self.index, MODE_SELECT_OUTPUT);
        self.mode = Dynamic::OutputPushPull;
    }

    /// Switch pin into open-drain output
    pub fn make_open_drain_output(&mut self, moder: &mut ModeSelectReg, otyper: &mut OutputTypeReg)
        requires
            old(self).wf(),
            old(moder).port == old(self).port,
            old(otyper).port == old(self).port,
        ensures
            final(self).wf(),
            final(self).port == old(self).port,
            final(self).index == old(self).index,
            final(self).mode == Dynamic::OutputOpenDrain,
            final(moder).port == old(moder).port,
            final(otyper).port == old(otyper).port,
            final(moder).bits == set_field2(
                old(moder).bits,
                old(self).index as u32,
                MODE_SELECT_OUTPUT,
            ),
            final(otyper).bits == set_bit1(
                old(otyper).bits,
                old(self).index as u32,
                OUTPUT_TYPE_OPEN_DRAIN,
            ),
            field2(final(moder).bits, old(self).index as u32) == MODE_SELECT_OUTPUT,
            bit1(final(otyper).bits, old(self).index as u32) == OUTPUT_TYPE_OPEN_DRAIN,
            forall|j: u32|
                j < 16 && j != old(self).index as u32 ==> field2(final(moder).bits, j) == field2(
                    old(moder).bits,
                    j,
                ),
            forall|j: u32|
                j < 16 && j != old(self).index as u32 ==> bit1(final(otyper).bits, j) == bit1(
                    old(otyper).bits,
                    j,
                ),
    {
        otyper.bits = write_bit1(otyper.bits, self.index, OUTPUT_TYPE_OPEN_DRAIN);
        moder.bits = write_field2(moder.bits, self.index, MODE_SELECT_OUTPUT);
        self.mode = Dynamic::OutputOpenDrain;
    }

    /// Switch pin into open-drain output with required voltage state
    pub fn make_open_drain_output_in_state(
        &mut self,
        moder: &mut ModeSelectReg,
        otyper: &mut OutputTypeReg,
        odr: &mut OutputDataReg,
        state: PinState,
    )
        requires
            old(self).wf(),
            old(moder).port == old(self).port,
            old(otyper).port == old(self).port,
            old(odr).port == old(self).port,
        ensures
            final(self).wf(),
            final(self).port == old(self).port,
            final(self).index == old(self).index,
            final(self).mode == Dynamic::OutputOpenDrain,
            final(moder).port == old(moder).port,
            final(otyper).port == old(otyper).port,
            final(odr).port == old(odr).port,
            final(moder).bits == set_field2(
                old(moder).bits,
                old(self).index as u32,
                MODE_SELECT_OUTPUT,
            ),
            final(otyper).bits == set_bit1(
                old(otyper).bits,
                old(self).index as u32,
                OUTPUT_TYPE_OPEN_DRAIN,
            ),
            final(odr).bits == set_bit1(
                old(odr).bits,
                old(self).index as u32,
                if state == PinState::High {
                    1u32
                } else {
                    0u32
                },
            ),
            field2(final(moder).bits, old(self).index as u32) == MODE_SELECT_OUTPUT,
            bit1(final(otyper).bits, old(self).index as u32) == OUTPUT_TYPE_OPEN_DRAIN,
            bit1(final(odr).bits, old(self).index as u32) == (if state == PinState::High {
                1u32
            } else {
                0u32
            }),
            forall|j: u32|
                j < 16 && j != old(self).index as u32 ==> field2(final(moder).bits, j) == field2(
                    old(moder).bits,
                    j,
                ),
            forall|j: u32|
                j < 16 && j != old(self).index as u32 ==> bit1(final(otyper).bits, j) == bit1(
                    old(otyper).bits,
                    j,
                ),
            forall|j: u32|
                j < 16 && j != old(self).index as u32 ==> bit1(final(odr).bits, j) == bit1(
                    old(odr).bits,
                    j,
                ),
    {
        let level: u32 = match state {
            PinState::High => 1,
            PinState::Low => 0,
        };
        odr.bits = write_bit1(odr.bits, self.index, level);
        otyper.bits = write_bit1(otyper.bits, self.index, OUTPUT_TYPE_OPEN_DRAIN);
        moder.bits = write_field2(moder.bits, self.index, MODE_SELECT_OUTPUT);
        self.mode = Dynamic::OutputOpenDrain;
    }

    /// Drives the pin high. Succeeds exactly when the tracked mode is
    /// writable; otherwise returns the incorrect-mode error without
    /// touching the register.
    pub fn set_high(&mut self, odr: &mut OutputDataReg) -> (r: Result<(), PinModeError>)
        requires
            old(self).wf(),
            old(odr).port == old(self).port,
        ensures
            *final(self) == *old(self),
            r == write_result(old(self).mode),
            old(self).mode.is_output() ==> final(odr).bits == set_bit1(
                old(odr).bits,
                old(self).index as u32,
                1,
            ) && bit1(final(odr).bits, old(self).index as u32) == 1 && (forall|j: u32|
                j < 16 && j != old(self).index as u32 ==> bit1(final(odr).bits, j) == bit1(
                    old(odr).bits,
                    j,
                )) && final(odr).port == old(odr).port,
            !old(self).mode.is_output() ==> *final(odr) == *old(odr),
    {
        if self.mode.is_output() {
            odr.bits = write_bit1(odr.bits, self.index, 1);
            Ok(())
        } else {
            Err(PinModeError::IncorrectMode)
        }
    }

    /// Drives the pin low. Succeeds exactly when the tracked mode is
    /// writable; otherwise returns the incorrect-mode error without
    /// touching the register.
    pub fn set_low(&mut self, odr: &mut OutputDataReg) -> (r: Result<(), PinModeError>)
        requires
            old(self).wf(),
            old(odr).port == old(self).port,
        ensures
            *final(self) == *old(self),
            r == write_result(old(self).mode),
            old(self).mode.is_output() ==> final(odr).bits == set_bit1(
                old(odr).bits,
                old(self).index as u32,
                0,
            ) && bit1(final(odr).bits, old(self).index as u32) == 0 && (forall|j: u32|
                j < 16 && j != old(self).index as u32 ==> bit1(final(odr).bits, j) == bit1(
                    old(odr).bits,
                    j,
                )) && final(odr).port == old(odr).port,
            !old(self).mode.is_output() ==> *final(odr) == *old(odr),
    {
        if self.mode.is_output() {
            odr.bits = write_bit1(odr.bits, self.index, 0);
            Ok(())
        } else {
            Err(PinModeError::IncorrectMode)
        }
    }

    /// Is the input pin high? The logical negation of [`Self::is_low`],
    /// derived from the same single register read.
    pub fn is_high(&self, idr: &InputDataReg) -> (r: Result<bool, PinModeError>)
        requires
            self.wf(),
            idr.port == self.port,
        ensures
            r == read_high_result(self.mode, bit1(idr.bits, self.index as u32)),
    {
        match self.is_low(idr) {
            Ok(b) => Ok(!b),
            Err(e) => Err(e),
        }
    }

    /// Is the input pin low? Succeeds exactly when the tracked mode is
    /// readable, and then returns whether the pin's input-data bit is
    /// clear; otherwise returns the incorrect-mode error.
    pub fn is_low(&self, idr: &InputDataReg) -> (r: Result<bool, PinModeError>)
        requires
            self.wf(),
            idr.port == self.port,
        ensures
            r == read_low_result(self.mode, bit1(idr.bits, self.index as u32)),
    {
        if self.mode.is_input() {
            let level: u32 = read_bit1(idr.bits, self.index);
            Ok(level == 0)
        } else {
            Err(PinModeError::IncorrectMode)
        }
    }
}

} // verus!

