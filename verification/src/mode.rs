//! The mode classifier: the five legal electrical configurations of a
//! dynamically reconfigurable pin, capability predicates over them, and the
//! register field encodings each configuration requires.

use vstd::prelude::*;

verus! {

/// Mode-select field value for the three input configurations.
pub const MODE_SELECT_INPUT: u32 = 0b00;
/// Mode-select field value for the two output configurations.
pub const MODE_SELECT_OUTPUT: u32 = 0b01;
/// Output-type field value for a push-pull output stage.
pub const OUTPUT_TYPE_PUSH_PULL: u32 = 0b0;
/// Output-type field value for an open-drain output stage.
pub const OUTPUT_TYPE_OPEN_DRAIN: u32 = 0b1;
/// Pull-configuration field value for no pull resistor.
pub const PULL_NONE: u32 = 0b00;
/// Pull-configuration field value for a pull-up resistor.
pub const PULL_UP: u32 = 0b01;
/// Pull-configuration field value for a pull-down resistor.
pub const PULL_DOWN: u32 = 0b10;

/// Tracks the current pin state for dynamic pins.
#[derive(Clone, Copy, Debug, PartialEq, Eq, Structural)]
pub enum Dynamic {
    /// Floating input mode
    InputFloating,
    /// Pull-up input mode
    InputPullUp,
    /// Pull-down input mode
    InputPullDown,
    /// Push-pull output mode
    OutputPushPull,
    /// Open-drain output mode
    OutputOpenDrain,
}

/// Error for [`crate::pin::DynamicPin`] accessors.
#[derive(Clone, Copy, Debug, PartialEq, Eq, Structural)]
pub enum PinModeError {
    /// For operations unsupported in current mode
    IncorrectMode,
}

/// Electrical level driven onto a pin configured as an output.
#[derive(Clone, Copy, Debug, PartialEq, Eq, Structural)]
pub enum PinState {
    /// Low level
    Low,
    /// High level
    High,
}

impl Dynamic {
    /// Which modes can sense the line: every input mode, and open-drain
    /// output, whose driven-low/floating-high behavior can be read back.
    pub open spec fn spec_is_input(&self) -> bool {
        match self {
            Dynamic::InputFloating
            | Dynamic::InputPullUp
            | Dynamic::InputPullDown
            | Dynamic::OutputOpenDrain => true,
            Dynamic::OutputPushPull => false,
        }
    }

    /// Interrupt capability tracks readability for every mode.
    pub open spec fn spec_is_interruptable(&self) -> bool {
        match self {
            Dynamic::InputFloating
            | Dynamic::InputPullUp
            | Dynamic::InputPullDown
            | Dynamic::OutputOpenDrain => true,
            Dynamic::OutputPushPull => false,
        }
    }

    /// Which modes can drive the line: the two output modes.
    pub open spec fn spec_is_output(&self) -> bool {
        match self {
            Dynamic::InputFloating | Dynamic::InputPullUp | Dynamic::InputPullDown => false,
            Dynamic::OutputPushPull | Dynamic::OutputOpenDrain => true,
        }
    }

    /// The two-bit mode-select encoding this configuration requires.
    pub open spec fn spec_mode_select(&self) -> u32 {
        match self {
            Dynamic::InputFloating => MODE_SELECT_INPUT,
            Dynamic::InputPullUp => MODE_SELECT_INPUT,
            Dynamic::InputPullDown => MODE_SELECT_INPUT,
            Dynamic::OutputPushPull => MODE_SELECT_OUTPUT,
            Dynamic::OutputOpenDrain => MODE_SELECT_OUTPUT,
        }
    }

    /// The output-type bit this configuration requires, or `None` for the
    /// input configurations, whose output-type field must be left untouched.
    pub open spec fn spec_output_type(&self) -> Option<u32> {
        match self {
            Dynamic::OutputPushPull => Some(OUTPUT_TYPE_PUSH_PULL),
            Dynamic::OutputOpenDrain => Some(OUTPUT_TYPE_OPEN_DRAIN),
            _ => None,
        }
    }

    /// Is pin in readable mode
    #[verifier::when_used_as_spec(spec_is_input)]
    pub fn is_input(&self) -> (r: bool)
        ensures
            r == self.spec_is_input(),
    {
        match self {
            Dynamic::InputFloating
            | Dynamic::InputPullUp
            | Dynamic::InputPullDown
            | Dynamic::OutputOpenDrain => true,
            Dynamic::OutputPushPull => false,
        }
    }

    /// Is pin in interruptable mode
    #[verifier::when_used_as_spec(spec_is_interruptable)]
    pub fn is_interruptable(&self) -> (r: bool)
        ensures
            r == self.spec_is_interruptable(),
    {
        match self {
            Dynamic::InputFloating
            | Dynamic::InputPullUp
            | Dynamic::InputPullDown
            | Dynamic::OutputOpenDrain => true,
            Dynamic::OutputPushPull => false,
        }
    }

    /// Is pin in writable mode
    #[verifier::when_used_as_spec(spec_is_output)]
    pub fn is_output(&self) -> (r: bool)
        ensures
            r == self.spec_is_output(),
    {
        match self {
            Dynamic::InputFloating | Dynamic::InputPullUp | Dynamic::InputPullDown => false,
            Dynamic::OutputPushPull | Dynamic::OutputOpenDrain => true,
        }
    }

    /// The two-bit value the mode-select field must hold for this mode.
    #[verifier::when_used_as_spec(spec_mode_select)]
    pub fn mode_select_field(&self) -> (r: u32)
        ensures
            r == self.spec_mode_select(),
    {
        match self {
            Dynamic::InputFloating => MODE_SELECT_INPUT,
            Dynamic::InputPullUp => MODE_SELECT_INPUT,
            Dynamic::InputPullDown => MODE_SELECT_INPUT,
            Dynamic::OutputPushPull => MODE_SELECT_OUTPUT,
            Dynamic::OutputOpenDrain => MODE_SELECT_OUTPUT,
        }
    }

    /// The bit the output-type field must hold for this mode, or `None`
    /// when the mode is an input and the field is not applicable.
    #[verifier::when_used_as_spec(spec_output_type)]
    pub fn output_type_field(&self) -> (r: Option<u32>)
        ensures
            r == self.spec_output_type(),
    {
        match self {
            Dynamic::OutputPushPull => Some(OUTPUT_TYPE_PUSH_PULL),
            Dynamic::OutputOpenDrain => Some(OUTPUT_TYPE_OPEN_DRAIN),
            Dynamic::InputFloating | Dynamic::InputPullUp | Dynamic::InputPullDown => None,
        }
    }
}

/// What a guarded write (`set_high` / `set_low`) returns in mode `m`:
/// success exactly when the mode can drive the line.
pub open spec fn write_result(m: Dynamic) -> Result<(), PinModeError> {
    if m.spec_is_output() {
        Ok(())
    } else {
        Err(PinModeError::IncorrectMode)
    }
}

/// What `is_low` returns in mode `m` when the pin's input-data bit holds
/// `level`: success exactly when the mode can sense the line.
pub open spec fn read_low_result(m: Dynamic, level: u32) -> Result<bool, PinModeError> {
    if m.spec_is_input() {
        Ok(level == 0)
    } else {
        Err(PinModeError::IncorrectMode)
    }
}

/// What `is_high` returns in mode `m` when the pin's input-data bit holds
/// `level`: the negation of `is_low`'s answer, under the same guard.
pub open spec fn read_high_result(m: Dynamic, level: u32) -> Result<bool, PinModeError> {
    if m.spec_is_input() {
        Ok(level != 0)
    } else {
        Err(PinModeError::IncorrectMode)
    }
}

/// The full register field encoding table: the mode-select field is `00`
/// for every input mode and `01` for every output mode, and the output-type
/// field is applicable exactly to the two output modes, `0` for push-pull
/// and `1` for open-drain.
pub proof fn lemma_encoding_table()
    ensures
        Dynamic::InputFloating.mode_select_field() == MODE_SELECT_INPUT,
        Dynamic::InputPullUp.mode_select_field() == MODE_SELECT_INPUT,
        Dynamic::InputPullDown.mode_select_field() == MODE_SELECT_INPUT,
        Dynamic::OutputPushPull.mode_select_field() == MODE_SELECT_OUTPUT,
        Dynamic::OutputOpenDrain.mode_select_field() == MODE_SELECT_OUTPUT,
        Dynamic::InputFloating.output_type_field() is None,
        Dynamic::InputPullUp.output_type_field() is None,
        Dynamic::InputPullDown.output_type_field() is None,
        Dynamic::OutputPushPull.output_type_field() == Some(OUTPUT_TYPE_PUSH_PULL),
        Dynamic::OutputOpenDrain.output_type_field() == Some(OUTPUT_TYPE_OPEN_DRAIN),
{
}

/// The full capability table: the three input modes are readable and
/// interrupt-capable but not writable, push-pull output is writable only,
/// and open-drain output is readable, writable and interrupt-capable.
pub proof fn lemma_capability_table()
    ensures
        Dynamic::InputFloating.is_input(),
        Dynamic::InputFloating.is_interruptable(),
        !Dynamic::InputFloating.is_output(),
        Dynamic::InputPullUp.is_input(),
        Dynamic::InputPullUp.is_interruptable(),
        !Dynamic::InputPullUp.is_output(),
        Dynamic::InputPullDown.is_input(),
        Dynamic::InputPullDown.is_interruptable(),
        !Dynamic::InputPullDown.is_output(),
        !Dynamic::OutputPushPull.is_input(),
        !Dynamic::OutputPushPull.is_interruptable(),
        Dynamic::OutputPushPull.is_output(),
        Dynamic::OutputOpenDrain.is_input(),
        Dynamic::OutputOpenDrain.is_interruptable(),
        Dynamic::OutputOpenDrain.is_output(),
{
}

/// The capability predicates of the tracked mode decide the guarded
/// accessors: a guarded write succeeds exactly when the mode is writable, a
/// guarded read succeeds exactly when the mode is readable, and the failing
/// accessor always reports the incorrect-mode error.
pub proof fn lemma_capabilities_gate_accessors(m: Dynamic, level: u32)
    ensures
        write_result(m) is Ok <==> m.is_output(),
        read_low_result(m, level) is Ok <==> m.is_input(),
        read_high_result(m, level) is Ok <==> m.is_input(),
        write_result(m) is Err ==> write_result(m) == Err::<(), PinModeError>(
            PinModeError::IncorrectMode,
        ),
        read_low_result(m, level) is Err ==> read_low_result(m, level) == Err::<
            bool,
            PinModeError,
        >(PinModeError::IncorrectMode),
{
}

/// `is_high` is always the logical negation of `is_low` on the same mode
/// and the same sensed level, and when the mode is not readable both fail
/// with the same error.
pub proof fn lemma_read_high_negates_read_low(m: Dynamic, level: u32)
    ensures
        read_low_result(m, level) is Ok <==> read_high_result(m, level) is Ok,
        read_low_result(m, level) is Ok ==> read_high_result(m, level)->Ok_0 == !read_low_result(
            m,
            level,
        )->Ok_0,
        read_low_result(m, level) is Err ==> read_high_result(m, level) == read_low_result(
            m,
            level,
        ),
{
}

} // verus!
