//! Runtime mode tracking for a single general-purpose I/O pin.
//!
//! A [`pin::DynamicPin`] records which of five electrical configurations a
//! pin currently holds, rewrites the per-port configuration registers when
//! the caller switches mode, and refuses reads or writes that the current
//! configuration cannot perform. The per-port registers are modeled as
//! packed 32-bit words in [`regs`], two bits (or one bit) per pin, and every
//! register update is proved to leave the fields of all other pins
//! untouched.

pub mod mode;
pub mod pin;
pub mod regs;

pub use mode::Dynamic;
pub use mode::PinModeError;
pub use mode::PinState;
pub use pin::DynamicPin;
