//! Interrupt-condition model of the bxCAN peripheral.
//!
//! The peripheral can raise ten logical interrupt conditions, each tied to a
//! fixed bit position in its interrupt enable and status registers, but it
//! exposes only four physical interrupt lines to the host processor, so
//! several conditions alias one line.  This crate provides:
//!
//! * [`Interrupt`] — the catalog of conditions with their register bit
//!   positions and the physical line each one raises;
//! * [`Interrupts`] — a bitmask set of conditions, used to batch-enable
//!   conditions in one register write and to decode a status register;
//! * [`protocol`] — a model of the enable/status registers that states the
//!   aliasing and acknowledgment discipline an interrupt handler must follow.

pub mod interrupt;
pub mod protocol;

pub use interrupt::{Interrupt, Interrupts, PhysicalLine, INTERRUPT_MASK};
pub use protocol::{ConditionState, InterruptState};
