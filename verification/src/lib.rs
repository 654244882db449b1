//! Byte-addressable driver for the internal EEPROM of AVR microcontrollers.
//!
//! The driver programs cells one byte at a time and reads a cell before it
//! writes it, so that a cell is erased only when a bit has to go from 0 to 1
//! and is left alone when it already holds the requested value. Every
//! register sequence runs with interrupts masked.
//!
//! The hardware is reached through the [`Device`] trait, whose contracts are
//! the model of the EEPROM peripheral that the proofs rest on.
//! [`SimulatedDevice`] is an in-memory device that meets this model.

use vstd::prelude::*;

pub mod device;
pub mod eeprom;
pub mod effects;
pub mod laws;
pub mod mode;
pub mod simulated;
pub mod variant;

pub use device::{Device, DeviceState, Transaction};
pub use eeprom::Eeprom;
pub use mode::ProgramMode;
pub use simulated::SimulatedDevice;
pub use variant::Variant;

verus! {

/// Why a storage operation was refused.
#[derive(Clone, Copy, Debug, PartialEq, Eq, Structural)]
pub enum CustomError {
    /// The requested range reaches beyond the capacity of the device.
    Bounds,
    /// Any other failure. The driver never reports it.
    Others,
}

} // verus!
