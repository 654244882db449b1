//! The capacity table: which microcontroller carries how much EEPROM.

use vstd::prelude::*;

verus! {

/// A microcontroller model with an internal EEPROM.
#[derive(Clone, Copy, Debug, PartialEq, Eq, Structural)]
pub enum Variant {
    Atmega48p,
    Atmega168,
    Attiny85,
    Atmega32u4,
    Atmega328p,
    Atmega328pb,
    Atmega1280,
    Atmega1284p,
    Atmega2560,
}

impl Variant {
    /// Size of the model's EEPROM in bytes.
    pub open spec fn spec_capacity(self) -> nat {
        match self {
            Variant::Atmega48p => 256,
            Variant::Atmega168 | Variant::Attiny85 => 512,
            Variant::Atmega32u4 | Variant::Atmega328p | Variant::Atmega328pb => 1024,
            Variant::Atmega1280 | Variant::Atmega1284p | Variant::Atmega2560 => 4096,
        }
    }

    /// Size of the model's EEPROM in bytes.
    pub fn capacity(self) -> (bytes: usize)
        ensures
            bytes == self.spec_capacity(),
            bytes == 256 || bytes == 512 || bytes == 1024 || bytes == 4096,
    {
        match self {
            Variant::Atmega48p => 256,
            Variant::Atmega168 | Variant::Attiny85 => 512,
            Variant::Atmega32u4 | Variant::Atmega328p | Variant::Atmega328pb => 1024,
            Variant::Atmega1280 | Variant::Atmega1284p | Variant::Atmega2560 => 4096,
        }
    }
}

} // verus!
