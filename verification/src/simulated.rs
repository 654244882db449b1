//! An EEPROM held in memory, for running the driver without the hardware.

use crate::device::{Device, DeviceState, Transaction};
use crate::mode::ProgramMode;
use crate::variant::Variant;
use vstd::prelude::*;

verus! {

/// An in-memory EEPROM that behaves as [`Device`] asks and keeps the record
/// of its programming transactions.
pub struct SimulatedDevice {
    cells: Vec<u8>,
    address: u16,
    data: u8,
    busy_polls: usize,
    latency: usize,
    interrupts_enabled: bool,
    critical_sections: Ghost<nat>,
    log: Vec<Transaction>,
}

/// The state of a device of `capacity` cells as it leaves the factory: every
/// cell erased, nothing done to it yet, interrupts enabled.
pub open spec fn factory_state(capacity: nat) -> DeviceState {
    DeviceState {
        cells: Seq::new(capacity, |i: int| 0xFFu8),
        address: 0,
        data: 0,
        busy_polls: 0,
        interrupts_enabled: true,
        critical_sections: 0,
        log: Seq::empty(),
    }
}

impl SimulatedDevice {
    /// For how many polls the write-in-progress flag reads as set after each
    /// programming transaction.
    pub closed spec fn spec_latency(&self) -> nat {
        self.latency as nat
    }

    /// The EEPROM of a `variant` as it leaves the factory. Its transactions
    /// complete at once.
    pub fn new(variant: Variant) -> (device: Self)
        ensures
            device@ == factory_state(variant.spec_capacity()),
            device.spec_latency() == 0,
    {
        Self::with_latency(variant, 0)
    }

    /// The EEPROM of a `variant` as it leaves the factory. After each
    /// programming transaction its write-in-progress flag reads as set
    /// `latency` times.
    pub fn with_latency(variant: Variant, latency: usize) -> (device: Self)
        ensures
            device@ == factory_state(variant.spec_capacity()),
            device.spec_latency() == latency,
    {
        let capacity: usize = variant.capacity();
        let mut cells: Vec<u8> = Vec::new();
        while cells.len() < capacity
            invariant
                cells@.len() <= capacity,
                forall|i: int| 0 <= i < cells@.len() ==> cells@[i] == 0xFFu8,
            decreases capacity - cells@.len(),
        {
            cells.push(0xFF);
        }
        SimulatedDevice {
            cells,
            address: 0,
            data: 0,
            busy_polls: 0,
            latency,
            interrupts_enabled: true,
            critical_sections: Ghost(0),
            log: Vec::new(),
        }
    }
}

impl SimulatedDevice {
    /// Content of the cell at `address`, if the device has such a cell.
    pub fn cell(&self, address: usize) -> (value: Option<u8>)
        ensures
            value == if address < self@.cells.len() {
                Some(self@.cells[address as int])
            } else {
                None
            },
    {
        if address < self.cells.len() {
            Some(self.cells[address])
        } else {
            None
        }
    }

    /// Number of programming transactions carried out so far.
    pub fn transaction_count(&self) -> (count: usize)
        ensures
            count == self@.log.len(),
    {
        self.log.len()
    }

    /// The programming transaction number `index`, counted from zero in the
    /// order of issue, if there were that many.
    pub fn transaction(&self, index: usize) -> (transaction: Option<Transaction>)
        ensures
            transaction == if index < self@.log.len() {
                Some(self@.log[index as int])
            } else {
                None
            },
    {
        if index < self.log.len() {
            Some(self.log[index])
        } else {
            None
        }
    }

    /// Whether the global interrupt flag is set.
    pub fn interrupts_enabled(&self) -> (enabled: bool)
        ensures
            enabled == self@.interrupts_enabled,
    {
        self.interrupts_enabled
    }

    /// Whether a programming transaction is still in progress.
    pub fn busy(&self) -> (busy: bool)
        ensures
            busy == !self@.ready(),
    {
        self.busy_polls > 0
    }
}

impl Device for SimulatedDevice {
    closed spec fn view(&self) -> DeviceState {
        DeviceState {
            cells: self.cells@,
            address: self.address,
            data: self.data,
            busy_polls: self.busy_polls as nat,
            interrupts_enabled: self.interrupts_enabled,
            critical_sections: self.critical_sections@,
            log: self.log@,
        }
    }

    fn disable_interrupts(&mut self) -> (were_enabled: bool) {
        let were_enabled = self.interrupts_enabled;
        self.interrupts_enabled = false;
        self.critical_sections = Ghost(self.critical_sections@ + 1);
        were_enabled
    }

    fn restore_interrupts(&mut self, enabled: bool) {
        self.interrupts_enabled = enabled;
    }

    fn write_in_progress(&mut self) -> (busy: bool) {
        if self.busy_polls > 0 {
            self.busy_polls = self.busy_polls - 1;
            true
        } else {
            false
        }
    }

    fn set_address(&mut self, address: u16) {
        self.address = address;
    }

    fn start_read(&mut self) {
        self.data = self.cells[self.address as usize];
    }

    fn data(&self) -> (value: u8) {
        self.data
    }

    fn stage_data(&mut self, value: u8) {
        self.data = value;
    }

    fn start_program(&mut self, mode: ProgramMode) {
        let address = self.address as usize;
        let value = mode.outcome(self.cells[address], self.data);
        self.cells[address] = value;
        self.log.push(Transaction { mode, address: self.address, value });
        self.busy_polls = self.latency;
    }
}

} // verus!
