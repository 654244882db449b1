//! The EEPROM peripheral as the driver sees it.
//!
//! [`DeviceState`] is the mathematical model of the peripheral: its cells,
//! its address and data registers, the global interrupt flag with the number
//! of critical sections entered, and a record of the programming transactions
//! issued so far. [`Device`] lists the register
//! operations; the contract of each says how it changes the model. Whoever
//! implements [`Device`] for real hardware vouches that the hardware behaves
//! as these contracts say.

use crate::mode::ProgramMode;
use vstd::prelude::*;

verus! {

/// One programming transaction, as the EEPROM carried it out.
#[derive(Clone, Copy, Debug, PartialEq, Eq, Structural)]
pub struct Transaction {
    /// The mode that was triggered.
    pub mode: ProgramMode,
    /// The cell that was programmed.
    pub address: u16,
    /// What the cell held afterwards.
    pub value: u8,
}

/// Model of the EEPROM peripheral.
#[verifier::ext_equal]
pub struct DeviceState {
    /// Content of each cell, by address.
    pub cells: Seq<u8>,
    /// The address register.
    pub address: u16,
    /// The data register.
    pub data: u8,
    /// How many more times the write-in-progress flag will read as set. The
    /// hardware clears the flag when a transaction has completed, so this is
    /// a finite number after every transaction.
    pub busy_polls: nat,
    /// The global interrupt flag.
    pub interrupts_enabled: bool,
    /// How many critical sections have been entered so far.
    pub critical_sections: nat,
    /// Every programming transaction so far, oldest first.
    pub log: Seq<Transaction>,
}

impl DeviceState {
    /// The peripheral accepts a new command: no transaction is in progress.
    pub open spec fn ready(self) -> bool {
        self.busy_polls == 0
    }

    /// No interrupt handler can run between two register accesses.
    pub open spec fn masked(self) -> bool {
        !self.interrupts_enabled
    }

    /// The address register points at a cell of the device.
    pub open spec fn addressed(self) -> bool {
        (self.address as int) < self.cells.len()
    }

    /// The state after the write-in-progress flag has been read once.
    pub open spec fn polled(self) -> DeviceState {
        DeviceState { busy_polls: if self.busy_polls > 0 { (self.busy_polls - 1) as nat } else { 0 }, ..self }
    }

    /// The state once the transaction in progress, if any, has completed.
    pub open spec fn settled(self) -> DeviceState {
        DeviceState { busy_polls: 0, ..self }
    }

    /// The state after a critical section was entered: interrupts are
    /// masked.
    pub open spec fn entered(self) -> DeviceState {
        DeviceState { interrupts_enabled: false, critical_sections: self.critical_sections + 1, ..self }
    }

    /// The state after the critical section was left with the global
    /// interrupt flag set to `enabled`.
    pub open spec fn left(self, enabled: bool) -> DeviceState {
        DeviceState { interrupts_enabled: enabled, ..self }
    }

    /// The state with `address` in the address register.
    pub open spec fn with_address(self, address: u16) -> DeviceState {
        DeviceState { address, ..self }
    }

    /// The state with `data` in the data register.
    pub open spec fn with_data(self, data: u8) -> DeviceState {
        DeviceState { data, ..self }
    }

    /// The state after a read was triggered: the data register holds the
    /// addressed cell.
    pub open spec fn fetched(self) -> DeviceState
        recommends
            self.addressed(),
    {
        self.with_data(self.cells[self.address as int])
    }

    /// The transaction that triggering `mode` carries out in this state.
    pub open spec fn transaction(self, mode: ProgramMode) -> Transaction
        recommends
            self.addressed(),
    {
        Transaction {
            mode,
            address: self.address,
            value: mode.spec_outcome(self.cells[self.address as int], self.data),
        }
    }

    /// The state after `mode` was triggered, with the write-in-progress flag
    /// reading as set for the next `busy_polls` polls.
    pub open spec fn programmed(self, mode: ProgramMode, busy_polls: nat) -> DeviceState
        recommends
            self.addressed(),
    {
        DeviceState {
            cells: self.cells.update(self.address as int, self.transaction(mode).value),
            log: self.log.push(self.transaction(mode)),
            busy_polls,
            ..self
        }
    }
}

/// The register operations of the EEPROM peripheral and the global interrupt
/// flag.
///
/// A command may be given only while no transaction is in progress, and the
/// registers may be touched only while interrupts are masked, so that no
/// interrupt handler can slip another register sequence in between.
pub trait Device {
    /// The model of the peripheral in its present state.
    spec fn view(&self) -> DeviceState;

    /// Enters a critical section: clears the global interrupt flag and says
    /// whether it was set.
    fn disable_interrupts(&mut self) -> (were_enabled: bool)
        ensures
            were_enabled == old(self)@.interrupts_enabled,
            final(self)@ == old(self)@.entered(),
    ;

    /// Leaves the critical section: sets the global interrupt flag to
    /// `enabled`, which is what `disable_interrupts` returned.
    fn restore_interrupts(&mut self, enabled: bool)
        requires
            old(self)@.masked(),
        ensures
            final(self)@ == old(self)@.left(enabled),
    ;

    /// Reads the write-in-progress flag.
    fn write_in_progress(&mut self) -> (busy: bool)
        ensures
            busy == !old(self)@.ready(),
            final(self)@ == old(self)@.polled(),
    ;

    /// Loads the address register.
    fn set_address(&mut self, address: u16)
        requires
            old(self)@.masked(),
            old(self)@.ready(),
        ensures
            final(self)@ == old(self)@.with_address(address),
    ;

    /// Triggers a read of the addressed cell into the data register.
    fn start_read(&mut self)
        requires
            old(self)@.masked(),
            old(self)@.ready(),
            old(self)@.addressed(),
        ensures
            final(self)@ == old(self)@.fetched(),
    ;

    /// Reads the data register.
    fn data(&self) -> (value: u8)
        ensures
            value == self@.data,
    ;

    /// Loads the data register.
    fn stage_data(&mut self, value: u8)
        requires
            old(self)@.masked(),
            old(self)@.ready(),
        ensures
            final(self)@ == old(self)@.with_data(value),
    ;

    /// Triggers a programming transaction on the addressed cell.
    fn start_program(&mut self, mode: ProgramMode)
        requires
            old(self)@.masked(),
            old(self)@.ready(),
            old(self)@.addressed(),
        ensures
            final(self)@ == old(self)@.programmed(mode, final(self)@.busy_polls),
    ;
}

} // verus!
