//! The EEPROM driver: a cell programmer and the block-storage operations
//! built on it.

use crate::device::{Device, DeviceState, Transaction};
use crate::effects::{
    cell_transactions, cells_after_erase, cells_after_write, cells_read, erase_transactions,
    state_after_read, write_transactions,
};
use crate::mode::{lemma_required_mode_stores, select_mode, ProgramMode};
use crate::variant::Variant;
use crate::CustomError;
use vstd::prelude::*;

verus! {

/// Smallest number of bytes that one read takes.
pub const READ_SIZE: usize = 1;

/// Smallest number of bytes that one write takes.
pub const WRITE_SIZE: usize = 1;

/// Smallest number of bytes that one erase takes.
pub const ERASE_SIZE: usize = 1;

/// A range may be written again without an erase in between.
pub const MULTIWRITE: bool = true;

/// Driver for the EEPROM of one microcontroller.
///
/// It owns the device, so nothing else can touch the registers while the
/// driver exists.
pub struct Eeprom<D: Device> {
    device: D,
    variant: Variant,
}

impl<D: Device> Eeprom<D> {
    /// The model of the device in its present state.
    pub closed spec fn view(&self) -> DeviceState {
        self.device@
    }

    /// The microcontroller model that the driver was made for.
    pub closed spec fn spec_variant(&self) -> Variant {
        self.variant
    }

    /// The capacity that the driver reports and checks ranges against.
    pub open spec fn spec_capacity(&self) -> nat {
        self.spec_variant().spec_capacity()
    }

    /// The device has exactly the cells of the selected model.
    pub open spec fn wf(&self) -> bool {
        self@.cells.len() == self.spec_capacity()
    }

    /// Makes a driver for `device`, which is the EEPROM of a `variant`.
    pub fn new(device: D, variant: Variant) -> (eeprom: Self)
        requires
            device@.cells.len() == variant.spec_capacity(),
        ensures
            eeprom.wf(),
            eeprom@ == device@,
            eeprom.spec_variant() == variant,
    {
        Eeprom { device, variant }
    }

    /// The microcontroller model that the driver was made for.
    pub fn variant(&self) -> (variant: Variant)
        ensures
            variant == self.spec_variant(),
    {
        self.variant
    }

    /// The device, for looking at it between operations.
    pub fn device(&self) -> (device: &D)
        ensures
            device@ == self@,
    {
        &self.device
    }

    /// Gives the device back and ends the driver.
    pub fn into_device(self) -> (device: D)
        ensures
            device@ == self@,
    {
        self.device
    }

    /// Number of cells of the device, in bytes: that of the selected model.
    pub fn capacity(&self) -> (bytes: usize)
        ensures
            bytes == self.spec_capacity(),
    {
        self.variant.capacity()
    }

    /// Fills `bytes` with the content of the cells from `offset` on.
    ///
    /// Fails with [`CustomError::Bounds`], touching neither the device nor
    /// `bytes`, when the range reaches beyond the capacity.
    pub fn read(&mut self, offset: u32, bytes: &mut [u8]) -> (result: Result<(), CustomError>)
        requires
            old(self).wf(),
        ensures
            final(self).wf(),
            final(self).spec_variant() == old(self).spec_variant(),
            final(self)@.interrupts_enabled == old(self)@.interrupts_enabled,
            final(self)@.cells == old(self)@.cells,
            final(self)@.log == old(self)@.log,
            match result {
                Ok(()) => {
                    &&& offset + old(bytes)@.len() <= old(self).spec_capacity()
                    &&& final(bytes)@ == cells_read(old(self)@.cells, offset as int, old(bytes)@.len() as int)
                    &&& final(self)@ == state_after_read(old(self)@, offset as int, old(bytes)@.len() as int)
                },
                Err(error) => {
                    &&& error == CustomError::Bounds
                    &&& offset + old(bytes)@.len() > old(self).spec_capacity()
                    &&& final(bytes)@ == old(bytes)@
                    &&& final(self)@ == old(self)@
                },
            },
    {
        let len: usize = bytes.len();
        let capacity: usize = self.variant.capacity();
        if len > capacity || offset as usize > capacity - len {
            return Err(CustomError::Bounds);
        }
        let mut i: usize = 0;
        while i < len
            invariant
                self.wf(),
                self.variant == old(self).variant,
                self@ == state_after_read(old(self)@, offset as int, i as int),
                capacity == self.spec_capacity(),
                offset + len <= capacity,
                bytes@.len() == len,
                i <= len,
                forall|j: int| 0 <= j < i ==> bytes@[j] == old(self)@.cells[offset + j],
            decreases len - i,
        {
            let were_enabled = self.device.disable_interrupts();
            let value = self.eeprom_get_char((offset as usize + i) as u16);
            self.device.restore_interrupts(were_enabled);
            bytes[i] = value;
            i = i + 1;
        }
        Ok(())
    }

    /// Stores `bytes` in the cells from `offset` on, whatever they held: no
    /// erase is needed beforehand, and a cell that already holds its byte is
    /// not programmed again.
    ///
    /// Fails with [`CustomError::Bounds`], touching nothing, when the range
    /// reaches beyond the capacity.
    pub fn write(&mut self, offset: u32, bytes: &[u8]) -> (result: Result<(), CustomError>)
        requires
            old(self).wf(),
        ensures
            final(self).wf(),
            final(self).spec_variant() == old(self).spec_variant(),
            final(self)@.interrupts_enabled == old(self)@.interrupts_enabled,
            match result {
                Ok(()) => {
                    &&& offset + bytes@.len() <= old(self).spec_capacity()
                    &&& final(self)@.cells == cells_after_write(old(self)@.cells, offset as int, bytes@)
                    &&& final(self)@.log == old(self)@.log + write_transactions(
                        old(self)@.cells,
                        offset as int,
                        bytes@,
                    )
                    &&& final(self)@.critical_sections == old(self)@.critical_sections + bytes@.len()
                },
                Err(error) => {
                    &&& error == CustomError::Bounds
                    &&& offset + bytes@.len() > old(self).spec_capacity()
                    &&& final(self)@ == old(self)@
                },
            },
    {
        let len: usize = bytes.len();
        let capacity: usize = self.variant.capacity();
        if len > capacity || offset as usize > capacity - len {
            return Err(CustomError::Bounds);
        }
        self.program(offset as usize, bytes)
    }

    /// Programs `bytes` into the cells from `offset` on, one cell after the
    /// other by rising address, each in a critical section of its own.
    fn program(&mut self, offset: usize, bytes: &[u8]) -> (result: Result<(), CustomError>)
        requires
            old(self).wf(),
            offset + bytes@.len() <= old(self).spec_capacity(),
        ensures
            final(self).wf(),
            final(self).spec_variant() == old(self).spec_variant(),
            final(self)@.interrupts_enabled == old(self)@.interrupts_enabled,
            result == Ok::<(), CustomError>(()),
            final(self)@.cells == cells_after_write(old(self)@.cells, offset as int, bytes@),
            final(self)@.log == old(self)@.log + write_transactions(old(self)@.cells, offset as int, bytes@),
            final(self)@.critical_sections == old(self)@.critical_sections + bytes@.len(),
    {
        let len: usize = bytes.len();
        let mut i: usize = 0;
        while i < len
            invariant
                self.wf(),
                self.variant == old(self).variant,
                self@.interrupts_enabled == old(self)@.interrupts_enabled,
                offset + len <= self.spec_capacity(),
                bytes@.len() == len,
                i <= len,
                self@.critical_sections == old(self)@.critical_sections + i,
                self@.cells == cells_after_write(old(self)@.cells, offset as int, bytes@.take(i as int)),
                self@.log == old(self)@.log + write_transactions(
                    old(self)@.cells,
                    offset as int,
                    bytes@.take(i as int),
                ),
            decreases len - i,
        {
            let were_enabled = self.device.disable_interrupts();
            self.eeprom_put_char((offset + i) as u16, bytes[i]);
            self.device.restore_interrupts(were_enabled);
            assert(bytes@.take(i + 1).drop_last() == bytes@.take(i as int));
            i = i + 1;
        }
        assert(bytes@.take(len as int) == bytes@);
        Ok(())
    }

    /// Erases the cells from `from` up to, not including, `to`: each of them
    /// holds `0xFF` afterwards.
    ///
    /// Only `to` is held against the capacity. A range with `to <= from` is
    /// empty: the call succeeds and no cell is touched.
    pub fn erase(&mut self, from: u32, to: u32) -> (result: Result<(), CustomError>)
        requires
            old(self).wf(),
        ensures
            final(self).wf(),
            final(self).spec_variant() == old(self).spec_variant(),
            final(self)@.interrupts_enabled == old(self)@.interrupts_enabled,
            match result {
                Ok(()) => {
                    &&& to <= old(self).spec_capacity()
                    &&& final(self)@.cells == cells_after_erase(old(self)@.cells, from as int, to as int)
                    &&& final(self)@.log == old(self)@.log + erase_transactions(from as int, to as int)
                    &&& final(self)@.critical_sections == old(self)@.critical_sections + 1
                },
                Err(error) => {
                    &&& error == CustomError::Bounds
                    &&& to > old(self).spec_capacity()
                    &&& final(self)@ == old(self)@
                },
            },
    {
        if to as usize > self.variant.capacity() {
            return Err(CustomError::Bounds);
        }
        self.erase_range(from, to);
        Ok(())
    }

    /// Erases the cells from `from` up to, not including, `to` as one
    /// transaction with respect to interrupts: they stay masked from before
    /// the first cell until after the last.
    fn erase_range(&mut self, from: u32, to: u32)
        requires
            old(self).wf(),
            to <= old(self).spec_capacity(),
        ensures
            final(self).wf(),
            final(self).spec_variant() == old(self).spec_variant(),
            final(self)@.interrupts_enabled == old(self)@.interrupts_enabled,
            final(self)@.cells == cells_after_erase(old(self)@.cells, from as int, to as int),
            final(self)@.log == old(self)@.log + erase_transactions(from as int, to as int),
            final(self)@.critical_sections == old(self)@.critical_sections + 1,
    {
        let were_enabled = self.device.disable_interrupts();
        let mut address: u32 = from;
        while address < to
            invariant
                self.wf(),
                self.variant == old(self).variant,
                self@.masked(),
                self@.critical_sections == old(self)@.critical_sections + 1,
                were_enabled == old(self)@.interrupts_enabled,
                to <= self.spec_capacity(),
                from <= address,
                address <= to || address == from,
                self@.cells == cells_after_erase(old(self)@.cells, from as int, address as int),
                self@.log == old(self)@.log + erase_transactions(from as int, address as int),
            decreases to - address,
        {
            self.wait_ready();
            self.device.set_address(address as u16);
            self.device.start_program(ProgramMode::EraseOnly);
            assert(erase_transactions(from as int, address + 1) == erase_transactions(
                from as int,
                address as int,
            ).push(Transaction { mode: ProgramMode::EraseOnly, address: address as u16, value: 0xFF }));
            address = address + 1;
        }
        assert(erase_transactions(from as int, address as int) == erase_transactions(
            from as int,
            to as int,
        ));
        self.device.restore_interrupts(were_enabled);
    }

    /// Spins until the transaction in progress, if any, has completed.
    fn wait_ready(&mut self)
        requires
            old(self).wf(),
        ensures
            final(self).wf(),
            final(self)@ == old(self)@.settled(),
            final(self).spec_variant() == old(self).spec_variant(),
    {
        while self.device.write_in_progress()
            invariant
                self.device@.settled() == old(self).device@.settled(),
                self.variant == old(self).variant,
            decreases self.device@.busy_polls,
        {
        }
    }

    /// Reads the cell at `address`.
    fn eeprom_get_char(&mut self, address: u16) -> (value: u8)
        requires
            old(self).wf(),
            old(self)@.masked(),
            (address as int) < old(self).spec_capacity(),
        ensures
            final(self).wf(),
            value == old(self)@.cells[address as int],
            final(self)@ == old(self)@.settled().with_address(address).with_data(value),
            final(self).spec_variant() == old(self).spec_variant(),
    {
        self.wait_ready();
        self.device.set_address(address);
        self.device.start_read();
        self.device.data()
    }

    /// Brings the cell at `address` to hold `data`, with the cheapest
    /// transaction that does so and with none if the cell holds `data`
    /// already.
    fn eeprom_put_char(&mut self, address: u16, data: u8)
        requires
            old(self).wf(),
            old(self)@.masked(),
            (address as int) < old(self).spec_capacity(),
        ensures
            final(self).wf(),
            final(self)@.cells == old(self)@.cells.update(address as int, data),
            final(self)@.log == old(self)@.log + cell_transactions(old(self)@.cells, address as int, data),
            final(self)@.address == address,
            final(self)@.masked(),
            final(self)@.critical_sections == old(self)@.critical_sections,
            final(self).spec_variant() == old(self).spec_variant(),
    {
        self.wait_ready();
        self.device.set_address(address);
        self.device.start_read();
        let old_value = self.device.data();
        proof {
            lemma_required_mode_stores(old_value, data);
        }
        match select_mode(old_value, data) {
            Some(ProgramMode::EraseAndWrite) => {
                self.device.stage_data(data);
                self.device.start_program(ProgramMode::EraseAndWrite);
            },
            Some(ProgramMode::EraseOnly) => {
                self.device.start_program(ProgramMode::EraseOnly);
            },
            Some(ProgramMode::WriteOnly) => {
                self.device.stage_data(data);
                self.device.start_program(ProgramMode::WriteOnly);
            },
            None => {},
        }
    }
}

} // verus!
