//! What the storage operations do to the device and which transactions they
//! issue, as functions of the device before the operation.

use crate::device::{DeviceState, Transaction};
use crate::mode::{required_mode, ProgramMode};
use vstd::prelude::*;

verus! {

/// The content of `len` cells from `offset` on.
pub open spec fn cells_read(cells: Seq<u8>, offset: int, len: int) -> Seq<u8>
    recommends
        0 <= offset,
        0 <= len,
        offset + len <= cells.len(),
{
    cells.subrange(offset, offset + len)
}

/// The device after `len` cells from `offset` on were read by rising
/// address, each in a critical section of its own: the registers hold the
/// address and the content of the last of them.
pub open spec fn state_after_read(state: DeviceState, offset: int, len: int) -> DeviceState
    recommends
        0 <= offset,
        0 <= len,
        offset + len <= state.cells.len(),
{
    if len <= 0 {
        state
    } else {
        DeviceState {
            address: (offset + len - 1) as u16,
            data: state.cells[offset + len - 1],
            busy_polls: 0,
            critical_sections: state.critical_sections + len as nat,
            ..state
        }
    }
}

/// The cells after `bytes` were stored from `offset` on.
pub open spec fn cells_after_write(cells: Seq<u8>, offset: int, bytes: Seq<u8>) -> Seq<u8>
    recommends
        0 <= offset,
        offset + bytes.len() <= cells.len(),
{
    Seq::new(
        cells.len(),
        |i: int|
            if offset <= i < offset + bytes.len() {
                bytes[i - offset]
            } else {
                cells[i]
            },
    )
}

/// The cells after those from `from` up to, not including, `to` were erased.
/// Where `to <= from` no cell is.
pub open spec fn cells_after_erase(cells: Seq<u8>, from: int, to: int) -> Seq<u8>
    recommends
        0 <= from,
        to <= cells.len(),
{
    Seq::new(
        cells.len(),
        |i: int|
            if from <= i < to {
                0xFFu8
            } else {
                cells[i]
            },
    )
}

/// The transactions that bringing the cell at `address` from its content in
/// `cells` to `data` takes: one, or none if the cell holds `data` already.
pub open spec fn cell_transactions(cells: Seq<u8>, address: int, data: u8) -> Seq<Transaction>
    recommends
        0 <= address < cells.len(),
{
    match required_mode(cells[address], data) {
        Some(mode) => seq![Transaction { mode, address: address as u16, value: data }],
        None => Seq::empty(),
    }
}

/// The transactions that storing `bytes` from `offset` on takes, in the
/// order in which they are issued: those of each byte in turn, by rising
/// address.
pub open spec fn write_transactions(cells: Seq<u8>, offset: int, bytes: Seq<u8>) -> Seq<Transaction>
    recommends
        0 <= offset,
        offset + bytes.len() <= cells.len(),
    decreases bytes.len(),
{
    if bytes.len() == 0 {
        Seq::empty()
    } else {
        write_transactions(cells, offset, bytes.drop_last()) + cell_transactions(
            cells,
            offset + bytes.len() - 1,
            bytes.last(),
        )
    }
}

/// The transactions that erasing the cells from `from` up to, not including,
/// `to` takes: an erase of each cell, by rising address, whatever it held.
pub open spec fn erase_transactions(from: int, to: int) -> Seq<Transaction> {
    Seq::new(
        if from < to {
            (to - from) as nat
        } else {
            0
        },
        |k: int| Transaction { mode: ProgramMode::EraseOnly, address: (from + k) as u16, value: 0xFF },
    )
}

} // verus!
