//! What holds of the storage operations taken together.
//!
//! Each statement is about the cells before a sequence of operations and
//! uses the functions by which the contracts of [`crate::Eeprom`] describe
//! one operation.

use crate::device::Transaction;
use crate::effects::{
    cell_transactions, cells_after_erase, cells_after_write, cells_read, write_transactions,
};
use crate::mode::required_mode;
use vstd::prelude::*;

verus! {

/// A read after a write of the same range gives the bytes written.
pub proof fn lemma_write_then_read(cells: Seq<u8>, offset: int, bytes: Seq<u8>)
    requires
        0 <= offset,
        offset + bytes.len() <= cells.len(),
    ensures
        cells_read(cells_after_write(cells, offset, bytes), offset, bytes.len() as int) == bytes,
{
}

/// A byte written to a cell is the byte read from it.
pub proof fn lemma_byte_round_trip(cells: Seq<u8>, address: int, value: u8)
    requires
        0 <= address < cells.len(),
    ensures
        cells_read(cells_after_write(cells, address, seq![value]), address, 1) == seq![value],
{
}

/// A write leaves every cell outside its range as it was.
pub proof fn lemma_write_keeps_other_cells(cells: Seq<u8>, offset: int, bytes: Seq<u8>, address: int)
    requires
        0 <= offset,
        offset + bytes.len() <= cells.len(),
        0 <= address < cells.len(),
        address < offset || offset + bytes.len() <= address,
    ensures
        cells_after_write(cells, offset, bytes)[address] == cells[address],
{
}

/// A second write over the same range needs no erase in between: the cells
/// end up as if only the second had been made.
pub proof fn lemma_write_over_write(cells: Seq<u8>, offset: int, first: Seq<u8>, second: Seq<u8>)
    requires
        0 <= offset,
        offset + first.len() <= cells.len(),
        first.len() == second.len(),
    ensures
        cells_after_write(cells_after_write(cells, offset, first), offset, second) == cells_after_write(
            cells,
            offset,
            second,
        ),
{
}

/// A byte written over another, with no erase in between, is the byte read.
pub proof fn lemma_byte_overwrite(cells: Seq<u8>, address: int, first: u8, second: u8)
    requires
        0 <= address < cells.len(),
    ensures
        cells_read(
            cells_after_write(cells_after_write(cells, address, seq![first]), address, seq![second]),
            address,
            1,
        ) == seq![second],
{
}

/// Storing bytes in cells that hold them already issues no transaction.
pub proof fn lemma_write_of_same_is_free(cells: Seq<u8>, offset: int, bytes: Seq<u8>)
    requires
        0 <= offset,
        offset + bytes.len() <= cells.len(),
        cells_read(cells, offset, bytes.len() as int) == bytes,
    ensures
        write_transactions(cells, offset, bytes) == Seq::<Transaction>::empty(),
    decreases bytes.len(),
{
    if bytes.len() > 0 {
        let front = bytes.drop_last();
        assert(cells_read(cells, offset, front.len() as int) == front) by {
            assert forall|i: int| 0 <= i < front.len() implies cells_read(
                cells,
                offset,
                front.len() as int,
            )[i] == front[i] by {
                assert(cells_read(cells, offset, bytes.len() as int)[i] == bytes[i]);
            }
        }
        lemma_write_of_same_is_free(cells, offset, front);
        let last = bytes.len() - 1;
        assert(cells[offset + last] == bytes.last()) by {
            assert(cells_read(cells, offset, bytes.len() as int)[last] == bytes[last]);
        }
        assert(cell_transactions(cells, offset + last, bytes.last()) == Seq::<Transaction>::empty());
    }
}

/// Writing the same bytes a second time issues no transaction.
pub proof fn lemma_second_write_is_free(cells: Seq<u8>, offset: int, bytes: Seq<u8>)
    requires
        0 <= offset,
        offset + bytes.len() <= cells.len(),
    ensures
        write_transactions(cells_after_write(cells, offset, bytes), offset, bytes) == Seq::<
            Transaction,
        >::empty(),
{
    lemma_write_then_read(cells, offset, bytes);
    lemma_write_of_same_is_free(cells_after_write(cells, offset, bytes), offset, bytes);
}

/// Writing one byte issues one transaction where the cell holds another
/// value and none where it holds that byte; writing it once more issues
/// none.
pub proof fn lemma_byte_written_twice(cells: Seq<u8>, address: int, value: u8)
    requires
        0 <= address < cells.len(),
    ensures
        write_transactions(cells, address, seq![value]) == cell_transactions(cells, address, value),
        cells[address] != value ==> write_transactions(cells, address, seq![value]).len() == 1,
        cells[address] == value ==> write_transactions(cells, address, seq![value]).len() == 0,
        write_transactions(cells_after_write(cells, address, seq![value]), address, seq![value]).len()
            == 0,
{
    let bytes = seq![value];
    assert(bytes.drop_last() == Seq::<u8>::empty());
    assert(write_transactions(cells, address, bytes.drop_last()) == Seq::<Transaction>::empty());
    assert(write_transactions(cells, address, bytes) == Seq::<Transaction>::empty() + cell_transactions(
        cells,
        address,
        value,
    ));
    assert(required_mode(cells[address], value) is None <==> cells[address] == value);
    lemma_second_write_is_free(cells, address, bytes);
}

/// A read after an erase of the same range gives `0xFF` for every cell.
pub proof fn lemma_erase_then_read(cells: Seq<u8>, from: int, to: int)
    requires
        0 <= from <= to <= cells.len(),
    ensures
        cells_read(cells_after_erase(cells, from, to), from, to - from) == Seq::new(
            (to - from) as nat,
            |i: int| 0xFFu8,
        ),
{
}

/// An erased cell reads as `0xFF`.
pub proof fn lemma_byte_erase_then_read(cells: Seq<u8>, address: int)
    requires
        0 <= address < cells.len(),
    ensures
        cells_read(cells_after_erase(cells, address, address + 1), address, 1) == seq![0xFFu8],
{
}

/// An erase leaves every cell outside its range as it was.
pub proof fn lemma_erase_keeps_other_cells(cells: Seq<u8>, from: int, to: int, address: int)
    requires
        0 <= address < cells.len(),
        address < from || to <= address,
    ensures
        cells_after_erase(cells, from, to)[address] == cells[address],
{
}

} // verus!
