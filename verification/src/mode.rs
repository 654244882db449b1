//! Programming modes of the EEPROM and the choice among them.
//!
//! Erasing a cell sets all of its bits; writing can only clear bits. A cell
//! wears with every erase and every write, so the driver picks the cheapest
//! mode that leaves the requested value in the cell, and none at all when the
//! value is already there.

use vstd::prelude::*;

verus! {

/// What one programming transaction does to the addressed cell.
#[derive(Clone, Copy, Debug, PartialEq, Eq, Structural)]
pub enum ProgramMode {
    /// Erase the cell, then write the data register into it.
    EraseAndWrite,
    /// Erase the cell; the data register is ignored.
    EraseOnly,
    /// Clear the bits of the cell that are clear in the data register.
    WriteOnly,
}

impl ProgramMode {
    /// Content of a cell that held `cell` after a transaction in this mode
    /// with `data` in the data register.
    pub open spec fn spec_outcome(self, cell: u8, data: u8) -> u8 {
        match self {
            ProgramMode::EraseAndWrite => data,
            ProgramMode::EraseOnly => 0xFF,
            ProgramMode::WriteOnly => cell & data,
        }
    }

    /// Content of a cell that held `cell` after a transaction in this mode
    /// with `data` in the data register.
    pub fn outcome(self, cell: u8, data: u8) -> (value: u8)
        ensures
            value == self.spec_outcome(cell, data),
    {
        match self {
            ProgramMode::EraseAndWrite => data,
            ProgramMode::EraseOnly => 0xFF,
            ProgramMode::WriteOnly => cell & data,
        }
    }
}

/// Some bit is clear in `old` and set in `new`.
pub open spec fn sets_bits(old: u8, new: u8) -> bool {
    new & !old != 0
}

/// The transaction that turns a cell holding `old` into one holding `new`:
/// none when nothing changes, a write when bits are only cleared, otherwise
/// an erase, combined with a write unless every bit ends up set.
pub open spec fn required_mode(old: u8, new: u8) -> Option<ProgramMode> {
    if old == new {
        None
    } else if !sets_bits(old, new) {
        Some(ProgramMode::WriteOnly)
    } else if new == 0xFF {
        Some(ProgramMode::EraseOnly)
    } else {
        Some(ProgramMode::EraseAndWrite)
    }
}

/// Chooses the transaction that turns a cell holding `old` into one holding
/// `new`.
pub fn select_mode(old: u8, new: u8) -> (mode: Option<ProgramMode>)
    ensures
        mode == required_mode(old, new),
{
    let diff_mask: u8 = old ^ new;
    assert((diff_mask & new != 0) == sets_bits(old, new)) by (bit_vector)
        requires
            diff_mask == old ^ new,
    ;
    assert((diff_mask != 0) == (old != new)) by (bit_vector)
        requires
            diff_mask == old ^ new,
    ;
    assert(sets_bits(old, new) ==> old != new) by (bit_vector);
    if (diff_mask & new) != 0 {
        if new != 0xff {
            Some(ProgramMode::EraseAndWrite)
        } else {
            Some(ProgramMode::EraseOnly)
        }
    } else if diff_mask != 0 {
        Some(ProgramMode::WriteOnly)
    } else {
        None
    }
}

/// The chosen transaction leaves `new` in the cell, and no transaction is
/// chosen only when `new` is already there.
pub proof fn lemma_required_mode_stores(old: u8, new: u8)
    ensures
        match required_mode(old, new) {
            Some(mode) => mode.spec_outcome(old, new) == new,
            None => old == new,
        },
{
    assert(!sets_bits(old, new) ==> old & new == new) by (bit_vector);
}

/// An erase is chosen only where no write could do: when a bit has to be
/// set, a write leaves a value other than `new` whatever is in the data
/// register.
pub proof fn lemma_erase_is_needed(old: u8, new: u8, data: u8)
    requires
        required_mode(old, new) == Some(ProgramMode::EraseOnly) || required_mode(old, new) == Some(
            ProgramMode::EraseAndWrite,
        ),
    ensures
        ProgramMode::WriteOnly.spec_outcome(old, data) != new,
{
    assert(sets_bits(old, new) ==> old & data != new) by (bit_vector);
}

} // verus!
