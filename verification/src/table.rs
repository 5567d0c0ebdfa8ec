//! Cells of the wave table.
//!
//! The table holds one period of the waveform and is read cyclically: the
//! cell after the last one is the first.
use vstd::prelude::*;

verus! {

/// Number of samples in one period of the stored waveform.
pub const WAVE_TABLE_SIZE: usize = 128;

/// The cell read after `index` in cyclic order.
pub open spec fn next_cell(index: int) -> int {
    (index + 1) % (WAVE_TABLE_SIZE as int)
}

/// Reading never leaves the table: the successor of a cell is a cell.
pub proof fn lemma_next_cell_in_table(index: int)
    requires
        0 <= index < WAVE_TABLE_SIZE,
    ensures
        0 <= next_cell(index) < WAVE_TABLE_SIZE,
{
}

/// The successor is the following cell, except that the last cell is
/// followed by the first.
pub proof fn lemma_next_cell_wraps(index: int)
    requires
        0 <= index < WAVE_TABLE_SIZE,
    ensures
        index + 1 < WAVE_TABLE_SIZE ==> next_cell(index) == index + 1,
        index + 1 == WAVE_TABLE_SIZE ==> next_cell(index) == 0,
{
}

/// Index of the cell that follows `index` in cyclic order.
pub fn next_index(index: usize) -> (next: usize)
    requires
        index < WAVE_TABLE_SIZE,
    ensures
        next == next_cell(index as int),
        next < WAVE_TABLE_SIZE,
{
    (index + 1) % WAVE_TABLE_SIZE
}

/// The two samples between which a read position is interpolated.
///
/// `truncated_index` is the whole part of the read position. The first
/// sample is the cell at that index, the second the cell after it in cyclic
/// order, so a position in the last cell is interpolated towards the first.
pub fn lerp_cells<S: Copy>(table: &[S; WAVE_TABLE_SIZE], truncated_index: usize) -> (cells: (S, S))
    requires
        truncated_index < WAVE_TABLE_SIZE,
    ensures
        cells.0 == table@[truncated_index as int],
        cells.1 == table@[next_cell(truncated_index as int)],
{
    let next: usize = next_index(truncated_index);
    (table[truncated_index], table[next])
}

} // verus!
