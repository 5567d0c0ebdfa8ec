//! State of a phase-accumulating oscillator.
//!
//! An oscillator owns a wave table and a read position that moves through it
//! by a fixed increment per sample. The library is generic in the sample type
//! `S`, so it cannot take the whole part of a position itself: the whole part
//! is kept beside the position as an index, and the oscillator guarantees
//! that this index always lies in the table. Each operation sets the fields
//! it is about and leaves every other field as it was.
use vstd::prelude::*;
use crate::table::lerp_cells;
use crate::table::next_cell;
use crate::table::WAVE_TABLE_SIZE;

verus! {

/// A wave table with a read position and a per-sample increment, in sample
/// type `S`.
pub struct Oscillator<S> {
    sample_rate: u32,
    wave_table: [S; WAVE_TABLE_SIZE],
    index: S,
    index_increment: S,
    truncated_index: usize,
}

/// What an oscillator holds.
pub struct OscillatorView<S> {
    /// Samples per second, fixed at construction.
    pub sample_rate: u32,
    /// One period of the waveform.
    pub wave_table: Seq<S>,
    /// The read position.
    pub index: S,
    /// The step added to the position for each sample.
    pub index_increment: S,
    /// The whole part of the read position: the cell it falls in.
    pub truncated_index: nat,
}

impl<S> View for Oscillator<S> {
    type V = OscillatorView<S>;

    closed spec fn view(&self) -> OscillatorView<S> {
        OscillatorView {
            sample_rate: self.sample_rate,
            wave_table: self.wave_table@,
            index: self.index,
            index_increment: self.index_increment,
            truncated_index: self.truncated_index as nat,
        }
    }
}

impl<S> Oscillator<S> {
    #[verifier::type_invariant]
    spec fn position_in_table(self) -> bool {
        self.truncated_index < WAVE_TABLE_SIZE
    }

    /// The table of every oscillator holds exactly one period of
    /// `WAVE_TABLE_SIZE` samples.
    pub proof fn lemma_table_length(self)
        ensures
            self@.wave_table.len() == WAVE_TABLE_SIZE,
    {
    }
}

impl<S: Copy> Oscillator<S> {
    /// An oscillator at rest at the start of `wave_table`.
    ///
    /// `zero` is the sample-typed zero: both the position and the increment
    /// start from it, so the position stays in the first cell until an
    /// increment is set.
    pub fn new(sample_rate: u32, wave_table: [S; WAVE_TABLE_SIZE], zero: S) -> (osc: Self)
        ensures
            osc@.sample_rate == sample_rate,
            osc@.wave_table == wave_table@,
            osc@.index == zero,
            osc@.index_increment == zero,
            osc@.truncated_index == 0,
    {
        Oscillator { sample_rate, wave_table, index: zero, index_increment: zero, truncated_index: 0 }
    }

    /// Replaces the whole table. The position and the increment are kept, so
    /// playback goes on from the same place in the new table.
    pub fn set_wave_table(&mut self, wave_table: [S; WAVE_TABLE_SIZE])
        ensures
            final(self)@.wave_table == wave_table@,
            final(self)@.sample_rate == old(self)@.sample_rate,
            final(self)@.index == old(self)@.index,
            final(self)@.index_increment == old(self)@.index_increment,
            final(self)@.truncated_index == old(self)@.truncated_index,
    {
        proof {
            use_type_invariant(&*self);
        }
        self.wave_table = wave_table;
    }

    /// Sets the step taken per sample. The position and the table are kept:
    /// the new step takes effect with the next advance.
    pub fn set_increment(&mut self, index_increment: S)
        ensures
            final(self)@.index_increment == index_increment,
            final(self)@.sample_rate == old(self)@.sample_rate,
            final(self)@.wave_table == old(self)@.wave_table,
            final(self)@.index == old(self)@.index,
            final(self)@.truncated_index == old(self)@.truncated_index,
    {
        proof {
            use_type_invariant(&*self);
        }
        self.index_increment = index_increment;
    }

    /// Moves the read position to `index`, whose whole part is
    /// `truncated_index`. The table and the increment are kept.
    pub fn set_index(&mut self, index: S, truncated_index: usize)
        requires
            truncated_index < WAVE_TABLE_SIZE,
        ensures
            final(self)@.index == index,
            final(self)@.truncated_index == truncated_index,
            final(self)@.sample_rate == old(self)@.sample_rate,
            final(self)@.wave_table == old(self)@.wave_table,
            final(self)@.index_increment == old(self)@.index_increment,
    {
        proof {
            use_type_invariant(&*self);
        }
        self.index = index;
        self.truncated_index = truncated_index;
    }

    /// The two samples between which the current position is interpolated:
    /// the cell the position falls in and the cell after it in cyclic order.
    ///
    /// Whatever was done to the oscillator before, both reads lie in the
    /// table.
    pub fn cells(&self) -> (cells: (S, S))
        ensures
            self@.truncated_index < WAVE_TABLE_SIZE,
            0 <= next_cell(self@.truncated_index as int) < WAVE_TABLE_SIZE,
            cells.0 == self@.wave_table[self@.truncated_index as int],
            cells.1 == self@.wave_table[next_cell(self@.truncated_index as int)],
    {
        proof {
            use_type_invariant(self);
        }
        lerp_cells(&self.wave_table, self.truncated_index)
    }

    /// Samples per second.
    pub fn sample_rate(&self) -> (rate: u32)
        ensures
            rate == self@.sample_rate,
    {
        self.sample_rate
    }

    /// The table that is read.
    pub fn wave_table(&self) -> (table: &[S; WAVE_TABLE_SIZE])
        ensures
            table@ == self@.wave_table,
    {
        &self.wave_table
    }

    /// The read position.
    pub fn index(&self) -> (index: S)
        ensures
            index == self@.index,
    {
        self.index
    }

    /// The step added to the position for each sample.
    pub fn index_increment(&self) -> (index_increment: S)
        ensures
            index_increment == self@.index_increment,
    {
        self.index_increment
    }

    /// The whole part of the read position, always an index into the table.
    pub fn truncated_index(&self) -> (truncated_index: usize)
        ensures
            truncated_index == self@.truncated_index,
            truncated_index < WAVE_TABLE_SIZE,
    {
        proof {
            use_type_invariant(self);
        }
        self.truncated_index
    }
}

} // verus!
