//! Verified state and bookkeeping for a fixed-size wavetable oscillator.
//!
//! A wavetable oscillator stores one period of a waveform in a table of
//! `WAVE_TABLE_SIZE` samples and plays it back by moving a fractional read
//! position through the table. The library is generic in the sample type and
//! leaves the sample arithmetic to the caller. It holds what does not depend
//! on that arithmetic: the oscillator's state and what each operation sets
//! or keeps, how many overtone slots are occupied, and which two table cells
//! a read position falls between.
use vstd::prelude::*;

pub mod oscillator;
pub mod overtones;
pub mod table;

pub use oscillator::Oscillator;
pub use overtones::count_present;
pub use overtones::OVERTONE_SLOTS;
pub use table::lerp_cells;
pub use table::next_index;
pub use table::WAVE_TABLE_SIZE;
