use vstd::prelude::*;

verus! {

/// Histogram bins per RGB channel used by palette extraction.
pub const BIN_COUNT: usize = 16;

/// Width, in 8-bit channel steps, of one histogram bin.
pub const BIN_WIDTH: usize = 256 / BIN_COUNT;

/// Number of cells of the palette-extraction histogram.
pub const HISTOGRAM_SIZE: usize = BIN_COUNT * BIN_COUNT * BIN_COUNT;

/// Lookup-grid vertices per RGB channel used by colour transfer.
pub const TRANSFER_BIN_COUNT: usize = 32;

/// Width, in 8-bit channel steps, of one lookup-grid cell.
pub const TRANSFER_BIN_WIDTH: usize = 256 / TRANSFER_BIN_COUNT;

/// Number of vertices of the lookup grid.
pub const LUT_SIZE: usize = TRANSFER_BIN_COUNT * TRANSFER_BIN_COUNT * TRANSFER_BIN_COUNT;

/// Palette size.
pub const K: usize = 5;

/// Number of unknowns, and of equations, of the blending system.
pub const K_SQUARED: usize = K * K;

/// Number of channel values in a palette of `K` interleaved colours.
pub const PALETTE_VALUES: usize = 3 * K;

} // verus!
