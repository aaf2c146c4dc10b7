//! A procedurally perturbed grid of unit squares.
//!
//! A fixed `ROWS x COLUMNS` grid of cells is perturbed by a deterministic,
//! seeded random sequence: each cell receives an offset and a rotation whose
//! magnitude grows with the cell's row and with two user-adjustable global
//! multipliers. All quantities are exact fixed-point integers, so every
//! regeneration is reproducible bit for bit from the seed and the adjustments.

use vstd::prelude::*;

pub mod controller;
pub mod engine;
pub mod grid;
pub mod laws;
pub mod random;

verus! {

/// Number of rows in the grid.
pub const ROWS: u32 = 25;

/// Number of columns in the grid.
pub const COLUMNS: u32 = 15;

/// Total number of cells, in row-major order.
pub const GRID_CELLS: u32 = ROWS * COLUMNS;

/// Seeds are drawn from `[0, SEED_MAX)`.
pub const SEED_MAX: u64 = 100_000_000;

/// Adjustments are counted in tenths: `ADJ_ONE` stands for a multiplier of 1.0,
/// and each increase or decrease command moves an adjustment by one tenth.
pub const ADJ_ONE: u32 = 10;

/// Half a cell side, in millionths of a side: the raw offset draw for each
/// axis lies in `[-OFFSET_HALF, OFFSET_HALF)`.
pub const OFFSET_HALF: i64 = 500_000;

/// A quarter turn counted in microradians (pi/4, rounded down): the raw
/// rotation draw lies in `[-ROTATION_HALF, ROTATION_HALF)`.
pub const ROTATION_HALF: i64 = 785_398;

} // verus!
