//! The grid data model: cells and the aggregate grid state.

use vstd::prelude::*;

verus! {

use crate::{ADJ_ONE, COLUMNS, GRID_CELLS, SEED_MAX};

/// One grid square: its fixed position in the grid and the perturbation
/// computed by the most recent regeneration.
///
/// `offset_x` and `offset_y` are stored as the exact integer product
/// `row * displacement_adjustment * draw`, where the draw is counted in
/// millionths of a cell side and the adjustment in tenths; `rotation` is the
/// product `row * rotation_adjustment * draw` with the draw in microradians.
/// Keeping the exact numerator (instead of a rounded quotient) is what makes
/// reproducibility and scaling properties hold exactly; a renderer divides by
/// `ROWS * ADJ_ONE` and the draw scale to recover the real-valued quantities.
#[derive(Clone, Copy, Debug, PartialEq, Eq, Structural)]
pub struct Cell {
    /// Row index, fixed at construction; row 0 is the top row.
    pub row: u32,
    /// Column index, fixed at construction.
    pub col: u32,
    /// Horizontal perturbation of the drawn center.
    pub offset_x: i64,
    /// Vertical perturbation of the drawn center.
    pub offset_y: i64,
    /// Rotation of the drawn square.
    pub rotation: i64,
}

/// A cell whose perturbation has not been computed yet (or has been computed
/// as zero) sits exactly on its grid position.
pub open spec fn unperturbed(c: Cell) -> bool {
    c.offset_x == 0 && c.offset_y == 0 && c.rotation == 0
}

impl Cell {
    /// A fresh, unperturbed cell at the given grid position.
    pub fn new(row: u32, col: u32) -> (c: Cell)
        ensures
            c.row == row,
            c.col == col,
            unperturbed(c),
    {
        Cell { row, col, offset_x: 0, offset_y: 0, rotation: 0 }
    }
}

/// The aggregate grid state: the seed, the two global adjustment multipliers
/// (in tenths), and the cells in row-major order.
pub struct GridModel {
    /// Seed of the random sequence that the next regeneration will consume.
    pub seed: u64,
    /// Global multiplier on offsets, in tenths (`ADJ_ONE` = 1.0).
    pub displacement_adjustment: u32,
    /// Global multiplier on rotations, in tenths (`ADJ_ONE` = 1.0).
    pub rotation_adjustment: u32,
    /// All cells, in row-major order (row 0 col 0, row 0 col 1, ...).
    pub cells: Vec<Cell>,
}

impl GridModel {
    /// The structural invariant: the seed is in range and the cells form the
    /// full grid in row-major order. Row-major order is load-bearing: it
    /// decides which random draws land on which cell.
    pub open spec fn wf(self) -> bool {
        &&& self.seed < SEED_MAX
        &&& self.cells@.len() == GRID_CELLS
        &&& forall|i: int|
            0 <= i < self.cells@.len() ==> {
                &&& (#[trigger] self.cells@[i]).row == i / (COLUMNS as int)
                &&& self.cells@[i].col == i % (COLUMNS as int)
            }
    }

    /// A fresh model: the given seed, both adjustments at 1.0, and a full
    /// grid of unperturbed cells.
    pub fn new(seed: u64) -> (m: GridModel)
        requires
            seed < SEED_MAX,
        ensures
            m.wf(),
            m.seed == seed,
            m.displacement_adjustment == ADJ_ONE,
            m.rotation_adjustment == ADJ_ONE,
            forall|i: int| 0 <= i < m.cells@.len() ==> unperturbed(#[trigger] m.cells@[i]),
    {
        let mut cells: Vec<Cell> = Vec::new();
        let mut i: u32 = 0;
        while i < GRID_CELLS
            invariant
                i <= GRID_CELLS,
                cells@.len() == i,
                forall|j: int|
                    0 <= j < i ==> {
                        &&& (#[trigger] cells@[j]).row == j / (COLUMNS as int)
                        &&& cells@[j].col == j % (COLUMNS as int)
                        &&& unperturbed(cells@[j])
                    },
            decreases GRID_CELLS - i,
        {
            cells.push(Cell::new(i / COLUMNS, i % COLUMNS));
            i += 1;
        }
        GridModel { seed, displacement_adjustment: ADJ_ONE, rotation_adjustment: ADJ_ONE, cells }
    }

    /// Replace the seed, leaving adjustments and cells untouched. The cells
    /// keep the perturbation of the previous regeneration until the next one.
    pub fn set_seed(&mut self, seed: u64)
        requires
            old(self).wf(),
            seed < SEED_MAX,
        ensures
            final(self).wf(),
            final(self).seed == seed,
            final(self).displacement_adjustment == old(self).displacement_adjustment,
            final(self).rotation_adjustment == old(self).rotation_adjustment,
            final(self).cells@ == old(self).cells@,
    {
        self.seed = seed;
    }
}

} // verus!
