//! The perturbation engine: recompute every cell's offset and rotation from a
//! freshly re-seeded random sequence.
//!
//! Draws are consumed strictly in row-major cell order, three per cell
//! (x-offset, then y-offset, then rotation), so the cell at position `i`
//! consumes draws `3*i`, `3*i + 1` and `3*i + 2` of the seed's stream. The
//! per-cell magnitude grows with the row: the stored perturbation is the
//! exact product `row * adjustment * draw`, zero for the whole top row.

use vstd::prelude::*;

verus! {

use crate::grid::{Cell, GridModel};
use crate::random::{RandomSequence, bounded_draw};
use crate::{COLUMNS, OFFSET_HALF, ROTATION_HALF, ROWS};

/// The draw at position `index` of `seed`'s stream, centered on zero:
/// a value in `[-half, half)`.
pub open spec fn centered_draw(seed: u64, index: int, half: int) -> int {
    bounded_draw(seed, index, -half, half)
}

/// Row of the cell at position `i` in row-major order.
pub open spec fn row_of(i: int) -> int {
    i / (COLUMNS as int)
}

/// The x-offset that a regeneration with `seed` and displacement adjustment
/// `d_adj` gives the cell at position `i`: the exact product of the row, the
/// adjustment (in tenths) and the first of the cell's three draws.
pub open spec fn offset_x_spec(seed: u64, d_adj: u32, i: int) -> int {
    row_of(i) * (d_adj as int) * centered_draw(seed, 3 * i, OFFSET_HALF as int)
}

/// The y-offset: as [`offset_x_spec`], with the cell's second draw.
pub open spec fn offset_y_spec(seed: u64, d_adj: u32, i: int) -> int {
    row_of(i) * (d_adj as int) * centered_draw(seed, 3 * i + 1, OFFSET_HALF as int)
}

/// The rotation that a regeneration with `seed` and rotation adjustment
/// `r_adj` gives the cell at position `i`: the exact product of the row, the
/// adjustment (in tenths) and the cell's third draw (in microradians).
pub open spec fn rotation_spec(seed: u64, r_adj: u32, i: int) -> int {
    row_of(i) * (r_adj as int) * centered_draw(seed, 3 * i + 2, ROTATION_HALF as int)
}

/// Every cell carries exactly the perturbation that `seed` and the two
/// adjustments prescribe for its position: the outcome of one complete
/// regeneration pass.
pub open spec fn cells_regenerated(cells: Seq<Cell>, seed: u64, d_adj: u32, r_adj: u32) -> bool {
    forall|i: int|
        0 <= i < cells.len() ==> {
            &&& (#[trigger] cells[i]).offset_x == offset_x_spec(seed, d_adj, i)
            &&& cells[i].offset_y == offset_y_spec(seed, d_adj, i)
            &&& cells[i].rotation == rotation_spec(seed, r_adj, i)
        }
}

/// Recompute every cell's offset and rotation from a random sequence freshly
/// seeded with `model.seed`. The pass is total: it overwrites every cell, and
/// positions, seed and adjustments are left untouched.
pub fn regenerate(model: &mut GridModel)
    requires
        old(model).wf(),
    ensures
        final(model).wf(),
        final(model).seed == old(model).seed,
        final(model).displacement_adjustment == old(model).displacement_adjustment,
        final(model).rotation_adjustment == old(model).rotation_adjustment,
        final(model).cells@.len() == old(model).cells@.len(),
        forall|i: int|
            0 <= i < final(model).cells@.len() ==> {
                &&& (#[trigger] final(model).cells@[i]).row == old(model).cells@[i].row
                &&& final(model).cells@[i].col == old(model).cells@[i].col
            },
        cells_regenerated(
            final(model).cells@,
            old(model).seed,
            old(model).displacement_adjustment,
            old(model).rotation_adjustment,
        ),
{
    let ghost seed = model.seed;
    let ghost d_adj = model.displacement_adjustment;
    let ghost r_adj = model.rotation_adjustment;
    let ghost cells0 = model.cells@;
    let mut rs = RandomSequence::new(model.seed);
    let mut i: usize = 0;
    while i < model.cells.len()
        invariant
            model.wf(),
            model.seed == seed,
            model.displacement_adjustment == d_adj,
            model.rotation_adjustment == r_adj,
            model.cells@.len() == cells0.len(),
            i <= model.cells@.len(),
            rs.seed() == seed,
            rs.drawn() == 3 * i,
            forall|j: int|
                0 <= j < model.cells@.len() ==> {
                    &&& (#[trigger] model.cells@[j]).row == cells0[j].row
                    &&& model.cells@[j].col == cells0[j].col
                },
            forall|j: int|
                0 <= j < i ==> {
                    &&& (#[trigger] model.cells@[j]).offset_x == offset_x_spec(seed, d_adj, j)
                    &&& model.cells@[j].offset_y == offset_y_spec(seed, d_adj, j)
                    &&& model.cells@[j].rotation == rotation_spec(seed, r_adj, j)
                },
        decreases model.cells@.len() - i,
    {
        let mut cell = model.cells[i];
        let dx = rs.next_in_range(-OFFSET_HALF, OFFSET_HALF);
        let dy = rs.next_in_range(-OFFSET_HALF, OFFSET_HALF);
        let dr = rs.next_in_range(-ROTATION_HALF, ROTATION_HALF);
        assert(cell.row < ROWS);
        let row = cell.row as i64;
        let d = model.displacement_adjustment as i64;
        let r = model.rotation_adjustment as i64;
        assert(0 <= row * d <= (ROWS as int) * (u32::MAX as int)) by (nonlinear_arith)
            requires
                0 <= row < ROWS as int,
                0 <= d <= u32::MAX as int,
        ;
        assert(0 <= row * r <= (ROWS as int) * (u32::MAX as int)) by (nonlinear_arith)
            requires
                0 <= row < ROWS as int,
                0 <= r <= u32::MAX as int,
        ;
        let row_d = row * d;
        let row_r = row * r;
        assert(-(ROWS as int) * (u32::MAX as int) * (OFFSET_HALF as int) <= row_d * dx
            <= (ROWS as int) * (u32::MAX as int) * (OFFSET_HALF as int)) by (nonlinear_arith)
            requires
                0 <= row_d <= (ROWS as int) * (u32::MAX as int),
                -(OFFSET_HALF as int) <= dx < OFFSET_HALF as int,
        ;
        assert(-(ROWS as int) * (u32::MAX as int) * (OFFSET_HALF as int) <= row_d * dy
            <= (ROWS as int) * (u32::MAX as int) * (OFFSET_HALF as int)) by (nonlinear_arith)
            requires
                0 <= row_d <= (ROWS as int) * (u32::MAX as int),
                -(OFFSET_HALF as int) <= dy < OFFSET_HALF as int,
        ;
        assert(-(ROWS as int) * (u32::MAX as int) * (ROTATION_HALF as int) <= row_r * dr
            <= (ROWS as int) * (u32::MAX as int) * (ROTATION_HALF as int)) by (nonlinear_arith)
            requires
                0 <= row_r <= (ROWS as int) * (u32::MAX as int),
                -(ROTATION_HALF as int) <= dr < ROTATION_HALF as int,
        ;
        cell.offset_x = row_d * dx;
        cell.offset_y = row_d * dy;
        cell.rotation = row_r * dr;
        model.cells.set(i, cell);
        i += 1;
    }
}

} // verus!
