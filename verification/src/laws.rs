//! The library's general laws, stated and proved once for all inputs.

use vstd::prelude::*;

verus! {

use crate::controller::{Command, adjust_step, dec_tenth};
use crate::engine::{
    cells_regenerated, centered_draw, offset_x_spec, offset_y_spec, row_of, rotation_spec,
};
use crate::grid::{Cell, GridModel, unperturbed};
use crate::{ADJ_ONE, OFFSET_HALF};

/// Determinism: two regenerations from the same seed and the same adjustments
/// give the same cells, field for field, whatever the models' histories were.
pub proof fn lemma_regeneration_deterministic(
    c1: Seq<Cell>,
    c2: Seq<Cell>,
    seed: u64,
    d_adj: u32,
    r_adj: u32,
)
    requires
        c1.len() == c2.len(),
        forall|i: int|
            0 <= i < c1.len() ==> (#[trigger] c1[i]).row == c2[i].row && c1[i].col == c2[i].col,
        cells_regenerated(c1, seed, d_adj, r_adj),
        cells_regenerated(c2, seed, d_adj, r_adj),
    ensures
        c1 == c2,
{
    assert forall|i: int| 0 <= i < c1.len() implies c1[i] == c2[i] by {
        assert(c1[i].offset_x == offset_x_spec(seed, d_adj, i));
        assert(c2[i].offset_x == offset_x_spec(seed, d_adj, i));
    }
    assert(c1 =~= c2);
}

/// Top-row invariance: a cell of row 0 is never perturbed, whatever the seed
/// and the adjustments, because its row factor is zero.
pub proof fn lemma_top_row_unperturbed(m: GridModel, seed: u64, d_adj: u32, r_adj: u32, i: int)
    requires
        m.wf(),
        cells_regenerated(m.cells@, seed, d_adj, r_adj),
        0 <= i < m.cells@.len(),
        m.cells@[i].row == 0,
    ensures
        unperturbed(m.cells@[i]),
{
    assert(m.cells@[i].offset_x == offset_x_spec(seed, d_adj, i));
    assert(m.cells@[i].offset_y == offset_y_spec(seed, d_adj, i));
    assert(m.cells@[i].rotation == rotation_spec(seed, r_adj, i));
    assert(row_of(i) == 0);
    assert(offset_x_spec(seed, d_adj, i) == 0) by (nonlinear_arith)
        requires
            row_of(i) == 0,
    ;
    assert(offset_y_spec(seed, d_adj, i) == 0) by (nonlinear_arith)
        requires
            row_of(i) == 0,
    ;
    assert(rotation_spec(seed, r_adj, i) == 0) by (nonlinear_arith)
        requires
            row_of(i) == 0,
    ;
}

/// Repeatedly lowering an adjustment, as the decrease commands do.
pub open spec fn dec_tenth_n(a: u32, n: nat) -> u32
    decreases n,
{
    if n == 0 {
        a
    } else {
        dec_tenth(dec_tenth_n(a, (n - 1) as nat))
    }
}

/// Adjustment floor: however often a decrease command is applied to an
/// adjustment that stands at exactly zero, it stays at exactly zero — the
/// command is a no-op there, and an adjustment (an unsigned count of tenths)
/// can never be negative.
pub proof fn lemma_adjustment_floor(n: nat)
    ensures
        dec_tenth_n(0, n) == 0,
    decreases n,
{
    if n > 0 {
        lemma_adjustment_floor((n - 1) as nat);
    }
}

/// Monotonic scaling: with the same seed, doubling the displacement
/// adjustment exactly doubles every cell's offsets, because the underlying
/// draw at each position is identical and only the scalar changes.
pub proof fn lemma_displacement_doubling(
    c1: Seq<Cell>,
    c2: Seq<Cell>,
    seed: u64,
    d_adj: u32,
    d2_adj: u32,
    r_adj: u32,
    i: int,
)
    requires
        d2_adj == 2 * d_adj,
        cells_regenerated(c1, seed, d_adj, r_adj),
        cells_regenerated(c2, seed, d2_adj, r_adj),
        0 <= i < c1.len(),
        i < c2.len(),
    ensures
        c2[i].offset_x == 2 * c1[i].offset_x,
        c2[i].offset_y == 2 * c1[i].offset_y,
{
    let dx = centered_draw(seed, 3 * i, OFFSET_HALF as int);
    let dy = centered_draw(seed, 3 * i + 1, OFFSET_HALF as int);
    assert(row_of(i) * (d2_adj as int) * dx == 2 * (row_of(i) * (d_adj as int) * dx))
        by (nonlinear_arith)
        requires
            d2_adj as int == 2 * (d_adj as int),
    ;
    assert(row_of(i) * (d2_adj as int) * dy == 2 * (row_of(i) * (d_adj as int) * dy))
        by (nonlinear_arith)
        requires
            d2_adj as int == 2 * (d_adj as int),
    ;
}

/// Where any sequence of commands leaves the pair of adjustments, stepping
/// with [`adjust_step`] from `(d, r)`.
pub open spec fn adjustments_after(d: u32, r: u32, cmds: Seq<Command>) -> (u32, u32)
    decreases cmds.len(),
{
    if cmds.len() == 0 {
        (d, r)
    } else {
        let prev = adjustments_after(d, r, cmds.drop_last());
        adjust_step(prev.0, prev.1, cmds.last())
    }
}

/// Reset correctness: after any sequence of commands, a reset leaves both
/// adjustments at exactly 1.0.
pub proof fn lemma_reset_correct(d: u32, r: u32, cmds: Seq<Command>)
    ensures
        ({
            let prev = adjustments_after(d, r, cmds);
            adjust_step(prev.0, prev.1, Command::ResetAdjustments) == (ADJ_ONE, ADJ_ONE)
        }),
{
}

} // verus!
