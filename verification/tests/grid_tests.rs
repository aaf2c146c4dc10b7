use grid_perturb::controller::{apply, startup_model, Command, Outcome};
use grid_perturb::engine::regenerate;
use grid_perturb::grid::GridModel;
use grid_perturb::{ADJ_ONE, COLUMNS, GRID_CELLS, ROWS, SEED_MAX};

#[test]
fn fresh_model_shape() {
    let m = GridModel::new(42);
    assert_eq!(m.seed, 42);
    assert_eq!(m.displacement_adjustment, ADJ_ONE);
    assert_eq!(m.rotation_adjustment, ADJ_ONE);
    assert_eq!(m.cells.len(), GRID_CELLS as usize);
    for (i, c) in m.cells.iter().enumerate() {
        assert_eq!(c.row, i as u32 / COLUMNS);
        assert_eq!(c.col, i as u32 % COLUMNS);
        assert_eq!(c.offset_x, 0);
        assert_eq!(c.offset_y, 0);
        assert_eq!(c.rotation, 0);
    }
}

#[test]
fn determinism_same_seed_same_cells() {
    let mut a = GridModel::new(7);
    let mut b = GridModel::new(7);
    regenerate(&mut a);
    regenerate(&mut b);
    assert_eq!(a.cells, b.cells);
    // Regenerating again with unchanged state reproduces the same cells.
    let snapshot = a.cells.clone();
    regenerate(&mut a);
    assert_eq!(a.cells, snapshot);
}

#[test]
fn top_row_never_perturbed() {
    let mut m = GridModel::new(99_999_999);
    apply(&mut m, Command::IncreaseDisplacement);
    apply(&mut m, Command::IncreaseRotation);
    for c in &m.cells {
        if c.row == 0 {
            assert_eq!(c.offset_x, 0);
            assert_eq!(c.offset_y, 0);
            assert_eq!(c.rotation, 0);
        }
    }
}

#[test]
fn lower_rows_are_perturbed() {
    // The draws are real: with seed 7 and adjustments 1.0 some cell below the
    // top row must move. This fails if the sequence hands back constants.
    let mut m = GridModel::new(7);
    regenerate(&mut m);
    let moved = m
        .cells
        .iter()
        .any(|c| c.row > 0 && (c.offset_x != 0 || c.offset_y != 0 || c.rotation != 0));
    assert!(moved);
}

#[test]
fn adjustment_floor_is_exact() {
    let mut m = GridModel::new(5);
    for _ in 0..ADJ_ONE {
        let out = apply(&mut m, Command::DecreaseDisplacement);
        assert_eq!(out, Outcome::Redrawn);
    }
    assert_eq!(m.displacement_adjustment, 0);
    // At exactly zero the command is a silent no-op and the model is untouched.
    let before = m.cells.clone();
    for _ in 0..5 {
        let out = apply(&mut m, Command::DecreaseDisplacement);
        assert_eq!(out, Outcome::NoEffect);
        assert_eq!(m.displacement_adjustment, 0);
    }
    assert_eq!(m.cells, before);

    for _ in 0..ADJ_ONE {
        assert_eq!(apply(&mut m, Command::DecreaseRotation), Outcome::Redrawn);
    }
    assert_eq!(m.rotation_adjustment, 0);
    assert_eq!(apply(&mut m, Command::DecreaseRotation), Outcome::NoEffect);
    assert_eq!(m.rotation_adjustment, 0);
}

#[test]
fn doubling_displacement_doubles_offsets() {
    let mut a = GridModel::new(1234);
    let mut b = GridModel::new(1234);
    b.displacement_adjustment = 2 * a.displacement_adjustment;
    regenerate(&mut a);
    regenerate(&mut b);
    for (ca, cb) in a.cells.iter().zip(b.cells.iter()) {
        assert_eq!(cb.offset_x, 2 * ca.offset_x);
        assert_eq!(cb.offset_y, 2 * ca.offset_y);
        // The rotation adjustment was not touched.
        assert_eq!(cb.rotation, ca.rotation);
    }
}

#[test]
fn reset_restores_default_adjustments() {
    let mut m = GridModel::new(8);
    apply(&mut m, Command::IncreaseDisplacement);
    apply(&mut m, Command::IncreaseDisplacement);
    apply(&mut m, Command::DecreaseRotation);
    apply(&mut m, Command::DecreaseRotation);
    apply(&mut m, Command::DecreaseRotation);
    assert_ne!(m.displacement_adjustment, ADJ_ONE);
    assert_ne!(m.rotation_adjustment, ADJ_ONE);
    let out = apply(&mut m, Command::ResetAdjustments);
    assert_eq!(out, Outcome::Redrawn);
    assert_eq!(m.displacement_adjustment, ADJ_ONE);
    assert_eq!(m.rotation_adjustment, ADJ_ONE);
    // The cells match a fresh regeneration of the same seed and defaults.
    let mut fresh = GridModel::new(8);
    regenerate(&mut fresh);
    assert_eq!(m.cells, fresh.cells);
}

#[test]
fn reseeding_alone_determines_output() {
    // Record a reference value from a fresh model: last row, middle column.
    let probe = (ROWS as usize - 1) * COLUMNS as usize + 7;
    let mut first = GridModel::new(42);
    regenerate(&mut first);
    let v1 = first.cells[probe].offset_x;

    // A second model: draw a fresh random seed, then put 42 back by hand.
    // Only the seed matters, not the call history.
    let mut second = GridModel::new(42);
    let out = apply(&mut second, Command::RegenerateSeed);
    assert_eq!(out, Outcome::Redrawn);
    assert!(second.seed < SEED_MAX);
    second.set_seed(42);
    regenerate(&mut second);
    assert_eq!(second.cells[probe].offset_x, v1);
    assert_eq!(second.cells, first.cells);
}

#[test]
fn zero_adjustments_collapse_everything() {
    let mut m = GridModel::new(0);
    m.displacement_adjustment = 0;
    m.rotation_adjustment = 0;
    regenerate(&mut m);
    for c in &m.cells {
        assert_eq!(c.offset_x, 0);
        assert_eq!(c.offset_y, 0);
        assert_eq!(c.rotation, 0);
    }
}

#[test]
fn unrecognized_and_capture_leave_model_alone() {
    let mut m = GridModel::new(3);
    regenerate(&mut m);
    let before = m.cells.clone();
    assert_eq!(apply(&mut m, Command::Unrecognized), Outcome::NoEffect);
    assert_eq!(apply(&mut m, Command::Capture), Outcome::CaptureRequested);
    assert_eq!(m.seed, 3);
    assert_eq!(m.displacement_adjustment, ADJ_ONE);
    assert_eq!(m.rotation_adjustment, ADJ_ONE);
    assert_eq!(m.cells, before);
}

#[test]
fn startup_model_is_regenerated() {
    let m = startup_model();
    assert!(m.seed < SEED_MAX);
    assert_eq!(m.displacement_adjustment, ADJ_ONE);
    assert_eq!(m.rotation_adjustment, ADJ_ONE);
    assert_eq!(m.cells.len(), GRID_CELLS as usize);
    // The startup pass matches a plain regeneration of the same seed.
    let mut copy = GridModel::new(m.seed);
    regenerate(&mut copy);
    assert_eq!(m.cells, copy.cells);
}
