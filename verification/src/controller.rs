//! The interaction controller: a reducer over a fixed command vocabulary.
//!
//! Every command is a total transition on the grid model; the commands that
//! change the seed or an adjustment also trigger a full regeneration, so the
//! cells a renderer reads are always the outcome of one complete pass.
//! Capture does not touch the model: the controller only reports that the
//! caller should hand the current frame to its render sink.

use vstd::prelude::*;

verus! {

use crate::engine::{cells_regenerated, regenerate};
use crate::grid::GridModel;
use crate::random::random_below;
use crate::{ADJ_ONE, SEED_MAX};

/// The command vocabulary. Every command is always enabled; an unknown input
/// maps to `Unrecognized`.
#[derive(Clone, Copy, Debug, PartialEq, Eq, Structural)]
pub enum Command {
    /// Draw a fresh seed from `[0, SEED_MAX)` and regenerate.
    RegenerateSeed,
    /// Raise the displacement adjustment by one tenth and regenerate.
    IncreaseDisplacement,
    /// Lower the displacement adjustment by one tenth and regenerate;
    /// a no-op at exactly zero.
    DecreaseDisplacement,
    /// Raise the rotation adjustment by one tenth and regenerate.
    IncreaseRotation,
    /// Lower the rotation adjustment by one tenth and regenerate;
    /// a no-op at exactly zero.
    DecreaseRotation,
    /// Set both adjustments back to 1.0 and regenerate.
    ResetAdjustments,
    /// Ask for the current frame to be exported; the model is untouched.
    Capture,
    /// Any other input: a no-op.
    Unrecognized,
}

/// What the caller should do after a command was applied.
#[derive(Clone, Copy, Debug, PartialEq, Eq, Structural)]
pub enum Outcome {
    /// The model changed and was regenerated: draw it again.
    Redrawn,
    /// The current frame should be exported by the render sink.
    CaptureRequested,
    /// Nothing happened.
    NoEffect,
}

/// One tenth down, floored at exactly zero: the decrease commands silently
/// refuse to go below zero rather than clamping a negative result.
pub open spec fn dec_tenth(a: u32) -> u32 {
    if a > 0 {
        (a - 1) as u32
    } else {
        0
    }
}

/// How one command moves the pair of adjustments
/// `(displacement_adjustment, rotation_adjustment)`; the commands that do not
/// touch them leave the pair as it is.
pub open spec fn adjust_step(d: u32, r: u32, cmd: Command) -> (u32, u32) {
    match cmd {
        Command::IncreaseDisplacement => ((d + 1) as u32, r),
        Command::DecreaseDisplacement => (dec_tenth(d), r),
        Command::IncreaseRotation => (d, (r + 1) as u32),
        Command::DecreaseRotation => (d, dec_tenth(r)),
        Command::ResetAdjustments => (ADJ_ONE, ADJ_ONE),
        _ => (d, r),
    }
}

/// Apply one command to the model and report what the caller should do.
///
/// The adjustments move exactly as [`adjust_step`] says; every command that
/// changes the seed or an adjustment leaves the cells fully regenerated for
/// the new state, and the commands without an effect leave the model exactly
/// as it was.
pub fn apply(model: &mut GridModel, cmd: Command) -> (out: Outcome)
    requires
        old(model).wf(),
        cmd == Command::IncreaseDisplacement ==> old(model).displacement_adjustment < u32::MAX,
        cmd == Command::IncreaseRotation ==> old(model).rotation_adjustment < u32::MAX,
    ensures
        final(model).wf(),
        (final(model).displacement_adjustment, final(model).rotation_adjustment) == adjust_step(
            old(model).displacement_adjustment,
            old(model).rotation_adjustment,
            cmd,
        ),
        cmd != Command::RegenerateSeed ==> final(model).seed == old(model).seed,
        match cmd {
            Command::RegenerateSeed => {
                &&& cells_regenerated(
                    final(model).cells@,
                    final(model).seed,
                    old(model).displacement_adjustment,
                    old(model).rotation_adjustment,
                )
                &&& out == Outcome::Redrawn
            },
            Command::IncreaseDisplacement => {
                &&& cells_regenerated(
                    final(model).cells@,
                    old(model).seed,
                    (old(model).displacement_adjustment + 1) as u32,
                    old(model).rotation_adjustment,
                )
                &&& out == Outcome::Redrawn
            },
            Command::DecreaseDisplacement => {
                if old(model).displacement_adjustment > 0 {
                    &&& cells_regenerated(
                        final(model).cells@,
                        old(model).seed,
                        (old(model).displacement_adjustment - 1) as u32,
                        old(model).rotation_adjustment,
                    )
                    &&& out == Outcome::Redrawn
                } else {
                    &&& final(model).cells@ == old(model).cells@
                    &&& out == Outcome::NoEffect
                }
            },
            Command::IncreaseRotation => {
                &&& cells_regenerated(
                    final(model).cells@,
                    old(model).seed,
                    old(model).displacement_adjustment,
                    (old(model).rotation_adjustment + 1) as u32,
                )
                &&& out == Outcome::Redrawn
            },
            Command::DecreaseRotation => {
                if old(model).rotation_adjustment > 0 {
                    &&& cells_regenerated(
                        final(model).cells@,
                        old(model).seed,
                        old(model).displacement_adjustment,
                        (old(model).rotation_adjustment - 1) as u32,
                    )
                    &&& out == Outcome::Redrawn
                } else {
                    &&& final(model).cells@ == old(model).cells@
                    &&& out == Outcome::NoEffect
                }
            },
            Command::ResetAdjustments => {
                &&& cells_regenerated(final(model).cells@, old(model).seed, ADJ_ONE, ADJ_ONE)
                &&& out == Outcome::Redrawn
            },
            Command::Capture => {
                &&& final(model).cells@ == old(model).cells@
                &&& out == Outcome::CaptureRequested
            },
            Command::Unrecognized => {
                &&& final(model).cells@ == old(model).cells@
                &&& out == Outcome::NoEffect
            },
        },
{
    match cmd {
        Command::RegenerateSeed => {
            model.seed = random_below(SEED_MAX);
            regenerate(model);
            Outcome::Redrawn
        },
        Command::IncreaseDisplacement => {
            model.displacement_adjustment = model.displacement_adjustment + 1;
            regenerate(model);
            Outcome::Redrawn
        },
        Command::DecreaseDisplacement => {
            if model.displacement_adjustment > 0 {
                model.displacement_adjustment = model.displacement_adjustment - 1;
                regenerate(model);
                Outcome::Redrawn
            } else {
                Outcome::NoEffect
            }
        },
        Command::IncreaseRotation => {
            model.rotation_adjustment = model.rotation_adjustment + 1;
            regenerate(model);
            Outcome::Redrawn
        },
        Command::DecreaseRotation => {
            if model.rotation_adjustment > 0 {
                model.rotation_adjustment = model.rotation_adjustment - 1;
                regenerate(model);
                Outcome::Redrawn
            } else {
                Outcome::NoEffect
            }
        },
        Command::ResetAdjustments => {
            model.displacement_adjustment = ADJ_ONE;
            model.rotation_adjustment = ADJ_ONE;
            regenerate(model);
            Outcome::Redrawn
        },
        Command::Capture => Outcome::CaptureRequested,
        Command::Unrecognized => Outcome::NoEffect,
    }
}

/// A fresh model at startup: a randomly drawn seed, both adjustments at 1.0,
/// and the cells already carrying their first regeneration.
pub fn startup_model() -> (m: GridModel)
    ensures
        m.wf(),
        m.displacement_adjustment == ADJ_ONE,
        m.rotation_adjustment == ADJ_ONE,
        cells_regenerated(m.cells@, m.seed, ADJ_ONE, ADJ_ONE),
{
    let seed = random_below(SEED_MAX);
    let mut m = GridModel::new(seed);
    regenerate(&mut m);
    m
}

} // verus!
