use vstd::prelude::*;

verus! {

/// How many consecutive iterations without improvement the Nelder–Mead optimiser
/// tolerates; it stops on the one after.
pub const STALL_LIMIT: u64 = 20;

/// What the optimiser does after sorting its simplex.
#[derive(Debug, Clone, Copy, PartialEq, Eq, Structural)]
pub enum SimplexStatus {
    /// The spread of the vertex costs fell below the tolerance: stop.
    Converged,
    /// The best cost stopped improving for more than `STALL_LIMIT` iterations: stop.
    Stalled,
    /// Go on with another step, carrying the new count of stalled iterations.
    Continue { stall_count: u64 },
}

/// The status after an iteration in which the spread of costs was below the
/// tolerance (`spread_below_tol`) or not, and the best cost moved by less than a
/// tenth of the tolerance (`plateau`) or not, `stall_count` stalled iterations
/// having been seen before.
pub open spec fn progress_outcome(spread_below_tol: bool, plateau: bool, stall_count: u64) -> SimplexStatus {
    if spread_below_tol {
        SimplexStatus::Converged
    } else if plateau {
        if stall_count + 1 > STALL_LIMIT {
            SimplexStatus::Stalled
        } else {
            SimplexStatus::Continue { stall_count: (stall_count + 1) as u64 }
        }
    } else {
        SimplexStatus::Continue { stall_count: 0 }
    }
}

/// Decides whether the optimiser stops, and keeps its count of stalled iterations.
pub fn simplex_progress(spread_below_tol: bool, plateau: bool, stall_count: u64) -> (r: SimplexStatus)
    requires
        stall_count < u64::MAX,
    ensures
        r == progress_outcome(spread_below_tol, plateau, stall_count),
        r matches SimplexStatus::Continue { stall_count: c } ==> c <= STALL_LIMIT,
        spread_below_tol ==> r == SimplexStatus::Converged,
        !spread_below_tol && !plateau ==> r == (SimplexStatus::Continue { stall_count: 0 }),
        !spread_below_tol && plateau && stall_count < STALL_LIMIT ==> r == (SimplexStatus::Continue {
            stall_count: (stall_count + 1) as u64,
        }),
        !spread_below_tol && plateau && stall_count >= STALL_LIMIT ==> r == SimplexStatus::Stalled,
{
    if spread_below_tol {
        return SimplexStatus::Converged;
    }
    if plateau {
        let next = stall_count + 1;
        if next > STALL_LIMIT {
            SimplexStatus::Stalled
        } else {
            SimplexStatus::Continue { stall_count: next }
        }
    } else {
        SimplexStatus::Continue { stall_count: 0 }
    }
}

/// The point the optimiser evaluates after the reflected one, or the reflection taken.
#[derive(Debug, Clone, Copy, PartialEq, Eq, Structural)]
pub enum SimplexStep {
    /// The reflection beat the best vertex: try the expanded point.
    TryExpansion,
    /// The reflection beat the second-worst vertex only: replace the worst by it.
    TakeReflection,
    /// The reflection beat neither: try the contracted point.
    TryContraction,
}

/// How the worst vertex is replaced in the end.
#[derive(Debug, Clone, Copy, PartialEq, Eq, Structural)]
pub enum SimplexMove {
    Expansion,
    Reflection,
    Contraction,
    /// Move every vertex but the best halfway towards the best.
    Shrink,
}

/// The step after the reflected point is evaluated: `beats_best` says whether its cost
/// is below the best vertex's, `beats_second_worst` whether it is below the
/// second-worst vertex's.
pub open spec fn reflection_step(beats_best: bool, beats_second_worst: bool) -> SimplexStep {
    if beats_best {
        SimplexStep::TryExpansion
    } else if beats_second_worst {
        SimplexStep::TakeReflection
    } else {
        SimplexStep::TryContraction
    }
}

/// The move that ends `step`: `probe_improves` says whether the probed point beat its
/// rival (the expanded point the reflected one, the contracted point the worst
/// vertex); it does not matter when the reflection is taken directly.
pub open spec fn step_move(step: SimplexStep, probe_improves: bool) -> SimplexMove {
    match step {
        SimplexStep::TryExpansion => if probe_improves {
            SimplexMove::Expansion
        } else {
            SimplexMove::Reflection
        },
        SimplexStep::TakeReflection => SimplexMove::Reflection,
        SimplexStep::TryContraction => if probe_improves {
            SimplexMove::Contraction
        } else {
            SimplexMove::Shrink
        },
    }
}

/// Decides the step after the reflected point is evaluated.
pub fn after_reflection(beats_best: bool, beats_second_worst: bool) -> (r: SimplexStep)
    ensures
        r == reflection_step(beats_best, beats_second_worst),
        beats_best ==> r == SimplexStep::TryExpansion,
        !beats_best && beats_second_worst ==> r == SimplexStep::TakeReflection,
        !beats_best && !beats_second_worst ==> r == SimplexStep::TryContraction,
{
    if beats_best {
        SimplexStep::TryExpansion
    } else if beats_second_worst {
        SimplexStep::TakeReflection
    } else {
        SimplexStep::TryContraction
    }
}

/// Decides the move that ends `step`, given whether the probed point improved.
pub fn finish_step(step: SimplexStep, probe_improves: bool) -> (r: SimplexMove)
    ensures
        r == step_move(step, probe_improves),
        step == SimplexStep::TakeReflection ==> r == SimplexMove::Reflection,
        step == SimplexStep::TryExpansion ==> r == (if probe_improves {
            SimplexMove::Expansion
        } else {
            SimplexMove::Reflection
        }),
        step == SimplexStep::TryContraction ==> r == (if probe_improves {
            SimplexMove::Contraction
        } else {
            SimplexMove::Shrink
        }),
{
    match step {
        SimplexStep::TryExpansion => if probe_improves {
            SimplexMove::Expansion
        } else {
            SimplexMove::Reflection
        },
        SimplexStep::TakeReflection => SimplexMove::Reflection,
        SimplexStep::TryContraction => if probe_improves {
            SimplexMove::Contraction
        } else {
            SimplexMove::Shrink
        },
    }
}

/// A shrink happens exactly when the reflected point beats neither the best nor the
/// second-worst vertex and the contracted point does not beat the worst; an
/// expansion only when the reflected point beat the best vertex.
pub proof fn shrink_only_as_last_resort(beats_best: bool, beats_second_worst: bool, probe_improves: bool)
    ensures
        (step_move(reflection_step(beats_best, beats_second_worst), probe_improves)
            == SimplexMove::Shrink) <==> (!beats_best && !beats_second_worst && !probe_improves),
        step_move(reflection_step(beats_best, beats_second_worst), probe_improves)
            == SimplexMove::Expansion ==> beats_best,
{
}

/// The optimiser stops as converged whenever the spread of costs is below the
/// tolerance, whatever the plateau flag and stall count; otherwise an improving
/// iteration resets the stall count to zero, and a stalled one adds one to it until the
/// count would exceed `STALL_LIMIT`, when the search stops as stalled.
pub proof fn progress_law(spread_below_tol: bool, plateau: bool, stall_count: u64)
    ensures
        spread_below_tol ==> progress_outcome(spread_below_tol, plateau, stall_count)
            == SimplexStatus::Converged,
        !spread_below_tol && !plateau ==> progress_outcome(spread_below_tol, plateau, stall_count)
            == (SimplexStatus::Continue { stall_count: 0 }),
        !spread_below_tol && plateau && stall_count < STALL_LIMIT ==> progress_outcome(
            spread_below_tol,
            plateau,
            stall_count,
        ) == (SimplexStatus::Continue { stall_count: (stall_count + 1) as u64 }),
        !spread_below_tol && plateau && stall_count >= STALL_LIMIT ==> progress_outcome(
            spread_below_tol,
            plateau,
            stall_count,
        ) == SimplexStatus::Stalled,
{
}

/// After the reflected point is evaluated the optimiser tries the expansion exactly when
/// the reflection beat the best vertex, takes the reflection directly exactly when it
/// beat only the second-worst vertex, and otherwise tries the contraction; an expansion
/// or contraction is kept exactly when the probed point improved, else the reflection is
/// kept after a failed expansion and the simplex shrinks after a failed contraction.
pub proof fn step_law(beats_best: bool, beats_second_worst: bool, step: SimplexStep, probe_improves: bool)
    ensures
        (reflection_step(beats_best, beats_second_worst) == SimplexStep::TryExpansion) <==> beats_best,
        (reflection_step(beats_best, beats_second_worst) == SimplexStep::TakeReflection) <==> (
        !beats_best && beats_second_worst),
        (reflection_step(beats_best, beats_second_worst) == SimplexStep::TryContraction) <==> (
        !beats_best && !beats_second_worst),
        step == SimplexStep::TakeReflection ==> step_move(step, probe_improves) == SimplexMove::Reflection,
        step == SimplexStep::TryExpansion ==> (step_move(step, probe_improves) == SimplexMove::Expansion
            <==> probe_improves) && (!probe_improves ==> step_move(step, probe_improves)
            == SimplexMove::Reflection),
        step == SimplexStep::TryContraction ==> (step_move(step, probe_improves)
            == SimplexMove::Contraction <==> probe_improves) && (!probe_improves ==> step_move(
            step,
            probe_improves,
        ) == SimplexMove::Shrink),
{
}

} // verus!
