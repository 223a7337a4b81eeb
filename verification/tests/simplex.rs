use my_rust_agent::simplex::{
    after_reflection, finish_step, simplex_progress, SimplexMove, SimplexStatus, SimplexStep,
    STALL_LIMIT,
};

#[test]
fn small_spread_converges() {
    assert_eq!(simplex_progress(true, true, 5), SimplexStatus::Converged);
    assert_eq!(simplex_progress(true, false, 0), SimplexStatus::Converged);
}

#[test]
fn improvement_resets_stall_count() {
    assert_eq!(simplex_progress(false, false, 7), SimplexStatus::Continue { stall_count: 0 });
}

#[test]
fn plateau_counts_up_to_the_limit_then_stops() {
    assert_eq!(simplex_progress(false, true, 0), SimplexStatus::Continue { stall_count: 1 });
    assert_eq!(
        simplex_progress(false, true, STALL_LIMIT - 1),
        SimplexStatus::Continue { stall_count: STALL_LIMIT }
    );
    assert_eq!(simplex_progress(false, true, STALL_LIMIT), SimplexStatus::Stalled);
}

#[test]
fn twenty_one_stalled_iterations_stop_the_search() {
    let mut count = 0u64;
    let mut iterations = 0;
    loop {
        iterations += 1;
        match simplex_progress(false, true, count) {
            SimplexStatus::Continue { stall_count } => count = stall_count,
            SimplexStatus::Stalled => break,
            SimplexStatus::Converged => panic!("spread was never small"),
        }
    }
    assert_eq!(iterations, 21);
}

#[test]
fn reflection_decisions() {
    assert_eq!(after_reflection(true, true), SimplexStep::TryExpansion);
    assert_eq!(after_reflection(false, true), SimplexStep::TakeReflection);
    assert_eq!(after_reflection(false, false), SimplexStep::TryContraction);
}

#[test]
fn final_moves() {
    assert_eq!(finish_step(SimplexStep::TryExpansion, true), SimplexMove::Expansion);
    assert_eq!(finish_step(SimplexStep::TryExpansion, false), SimplexMove::Reflection);
    assert_eq!(finish_step(SimplexStep::TakeReflection, false), SimplexMove::Reflection);
    assert_eq!(finish_step(SimplexStep::TryContraction, true), SimplexMove::Contraction);
    assert_eq!(finish_step(SimplexStep::TryContraction, false), SimplexMove::Shrink);
}
