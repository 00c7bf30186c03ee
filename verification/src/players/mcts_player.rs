use vstd::prelude::*;

verus! {

/// Iterations of the random-rollout MCTS for the bare `mr` code.
pub const DEFAULT_ITERATIONS: u64 = 100;

} // verus!
