use vstd::prelude::*;

verus! {

/// Iterations of the value-guided MCTS for the bare `m` code.
pub const DEFAULT_ITERATIONS: u64 = 200;

/// Turns simulated past the one being played before a leaf is scored.
pub const DEFAULT_HORIZON_TURNS: u8 = 2;

} // verus!
