use vstd::prelude::*;

verus! {

/// The minimum interval between two frames of the presentation loop, in nanoseconds.
pub const FRAME_BUDGET_NANOS: u64 = 16_000_000;

/// How long the presentation loop must still wait before its next iteration,
/// given the time spent since the last frame boundary and the frame budget.
pub open spec fn pacing_delay_spec(elapsed: nat, budget: nat) -> nat {
    if elapsed < budget {
        (budget - elapsed) as nat
    } else {
        0
    }
}

/// The delay to sleep before the next frame so that at least `budget`
/// nanoseconds separate two frame boundaries, and no more than that.
pub fn pacing_delay(elapsed: u64, budget: u64) -> (r: u64)
    ensures
        r == pacing_delay_spec(elapsed as nat, budget as nat),
        elapsed + r >= budget,
        elapsed < budget ==> elapsed + r == budget,
        elapsed >= budget ==> r == 0,
{
    if elapsed < budget {
        budget - elapsed
    } else {
        0
    }
}

} // verus!
