//! The eligibility gate of a disbursement run.
use crate::state::EngineState;
use vstd::prelude::*;

verus! {

/// A run is eligible when enough time has passed since the last one, or when
/// the treasury holds enough; either condition alone suffices, and both
/// thresholds are inclusive.
pub open spec fn eligible(s: EngineState, now: int, treasury_balance: nat) -> bool {
    ||| now - s.last_execution_ts >= s.min_interval_seconds
    ||| treasury_balance >= s.min_accumulated_lamports
}

/// Decides eligibility. The elapsed time is computed in 128 bits, so a clock
/// that runs behind the cursor gives a negative elapsed time, not an overflow.
pub fn schedule_satisfied(state: &EngineState, now: i64, treasury_balance: u64) -> (r: bool)
    ensures
        r == eligible(*state, now as int, treasury_balance as nat),
{
    let elapsed: i128 = (now as i128) - (state.last_execution_ts as i128);
    let time_ok = elapsed >= state.min_interval_seconds as i128;
    let balance_ok = treasury_balance >= state.min_accumulated_lamports;
    time_ok || balance_ok
}

} // verus!
