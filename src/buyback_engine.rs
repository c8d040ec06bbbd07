//! The orchestrator of a disbursement run.
use crate::errors::SBEError;
use crate::schedule_engine::{eligible, schedule_satisfied};
use crate::state::{weights_valid, EngineState};
use crate::treasury_router::{lemma_share_within_amount, route, share, RoutingResult};
use vstd::prelude::*;

verus! {

/// What one run of the engine did.
#[derive(Clone, Copy, Debug, PartialEq, Eq, Structural)]
pub enum ExecutionOutcome {
    /// The schedule was not satisfied; nothing changed.
    Skipped,
    /// The balance was split into these buckets and the cursor advanced.
    Executed(RoutingResult),
}

/// The split of `amount` by the weights of `s`.
pub open spec fn allocation(s: EngineState, amount: nat) -> RoutingResult {
    RoutingResult {
        buyback_amount: share(amount, s.buyback_bps as nat) as u64,
        lp_amount: share(amount, s.lp_bps as nat) as u64,
        distribution_amount: share(amount, s.distribution_bps as nat) as u64,
    }
}

/// `s` with its execution cursor set to `now` and every other field kept.
pub open spec fn advanced(s: EngineState, now: i64) -> EngineState {
    EngineState { last_execution_ts: now, ..s }
}

/// What a run on `s` at `now` with the given balance returns.
pub open spec fn execution_outcome(s: EngineState, now: i64, treasury_balance: u64) -> Result<
    ExecutionOutcome,
    SBEError,
> {
    if !weights_valid(s) {
        Err(SBEError::InvalidRoutingConfig)
    } else if !eligible(s, now as int, treasury_balance as nat) {
        Ok(ExecutionOutcome::Skipped)
    } else {
        Ok(ExecutionOutcome::Executed(allocation(s, treasury_balance as nat)))
    }
}

/// The state that a run on `s` at `now` with the given balance leaves.
pub open spec fn state_after(s: EngineState, now: i64, treasury_balance: u64) -> EngineState {
    if weights_valid(s) && eligible(s, now as int, treasury_balance as nat) {
        advanced(s, now)
    } else {
        s
    }
}

/// Sets the execution cursor to `now` only if it still holds `observed_ts`,
/// the value read when the run began; otherwise fails with
/// `ExecutionAlreadyPerformed` and leaves the state as it was.
pub fn commit_execution(state: &mut EngineState, observed_ts: i64, now: i64) -> (r: Result<
    (),
    SBEError,
>)
    ensures
        r is Ok <==> old(state).last_execution_ts == observed_ts,
        r is Ok ==> *final(state) == advanced(*old(state), now),
        r is Err ==> r == Err::<(), SBEError>(SBEError::ExecutionAlreadyPerformed),
        r is Err ==> *final(state) == *old(state),
{
    if state.last_execution_ts != observed_ts {
        return Err(SBEError::ExecutionAlreadyPerformed);
    }
    state.last_execution_ts = now;
    Ok(())
}

/// Runs one disbursement cycle. Weights that add up to more than 10000 basis
/// points fail with `InvalidRoutingConfig` before anything else; an
/// ineligible schedule gives `Skipped`; otherwise the whole balance is split
/// by the weights and the execution cursor is set to `now`. Only the cursor
/// ever changes, and only on an executed run.
pub fn execute_buyback(state: &mut EngineState, now: i64, treasury_balance: u64) -> (r: Result<
    ExecutionOutcome,
    SBEError,
>)
    ensures
        r == execution_outcome(*old(state), now, treasury_balance),
        *final(state) == state_after(*old(state), now, treasury_balance),
        r matches Ok(ExecutionOutcome::Executed(_)) ==> *final(state) == advanced(*old(state), now),
        !(r matches Ok(ExecutionOutcome::Executed(_))) ==> *final(state) == *old(state),
{
    if !state.has_valid_weights() {
        return Err(SBEError::InvalidRoutingConfig);
    }
    if !schedule_satisfied(state, now, treasury_balance) {
        return Ok(ExecutionOutcome::Skipped);
    }
    let observed_ts = state.last_execution_ts;
    proof {
        lemma_share_within_amount(treasury_balance as nat, state.buyback_bps as nat);
        lemma_share_within_amount(treasury_balance as nat, state.lp_bps as nat);
        lemma_share_within_amount(treasury_balance as nat, state.distribution_bps as nat);
    }
    let routed = route(treasury_balance, state.buyback_bps, state.lp_bps, state.distribution_bps);
    match commit_execution(state, observed_ts, now) {
        Ok(()) => Ok(ExecutionOutcome::Executed(routed)),
        Err(e) => Err(e),
    }
}

/// A run on an ineligible schedule changes nothing, so running it again at
/// the same time with the same balance gives the same result and again
/// changes nothing; with valid weights that result is `Skipped`.
pub proof fn lemma_ineligible_run_is_idempotent(s: EngineState, now: i64, treasury_balance: u64)
    requires
        !eligible(s, now as int, treasury_balance as nat),
    ensures
        state_after(s, now, treasury_balance) == s,
        state_after(state_after(s, now, treasury_balance), now, treasury_balance) == s,
        execution_outcome(state_after(s, now, treasury_balance), now, treasury_balance)
            == execution_outcome(s, now, treasury_balance),
        weights_valid(s) ==> execution_outcome(s, now, treasury_balance) == Ok::<
            ExecutionOutcome,
            SBEError,
        >(ExecutionOutcome::Skipped),
{
}

} // verus!
