//! The persisted record of one treasury's schedule.
use vstd::prelude::*;

verus! {

/// Schedule configuration and execution cursor of one treasury. The two
/// account keys are carried for the storage and authorization layers; the
/// engine's logic never reads them.
#[derive(Clone, Copy, Debug, PartialEq, Eq)]
pub struct EngineState {
    /// Key of the account allowed to manage this configuration.
    pub authority: [u8; 32],
    /// Key of the treasury account that funds disbursements.
    pub treasury: [u8; 32],
    /// Time, in seconds, of the last successful disbursement.
    pub last_execution_ts: i64,
    /// Seconds that must elapse before time alone makes a run eligible.
    pub min_interval_seconds: i64,
    /// Balance at which the balance alone makes a run eligible.
    pub min_accumulated_lamports: u64,
    /// Weight of the buyback bucket, in basis points.
    pub buyback_bps: u16,
    /// Weight of the liquidity bucket, in basis points.
    pub lp_bps: u16,
    /// Weight of the distribution bucket, in basis points.
    pub distribution_bps: u16,
    /// Address nonce of the storage layer.
    pub bump: u8,
}

/// The three weights add up to at most one whole (10000 basis points).
pub open spec fn weights_valid(s: EngineState) -> bool {
    s.buyback_bps + s.lp_bps + s.distribution_bps <= 10_000
}

impl EngineState {
    /// Whether the weights add up to at most 10000 basis points.
    pub fn has_valid_weights(&self) -> (r: bool)
        ensures
            r == weights_valid(*self),
    {
        (self.buyback_bps as u32) + (self.lp_bps as u32) + (self.distribution_bps as u32) <= 10_000
    }
}

} // verus!
