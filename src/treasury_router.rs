//! Splitting an amount into buyback, liquidity and distribution buckets by
//! basis-point weights.
use vstd::prelude::*;

verus! {

/// One whole in basis points.
pub const BPS_DENOMINATOR: u64 = 10_000;

/// The three bucket amounts produced by one allocation.
#[derive(Clone, Copy, Debug, PartialEq, Eq, Structural)]
pub struct RoutingResult {
    pub buyback_amount: u64,
    pub lp_amount: u64,
    pub distribution_amount: u64,
}

/// The share of `amount` that a weight of `bps` basis points gives:
/// `floor(amount * bps / 10000)`.
pub open spec fn share(amount: nat, bps: nat) -> nat {
    (amount * bps / 10_000) as nat
}

/// A bucket amount of `amount` at `bps` basis points is representable as a `u64`.
pub open spec fn share_fits(amount: nat, bps: nat) -> bool {
    share(amount, bps) <= u64::MAX
}

/// What the three buckets add up to.
pub open spec fn routed_total(r: RoutingResult) -> nat {
    (r.buyback_amount + r.lp_amount + r.distribution_amount) as nat
}

proof fn lemma_share_bounds(amount: nat, bps: nat)
    ensures
        share(amount, bps) * 10_000 <= amount * bps,
        amount * bps < share(amount, bps) * 10_000 + 10_000,
        bps <= 10_000 ==> share(amount, bps) <= amount,
{
    assert(amount * bps >= 0) by (nonlinear_arith);
    if bps <= 10_000 {
        assert(amount * bps <= amount * 10_000) by (nonlinear_arith)
            requires
                bps <= 10_000,
        ;
    }
}

/// A single weight of at most one whole never yields more than `amount`, so
/// its share always fits where `amount` does; the whole weight yields
/// `amount` exactly.
pub proof fn lemma_share_within_amount(amount: nat, bps: nat)
    requires
        bps <= 10_000,
    ensures
        share(amount, bps) <= amount,
        bps == 10_000 ==> share(amount, bps) == amount,
{
    lemma_share_bounds(amount, bps);
}

/// Truncation loses less than one unit per bucket: the three shares of
/// `amount` add up to at most the share of the summed weights, and to at
/// least that share less two. In particular, weights that sum to at most
/// 10000 never hand out more than `amount`, and weights that sum to exactly
/// 10000 leave at most two units of `amount` unallocated.
pub proof fn lemma_shares_conserve(amount: nat, b1: nat, b2: nat, b3: nat)
    ensures
        share(amount, b1) + share(amount, b2) + share(amount, b3) <= share(amount, b1 + b2 + b3),
        share(amount, b1 + b2 + b3) <= share(amount, b1) + share(amount, b2) + share(amount, b3) + 2,
        b1 + b2 + b3 <= 10_000 ==> share(amount, b1) + share(amount, b2) + share(amount, b3) <= amount,
        b1 + b2 + b3 == 10_000 ==> amount <= share(amount, b1) + share(amount, b2) + share(amount, b3) + 2,
{
    lemma_share_bounds(amount, b1);
    lemma_share_bounds(amount, b2);
    lemma_share_bounds(amount, b3);
    lemma_share_bounds(amount, b1 + b2 + b3);
    assert(amount * (b1 + b2 + b3) == amount * b1 + amount * b2 + amount * b3) by (nonlinear_arith);
    assert(share(amount, 10_000) == amount);
}

/// Splits `amount` into three buckets, each `floor(amount * bps / 10000)`,
/// with a 128-bit intermediate product. The weights are not validated against
/// each other; what truncation leaves over is not redistributed.
pub fn route(amount: u64, buyback_bps: u16, lp_bps: u16, dist_bps: u16) -> (r: RoutingResult)
    requires
        share_fits(amount as nat, buyback_bps as nat),
        share_fits(amount as nat, lp_bps as nat),
        share_fits(amount as nat, dist_bps as nat),
    ensures
        r.buyback_amount == share(amount as nat, buyback_bps as nat),
        r.lp_amount == share(amount as nat, lp_bps as nat),
        r.distribution_amount == share(amount as nat, dist_bps as nat),
        buyback_bps + lp_bps + dist_bps <= 10_000 ==> routed_total(r) <= amount,
        buyback_bps + lp_bps + dist_bps == 10_000 ==> amount - routed_total(r) <= 2,
{
    let r = RoutingResult {
        buyback_amount: bucket(amount, buyback_bps),
        lp_amount: bucket(amount, lp_bps),
        distribution_amount: bucket(amount, dist_bps),
    };
    proof {
        lemma_shares_conserve(amount as nat, buyback_bps as nat, lp_bps as nat, dist_bps as nat);
    }
    r
}

/// `floor(amount * bps / 10000)`, computed without overflow.
fn bucket(amount: u64, bps: u16) -> (r: u64)
    requires
        share_fits(amount as nat, bps as nat),
    ensures
        r == share(amount as nat, bps as nat),
{
    let wide: u128 = amount as u128;
    assert(amount * bps <= u64::MAX * u16::MAX) by (nonlinear_arith);
    let product: u128 = wide * (bps as u128);
    let q: u128 = product / (BPS_DENOMINATOR as u128);
    q as u64
}

} // verus!
