//! Basis-point arithmetic: the one fee formula both payout flows and the
//! revenue flow use, and proofs that every split conserves value exactly.

use vstd::prelude::*;

use crate::types::BPS_DENOMINATOR;

verus! {

/// `amount * bps / 10_000`, truncating toward zero.
pub open spec fn mul_bps_spec(amount: u128, bps: u64) -> int {
    amount * bps / (BPS_DENOMINATOR as int)
}

/// The protocol fee taken from a gross payout.
pub open spec fn protocol_fee_spec(gross: u128, fee_bps: u64) -> int {
    mul_bps_spec(gross, fee_bps)
}

/// What the worker nets from a gross payout.
pub open spec fn worker_net_spec(gross: u128, fee_bps: u64) -> int {
    gross - protocol_fee_spec(gross, fee_bps)
}

/// The referrer's cut of the protocol fee; zero without a referrer.
pub open spec fn referral_fee_spec(
    gross: u128,
    fee_bps: u64,
    referral_bps: u64,
    has_referrer: bool,
) -> int {
    if has_referrer {
        (protocol_fee_spec(gross, fee_bps) * referral_bps) / (BPS_DENOMINATOR as int)
    } else {
        0
    }
}

/// What remains of the protocol fee for the treasury.
pub open spec fn treasury_fee_spec(
    gross: u128,
    fee_bps: u64,
    referral_bps: u64,
    has_referrer: bool,
) -> int {
    protocol_fee_spec(gross, fee_bps) - referral_fee_spec(gross, fee_bps, referral_bps, has_referrer)
}

/// The worker's profit share of revenue after the protocol fee.
pub open spec fn revenue_worker_share_spec(revenue: u128, fee_bps: u64, profit_share_bps: u64) -> int {
    (worker_net_spec(revenue, fee_bps) * profit_share_bps) / (BPS_DENOMINATOR as int)
}

/// The employer's remainder of revenue after fee and worker share.
pub open spec fn revenue_employer_share_spec(revenue: u128, fee_bps: u64, profit_share_bps: u64) -> int {
    worker_net_spec(revenue, fee_bps) - revenue_worker_share_spec(revenue, fee_bps, profit_share_bps)
}

/// A truncating basis-point product stays within `[0, amount]`.
pub proof fn lemma_mul_bps_bounds(amount: u128, bps: u64)
    requires
        bps <= BPS_DENOMINATOR,
    ensures
        0 <= mul_bps_spec(amount, bps) <= amount,
{
    assert(0 <= amount * bps / (BPS_DENOMINATOR as int) <= amount) by (nonlinear_arith)
        requires
            bps <= BPS_DENOMINATOR,
            amount >= 0,
            BPS_DENOMINATOR == 10_000,
    ;
}

/// Conservation of a payout split: worker net, referral fee and treasury fee
/// sum to the gross amount exactly, with or without a referrer, for every
/// pair of basis-point parameters in range.
pub proof fn lemma_payout_split_conserves(
    gross: u128,
    fee_bps: u64,
    referral_bps: u64,
    has_referrer: bool,
)
    requires
        fee_bps <= BPS_DENOMINATOR,
        referral_bps <= BPS_DENOMINATOR,
    ensures
        worker_net_spec(gross, fee_bps) + referral_fee_spec(gross, fee_bps, referral_bps, has_referrer)
            + treasury_fee_spec(gross, fee_bps, referral_bps, has_referrer) == gross,
        0 <= protocol_fee_spec(gross, fee_bps) <= gross,
        0 <= referral_fee_spec(gross, fee_bps, referral_bps, has_referrer)
            <= protocol_fee_spec(gross, fee_bps),
        0 <= worker_net_spec(gross, fee_bps) <= gross,
        0 <= treasury_fee_spec(gross, fee_bps, referral_bps, has_referrer)
            <= protocol_fee_spec(gross, fee_bps),
{
    lemma_mul_bps_bounds(gross, fee_bps);
    let fee = protocol_fee_spec(gross, fee_bps);
    if has_referrer {
        assert(0 <= fee * referral_bps / (BPS_DENOMINATOR as int) <= fee) by (nonlinear_arith)
            requires
                referral_bps <= BPS_DENOMINATOR,
                fee >= 0,
                BPS_DENOMINATOR == 10_000,
        ;
    }
}

/// Conservation of a revenue split: worker share, employer share, referral
/// fee and treasury fee sum to the deposited revenue exactly.
pub proof fn lemma_revenue_split_conserves(
    revenue: u128,
    fee_bps: u64,
    referral_bps: u64,
    profit_share_bps: u64,
    has_referrer: bool,
)
    requires
        fee_bps <= BPS_DENOMINATOR,
        referral_bps <= BPS_DENOMINATOR,
        profit_share_bps <= BPS_DENOMINATOR,
    ensures
        revenue_worker_share_spec(revenue, fee_bps, profit_share_bps)
            + revenue_employer_share_spec(revenue, fee_bps, profit_share_bps)
            + referral_fee_spec(revenue, fee_bps, referral_bps, has_referrer)
            + treasury_fee_spec(revenue, fee_bps, referral_bps, has_referrer) == revenue,
        0 <= revenue_worker_share_spec(revenue, fee_bps, profit_share_bps)
            <= worker_net_spec(revenue, fee_bps),
        0 <= revenue_employer_share_spec(revenue, fee_bps, profit_share_bps)
            <= worker_net_spec(revenue, fee_bps),
{
    lemma_payout_split_conserves(revenue, fee_bps, referral_bps, has_referrer);
    let net = worker_net_spec(revenue, fee_bps);
    assert(0 <= net * profit_share_bps / (BPS_DENOMINATOR as int) <= net) by (nonlinear_arith)
        requires
            profit_share_bps <= BPS_DENOMINATOR,
            net >= 0,
            BPS_DENOMINATOR == 10_000,
    ;
}

/// Conservation of a termination penalty: the penalty and the remaining
/// refund of the penalized bond sum to the bond exactly.
pub proof fn lemma_penalty_split_conserves(bond: u128, penalty_bps: u64)
    requires
        penalty_bps <= BPS_DENOMINATOR,
    ensures
        0 <= mul_bps_spec(bond, penalty_bps) <= bond,
        mul_bps_spec(bond, penalty_bps) + (bond - mul_bps_spec(bond, penalty_bps)) == bond,
{
    lemma_mul_bps_bounds(bond, penalty_bps);
}

/// `amount * bps / 10_000` on machine integers.
pub fn mul_bps(amount: u128, bps: u64) -> (r: u128)
    requires
        amount * bps <= u128::MAX,
    ensures
        r == mul_bps_spec(amount, bps),
{
    amount * (bps as u128) / (BPS_DENOMINATOR as u128)
}

/// Splits a gross payout into `(worker_net, referral_fee, treasury_fee,
/// protocol_fee)`. The first three sum to `gross` exactly.
pub fn payout_split(gross: u128, fee_bps: u64, referral_bps: u64, has_referrer: bool) -> (r: (
    u128,
    u128,
    u128,
    u128,
))
    requires
        fee_bps <= BPS_DENOMINATOR,
        referral_bps <= BPS_DENOMINATOR,
        gross <= crate::types::BPS_SAFE_LIMIT,
    ensures
        r.0 == worker_net_spec(gross, fee_bps),
        r.1 == referral_fee_spec(gross, fee_bps, referral_bps, has_referrer),
        r.2 == treasury_fee_spec(gross, fee_bps, referral_bps, has_referrer),
        r.3 == protocol_fee_spec(gross, fee_bps),
        r.0 + r.1 + r.2 == gross,
{
    proof {
        lemma_bps_product_fits(gross, fee_bps);
        lemma_payout_split_conserves(gross, fee_bps, referral_bps, has_referrer);
        lemma_bps_product_fits(protocol_fee_spec(gross, fee_bps) as u128, referral_bps);
    }
    let protocol_fee = mul_bps(gross, fee_bps);
    let worker_net = gross - protocol_fee;
    let referral_fee = if has_referrer {
        mul_bps(protocol_fee, referral_bps)
    } else {
        0
    };
    let treasury_fee = protocol_fee - referral_fee;
    (worker_net, referral_fee, treasury_fee, protocol_fee)
}

/// Splits deposited revenue into `(worker_share, employer_share,
/// referral_fee, treasury_fee, protocol_fee)`. The first four sum to
/// `revenue` exactly.
pub fn revenue_split(
    revenue: u128,
    fee_bps: u64,
    referral_bps: u64,
    profit_share_bps: u64,
    has_referrer: bool,
) -> (r: (u128, u128, u128, u128, u128))
    requires
        fee_bps <= BPS_DENOMINATOR,
        referral_bps <= BPS_DENOMINATOR,
        profit_share_bps <= BPS_DENOMINATOR,
        revenue <= crate::types::BPS_SAFE_LIMIT,
    ensures
        r.0 == revenue_worker_share_spec(revenue, fee_bps, profit_share_bps),
        r.1 == revenue_employer_share_spec(revenue, fee_bps, profit_share_bps),
        r.2 == referral_fee_spec(revenue, fee_bps, referral_bps, has_referrer),
        r.3 == treasury_fee_spec(revenue, fee_bps, referral_bps, has_referrer),
        r.4 == protocol_fee_spec(revenue, fee_bps),
        r.0 + r.1 + r.2 + r.3 == revenue,
{
    proof {
        lemma_bps_product_fits(revenue, fee_bps);
        lemma_revenue_split_conserves(revenue, fee_bps, referral_bps, profit_share_bps, has_referrer);
        lemma_payout_split_conserves(revenue, fee_bps, referral_bps, has_referrer);
        lemma_bps_product_fits((revenue - protocol_fee_spec(revenue, fee_bps)) as u128, profit_share_bps);
        lemma_bps_product_fits(protocol_fee_spec(revenue, fee_bps) as u128, referral_bps);
    }
    let protocol_fee = mul_bps(revenue, fee_bps);
    let net_after_fee = revenue - protocol_fee;
    let worker_share = mul_bps(net_after_fee, profit_share_bps);
    let employer_share = net_after_fee - worker_share;
    let referral_fee = if has_referrer {
        mul_bps(protocol_fee, referral_bps)
    } else {
        0
    };
    let treasury_fee = protocol_fee - referral_fee;
    (worker_share, employer_share, referral_fee, treasury_fee, protocol_fee)
}

/// For amounts up to `BPS_SAFE_LIMIT`, a basis-point product fits in `u128`.
pub proof fn lemma_bps_product_fits(amount: u128, bps: u64)
    requires
        amount <= crate::types::BPS_SAFE_LIMIT,
        bps <= BPS_DENOMINATOR,
    ensures
        amount * bps <= u128::MAX,
{
    assert(amount * bps <= u128::MAX) by (nonlinear_arith)
        requires
            amount <= u128::MAX / 10_000,
            bps <= 10_000,
            amount >= 0,
            crate::types::BPS_SAFE_LIMIT == u128::MAX / 10_000,
            BPS_DENOMINATOR == 10_000,
    ;
}

} // verus!
