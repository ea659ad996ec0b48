//! The fee distributor: flat fees, distributor/treasury splits,
//! revenue-partner shares, and liquidation splits.
//!
//! Every split is exact: the parts always reconstitute the whole they
//! were cut from, so no unit of value is lost or created by rounding.

use crate::constants::{BASIS_POINTS_DENOMINATOR, DROPLETS_PER_NFT};
use crate::keys::Pubkey;
use vstd::arithmetic::div_mod::lemma_div_is_ordered;
use vstd::arithmetic::mul::lemma_mul_inequality;
use vstd::prelude::*;

verus! {

/// Portion of `total_value` taken by a fee of `basis_points`, rounded
/// down.
pub open spec fn fee_portion(total_value: int, basis_points: int) -> int {
    total_value * basis_points / (BASIS_POINTS_DENOMINATOR as int)
}

/// Flat fee on a value; `None` exactly when the product overflows.
pub fn split_flat_fee(total_value: u64, fee_basis_points: u16) -> (r: Option<u64>)
    ensures
        r is Some <==> (total_value as int) * (fee_basis_points as int) <= u64::MAX,
        r matches Some(f) ==> f == fee_portion(total_value as int, fee_basis_points as int),
{
    match total_value.checked_mul(fee_basis_points as u64) {
        Some(p) => Some(p / (BASIS_POINTS_DENOMINATOR as u64)),
        None => None,
    }
}

/// A fee split between the distributor and the treasury.
#[derive(Clone, Copy, PartialEq, Eq, Structural, Debug)]
pub struct DistributorShare {
    pub distributor_amount: u64,
    pub treasury_amount: u64,
}

/// Splits a collected fee between distributor and treasury.
///
/// The two parts always sum exactly to `fee_amount`: a split never
/// loses or gains a unit.  `None` exactly when the product overflows
/// (for any share of at most the whole, the split itself always fits).
pub fn split_distributor_share(fee_amount: u64, distributor_basis_points: u16) -> (r: Option<
    DistributorShare,
>)
    ensures
        r is Some <==> (fee_amount as int) * (distributor_basis_points as int) <= u64::MAX
            && fee_portion(fee_amount as int, distributor_basis_points as int) <= fee_amount,
        r matches Some(s) ==> {
            &&& s.distributor_amount == fee_portion(
                fee_amount as int,
                distributor_basis_points as int,
            )
            &&& s.distributor_amount + s.treasury_amount == fee_amount
        },
{
    let product = match fee_amount.checked_mul(distributor_basis_points as u64) {
        Some(p) => p,
        None => {
            return None;
        },
    };
    let distributor_amount = product / (BASIS_POINTS_DENOMINATOR as u64);
    let treasury_amount = match fee_amount.checked_sub(distributor_amount) {
        Some(t) => t,
        None => {
            return None;
        },
    };
    Some(DistributorShare { distributor_amount, treasury_amount })
}

/// Any share of at most 10,000 basis points cuts a portion no larger
/// than the whole, so [`split_distributor_share`] succeeds whenever its
/// product fits.
pub proof fn lemma_fee_portion_bounded(total_value: int, basis_points: int)
    requires
        total_value >= 0,
        0 <= basis_points <= BASIS_POINTS_DENOMINATOR as int,
    ensures
        0 <= fee_portion(total_value, basis_points) <= total_value,
{
    lemma_mul_inequality(basis_points, BASIS_POINTS_DENOMINATOR as int, total_value);
    assert(basis_points * total_value == total_value * basis_points) by (nonlinear_arith);
    assert((BASIS_POINTS_DENOMINATOR as int) * total_value == total_value * (
    BASIS_POINTS_DENOMINATOR as int)) by (nonlinear_arith);
    lemma_div_is_ordered(
        total_value * basis_points,
        total_value * (BASIS_POINTS_DENOMINATOR as int),
        BASIS_POINTS_DENOMINATOR as int,
    );
    vstd::arithmetic::div_mod::lemma_div_multiples_vanish(
        total_value,
        BASIS_POINTS_DENOMINATOR as int,
    );
    assert((BASIS_POINTS_DENOMINATOR as int) * total_value == total_value * (
    BASIS_POINTS_DENOMINATOR as int));
    vstd::arithmetic::mul::lemma_mul_nonnegative(total_value, basis_points);
    vstd::arithmetic::div_mod::lemma_div_pos_is_pos(
        total_value * basis_points,
        BASIS_POINTS_DENOMINATOR as int,
    );
}

/// A liquidation split: the caller's reward and the amount stored in
/// the treasury vault.
#[derive(Clone, Copy, PartialEq, Eq, Structural, Debug)]
pub struct LiquidationSplit {
    pub liquidator_reward: u64,
    pub vault_amount: u64,
}

/// Reward carved out of a liquidation deficit: `reward_percentage` is
/// expressed against [`DROPLETS_PER_NFT`], the same per-whole-NFT scale
/// as the principal formula.
pub open spec fn liquidation_reward(deficit_value: int, reward_percentage: int) -> int {
    deficit_value * reward_percentage / (DROPLETS_PER_NFT as int)
}

/// Splits a liquidation deficit between the liquidator and the vault.
///
/// The two parts always sum exactly to `deficit_value`.  `None`
/// exactly when the product overflows or the reward would exceed the
/// deficit (impossible for a percentage of at most 100).
pub fn split_liquidation(deficit_value: u64, reward_percentage: u8) -> (r: Option<
    LiquidationSplit,
>)
    ensures
        r is Some <==> (deficit_value as int) * (reward_percentage as int) <= u64::MAX
            && liquidation_reward(deficit_value as int, reward_percentage as int)
            <= deficit_value,
        r matches Some(s) ==> {
            &&& s.liquidator_reward == liquidation_reward(
                deficit_value as int,
                reward_percentage as int,
            )
            &&& s.liquidator_reward + s.vault_amount == deficit_value
        },
{
    let product = match deficit_value.checked_mul(reward_percentage as u64) {
        Some(p) => p,
        None => {
            return None;
        },
    };
    let liquidator_reward = product / (DROPLETS_PER_NFT as u64);
    let vault_amount = match deficit_value.checked_sub(liquidator_reward) {
        Some(v) => v,
        None => {
            return None;
        },
    };
    Some(LiquidationSplit { liquidator_reward, vault_amount })
}

/// A reward percentage of at most 100 never exceeds the deficit, so
/// [`split_liquidation`] succeeds whenever its product fits.
pub proof fn lemma_liquidation_reward_bounded(deficit_value: int, reward_percentage: int)
    requires
        deficit_value >= 0,
        0 <= reward_percentage <= DROPLETS_PER_NFT as int,
    ensures
        0 <= liquidation_reward(deficit_value, reward_percentage) <= deficit_value,
{
    lemma_mul_inequality(reward_percentage, DROPLETS_PER_NFT as int, deficit_value);
    assert(reward_percentage * deficit_value == deficit_value * reward_percentage)
        by (nonlinear_arith);
    assert((DROPLETS_PER_NFT as int) * deficit_value == deficit_value * (DROPLETS_PER_NFT as int))
        by (nonlinear_arith);
    lemma_div_is_ordered(
        deficit_value * reward_percentage,
        deficit_value * (DROPLETS_PER_NFT as int),
        DROPLETS_PER_NFT as int,
    );
    vstd::arithmetic::div_mod::lemma_div_multiples_vanish(deficit_value, DROPLETS_PER_NFT as int);
    vstd::arithmetic::mul::lemma_mul_nonnegative(deficit_value, reward_percentage);
    vstd::arithmetic::div_mod::lemma_div_pos_is_pos(
        deficit_value * reward_percentage,
        DROPLETS_PER_NFT as int,
    );
}

/// One revenue partner: a recipient and its share in basis points.
#[derive(Clone, Copy, PartialEq, Eq, Debug)]
pub struct RevenuePartner {
    pub address: Pubkey,
    pub share_basis_points: u16,
}

/// Sum of the first `n` partners' shares.
pub open spec fn share_sum_prefix(partners: Seq<RevenuePartner>, n: int) -> int
    decreases n,
{
    if n <= 0 {
        0
    } else {
        share_sum_prefix(partners, n - 1) + partners[n - 1].share_basis_points
    }
}

/// Sum of all partners' shares, in basis points.
pub open spec fn share_sum(partners: Seq<RevenuePartner>) -> int {
    share_sum_prefix(partners, partners.len() as int)
}

proof fn lemma_share_sum_prefix_le(partners: Seq<RevenuePartner>, i: int, j: int)
    requires
        0 <= i <= j <= partners.len(),
    ensures
        share_sum_prefix(partners, i) <= share_sum_prefix(partners, j),
    decreases j - i,
{
    if i < j {
        lemma_share_sum_prefix_le(partners, i, j - 1);
    }
}

/// Decides whether the partners' shares sum to exactly one whole
/// (10,000 basis points) — the only table shape accepted for storage.
pub fn shares_sum_to_whole(partners: &Vec<RevenuePartner>) -> (r: bool)
    ensures
        r == (share_sum(partners@) == BASIS_POINTS_DENOMINATOR as int),
{
    let mut sum: u64 = 0;
    let mut i: usize = 0;
    while i < partners.len()
        invariant
            i <= partners.len(),
            sum == share_sum_prefix(partners@, i as int),
            sum <= BASIS_POINTS_DENOMINATOR as u64,
        decreases partners.len() - i,
    {
        let share = partners[i].share_basis_points;
        if (share as u64) > (BASIS_POINTS_DENOMINATOR as u64) - sum {
            proof {
                lemma_share_sum_prefix_le(partners@, i as int + 1, partners@.len() as int);
            }
            return false;
        }
        sum = sum + (share as u64);
        i += 1;
    }
    sum == (BASIS_POINTS_DENOMINATOR as u64)
}

/// One computed payout of a revenue distribution.
#[derive(Clone, Copy, PartialEq, Eq, Debug)]
pub struct RevenueShare {
    pub address: Pubkey,
    pub amount: u64,
}

/// Computes each partner's cut of `total_value`; `None` exactly when
/// some partner's product overflows.
pub fn split_revenue_shares(total_value: u64, partners: &Vec<RevenuePartner>) -> (r: Option<
    Vec<RevenueShare>,
>)
    ensures
        r is Some <==> (forall|i: int|
            0 <= i < partners@.len() ==> (total_value as int) * (
            partners@[i].share_basis_points as int) <= u64::MAX),
        r matches Some(shares) ==> {
            &&& shares@.len() == partners@.len()
            &&& forall|i: int|
                0 <= i < partners@.len() ==> shares@[i].address == partners@[i].address
                    && shares@[i].amount == fee_portion(
                    total_value as int,
                    partners@[i].share_basis_points as int,
                )
        },
{
    let mut shares: Vec<RevenueShare> = Vec::new();
    let mut i: usize = 0;
    while i < partners.len()
        invariant
            i <= partners.len(),
            shares@.len() == i,
            forall|k: int|
                0 <= k < i ==> shares@[k].address == partners@[k].address && shares@[k].amount
                    == fee_portion(total_value as int, partners@[k].share_basis_points as int),
            forall|k: int|
                0 <= k < i ==> (total_value as int) * (partners@[k].share_basis_points as int)
                    <= u64::MAX,
        decreases partners.len() - i,
    {
        let amount = match split_flat_fee(total_value, partners[i].share_basis_points) {
            Some(a) => a,
            None => {
                return None;
            },
        };
        shares.push(RevenueShare { address: partners[i].address, amount });
        i += 1;
    }
    Some(shares)
}

} // verus!
