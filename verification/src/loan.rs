//! The loan engine: quoting a locker loan, and accruing its interest.

use crate::constants::{
    full_value, full_value_amount, DROPLETS_PER_NFT, LAMPORTS_PER_DROPLET, MAX_INTEREST_SCALER,
};
use vstd::arithmetic::div_mod::{
    lemma_div_is_ordered, lemma_div_multiples_vanish, lemma_div_pos_is_pos,
};
use vstd::arithmetic::mul::{lemma_mul_inequality, lemma_mul_nonnegative};
use vstd::prelude::*;

verus! {

/// Inputs of a loan quote: the bucket counters *after* the NFT being
/// locked has been counted into the lockers, the locking limits, and
/// the requested duration.
#[derive(Clone, Copy, PartialEq, Eq, Structural, Debug)]
pub struct CalculateLoanArgs {
    pub max_locker_duration: u64,
    pub num_nfts_in_bucket: u16,
    pub num_nfts_in_lockers: u16,
    pub interest_scaler: u8,
    pub locker_duration: u64,
}

/// A loan quote: the droplets minted to the borrower, and the most
/// interest the borrower can owe.
#[derive(Clone, Copy, PartialEq, Eq, Structural, Debug)]
pub struct CalculateLoanResult {
    pub principal_amount: u64,
    pub max_interest_payable: u64,
}

/// Numerator of the interest formula: requested duration times locked
/// count times the full droplet value of one NFT.
pub open spec fn loan_numerator(args: CalculateLoanArgs) -> int {
    (args.locker_duration as int) * (args.num_nfts_in_lockers as int) * (DROPLETS_PER_NFT as int)
        * (LAMPORTS_PER_DROPLET as int)
}

/// Denominator of the interest formula: the longest allowed duration
/// times the total number of NFTs backing the bucket.
pub open spec fn loan_denominator(args: CalculateLoanArgs) -> int {
    (args.max_locker_duration as int) * ((args.num_nfts_in_bucket as int)
        + (args.num_nfts_in_lockers as int))
}

/// The quoted interest before scaling: the ceiling of
/// `loan_numerator / loan_denominator`, so that interest is never
/// under-charged by rounding.
pub open spec fn raw_interest(args: CalculateLoanArgs) -> int
    recommends
        loan_denominator(args) >= 1,
{
    (loan_numerator(args) + loan_denominator(args) - 1) / loan_denominator(args)
}

/// The interest actually owed: the raw interest scaled down by
/// `interest_scaler / MAX_INTEREST_SCALER`, rounded down.
pub open spec fn scaled_interest(args: CalculateLoanArgs) -> int
    recommends
        loan_denominator(args) >= 1,
{
    raw_interest(args) * (args.interest_scaler as int) / (MAX_INTEREST_SCALER as int)
}

/// The principal minted to the borrower: the full droplet value of one
/// NFT minus the *unscaled* interest.  (The principal is reduced by the
/// raw interest while the repayable interest is the scaled one; this
/// asymmetry is part of the quoted economics, not a rounding artifact.)
pub open spec fn loan_principal(args: CalculateLoanArgs) -> int
    recommends
        loan_denominator(args) >= 1,
{
    full_value() - raw_interest(args)
}

/// The quote is representable: the denominator is positive and every
/// intermediate of the formula fits in a `u64`.  On any other input the
/// quote aborts instead of wrapping.
pub open spec fn loan_fits(args: CalculateLoanArgs) -> bool {
    &&& loan_denominator(args) >= 1
    &&& loan_numerator(args) <= u64::MAX
    &&& loan_denominator(args) <= u64::MAX
    &&& loan_numerator(args) + loan_denominator(args) - 1 <= u64::MAX
    &&& raw_interest(args) * (args.interest_scaler as int) <= u64::MAX
    &&& raw_interest(args) <= full_value()
}

/// Quotes principal and maximum interest for a new locker loan.
///
/// Returns `None` exactly when the formula does not fit in checked
/// 64-bit arithmetic (see [`loan_fits`]); the caller must abort the
/// lock in that case.
pub fn calculate_loan(args: CalculateLoanArgs) -> (r: Option<CalculateLoanResult>)
    ensures
        r is Some <==> loan_fits(args),
        r matches Some(res) ==> res.principal_amount == loan_principal(args)
            && res.max_interest_payable == scaled_interest(args),
{
    let x = args.num_nfts_in_bucket;
    let y = args.num_nfts_in_lockers;
    let x_plus_y: u64 = (y as u64) + (x as u64);

    let n1 = match args.locker_duration.checked_mul(y as u64) {
        Some(v) => v,
        None => {
            return None;
        },
    };
    let n2 = match n1.checked_mul(DROPLETS_PER_NFT as u64) {
        Some(v) => v,
        None => {
            return None;
        },
    };
    let numerator = match n2.checked_mul(LAMPORTS_PER_DROPLET) {
        Some(v) => v,
        None => {
            return None;
        },
    };
    let denominator = match args.max_locker_duration.checked_mul(x_plus_y) {
        Some(v) => v,
        None => {
            return None;
        },
    };
    let denominator_minus_one = match denominator.checked_sub(1) {
        Some(v) => v,
        None => {
            return None;
        },
    };
    let ceil_numerator = match numerator.checked_add(denominator_minus_one) {
        Some(v) => v,
        None => {
            return None;
        },
    };
    let raw = ceil_numerator / denominator;
    let scaled_product = match raw.checked_mul(args.interest_scaler as u64) {
        Some(v) => v,
        None => {
            return None;
        },
    };
    let max_interest_payable = scaled_product / (MAX_INTEREST_SCALER as u64);
    let max_droplets_per_nft = full_value_amount();
    let principal_amount = match max_droplets_per_nft.checked_sub(raw) {
        Some(v) => v,
        None => {
            return None;
        },
    };
    Some(CalculateLoanResult { principal_amount, max_interest_payable })
}

/// A quote that fits stays within the value of the NFT backing it: the
/// raw interest is non-negative, the principal never exceeds the full
/// value, and the scaled interest never exceeds the raw interest.
pub proof fn lemma_loan_quote_bounds(args: CalculateLoanArgs)
    requires
        loan_fits(args),
        args.interest_scaler <= MAX_INTEREST_SCALER,
    ensures
        0 <= raw_interest(args),
        0 <= loan_principal(args) <= full_value(),
        0 <= scaled_interest(args) <= raw_interest(args),
{
    lemma_mul_nonnegative(args.locker_duration as int, args.num_nfts_in_lockers as int);
    assert(loan_numerator(args) >= 0);
    lemma_div_pos_is_pos(
        loan_numerator(args) + loan_denominator(args) - 1,
        loan_denominator(args),
    );
    let raw = raw_interest(args);
    lemma_mul_nonnegative(raw, args.interest_scaler as int);
    lemma_div_pos_is_pos(raw * (args.interest_scaler as int), MAX_INTEREST_SCALER as int);
    lemma_mul_inequality(args.interest_scaler as int, MAX_INTEREST_SCALER as int, raw);
    assert((args.interest_scaler as int) * raw == raw * (args.interest_scaler as int))
        by (nonlinear_arith);
    assert((MAX_INTEREST_SCALER as int) * raw == raw * (MAX_INTEREST_SCALER as int))
        by (nonlinear_arith);
    lemma_div_is_ordered(
        raw * (args.interest_scaler as int),
        raw * (MAX_INTEREST_SCALER as int),
        MAX_INTEREST_SCALER as int,
    );
    lemma_div_multiples_vanish(raw, MAX_INTEREST_SCALER as int);
}

/// Interest owed at time `now` on a locker created at
/// `creation_timestamp`: the maximum interest, linearly pro-rated over
/// the elapsed fraction of the duration.
pub open spec fn accrued_interest(
    now: int,
    creation_timestamp: int,
    duration: int,
    max_interest_payable: int,
) -> int
    recommends
        duration >= 1,
{
    (now - creation_timestamp) * max_interest_payable / duration
}

/// The accrual is computable in checked 64-bit arithmetic: the clock
/// has not run backwards, the duration is positive, and the product
/// fits.
pub open spec fn accrual_fits(
    now: int,
    creation_timestamp: int,
    duration: int,
    max_interest_payable: int,
) -> bool {
    &&& creation_timestamp <= now
    &&& duration >= 1
    &&& (now - creation_timestamp) * max_interest_payable <= u64::MAX
}

/// Computes the interest owed at `now`; `None` exactly when the
/// accrual does not fit in checked arithmetic (see [`accrual_fits`]).
pub fn accrue_interest(
    now: u64,
    creation_timestamp: u64,
    duration: u64,
    max_interest_payable: u64,
) -> (r: Option<u64>)
    ensures
        r is Some <==> accrual_fits(
            now as int,
            creation_timestamp as int,
            duration as int,
            max_interest_payable as int,
        ),
        r matches Some(v) ==> v == accrued_interest(
            now as int,
            creation_timestamp as int,
            duration as int,
            max_interest_payable as int,
        ),
{
    let elapsed = match now.checked_sub(creation_timestamp) {
        Some(v) => v,
        None => {
            return None;
        },
    };
    let product = match elapsed.checked_mul(max_interest_payable) {
        Some(v) => v,
        None => {
            return None;
        },
    };
    if duration == 0 {
        return None;
    }
    Some(product / duration)
}

/// Accrued interest never decreases as time passes.
pub proof fn lemma_accrued_interest_monotonic(
    creation_timestamp: int,
    duration: int,
    max_interest_payable: int,
    t1: int,
    t2: int,
)
    requires
        t1 <= t2,
        duration >= 1,
        max_interest_payable >= 0,
    ensures
        accrued_interest(t1, creation_timestamp, duration, max_interest_payable)
            <= accrued_interest(t2, creation_timestamp, duration, max_interest_payable),
{
    lemma_mul_inequality(t1 - creation_timestamp, t2 - creation_timestamp, max_interest_payable);
    lemma_div_is_ordered(
        (t1 - creation_timestamp) * max_interest_payable,
        (t2 - creation_timestamp) * max_interest_payable,
        duration,
    );
}

/// At the exact moment the locker expires, the accrued interest equals
/// the quoted maximum, with no rounding loss.
pub proof fn lemma_accrued_interest_at_expiry(
    creation_timestamp: int,
    duration: int,
    max_interest_payable: int,
)
    requires
        duration >= 1,
    ensures
        accrued_interest(
            creation_timestamp + duration,
            creation_timestamp,
            duration,
            max_interest_payable,
        ) == max_interest_payable,
{
    lemma_div_multiples_vanish(max_interest_payable, duration);
}

/// Before expiry the accrued interest never exceeds the quoted maximum,
/// and it is never negative.
pub proof fn lemma_accrued_interest_bounded(
    now: int,
    creation_timestamp: int,
    duration: int,
    max_interest_payable: int,
)
    requires
        creation_timestamp <= now <= creation_timestamp + duration,
        duration >= 1,
        max_interest_payable >= 0,
    ensures
        0 <= accrued_interest(now, creation_timestamp, duration, max_interest_payable)
            <= max_interest_payable,
{
    let elapsed = now - creation_timestamp;
    lemma_mul_nonnegative(elapsed, max_interest_payable);
    lemma_div_pos_is_pos(elapsed * max_interest_payable, duration);
    lemma_mul_inequality(elapsed, duration, max_interest_payable);
    lemma_div_is_ordered(
        elapsed * max_interest_payable,
        duration * max_interest_payable,
        duration,
    );
    lemma_div_multiples_vanish(max_interest_payable, duration);
}

} // verus!
