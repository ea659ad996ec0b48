//! Cross-transition laws of the engine.

use crate::loan::{
    accrued_interest, lemma_accrued_interest_at_expiry, lemma_accrued_interest_bounded,
    lemma_accrued_interest_monotonic,
};
use crate::state::{locker_wf, LockerState};
use vstd::arithmetic::div_mod::lemma_div_of0;
use vstd::prelude::*;

verus! {

/// Law: a lock followed by an unlock before expiry costs exactly the
/// quoted principal plus the interest accrued at the time of the
/// unlock (the unlock burns the locker's principal and transfers that
/// accrual, and releases the locked NFT itself).  The accrual starts
/// at zero when the locker is created, never decreases as time
/// passes, never exceeds the quoted maximum interest, and reaches it
/// exactly at the moment of expiry.
pub proof fn lemma_lock_unlock_round_trip(locker: LockerState, t1: int, t2: int)
    requires
        locker_wf(locker),
        locker.duration >= 1,
        locker.creation_timestamp <= t1 <= t2 <= locker.creation_timestamp + locker.duration,
    ensures
        accrued_interest(
            locker.creation_timestamp as int,
            locker.creation_timestamp as int,
            locker.duration as int,
            locker.max_interest_payable as int,
        ) == 0,
        accrued_interest(
            t1,
            locker.creation_timestamp as int,
            locker.duration as int,
            locker.max_interest_payable as int,
        ) <= accrued_interest(
            t2,
            locker.creation_timestamp as int,
            locker.duration as int,
            locker.max_interest_payable as int,
        ),
        0 <= accrued_interest(
            t2,
            locker.creation_timestamp as int,
            locker.duration as int,
            locker.max_interest_payable as int,
        ) <= locker.max_interest_payable,
        accrued_interest(
            locker.creation_timestamp as int + locker.duration as int,
            locker.creation_timestamp as int,
            locker.duration as int,
            locker.max_interest_payable as int,
        ) == locker.max_interest_payable,
{
    lemma_div_of0(locker.duration as int);
    lemma_accrued_interest_monotonic(
        locker.creation_timestamp as int,
        locker.duration as int,
        locker.max_interest_payable as int,
        t1,
        t2,
    );
    lemma_accrued_interest_bounded(
        t2,
        locker.creation_timestamp as int,
        locker.duration as int,
        locker.max_interest_payable as int,
    );
    lemma_accrued_interest_at_expiry(
        locker.creation_timestamp as int,
        locker.duration as int,
        locker.max_interest_payable as int,
    );
}

} // verus!
