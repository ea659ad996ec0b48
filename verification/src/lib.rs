//! Accounting engine for a pool that swaps non-fungible collectibles
//! ("NFTs") against a fungible claim token ("droplets"), and lends
//! droplets against a single NFT held as collateral in a time-bounded,
//! interest-accruing locker.
//!
//! The library holds the value-conservation and loan-economics rules:
//! how many droplets each operation mints or burns, how collection
//! membership is checked before an NFT is accepted, how loan principal
//! and interest are quoted and accrue, how defaulted lockers are
//! liquidated, and how collected fees are split.  Balance-moving calls
//! and account plumbing are the caller's concern: every transition here
//! is a pure state update that reports the exact amounts to move.

pub mod admin;
pub mod bucket;
pub mod collection;
pub mod constants;
pub mod errors;
pub mod fees;
pub mod hash;
pub mod keys;
pub mod laws;
pub mod loan;
pub mod merkle;
pub mod migration;
pub mod staking;
pub mod state;
