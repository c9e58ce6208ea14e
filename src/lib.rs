//! A collateralised lending ledger: money markets that take deposits of a
//! fungible token, hand out claim tokens, lend against the combined value of
//! an account's claims, and accrue interest on what is lent.
//!
//! All amounts are integers in the token's base unit; rates are exact
//! rationals or fixed-point values scaled by `RATE_SCALE`.
use vstd::prelude::*;

mod collections;
pub mod erc20;
pub mod error;
pub mod rates;
pub mod market;
pub mod cdp;

verus! {

/// An account identity.
pub type Address = u64;

} // verus!
