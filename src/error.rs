//! Errors of the lending ledger.
use vstd::prelude::*;

use crate::erc20;
use crate::Address;

verus! {

#[derive(Debug, Clone, Copy, PartialEq, Eq, Structural)]
pub enum Error {
    Unknown,
    /// The clock reads earlier than the market's last accrual.
    TimeError,
    NoAccount,
    AccountAlreadyOpened,
    InsufficientFunds { addr: Address },
    /// The caller's recorded underlying is less than asked for.
    InsufficientUnderlying { underlying: u64 },
    /// The caller's claim tokens are fewer than the redemption burns.
    InsufficientClaims { claims: u64 },
    /// The operation would leave the caller's collateral short by `shortfall`
    /// (negative).
    InsufficientCollateral { shortfall: i128 },
    InsufficientCash,
    InsufficientSupply,
    AdminPrivilegesRequired,
    MarketAlreadyListed,
    MarketNotListed,
    /// The registry holds as many markets as it can.
    MarketLimitReached,
    /// No token ledger stands at the market's ledger index.
    NoLedger,
    /// A repayment larger than what is owed.
    ExcessRepayment,
    /// A quantity would leave the integer range it is kept in.
    Overflow,
    Erc20Error { erc20_error: erc20::Error },
}

} // verus!
