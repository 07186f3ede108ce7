//! Typed errors shared by every operation of the trading core.
//!
//! Each operation validates fully before it mutates anything, and reports the
//! first failing check as one of these variants; nothing is retried here.

use vstd::prelude::*;

verus! {

/// Why an operation of the trading core refused to run.
#[derive(Clone, Copy, Debug, PartialEq, Eq, Structural)]
pub enum BetFunError {
    /// A zero or out-of-range amount was supplied.
    InvalidAmount,
    /// A reserve or pool balance cannot cover the request.
    InsufficientLiquidity,
    /// The computed swap output is zero.
    InsufficientOutputAmount,
    /// A checked arithmetic step (including division by zero) overflowed.
    ArithmeticOverflow,
    /// A liquidity deposit would mint zero LP tokens.
    InsufficientLiquidityMinted,
    /// A caller-supplied slippage bound was violated.
    SlippageToleranceExceeded,
    /// The caller's balance cannot cover the required escrow.
    InsufficientFunds,
    /// The caller's balance cannot cover the cost of a direct trade.
    InsufficientEntryFee,
    /// Malformed parameters (fee above cap, inconsistent order fields, ...).
    InvalidConfiguration,
    /// The market is already resolved, so trading is closed.
    AlreadyResolved,
    /// The market's trading window has ended.
    ArenaEnded,
    /// Redemption was requested before the market resolved.
    NotResolved,
    /// Redemption was requested for an outcome that did not win.
    NotWinner,
    /// An outcome index outside the market's range was supplied.
    InvalidOutcome,
    /// The caller does not own the resource it tried to mutate.
    Unauthorized,
    /// The seller's share balance cannot cover the request.
    InsufficientShares,
}

} // verus!
