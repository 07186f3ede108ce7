//! Trading core of a prediction-market venue.
//!
//! Outcome shares — tokenized claims that pay a fixed redemption value when
//! their outcome wins — trade through two independent mechanisms over one
//! shared supply: a constant-product automated market maker and a limit
//! order book with partial fills. A per-user share ledger tracks cost basis
//! and realized profit-and-loss for both paths.
//!
//! Custody (moving native currency or tokens between accounts), the market
//! lifecycle (creation, staking, winner declaration) and the clock are
//! external collaborators: every operation here takes the balances,
//! resolution state and current time it needs as plain values, validates
//! fully, and either commits all of its record updates or fails with a typed
//! error and no change at all.

pub mod amm_pool;
pub mod errors;
pub mod math;
pub mod order_book;
pub mod outcome_share;
