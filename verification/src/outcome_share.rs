//! One outcome's tradable share and the per-owner ledger of balances,
//! cost basis and realized profit-and-loss.
//!
//! `OutcomeShare` is the single source of truth for the share's supply and
//! last price; both the direct trade path here and the AMM feed it. The
//! ledger recomputes the weighted-average cost basis on every buy, leaves it
//! unchanged on sells, and realizes `proceeds - cost` against it. All
//! custody — lamport and token movement, minting and burning — is the
//! caller's; resolution state and the clock arrive as plain values.

use crate::errors::BetFunError;
use crate::math::lemma_exact_cost_basis;
use crate::math::{spec_saturating_add_u64, spec_saturating_sub, wide_mul_u64, PRICE_SCALE};
use vstd::prelude::*;

verus! {

/// Lowest allowed initial share price: 0.01 of the native unit.
pub const MIN_INITIAL_PRICE: u64 = 10_000_000;

/// Highest allowed initial share price: 0.99 of the native unit.
pub const MAX_INITIAL_PRICE: u64 = 990_000_000;

/// Redemption pays one whole native unit per winning share.
pub const REDEMPTION_PRICE: u64 = 1_000_000_000;

/// One outcome's share token and its market statistics.
#[derive(Clone, Copy, Debug, PartialEq, Eq, Structural)]
pub struct OutcomeShare {
    /// Which outcome of the market this share represents.
    pub outcome_index: u8,
    /// Shares in circulation; changes only by mint (buy) or burn
    /// (sell / redeem).
    pub total_supply: u64,
    /// Last observed trade price, lamports per share.
    pub current_price: u64,
    /// Rolling 24h traded volume in lamports.
    pub volume_24h: u64,
    /// Total number of trades recorded.
    pub trade_count: u64,
    /// When the last trade happened.
    pub last_trade_at: i64,
    /// Highest price in the rolling window.
    pub high_24h: u64,
    /// Lowest price in the rolling window; 0 until a trade happens.
    pub low_24h: u64,
    /// Price at the start of the rolling window.
    pub price_24h_ago: u64,
}

/// One owner's holding of one outcome share.
#[derive(Clone, Copy, Debug, PartialEq, Eq, Structural)]
pub struct ShareBalance {
    /// Account identifier of the owner.
    pub owner: u64,
    /// Shares held.
    pub balance: u64,
    /// Weighted-average purchase price, lamports per share at 1e9 scale;
    /// recomputed on buys, untouched by sells.
    pub avg_cost_basis: u64,
    /// Lamports invested, reduced by the cost portion of each sale.
    pub total_invested: u64,
    /// Profit and loss realized by sales and redemptions.
    pub realized_pnl: i64,
}

/// The ledger after a buy of `amount` at `price`: invested total grown by
/// the cost, balance grown by the amount, and the cost basis recomputed as
/// the weighted average — or the error the checked arithmetic stops on.
pub open spec fn spec_buy(b: ShareBalance, amount: int, price: int) -> Result<
    ShareBalance,
    BetFunError,
> {
    let cost = amount * price / (PRICE_SCALE as int);
    if cost > u64::MAX {
        Err(BetFunError::ArithmeticOverflow)
    } else if b.total_invested + cost > u64::MAX {
        Err(BetFunError::ArithmeticOverflow)
    } else if b.balance + amount > u64::MAX {
        Err(BetFunError::ArithmeticOverflow)
    } else {
        let new_invested = b.total_invested + cost;
        let new_balance = b.balance + amount;
        let basis = if new_balance > 0 {
            new_invested * (PRICE_SCALE as int) / new_balance
        } else {
            b.avg_cost_basis as int
        };
        if basis > u64::MAX {
            Err(BetFunError::ArithmeticOverflow)
        } else {
            Ok(
                ShareBalance {
                    balance: new_balance as u64,
                    avg_cost_basis: basis as u64,
                    total_invested: new_invested as u64,
                    ..b
                },
            )
        }
    }
}

/// The ledger after a sale of `amount` at `price`: the cost of the sold
/// shares leaves the invested total (saturating), `proceeds - cost` is
/// realized, and the cost basis stays untouched — or the error the checked
/// arithmetic stops on.
pub open spec fn spec_sell(b: ShareBalance, amount: int, price: int) -> Result<
    ShareBalance,
    BetFunError,
> {
    if b.balance < amount {
        Err(BetFunError::InsufficientShares)
    } else {
        let cost = amount * b.avg_cost_basis / (PRICE_SCALE as int);
        let proceeds = amount * price / (PRICE_SCALE as int);
        if cost > u64::MAX || proceeds > u64::MAX {
            Err(BetFunError::ArithmeticOverflow)
        } else {
            let pnl = proceeds - cost;
            if b.realized_pnl + pnl > i64::MAX || b.realized_pnl + pnl < i64::MIN {
                Err(BetFunError::ArithmeticOverflow)
            } else {
                Ok(
                    ShareBalance {
                        balance: (b.balance - amount) as u64,
                        total_invested: spec_saturating_sub(b.total_invested as int, cost) as u64,
                        realized_pnl: (b.realized_pnl + pnl) as i64,
                        ..b
                    },
                )
            }
        }
    }
}

impl ShareBalance {
    /// An empty holding for `owner`.
    pub fn new(owner: u64) -> (b: ShareBalance)
        ensures
            b == (ShareBalance {
                owner,
                balance: 0u64,
                avg_cost_basis: 0u64,
                total_invested: 0u64,
                realized_pnl: 0i64,
            }),
    {
        ShareBalance { owner, balance: 0, avg_cost_basis: 0, total_invested: 0, realized_pnl: 0 }
    }

    /// Paper profit at `current_price`: the holding's market value minus its
    /// value at the recorded cost basis.
    pub fn unrealized_pnl(&self, current_price: u64) -> (r: i64)
        requires
            self.balance as int * current_price as int / (PRICE_SCALE as int) <= i64::MAX,
            self.balance as int * self.avg_cost_basis as int / (PRICE_SCALE as int) <= i64::MAX,
        ensures
            r as int == self.balance as int * current_price as int / (PRICE_SCALE as int)
                - self.balance as int * self.avg_cost_basis as int / (PRICE_SCALE as int),
    {
        let current_value: u128 = wide_mul_u64(self.balance, current_price) / (PRICE_SCALE as u128);
        let cost: u128 = wide_mul_u64(self.balance, self.avg_cost_basis) / (PRICE_SCALE as u128);
        if current_value >= cost {
            (current_value - cost) as i64
        } else {
            -((cost - current_value) as i64)
        }
    }

    /// Realized plus unrealized profit at `current_price`.
    pub fn total_pnl(&self, current_price: u64) -> (r: i64)
        requires
            self.balance as int * current_price as int / (PRICE_SCALE as int) <= i64::MAX,
            self.balance as int * self.avg_cost_basis as int / (PRICE_SCALE as int) <= i64::MAX,
            i64::MIN <= self.realized_pnl + self.balance as int * current_price as int / (
            PRICE_SCALE as int) - self.balance as int * self.avg_cost_basis as int / (
            PRICE_SCALE as int) <= i64::MAX,
        ensures
            r as int == self.realized_pnl + self.balance as int * current_price as int / (
            PRICE_SCALE as int) - self.balance as int * self.avg_cost_basis as int / (
            PRICE_SCALE as int),
    {
        let unrealized = self.unrealized_pnl(current_price);
        let total: i128 = (self.realized_pnl as i128) + (unrealized as i128);
        total as i64
    }

    /// Record a purchase in the ledger; the outcome equals `spec_buy` and on
    /// any error the ledger is untouched.
    pub fn buy_shares(&mut self, amount: u64, price: u64) -> (r: Result<(), BetFunError>)
        ensures
            match r {
                Ok(_) => spec_buy(*old(self), amount as int, price as int) == Ok::<
                    _,
                    BetFunError,
                >(*final(self)),
                Err(e) => {
                    &&& spec_buy(*old(self), amount as int, price as int) == Err::<
                        ShareBalance,
                        _,
                    >(e)
                    &&& *final(self) == *old(self)
                },
            },
    {
        let cost128: u128 = wide_mul_u64(amount, price) / (PRICE_SCALE as u128);
        if cost128 > u64::MAX as u128 {
            return Err(BetFunError::ArithmeticOverflow);
        }
        let invested128: u128 = (self.total_invested as u128) + cost128;
        if invested128 > u64::MAX as u128 {
            return Err(BetFunError::ArithmeticOverflow);
        }
        let balance128: u128 = (self.balance as u128) + (amount as u128);
        if balance128 > u64::MAX as u128 {
            return Err(BetFunError::ArithmeticOverflow);
        }
        let new_invested: u64 = invested128 as u64;
        let new_balance: u64 = balance128 as u64;
        if new_balance > 0 {
            let basis128: u128 = wide_mul_u64(new_invested, PRICE_SCALE) / (new_balance as u128);
            if basis128 > u64::MAX as u128 {
                return Err(BetFunError::ArithmeticOverflow);
            }
            self.avg_cost_basis = basis128 as u64;
        }
        self.balance = new_balance;
        self.total_invested = new_invested;
        Ok(())
    }

    /// Record a sale in the ledger; the outcome equals `spec_sell` and on
    /// any error the ledger is untouched.
    pub fn sell_shares(&mut self, amount: u64, price: u64) -> (r: Result<(), BetFunError>)
        ensures
            match r {
                Ok(_) => spec_sell(*old(self), amount as int, price as int) == Ok::<
                    _,
                    BetFunError,
                >(*final(self)),
                Err(e) => {
                    &&& spec_sell(*old(self), amount as int, price as int) == Err::<
                        ShareBalance,
                        _,
                    >(e)
                    &&& *final(self) == *old(self)
                },
            },
    {
        if self.balance < amount {
            return Err(BetFunError::InsufficientShares);
        }
        let cost128: u128 = wide_mul_u64(amount, self.avg_cost_basis) / (PRICE_SCALE as u128);
        let proceeds128: u128 = wide_mul_u64(amount, price) / (PRICE_SCALE as u128);
        if cost128 > u64::MAX as u128 || proceeds128 > u64::MAX as u128 {
            return Err(BetFunError::ArithmeticOverflow);
        }
        let pnl: i128 = (proceeds128 as i128) - (cost128 as i128);
        let realized2: i128 = (self.realized_pnl as i128) + pnl;
        if realized2 > i64::MAX as i128 || realized2 < i64::MIN as i128 {
            return Err(BetFunError::ArithmeticOverflow);
        }
        let cost: u64 = cost128 as u64;
        self.realized_pnl = realized2 as i64;
        self.balance = self.balance - amount;
        self.total_invested = if self.total_invested >= cost {
            self.total_invested - cost
        } else {
            0
        };
        Ok(())
    }
}

/// The share's statistics after a trade at `new_price`: price and timestamp
/// refreshed, the 24h water marks widened.
pub open spec fn spec_update_price_stats(o: OutcomeShare, new_price: int, now: int) -> OutcomeShare {
    OutcomeShare {
        current_price: new_price as u64,
        last_trade_at: now as i64,
        high_24h: if new_price > o.high_24h {
            new_price as u64
        } else {
            o.high_24h
        },
        low_24h: if o.low_24h == 0 || new_price < o.low_24h {
            new_price as u64
        } else {
            o.low_24h
        },
        ..o
    }
}

/// The share's counters after `amount` of volume: both accrue, saturating.
pub open spec fn spec_add_volume(o: OutcomeShare, amount: int) -> OutcomeShare {
    OutcomeShare {
        volume_24h: spec_saturating_add_u64(o.volume_24h as int, amount) as u64,
        trade_count: spec_saturating_add_u64(o.trade_count as int, 1) as u64,
        ..o
    }
}

/// The outcome of the direct buy path: gate on market state, price the
/// purchase at the share's current price, check the buyer's funds, mint into
/// the supply, record the trade, and update the buyer's ledger.
pub open spec fn spec_buy_shares(
    o: OutcomeShare,
    b: ShareBalance,
    amount: int,
    resolved: bool,
    ended: bool,
    buyer_balance: int,
    now: int,
) -> Result<(OutcomeShare, ShareBalance, u64), BetFunError> {
    if resolved {
        Err(BetFunError::AlreadyResolved)
    } else if ended {
        Err(BetFunError::ArenaEnded)
    } else if amount <= 0 {
        Err(BetFunError::InvalidConfiguration)
    } else {
        let price = o.current_price as int;
        let cost = amount * price / (PRICE_SCALE as int);
        if cost > u64::MAX {
            Err(BetFunError::ArithmeticOverflow)
        } else if buyer_balance < cost {
            Err(BetFunError::InsufficientEntryFee)
        } else if o.total_supply + amount > u64::MAX {
            Err(BetFunError::ArithmeticOverflow)
        } else {
            match spec_buy(b, amount, price) {
                Err(e) => Err(e),
                Ok(b2) => {
                    let minted = OutcomeShare { total_supply: (o.total_supply + amount) as u64, ..o };
                    let o2 = spec_add_volume(spec_update_price_stats(minted, price, now), cost);
                    Ok((o2, b2, cost as u64))
                },
            }
        }
    }
}

/// The outcome of the direct sell path: gate on market state, price the
/// sale at the share's current price, check the escrow can pay, burn from
/// the supply, record the trade, and update the seller's ledger.
pub open spec fn spec_sell_shares(
    o: OutcomeShare,
    b: ShareBalance,
    amount: int,
    resolved: bool,
    escrow_balance: int,
    now: int,
) -> Result<(OutcomeShare, ShareBalance, u64), BetFunError> {
    if resolved {
        Err(BetFunError::AlreadyResolved)
    } else if amount <= 0 {
        Err(BetFunError::InvalidConfiguration)
    } else if b.balance < amount {
        Err(BetFunError::InsufficientEntryFee)
    } else {
        let price = o.current_price as int;
        let proceeds = amount * price / (PRICE_SCALE as int);
        if proceeds > u64::MAX {
            Err(BetFunError::ArithmeticOverflow)
        } else if escrow_balance < proceeds {
            Err(BetFunError::InsufficientEntryFee)
        } else if amount > o.total_supply {
            Err(BetFunError::ArithmeticOverflow)
        } else {
            match spec_sell(b, amount, price) {
                Err(e) => Err(e),
                Ok(b2) => {
                    let burned = OutcomeShare { total_supply: (o.total_supply - amount) as u64, ..o };
                    let o2 = spec_add_volume(spec_update_price_stats(burned, price, now), proceeds);
                    Ok((o2, b2, proceeds as u64))
                },
            }
        }
    }
}

/// The outcome of redemption after resolution: only the declared winner's
/// share redeems, at one whole native unit per share; the final profit is
/// realized against the recorded cost basis, and the basis itself stays.
pub open spec fn spec_redeem_shares(
    o: OutcomeShare,
    b: ShareBalance,
    amount: int,
    resolved: bool,
    winner_outcome: Option<u8>,
    escrow_balance: int,
) -> Result<(OutcomeShare, ShareBalance, u64), BetFunError> {
    if !resolved {
        Err(BetFunError::NotResolved)
    } else {
        match winner_outcome {
            None => Err(BetFunError::InvalidOutcome),
            Some(winner) => {
                if o.outcome_index != winner {
                    Err(BetFunError::NotWinner)
                } else if amount <= 0 {
                    Err(BetFunError::InvalidConfiguration)
                } else if b.balance < amount {
                    Err(BetFunError::InsufficientEntryFee)
                } else {
                    let redemption = amount * (REDEMPTION_PRICE as int);
                    if redemption > u64::MAX {
                        Err(BetFunError::ArithmeticOverflow)
                    } else if escrow_balance < redemption {
                        Err(BetFunError::InsufficientEntryFee)
                    } else if amount > o.total_supply {
                        Err(BetFunError::ArithmeticOverflow)
                    } else {
                        let cost = amount * b.avg_cost_basis / (PRICE_SCALE as int);
                        if redemption > i64::MAX || cost > i64::MAX {
                            Err(BetFunError::ArithmeticOverflow)
                        } else {
                            let pnl = redemption - cost;
                            if b.realized_pnl + pnl > i64::MAX || b.realized_pnl + pnl < i64::MIN {
                                Err(BetFunError::ArithmeticOverflow)
                            } else {
                                Ok(
                                    (
                                        OutcomeShare {
                                            total_supply: (o.total_supply - amount) as u64,
                                            ..o
                                        },
                                        ShareBalance {
                                            balance: (b.balance - amount) as u64,
                                            realized_pnl: (b.realized_pnl + pnl) as i64,
                                            ..b
                                        },
                                        redemption as u64,
                                    ),
                                )
                            }
                        }
                    }
                }
            },
        }
    }
}

impl OutcomeShare {
    /// Create the share record for one outcome before trading opens.
    ///
    /// Fails with `InvalidOutcome` when the index is outside the market's
    /// outcomes, `InvalidConfiguration` when the initial price is outside
    /// [0.01, 0.99] native units, and `AlreadyResolved` on a resolved
    /// market; succeeds on everything else.
    pub fn create_share_tokens(
        outcome_index: u8,
        outcomes_count: u8,
        initial_price: u64,
        resolved: bool,
        current_time: i64,
    ) -> (r: Result<OutcomeShare, BetFunError>)
        ensures
            match r {
                Ok(o) => {
                    &&& outcome_index < outcomes_count
                    &&& MIN_INITIAL_PRICE <= initial_price <= MAX_INITIAL_PRICE
                    &&& !resolved
                    &&& o == (OutcomeShare {
                        outcome_index,
                        total_supply: 0u64,
                        current_price: initial_price,
                        volume_24h: 0u64,
                        trade_count: 0u64,
                        last_trade_at: current_time,
                        high_24h: initial_price,
                        low_24h: initial_price,
                        price_24h_ago: initial_price,
                    })
                },
                Err(e) => {
                    &&& (e == BetFunError::InvalidOutcome <==> outcome_index >= outcomes_count)
                    &&& (e == BetFunError::InvalidConfiguration <==> (outcome_index
                        < outcomes_count && (initial_price < MIN_INITIAL_PRICE || initial_price
                        > MAX_INITIAL_PRICE)))
                    &&& (e == BetFunError::AlreadyResolved <==> (outcome_index < outcomes_count
                        && MIN_INITIAL_PRICE <= initial_price <= MAX_INITIAL_PRICE && resolved))
                },
            },
    {
        if outcome_index >= outcomes_count {
            return Err(BetFunError::InvalidOutcome);
        }
        if initial_price < MIN_INITIAL_PRICE || initial_price > MAX_INITIAL_PRICE {
            return Err(BetFunError::InvalidConfiguration);
        }
        if resolved {
            return Err(BetFunError::AlreadyResolved);
        }
        Ok(
            OutcomeShare {
                outcome_index,
                total_supply: 0,
                current_price: initial_price,
                volume_24h: 0,
                trade_count: 0,
                last_trade_at: current_time,
                high_24h: initial_price,
                low_24h: initial_price,
                price_24h_ago: initial_price,
            },
        )
    }

    /// Signed 24h price change in basis points; 0 when no window has
    /// started.
    pub fn price_change_24h(&self) -> (r: i64)
        requires
            i64::MIN <= crate::amm_pool::spec_change_bps(
                self.current_price as int,
                self.price_24h_ago as int,
            ) <= i64::MAX,
        ensures
            r as int == crate::amm_pool::spec_change_bps(
                self.current_price as int,
                self.price_24h_ago as int,
            ),
    {
        if self.price_24h_ago == 0 {
            return 0;
        }
        let prev: u128 = self.price_24h_ago as u128;
        if self.current_price >= self.price_24h_ago {
            let m: u128 = wide_mul_u64(
                self.current_price - self.price_24h_ago,
                crate::math::BPS_DENOMINATOR,
            ) / prev;
            m as i64
        } else {
            let m: u128 = wide_mul_u64(
                self.price_24h_ago - self.current_price,
                crate::math::BPS_DENOMINATOR,
            ) / prev;
            proof {
                crate::math::lemma_div_ordered(
                    (self.price_24h_ago - self.current_price) * crate::math::BPS_DENOMINATOR as int,
                    u64::MAX as int * crate::math::BPS_DENOMINATOR as int,
                    prev as int,
                );
            }
            let neg: i128 = -(m as i128);
            neg as i64
        }
    }

    /// Refresh the price statistics after a trade at `new_price`.
    pub fn update_price_stats(&mut self, new_price: u64, current_time: i64)
        ensures
            *final(self) == spec_update_price_stats(*old(self), new_price as int, current_time as int),
    {
        self.current_price = new_price;
        self.last_trade_at = current_time;
        if new_price > self.high_24h {
            self.high_24h = new_price;
        }
        if self.low_24h == 0 || new_price < self.low_24h {
            self.low_24h = new_price;
        }
    }

    /// Accrue traded volume and bump the trade counter, saturating.
    pub fn add_volume(&mut self, amount: u64)
        ensures
            *final(self) == spec_add_volume(*old(self), amount as int),
    {
        self.volume_24h = self.volume_24h.saturating_add(amount);
        self.trade_count = self.trade_count.saturating_add(1);
    }

    /// Buy `amount` shares directly at the share's current price: the caller
    /// mints the shares and moves `cost` lamports into escrow on success.
    /// The outcome equals `spec_buy_shares`; on any error neither record
    /// changes.
    pub fn buy_shares(
        &mut self,
        balance: &mut ShareBalance,
        amount: u64,
        resolved: bool,
        ended: bool,
        buyer_balance: u64,
        current_time: i64,
    ) -> (r: Result<u64, BetFunError>)
        ensures
            match r {
                Ok(cost) => spec_buy_shares(
                    *old(self),
                    *old(balance),
                    amount as int,
                    resolved,
                    ended,
                    buyer_balance as int,
                    current_time as int,
                ) == Ok::<_, BetFunError>((*final(self), *final(balance), cost)),
                Err(e) => {
                    &&& spec_buy_shares(
                        *old(self),
                        *old(balance),
                        amount as int,
                        resolved,
                        ended,
                        buyer_balance as int,
                        current_time as int,
                    ) == Err::<(OutcomeShare, ShareBalance, u64), _>(e)
                    &&& *final(self) == *old(self)
                    &&& *final(balance) == *old(balance)
                },
            },
    {
        if resolved {
            return Err(BetFunError::AlreadyResolved);
        }
        if ended {
            return Err(BetFunError::ArenaEnded);
        }
        if amount == 0 {
            return Err(BetFunError::InvalidConfiguration);
        }
        let price = self.current_price;
        let cost128: u128 = wide_mul_u64(amount, price) / (PRICE_SCALE as u128);
        if cost128 > u64::MAX as u128 {
            return Err(BetFunError::ArithmeticOverflow);
        }
        let cost: u64 = cost128 as u64;
        if buyer_balance < cost {
            return Err(BetFunError::InsufficientEntryFee);
        }
        let supply128: u128 = (self.total_supply as u128) + (amount as u128);
        if supply128 > u64::MAX as u128 {
            return Err(BetFunError::ArithmeticOverflow);
        }
        match balance.buy_shares(amount, price) {
            Ok(_) => {},
            Err(e) => {
                return Err(e);
            },
        }
        self.total_supply = supply128 as u64;
        self.update_price_stats(price, current_time);
        self.add_volume(cost);
        Ok(cost)
    }

    /// Sell `amount` shares directly at the share's current price: the
    /// caller burns the shares and pays `proceeds` lamports out of escrow on
    /// success. The outcome equals `spec_sell_shares`; on any error neither
    /// record changes.
    pub fn sell_shares(
        &mut self,
        balance: &mut ShareBalance,
        amount: u64,
        resolved: bool,
        escrow_balance: u64,
        current_time: i64,
    ) -> (r: Result<u64, BetFunError>)
        ensures
            match r {
                Ok(proceeds) => spec_sell_shares(
                    *old(self),
                    *old(balance),
                    amount as int,
                    resolved,
                    escrow_balance as int,
                    current_time as int,
                ) == Ok::<_, BetFunError>((*final(self), *final(balance), proceeds)),
                Err(e) => {
                    &&& spec_sell_shares(
                        *old(self),
                        *old(balance),
                        amount as int,
                        resolved,
                        escrow_balance as int,
                        current_time as int,
                    ) == Err::<(OutcomeShare, ShareBalance, u64), _>(e)
                    &&& *final(self) == *old(self)
                    &&& *final(balance) == *old(balance)
                },
            },
    {
        if resolved {
            return Err(BetFunError::AlreadyResolved);
        }
        if amount == 0 {
            return Err(BetFunError::InvalidConfiguration);
        }
        if balance.balance < amount {
            return Err(BetFunError::InsufficientEntryFee);
        }
        let price = self.current_price;
        let proceeds128: u128 = wide_mul_u64(amount, price) / (PRICE_SCALE as u128);
        if proceeds128 > u64::MAX as u128 {
            return Err(BetFunError::ArithmeticOverflow);
        }
        let proceeds: u64 = proceeds128 as u64;
        if escrow_balance < proceeds {
            return Err(BetFunError::InsufficientEntryFee);
        }
        if amount > self.total_supply {
            return Err(BetFunError::ArithmeticOverflow);
        }
        match balance.sell_shares(amount, price) {
            Ok(_) => {},
            Err(e) => {
                return Err(e);
            },
        }
        self.total_supply = self.total_supply - amount;
        self.update_price_stats(price, current_time);
        self.add_volume(proceeds);
        Ok(proceeds)
    }

    /// Redeem `amount` winning shares at the fixed redemption price after
    /// resolution: the caller burns the shares and pays the redemption value
    /// out of escrow on success. The outcome equals `spec_redeem_shares`; on
    /// any error neither record changes.
    pub fn redeem_shares(
        &mut self,
        balance: &mut ShareBalance,
        amount: u64,
        resolved: bool,
        winner_outcome: Option<u8>,
        escrow_balance: u64,
    ) -> (r: Result<u64, BetFunError>)
        ensures
            match r {
                Ok(value) => spec_redeem_shares(
                    *old(self),
                    *old(balance),
                    amount as int,
                    resolved,
                    winner_outcome,
                    escrow_balance as int,
                ) == Ok::<_, BetFunError>((*final(self), *final(balance), value)),
                Err(e) => {
                    &&& spec_redeem_shares(
                        *old(self),
                        *old(balance),
                        amount as int,
                        resolved,
                        winner_outcome,
                        escrow_balance as int,
                    ) == Err::<(OutcomeShare, ShareBalance, u64), _>(e)
                    &&& *final(self) == *old(self)
                    &&& *final(balance) == *old(balance)
                },
            },
    {
        if !resolved {
            return Err(BetFunError::NotResolved);
        }
        let winner = match winner_outcome {
            Some(w) => w,
            None => {
                return Err(BetFunError::InvalidOutcome);
            },
        };
        if self.outcome_index != winner {
            return Err(BetFunError::NotWinner);
        }
        if amount == 0 {
            return Err(BetFunError::InvalidConfiguration);
        }
        if balance.balance < amount {
            return Err(BetFunError::InsufficientEntryFee);
        }
        let redemption128: u128 = wide_mul_u64(amount, REDEMPTION_PRICE);
        if redemption128 > u64::MAX as u128 {
            return Err(BetFunError::ArithmeticOverflow);
        }
        let redemption_value: u64 = redemption128 as u64;
        if escrow_balance < redemption_value {
            return Err(BetFunError::InsufficientEntryFee);
        }
        if amount > self.total_supply {
            return Err(BetFunError::ArithmeticOverflow);
        }
        let cost128: u128 = wide_mul_u64(amount, balance.avg_cost_basis) / (PRICE_SCALE as u128);
        if redemption_value > i64::MAX as u64 || cost128 > i64::MAX as u128 {
            return Err(BetFunError::ArithmeticOverflow);
        }
        let pnl: i128 = (redemption_value as i128) - (cost128 as i128);
        let realized2: i128 = (balance.realized_pnl as i128) + pnl;
        if realized2 > i64::MAX as i128 || realized2 < i64::MIN as i128 {
            return Err(BetFunError::ArithmeticOverflow);
        }
        self.total_supply = self.total_supply - amount;
        balance.balance = balance.balance - amount;
        balance.realized_pnl = realized2 as i64;
        Ok(redemption_value)
    }
}

/// Round-trip law for the ledger: buying into an empty holding and selling
/// the same amount back at the same price leaves the balance, the invested
/// total and the realized profit exactly where they started, whenever the
/// traded value `amount * price` is an exact multiple of the price scale.
pub proof fn lemma_buy_sell_round_trip(b: ShareBalance, amount: u64, price: u64)
    requires
        b.balance == 0,
        b.total_invested == 0,
        amount > 0,
        (amount as int * price as int) % (PRICE_SCALE as int) == 0,
        spec_buy(b, amount as int, price as int) is Ok,
    ensures
        ({
            let bought = spec_buy(b, amount as int, price as int)->Ok_0;
            let sold = spec_sell(bought, amount as int, price as int);
            &&& sold is Ok
            &&& sold->Ok_0.balance == b.balance
            &&& sold->Ok_0.total_invested == b.total_invested
            &&& sold->Ok_0.realized_pnl == b.realized_pnl
            &&& sold->Ok_0.avg_cost_basis == bought.avg_cost_basis
        }),
{
    let a = amount as int;
    let p = price as int;
    let s = PRICE_SCALE as int;
    let cost = a * p / s;
    lemma_exact_cost_basis(a, p, s);
    let bought = spec_buy(b, a, p)->Ok_0;
    assert(bought.avg_cost_basis as int == cost * s / a);
    assert(bought.avg_cost_basis as int == p);
    assert(a * (bought.avg_cost_basis as int) / s == cost);
}

/// Balance restoration holds for any holding, not only an empty one: when a
/// buy and a matching sell both go through, the share balance comes back to
/// its prior value, and the cost basis is untouched by the sale.
pub proof fn lemma_buy_sell_balance_restored(b: ShareBalance, amount: u64, price: u64)
    requires
        spec_buy(b, amount as int, price as int) is Ok,
        spec_sell(spec_buy(b, amount as int, price as int)->Ok_0, amount as int, price as int) is Ok,
    ensures
        ({
            let sold = spec_sell(spec_buy(b, amount as int, price as int)->Ok_0, amount as int, price as int)->Ok_0;
            &&& sold.balance == b.balance
            &&& sold.avg_cost_basis == spec_buy(b, amount as int, price as int)->Ok_0.avg_cost_basis
        }),
{
}

} // verus!
