//! Resting limit orders for one outcome, and settlement of matches that an
//! external proposer supplies.
//!
//! An order always satisfies `filled_size + remaining_size == size`, and is
//! `Filled` exactly when nothing remains: every mutation here preserves that
//! invariant, and `settle_match` re-validates sizes and price crossing
//! instead of trusting the proposer. The book itself never searches for
//! matches; it only validates and records them.

use crate::errors::BetFunError;
use crate::math::{
    spec_saturating_add_u64, spec_saturating_sub, wide_mul_u64, BPS_DENOMINATOR,
};
use vstd::arithmetic::div_mod::lemma_multiply_divide_le;
use vstd::prelude::*;

verus! {

/// What kind of order is resting in the book.
#[derive(Clone, Copy, Debug, PartialEq, Eq, Structural)]
pub enum OrderType {
    /// Plain limit order.
    Limit,
    /// Triggers once the market price crosses the stop price.
    StopLoss,
    /// Shows only part of its size to observers.
    Iceberg,
    /// Executes in scheduled slices at a fixed interval.
    TWAP,
}

/// Which side of the book an order rests on.
#[derive(Clone, Copy, Debug, PartialEq, Eq, Structural)]
pub enum OrderSide {
    /// Bid: native currency escrowed, shares wanted.
    Buy,
    /// Ask: shares escrowed, native currency wanted.
    Sell,
}

/// Lifecycle state of an order; terminal states never re-open.
#[derive(Clone, Copy, Debug, PartialEq, Eq, Structural)]
pub enum OrderStatus {
    /// Resting, nothing filled yet.
    Open,
    /// Some size filled, some still resting.
    PartiallyFilled,
    /// Fully filled.
    Filled,
    /// Cancelled by its owner.
    Cancelled,
    /// Lapsed past its expiry.
    Expired,
}

/// One resting order.
#[derive(Clone, Copy, Debug, PartialEq, Eq, Structural)]
pub struct LimitOrder {
    /// Identity, unique and increasing per book.
    pub order_id: u64,
    /// Which outcome this order trades.
    pub outcome_index: u8,
    /// Account identifier of the order's owner.
    pub owner: u64,
    /// What kind of order this is.
    pub order_type: OrderType,
    /// Bid or ask.
    pub side: OrderSide,
    /// Limit price in lamports per share.
    pub price: u64,
    /// Original size in shares.
    pub size: u64,
    /// Unfilled size still resting.
    pub remaining_size: u64,
    /// Cumulative filled size.
    pub filled_size: u64,
    /// Trigger price, for stop-loss orders.
    pub stop_price: Option<u64>,
    /// Displayed size, for iceberg orders.
    pub visible_size: Option<u64>,
    /// Seconds between slices, for TWAP orders.
    pub twap_interval: Option<u64>,
    /// When the last TWAP slice executed.
    pub twap_last_execution: Option<i64>,
    /// Lifecycle state.
    pub status: OrderStatus,
    /// When the order was placed.
    pub created_at: i64,
    /// Expiry timestamp; 0 means no expiry.
    pub expires_at: i64,
    /// When the order last changed.
    pub updated_at: i64,
    /// Cumulative fees charged to this order.
    pub fees_paid: u64,
    /// Size-weighted average price of its fills.
    pub avg_fill_price: u64,
}

impl LimitOrder {
    /// The order's standing accounting invariant: the filled and resting
    /// parts always recompose the original size, and the order is `Filled`
    /// exactly when nothing rests.
    pub open spec fn wf(self) -> bool {
        &&& self.filled_size + self.remaining_size == self.size
        &&& (self.status == OrderStatus::Filled <==> self.remaining_size == 0)
        &&& self.size > 0
        &&& self.price > 0
    }

    /// Open or partially filled: still available to match or cancel.
    pub open spec fn spec_is_active(self) -> bool {
        self.status == OrderStatus::Open || self.status == OrderStatus::PartiallyFilled
    }

    /// Whether the order can still be matched or cancelled.
    pub fn is_active(&self) -> (r: bool)
        ensures
            r == self.spec_is_active(),
    {
        matches!(self.status, OrderStatus::Open | OrderStatus::PartiallyFilled)
    }

    /// Whether the order's expiry, if it has one, has passed.
    pub fn is_expired(&self, current_time: i64) -> (r: bool)
        ensures
            r == (self.expires_at > 0 && current_time >= self.expires_at),
    {
        self.expires_at > 0 && current_time >= self.expires_at
    }

    /// Whether a stop-loss order's trigger has been reached: a Buy triggers
    /// when the price rises to or above its stop, a Sell when the price
    /// falls to or below it. Orders without a stop never trigger.
    pub fn is_stop_triggered(&self, current_price: u64) -> (r: bool)
        ensures
            r == spec_stop_triggered(*self, current_price as int),
    {
        match self.stop_price {
            Some(stop_price) => match self.side {
                OrderSide::Buy => current_price >= stop_price,
                OrderSide::Sell => current_price <= stop_price,
            },
            None => false,
        }
    }

    /// The size the book discloses: an iceberg shows at most its visible
    /// size, any other order shows everything that rests.
    pub fn get_visible_size(&self) -> (r: u64)
        ensures
            r as int == (match self.visible_size {
                Some(v) => if v < self.remaining_size {
                    v as int
                } else {
                    self.remaining_size as int
                },
                None => self.remaining_size as int,
            }),
    {
        match self.visible_size {
            Some(visible) => {
                if visible < self.remaining_size {
                    visible
                } else {
                    self.remaining_size
                }
            },
            None => self.remaining_size,
        }
    }

    /// Whether a TWAP order's next slice is due: true once the interval has
    /// elapsed since the last execution. Orders without TWAP scheduling are
    /// never due.
    pub fn should_execute_twap(&self, current_time: i64) -> (r: bool)
        ensures
            r == (match (self.twap_interval, self.twap_last_execution) {
                (Some(interval), Some(last)) => current_time as int >= last + interval,
                _ => false,
            }),
    {
        match (self.twap_interval, self.twap_last_execution) {
            (Some(interval), Some(last_exec)) => (current_time as i128) >= (last_exec as i128)
                + (interval as i128),
            _ => false,
        }
    }

    /// How much of the order has filled, in whole percent.
    pub fn fill_percentage(&self) -> (r: u8)
        requires
            self.filled_size <= self.size,
        ensures
            r as int == (if self.size == 0 {
                0int
            } else {
                self.filled_size as int * 100 / self.size as int
            }),
    {
        if self.size == 0 {
            return 0;
        }
        proof {
            assert(self.filled_size as int * 100 <= self.size as int * 100) by (nonlinear_arith)
                requires
                    self.filled_size as int <= self.size as int,
            ;
            lemma_multiply_divide_le(self.filled_size as int * 100, self.size as int, 100);
        }
        (wide_mul_u64(self.filled_size, 100) / (self.size as u128)) as u8
    }

    /// Apply one fill: grow the filled side, shrink the resting side, charge
    /// the fee, recompute the size-weighted average fill price, and move to
    /// `PartiallyFilled` or `Filled` as the resting side empties.
    pub fn update_fill(&mut self, filled_amount: u64, fill_price: u64, fee: u64)
        requires
            filled_amount <= old(self).remaining_size,
            old(self).filled_size + old(self).remaining_size <= u64::MAX,
            old(self).fees_paid + fee <= u64::MAX,
        ensures
            *final(self) == spec_update_fill(*old(self), filled_amount as int, fill_price as int, fee as int),
            old(self).wf() ==> final(self).wf(),
    {
        let filled2: u64 = self.filled_size + filled_amount;
        let avg2: u64 = if filled2 > 0 {
            proof {
                lemma_weighted_avg_le_max(
                    self.avg_fill_price as int,
                    self.filled_size as int,
                    fill_price as int,
                    filled_amount as int,
                );
                assert((self.filled_size as int + filled_amount as int) * (if self.avg_fill_price
                    >= fill_price {
                    self.avg_fill_price as int
                } else {
                    fill_price as int
                }) <= u128::MAX) by (nonlinear_arith)
                    requires
                        0 <= self.filled_size as int + filled_amount as int <= u64::MAX,
                        0 <= self.avg_fill_price <= u64::MAX,
                        0 <= fill_price <= u64::MAX,
                ;
            }
            let total: u128 = wide_mul_u64(self.avg_fill_price, self.filled_size) + wide_mul_u64(
                fill_price,
                filled_amount,
            );
            (total / (filled2 as u128)) as u64
        } else {
            self.avg_fill_price
        };
        self.filled_size = filled2;
        self.remaining_size = self.remaining_size - filled_amount;
        self.fees_paid = self.fees_paid + fee;
        self.avg_fill_price = avg2;
        if self.remaining_size == 0 {
            self.status = OrderStatus::Filled;
        } else {
            self.status = OrderStatus::PartiallyFilled;
        }
    }
}

/// What a caller supplies to place an order.
#[derive(Clone, Copy, Debug, PartialEq, Eq, Structural)]
pub struct PlaceOrderParams {
    /// What kind of order to place.
    pub order_type: OrderType,
    /// Bid or ask.
    pub side: OrderSide,
    /// Limit price in lamports per share; must be positive.
    pub price: u64,
    /// Size in shares; must be positive.
    pub size: u64,
    /// Expiry timestamp, or 0 for no expiry; must be in the future.
    pub expires_at: i64,
    /// Trigger price for a stop-loss order.
    pub stop_price: Option<u64>,
    /// Displayed size for an iceberg order; at most `size`.
    pub visible_size: Option<u64>,
    /// Slice interval in seconds for a TWAP order.
    pub twap_interval: Option<u64>,
}

/// Aggregate state of one outcome's order book.
#[derive(Clone, Copy, Debug, PartialEq, Eq, Structural)]
pub struct OrderBook {
    /// Which outcome this book trades.
    pub outcome_index: u8,
    /// Identity for the next order; never reused.
    pub next_order_id: u64,
    /// Orders currently open or partially filled.
    pub active_orders: u64,
    /// Buy orders currently counted as active.
    pub total_buy_orders: u64,
    /// Sell orders currently counted as active.
    pub total_sell_orders: u64,
    /// Highest bid price seen among resting buys.
    pub best_bid: u64,
    /// Lowest ask price seen among resting sells; 0 until one rests.
    pub best_ask: u64,
    /// `best_ask - best_bid`, clamped at zero.
    pub spread: u64,
    /// Midpoint of best bid and ask.
    pub mid_price: u64,
    /// Price of the last settled trade.
    pub last_trade_price: u64,
    /// Rolling 24h traded volume in lamports.
    pub volume_24h: u64,
    /// Trades settled so far; also the next trade's identity.
    pub trade_count: u64,
    /// When the last trade settled.
    pub last_trade_at: i64,
    /// Highest trade price in the rolling window.
    pub high_24h: u64,
    /// Lowest trade price in the rolling window; 0 until a trade happens.
    pub low_24h: u64,
    /// Trade price at the start of the rolling window.
    pub price_24h_ago: u64,
}

/// Immutable record of one settlement.
#[derive(Clone, Copy, Debug, PartialEq, Eq, Structural)]
pub struct Trade {
    /// Identity, strictly increasing per book.
    pub trade_id: u64,
    /// Which outcome traded.
    pub outcome_index: u8,
    /// The bid side of the match.
    pub buy_order_id: u64,
    /// The ask side of the match.
    pub sell_order_id: u64,
    /// Account identifier of the buyer.
    pub buyer: u64,
    /// Account identifier of the seller.
    pub seller: u64,
    /// Settlement price in lamports per share.
    pub price: u64,
    /// Settled size in shares.
    pub size: u64,
    /// Fee charged to the buyer, in lamports.
    pub buyer_fee: u64,
    /// Fee charged to the seller, in lamports.
    pub seller_fee: u64,
    /// When the trade settled.
    pub executed_at: i64,
}

impl OrderBook {
    /// The book's counters stay within the identities it has handed out.
    pub open spec fn wf(self) -> bool {
        &&& self.active_orders <= self.next_order_id
        &&& self.total_buy_orders + self.total_sell_orders <= self.next_order_id
    }

    /// An empty book for one outcome.
    pub fn new(outcome_index: u8) -> (b: OrderBook)
        ensures
            b.wf(),
            b == (OrderBook {
                outcome_index,
                next_order_id: 0u64,
                active_orders: 0u64,
                total_buy_orders: 0u64,
                total_sell_orders: 0u64,
                best_bid: 0u64,
                best_ask: 0u64,
                spread: 0u64,
                mid_price: 0u64,
                last_trade_price: 0u64,
                volume_24h: 0u64,
                trade_count: 0u64,
                last_trade_at: 0i64,
                high_24h: 0u64,
                low_24h: 0u64,
                price_24h_ago: 0u64,
            }),
    {
        OrderBook {
            outcome_index,
            next_order_id: 0,
            active_orders: 0,
            total_buy_orders: 0,
            total_sell_orders: 0,
            best_bid: 0,
            best_ask: 0,
            spread: 0,
            mid_price: 0,
            last_trade_price: 0,
            volume_24h: 0,
            trade_count: 0,
            last_trade_at: 0,
            high_24h: 0,
            low_24h: 0,
            price_24h_ago: 0,
        }
    }

    /// Hand out the next order identity and advance the counter.
    pub fn get_next_order_id(&mut self) -> (r: u64)
        requires
            old(self).next_order_id < u64::MAX,
        ensures
            r == old(self).next_order_id,
            *final(self) == (OrderBook { next_order_id: (old(self).next_order_id + 1) as u64, ..*old(self) }),
    {
        let id = self.next_order_id;
        self.next_order_id = self.next_order_id + 1;
        id
    }

    /// Store a fresh best bid and ask; when both exist, refresh the spread
    /// and mid price from them.
    pub fn update_best_prices(&mut self, bid: u64, ask: u64)
        ensures
            *final(self) == (OrderBook {
                best_bid: bid,
                best_ask: ask,
                spread: if bid > 0 && ask > 0 {
                    spec_saturating_sub(ask as int, bid as int) as u64
                } else {
                    old(self).spread
                },
                mid_price: if bid > 0 && ask > 0 {
                    ((bid + ask) / 2) as u64
                } else {
                    old(self).mid_price
                },
                ..*old(self)
            }),
    {
        self.best_bid = bid;
        self.best_ask = ask;
        if bid > 0 && ask > 0 {
            self.spread = if ask >= bid {
                ask - bid
            } else {
                0
            };
            self.mid_price = (((bid as u128) + (ask as u128)) / 2) as u64;
        }
    }

    /// Record one settled trade in the rolling statistics: price, count,
    /// volume (saturating), timestamp, and the 24h high/low water marks.
    pub fn update_trade_stats(&mut self, price: u64, volume: u64, current_time: i64)
        requires
            old(self).trade_count < u64::MAX,
        ensures
            *final(self) == spec_update_trade_stats(*old(self), price as int, volume as int, current_time as int),
    {
        self.last_trade_price = price;
        self.trade_count = self.trade_count + 1;
        self.volume_24h = self.volume_24h.saturating_add(volume);
        self.last_trade_at = current_time;
        if price > self.high_24h {
            self.high_24h = price;
        }
        if self.low_24h == 0 || price < self.low_24h {
            self.low_24h = price;
        }
    }

    /// Signed 24h price change in basis points, relative to the price at the
    /// start of the window; 0 when no window has started.
    pub fn price_change_24h(&self) -> (r: i32)
        requires
            -0x8000_0000 <= crate::amm_pool::spec_change_bps(
                self.last_trade_price as int,
                self.price_24h_ago as int,
            ) < 0x8000_0000,
        ensures
            r as int == crate::amm_pool::spec_change_bps(
                self.last_trade_price as int,
                self.price_24h_ago as int,
            ),
    {
        if self.price_24h_ago == 0 {
            return 0;
        }
        let prev: u128 = self.price_24h_ago as u128;
        if self.last_trade_price >= self.price_24h_ago {
            let m: u128 = wide_mul_u64(self.last_trade_price - self.price_24h_ago, BPS_DENOMINATOR)
                / prev;
            m as i32
        } else {
            let m: u128 = wide_mul_u64(self.price_24h_ago - self.last_trade_price, BPS_DENOMINATOR)
                / prev;
            proof {
                crate::math::lemma_div_ordered(
                    (self.price_24h_ago - self.last_trade_price) * BPS_DENOMINATOR as int,
                    u64::MAX as int * BPS_DENOMINATOR as int,
                    prev as int,
                );
            }
            let neg: i128 = -(m as i128);
            neg as i32
        }
    }

    /// Place a resting order. Validates the parameters, computes the escrow
    /// the order requires — `price * size` lamports for a bid, `size` shares
    /// for an ask — and requires the caller's stated balance to cover it;
    /// then creates the order `Open` and updates the book's aggregates. The
    /// whole outcome equals `spec_place_order` on the entry state; on any
    /// error the book is untouched.
    pub fn place_limit_order(
        &mut self,
        owner: u64,
        params: PlaceOrderParams,
        available_funds: u64,
        current_time: i64,
    ) -> (r: Result<(LimitOrder, u64), BetFunError>)
        requires
            old(self).wf(),
            old(self).next_order_id < u64::MAX,
        ensures
            match r {
                Ok(v) => {
                    &&& spec_place_order(
                        *old(self),
                        owner,
                        params,
                        available_funds as int,
                        current_time as int,
                    ) == Ok::<_, BetFunError>((*final(self), v.0, v.1))
                    &&& final(self).wf()
                    &&& v.0.wf()
                    &&& v.0.spec_is_active()
                    &&& v.0.order_id == old(self).next_order_id
                    &&& final(self).next_order_id == old(self).next_order_id + 1
                },
                Err(e) => {
                    &&& spec_place_order(
                        *old(self),
                        owner,
                        params,
                        available_funds as int,
                        current_time as int,
                    ) == Err::<(OrderBook, LimitOrder, u64), _>(e)
                    &&& *final(self) == *old(self)
                },
            },
    {
        if params.price == 0 {
            return Err(BetFunError::InvalidAmount);
        }
        if params.size == 0 {
            return Err(BetFunError::InvalidAmount);
        }
        match params.visible_size {
            Some(visible) => {
                if visible > params.size {
                    return Err(BetFunError::InvalidConfiguration);
                }
            },
            None => {},
        }
        if params.expires_at > 0 && params.expires_at <= current_time {
            return Err(BetFunError::InvalidConfiguration);
        }
        let escrow_amount: u64 = match params.side {
            OrderSide::Buy => {
                let wide: u128 = wide_mul_u64(params.price, params.size);
                if wide > u64::MAX as u128 {
                    return Err(BetFunError::ArithmeticOverflow);
                }
                wide as u64
            },
            OrderSide::Sell => params.size,
        };
        if available_funds < escrow_amount {
            return Err(BetFunError::InsufficientFunds);
        }
        let order_id = self.get_next_order_id();
        let order = LimitOrder {
            order_id,
            outcome_index: self.outcome_index,
            owner,
            order_type: params.order_type,
            side: params.side,
            price: params.price,
            size: params.size,
            remaining_size: params.size,
            filled_size: 0,
            stop_price: params.stop_price,
            visible_size: params.visible_size,
            twap_interval: params.twap_interval,
            twap_last_execution: if params.twap_interval.is_some() {
                Some(current_time)
            } else {
                None
            },
            status: OrderStatus::Open,
            created_at: current_time,
            expires_at: params.expires_at,
            updated_at: current_time,
            fees_paid: 0,
            avg_fill_price: 0,
        };
        self.active_orders = self.active_orders + 1;
        match params.side {
            OrderSide::Buy => {
                self.total_buy_orders = self.total_buy_orders + 1;
                if params.price > self.best_bid {
                    self.best_bid = params.price;
                }
            },
            OrderSide::Sell => {
                self.total_sell_orders = self.total_sell_orders + 1;
                if self.best_ask == 0 || params.price < self.best_ask {
                    self.best_ask = params.price;
                }
            },
        }
        if self.best_bid > 0 && self.best_ask > 0 {
            self.spread = if self.best_ask >= self.best_bid {
                self.best_ask - self.best_bid
            } else {
                0
            };
            self.mid_price = (((self.best_bid as u128) + (self.best_ask as u128)) / 2) as u64;
        }
        Ok((order, escrow_amount))
    }

    /// Cancel an active order for its owner, releasing the escrow that still
    /// backs the unfilled part: `price * remaining_size` lamports for a bid,
    /// `remaining_size` shares for an ask — never the original full size.
    /// The refund is returned for the caller's custody move; the order
    /// becomes `Cancelled` and the book's counters shrink.
    pub fn cancel_order(&mut self, order: &mut LimitOrder, caller: u64, current_time: i64) -> (r:
        Result<u64, BetFunError>)
        ensures
            match r {
                Ok(refund) => {
                    &&& old(order).owner == caller
                    &&& old(order).spec_is_active()
                    &&& refund as int == (if old(order).side == OrderSide::Buy {
                        old(order).price as int * old(order).remaining_size as int
                    } else {
                        old(order).remaining_size as int
                    })
                    &&& *final(order) == (LimitOrder {
                        status: OrderStatus::Cancelled,
                        updated_at: current_time,
                        ..*old(order)
                    })
                    &&& *final(self) == (OrderBook {
                        active_orders: spec_saturating_sub(old(self).active_orders as int, 1) as u64,
                        total_buy_orders: if old(order).side == OrderSide::Buy {
                            spec_saturating_sub(old(self).total_buy_orders as int, 1) as u64
                        } else {
                            old(self).total_buy_orders
                        },
                        total_sell_orders: if old(order).side == OrderSide::Sell {
                            spec_saturating_sub(old(self).total_sell_orders as int, 1) as u64
                        } else {
                            old(self).total_sell_orders
                        },
                        ..*old(self)
                    })
                    &&& (old(order).wf() ==> final(order).wf())
                },
                Err(e) => {
                    &&& *final(self) == *old(self)
                    &&& *final(order) == *old(order)
                    &&& (e == BetFunError::Unauthorized <==> old(order).owner != caller)
                    &&& (e == BetFunError::InvalidConfiguration <==> (old(order).owner == caller
                        && !old(order).spec_is_active()))
                    &&& (e == BetFunError::ArithmeticOverflow <==> (old(order).owner == caller
                        && old(order).spec_is_active() && old(order).side == OrderSide::Buy && old(
                        order,
                    ).price as int * old(order).remaining_size as int > u64::MAX))
                },
            },
            r is Ok <==> (old(order).owner == caller && old(order).spec_is_active() && (old(
                order,
            ).side == OrderSide::Sell || old(order).price as int * old(order).remaining_size as int
                <= u64::MAX)),
    {
        if order.owner != caller {
            return Err(BetFunError::Unauthorized);
        }
        if !order.is_active() {
            return Err(BetFunError::InvalidConfiguration);
        }
        let refund_amount: u64 = match order.side {
            OrderSide::Buy => {
                let wide: u128 = wide_mul_u64(order.price, order.remaining_size);
                if wide > u64::MAX as u128 {
                    return Err(BetFunError::ArithmeticOverflow);
                }
                wide as u64
            },
            OrderSide::Sell => order.remaining_size,
        };
        order.status = OrderStatus::Cancelled;
        order.updated_at = current_time;
        self.active_orders = if self.active_orders >= 1 {
            self.active_orders - 1
        } else {
            0
        };
        match order.side {
            OrderSide::Buy => {
                self.total_buy_orders = if self.total_buy_orders >= 1 {
                    self.total_buy_orders - 1
                } else {
                    0
                };
            },
            OrderSide::Sell => {
                self.total_sell_orders = if self.total_sell_orders >= 1 {
                    self.total_sell_orders - 1
                } else {
                    0
                };
            },
        }
        Ok(refund_amount)
    }

    /// Settle an externally proposed match between an active bid and an
    /// active ask. Re-validates everything rather than trusting the
    /// proposer: sides, activity, the size against both remainders, and
    /// price crossing `sell.price <= match_price <= buy.price`. Charges the
    /// symmetric fee to both sides, applies the fill to both orders, appends
    /// the immutable trade record with the next trade identity, and updates
    /// the book's statistics. The whole outcome equals `spec_settle_match`
    /// on the entry state; on any error nothing changes.
    pub fn settle_match(
        &mut self,
        buy_order: &mut LimitOrder,
        sell_order: &mut LimitOrder,
        match_size: u64,
        match_price: u64,
        fee_bps: u16,
        current_time: i64,
    ) -> (r: Result<Trade, BetFunError>)
        requires
            old(self).trade_count < u64::MAX,
            old(buy_order).wf(),
            old(sell_order).wf(),
        ensures
            match r {
                Ok(trade) => {
                    &&& spec_settle_match(
                        *old(self),
                        *old(buy_order),
                        *old(sell_order),
                        match_size as int,
                        match_price as int,
                        fee_bps as int,
                        current_time as int,
                    ) == Ok::<_, BetFunError>((*final(self), *final(buy_order), *final(sell_order), trade))
                    &&& (old(buy_order).wf() ==> final(buy_order).wf())
                    &&& (old(sell_order).wf() ==> final(sell_order).wf())
                    &&& trade.trade_id == old(self).trade_count
                    &&& final(self).trade_count == old(self).trade_count + 1
                    &&& trade.size == match_size
                    &&& trade.price == match_price
                },
                Err(e) => {
                    &&& spec_settle_match(
                        *old(self),
                        *old(buy_order),
                        *old(sell_order),
                        match_size as int,
                        match_price as int,
                        fee_bps as int,
                        current_time as int,
                    ) == Err::<(OrderBook, LimitOrder, LimitOrder, Trade), _>(e)
                    &&& *final(self) == *old(self)
                    &&& *final(buy_order) == *old(buy_order)
                    &&& *final(sell_order) == *old(sell_order)
                },
            },
    {
        if !matches!(buy_order.side, OrderSide::Buy) || !buy_order.is_active() {
            return Err(BetFunError::InvalidConfiguration);
        }
        if !matches!(sell_order.side, OrderSide::Sell) || !sell_order.is_active() {
            return Err(BetFunError::InvalidConfiguration);
        }
        if match_size == 0 {
            return Err(BetFunError::InvalidAmount);
        }
        if match_size > buy_order.remaining_size {
            return Err(BetFunError::InvalidAmount);
        }
        if match_size > sell_order.remaining_size {
            return Err(BetFunError::InvalidAmount);
        }
        if buy_order.price < match_price {
            return Err(BetFunError::InvalidConfiguration);
        }
        if sell_order.price > match_price {
            return Err(BetFunError::InvalidConfiguration);
        }
        let total128: u128 = wide_mul_u64(match_price, match_size);
        if total128 > u64::MAX as u128 {
            return Err(BetFunError::ArithmeticOverflow);
        }
        let total_value: u64 = total128 as u64;
        let fee128: u128 = wide_mul_u64(total_value, fee_bps as u64) / (BPS_DENOMINATOR as u128);
        if fee128 > u64::MAX as u128 {
            return Err(BetFunError::ArithmeticOverflow);
        }
        let buyer_fee: u64 = fee128 as u64;
        let seller_fee: u64 = buyer_fee;
        if seller_fee > total_value {
            return Err(BetFunError::ArithmeticOverflow);
        }
        if (buyer_fee as u128) + (seller_fee as u128) > u64::MAX as u128 {
            return Err(BetFunError::ArithmeticOverflow);
        }
        if (buy_order.fees_paid as u128) + (buyer_fee as u128) > u64::MAX as u128 {
            return Err(BetFunError::ArithmeticOverflow);
        }
        if (sell_order.fees_paid as u128) + (seller_fee as u128) > u64::MAX as u128 {
            return Err(BetFunError::ArithmeticOverflow);
        }
        buy_order.update_fill(match_size, match_price, buyer_fee);
        buy_order.updated_at = current_time;
        sell_order.update_fill(match_size, match_price, seller_fee);
        sell_order.updated_at = current_time;
        let trade = Trade {
            trade_id: self.trade_count,
            outcome_index: self.outcome_index,
            buy_order_id: buy_order.order_id,
            sell_order_id: sell_order.order_id,
            buyer: buy_order.owner,
            seller: sell_order.owner,
            price: match_price,
            size: match_size,
            buyer_fee,
            seller_fee,
            executed_at: current_time,
        };
        self.update_trade_stats(match_price, total_value, current_time);
        if matches!(buy_order.status, OrderStatus::Filled) {
            self.active_orders = if self.active_orders >= 1 {
                self.active_orders - 1
            } else {
                0
            };
        }
        if matches!(sell_order.status, OrderStatus::Filled) {
            self.active_orders = if self.active_orders >= 1 {
                self.active_orders - 1
            } else {
                0
            };
        }
        Ok(trade)
    }
}

/// The book after `update_trade_stats`.
pub open spec fn spec_update_trade_stats(b: OrderBook, price: int, volume: int, now: int) -> OrderBook {
    OrderBook {
        last_trade_price: price as u64,
        trade_count: (b.trade_count + 1) as u64,
        volume_24h: spec_saturating_add_u64(b.volume_24h as int, volume) as u64,
        last_trade_at: now as i64,
        high_24h: if price > b.high_24h {
            price as u64
        } else {
            b.high_24h
        },
        low_24h: if b.low_24h == 0 || price < b.low_24h {
            price as u64
        } else {
            b.low_24h
        },
        ..b
    }
}

/// The order that `place_limit_order` creates from its parameters.
pub open spec fn spec_new_order(
    book: OrderBook,
    owner: u64,
    params: PlaceOrderParams,
    now: int,
) -> LimitOrder {
    LimitOrder {
        order_id: book.next_order_id,
        outcome_index: book.outcome_index,
        owner,
        order_type: params.order_type,
        side: params.side,
        price: params.price,
        size: params.size,
        remaining_size: params.size,
        filled_size: 0u64,
        stop_price: params.stop_price,
        visible_size: params.visible_size,
        twap_interval: params.twap_interval,
        twap_last_execution: if params.twap_interval is Some {
            Some(now as i64)
        } else {
            None
        },
        status: OrderStatus::Open,
        created_at: now as i64,
        expires_at: params.expires_at,
        updated_at: now as i64,
        fees_paid: 0u64,
        avg_fill_price: 0u64,
    }
}

/// The outcome of `place_limit_order`, error precedence included: the
/// updated book, the created order, and the escrow the caller must move.
pub open spec fn spec_place_order(
    book: OrderBook,
    owner: u64,
    params: PlaceOrderParams,
    funds: int,
    now: int,
) -> Result<(OrderBook, LimitOrder, u64), BetFunError> {
    if params.price == 0 || params.size == 0 {
        Err(BetFunError::InvalidAmount)
    } else if (match params.visible_size {
        Some(v) => v > params.size,
        None => false,
    }) {
        Err(BetFunError::InvalidConfiguration)
    } else if params.expires_at > 0 && params.expires_at <= now {
        Err(BetFunError::InvalidConfiguration)
    } else {
        let escrow = if params.side == OrderSide::Buy {
            params.price as int * params.size as int
        } else {
            params.size as int
        };
        if escrow > u64::MAX {
            Err(BetFunError::ArithmeticOverflow)
        } else if funds < escrow {
            Err(BetFunError::InsufficientFunds)
        } else {
            let order = spec_new_order(book, owner, params, now);
            let bid2 = if params.side == OrderSide::Buy && params.price > book.best_bid {
                params.price
            } else {
                book.best_bid
            };
            let ask2 = if params.side == OrderSide::Sell && (book.best_ask == 0 || params.price
                < book.best_ask) {
                params.price
            } else {
                book.best_ask
            };
            let book2 = OrderBook {
                next_order_id: (book.next_order_id + 1) as u64,
                active_orders: (book.active_orders + 1) as u64,
                total_buy_orders: if params.side == OrderSide::Buy {
                    (book.total_buy_orders + 1) as u64
                } else {
                    book.total_buy_orders
                },
                total_sell_orders: if params.side == OrderSide::Sell {
                    (book.total_sell_orders + 1) as u64
                } else {
                    book.total_sell_orders
                },
                best_bid: bid2,
                best_ask: ask2,
                spread: if bid2 > 0 && ask2 > 0 {
                    spec_saturating_sub(ask2 as int, bid2 as int) as u64
                } else {
                    book.spread
                },
                mid_price: if bid2 > 0 && ask2 > 0 {
                    ((bid2 + ask2) / 2) as u64
                } else {
                    book.mid_price
                },
                ..book
            };
            Ok((book2, order, escrow as u64))
        }
    }
}

/// The outcome of `settle_match`, error precedence included: the updated
/// book, both orders after their fills, and the appended trade record.
pub open spec fn spec_settle_match(
    book: OrderBook,
    buy: LimitOrder,
    sell: LimitOrder,
    size: int,
    price: int,
    fee_bps: int,
    now: int,
) -> Result<(OrderBook, LimitOrder, LimitOrder, Trade), BetFunError> {
    if buy.side != OrderSide::Buy || !buy.spec_is_active() {
        Err(BetFunError::InvalidConfiguration)
    } else if sell.side != OrderSide::Sell || !sell.spec_is_active() {
        Err(BetFunError::InvalidConfiguration)
    } else if size <= 0 || size > buy.remaining_size || size > sell.remaining_size {
        Err(BetFunError::InvalidAmount)
    } else if buy.price < price || sell.price > price {
        Err(BetFunError::InvalidConfiguration)
    } else {
        let total_value = price * size;
        if total_value > u64::MAX {
            Err(BetFunError::ArithmeticOverflow)
        } else {
            let fee = total_value * fee_bps / (BPS_DENOMINATOR as int);
            if fee > u64::MAX || fee > total_value || fee + fee > u64::MAX {
                Err(BetFunError::ArithmeticOverflow)
            } else if buy.fees_paid + fee > u64::MAX || sell.fees_paid + fee > u64::MAX {
                Err(BetFunError::ArithmeticOverflow)
            } else {
                let buy2 = LimitOrder {
                    updated_at: now as i64,
                    ..spec_update_fill(buy, size, price, fee)
                };
                let sell2 = LimitOrder {
                    updated_at: now as i64,
                    ..spec_update_fill(sell, size, price, fee)
                };
                let trade = Trade {
                    trade_id: book.trade_count,
                    outcome_index: book.outcome_index,
                    buy_order_id: buy.order_id,
                    sell_order_id: sell.order_id,
                    buyer: buy.owner,
                    seller: sell.owner,
                    price: price as u64,
                    size: size as u64,
                    buyer_fee: fee as u64,
                    seller_fee: fee as u64,
                    executed_at: now as i64,
                };
                let book2 = spec_update_trade_stats(book, price, total_value, now);
                let active2 = spec_saturating_sub(
                    book2.active_orders as int,
                    (if buy2.status == OrderStatus::Filled {
                        1int
                    } else {
                        0int
                    }) + (if sell2.status == OrderStatus::Filled {
                        1int
                    } else {
                        0int
                    }),
                );
                let book3 = OrderBook { active_orders: active2 as u64, ..book2 };
                Ok((book3, buy2, sell2, trade))
            }
        }
    }
}

/// Whether a stop order's trigger price has been crossed by `current_price`.
pub open spec fn spec_stop_triggered(o: LimitOrder, current_price: int) -> bool {
    match o.stop_price {
        Some(stop) => if o.side == OrderSide::Buy {
            current_price >= stop
        } else {
            current_price <= stop
        },
        None => false,
    }
}

/// The order after one fill of `amount` at `price` with `fee` charged.
pub open spec fn spec_update_fill(o: LimitOrder, amount: int, price: int, fee: int) -> LimitOrder {
    let filled2 = o.filled_size + amount;
    let remaining2 = o.remaining_size - amount;
    let avg2 = if filled2 > 0 {
        (o.avg_fill_price * o.filled_size + price * amount) / filled2
    } else {
        o.avg_fill_price as int
    };
    LimitOrder {
        filled_size: filled2 as u64,
        remaining_size: remaining2 as u64,
        fees_paid: (o.fees_paid + fee) as u64,
        avg_fill_price: avg2 as u64,
        status: if remaining2 == 0 {
            OrderStatus::Filled
        } else {
            OrderStatus::PartiallyFilled
        },
        ..o
    }
}

/// A size-weighted average of two prices stays at or below the larger one.
proof fn lemma_weighted_avg_le_max(a: int, n: int, p: int, m: int)
    requires
        0 <= a,
        0 <= n,
        0 <= p,
        0 <= m,
        0 < n + m,
    ensures
        0 <= a * n + p * m <= (n + m) * (if a >= p {
            a
        } else {
            p
        }),
        0 <= (a * n + p * m) / (n + m) <= (if a >= p {
            a
        } else {
            p
        }),
{
    let mx = if a >= p {
        a
    } else {
        p
    };
    assert(a * n + p * m <= (n + m) * mx && 0 <= a * n + p * m) by (nonlinear_arith)
        requires
            0 <= a <= mx,
            0 <= p <= mx,
            0 <= n,
            0 <= m,
    ;
    lemma_multiply_divide_le(a * n + p * m, n + m, mx);
    assert((a * n + p * m) / (n + m) >= 0) by (nonlinear_arith)
        requires
            0 <= a * n + p * m,
            0 < n + m,
    ;
}

} // verus!
