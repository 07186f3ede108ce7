//! Constant-product market maker for one outcome share against the native
//! currency, with proportional-ownership LP tokens.
//!
//! The pool's product `k = token_reserve * sol_reserve` is recomputed after
//! every reserve change. Swaps price the trade on the fee-reduced input, so
//! trading fees accrue to the reserves; the only thing that can lower the
//! product across a swap is the protocol's extracted slice of the fee, and
//! the swap contract bounds that loss exactly.
//!
//! Custody is external: callers move the actual funds. Every operation
//! validates fully before it writes, so a failed call leaves the pool and
//! the caller's position exactly as they were.

use crate::errors::BetFunError;
use crate::math::{
    isqrt_u128, lemma_div_ordered, lemma_product_after_payout, lemma_product_with_full_input,
    lemma_protocol_fee_within_margin, lemma_withdraw_within_deposit, spec_min,
    spec_saturating_add_u64, spec_sqrt_floor, wide_mul_u64, BPS_DENOMINATOR, PRICE_SCALE,
    U64_BOUND,
};
use vstd::arithmetic::div_mod::{
    lemma_div_multiples_vanish, lemma_fundamental_div_mod, lemma_multiply_divide_le,
};
use vstd::arithmetic::mul::lemma_mul_inequality;
use vstd::prelude::*;

verus! {

/// Seconds after which the rolling 24h statistics reset.
pub const DAY_SECONDS: i64 = 86_400;

/// Highest allowed trading fee: 10% in basis points.
pub const MAX_FEE_BPS: u16 = 1_000;

/// Highest allowed protocol fee: 1% in basis points.
pub const MAX_PROTOCOL_FEE_BPS: u16 = 100;

/// Constant-product pool for one outcome's share.
#[derive(Clone, Copy, Debug, PartialEq, Eq, Structural)]
pub struct AMMPool {
    /// Which outcome of the market this pool trades.
    pub outcome_index: u8,
    /// Reserve of outcome share tokens.
    pub token_reserve: u64,
    /// Reserve of native currency, in lamports.
    pub sol_reserve: u64,
    /// Product invariant `token_reserve * sol_reserve`.
    pub k: u128,
    /// Total LP tokens issued against the reserves.
    pub total_lp_tokens: u64,
    /// Trading fee in basis points.
    pub fee_bps: u16,
    /// Protocol's share of the fee, in basis points of the trade.
    pub protocol_fee_bps: u16,
    /// Cumulative trading fees, in input units of each swap.
    pub fees_collected: u64,
    /// Rolling 24h volume in lamports.
    pub volume_24h: u64,
    /// Total number of swaps executed.
    pub swap_count: u64,
    /// Timestamp of the last swap, seconds.
    pub last_swap_at: i64,
    /// Pool price after the last reserve change, lamports per share, 1e9 scale.
    pub last_price: u64,
    /// Pool price at the start of the current 24h window.
    pub price_24h_ago: u64,
}

/// One liquidity provider's stake in a pool.
#[derive(Clone, Copy, Debug, PartialEq, Eq, Structural)]
pub struct LiquidityPosition {
    /// LP tokens owned by this provider.
    pub lp_tokens: u64,
    /// Share tokens deposited since the position was (re)opened.
    pub tokens_deposited: u64,
    /// Lamports deposited since the position was (re)opened.
    pub sol_deposited: u64,
    /// Timestamp when the position was (re)opened.
    pub created_at: i64,
    /// Lamports withdrawn in excess of the proportional deposit share.
    pub fees_earned: u64,
}

/// Everything a successful swap computed, for the caller's custody moves
/// and reporting.
#[derive(Clone, Copy, Debug, PartialEq, Eq, Structural)]
pub struct SwapExecuted {
    /// Direction: `true` means share tokens in, lamports out.
    pub is_token_to_sol: bool,
    /// Gross input amount.
    pub amount_in: u64,
    /// Output amount owed to the trader.
    pub amount_out: u64,
    /// Trading fee withheld, in input units.
    pub fee_amount: u64,
    /// Slice of the fee owed to the protocol recipient, in lamports.
    pub protocol_fee: u64,
    /// Absolute price move caused by the swap, basis points, capped at 10000.
    pub price_impact: u16,
    /// Pool price before the swap.
    pub price_before: u64,
    /// Pool price after the swap.
    pub price_after: u64,
}

/// Fee-reduced input the curve actually prices: `floor(dx * (10000 - fee) / 10000)`.
pub open spec fn spec_net_input(amount_in: int, fee_bps: int) -> int {
    amount_in * (BPS_DENOMINATOR as int - fee_bps) / (BPS_DENOMINATOR as int)
}

/// Constant-product output: `floor(net * reserve_out / (reserve_in + net))`.
pub open spec fn spec_amount_out(amount_in: int, reserve_in: int, reserve_out: int, fee_bps: int) -> int {
    let net = spec_net_input(amount_in, fee_bps);
    net * reserve_out / (reserve_in + net)
}

/// Trading fee on the gross input: `floor(dx * fee / 10000)`, in input units.
pub open spec fn spec_fee_amount(amount_in: int, fee_bps: int) -> int {
    amount_in * fee_bps / (BPS_DENOMINATOR as int)
}

/// Protocol slice of the trading fee: `floor(fee_amount * protocol_fee / fee)`.
pub open spec fn spec_protocol_fee(amount_in: int, fee_bps: int, protocol_fee_bps: int) -> int {
    spec_fee_amount(amount_in, fee_bps) * protocol_fee_bps / fee_bps
}

/// Pool price in lamports per share at 1e9 scale, truncated to 64 bits as it
/// is stored: `floor(sol_reserve * 1e9 / token_reserve)`, 0 on an empty pool.
pub open spec fn spec_price_of(token_reserve: int, sol_reserve: int) -> int {
    if token_reserve == 0 {
        0
    } else {
        (sol_reserve * (PRICE_SCALE as int) / token_reserve) % (U64_BOUND as int)
    }
}

/// Absolute relative price change in basis points, capped at 10000.
pub open spec fn spec_price_impact_bps(before: int, after: int) -> int {
    let diff = if after > before {
        after - before
    } else {
        before - after
    };
    let bps = diff * (BPS_DENOMINATOR as int) / before;
    if bps > BPS_DENOMINATOR as int {
        BPS_DENOMINATOR as int
    } else {
        bps
    }
}

impl AMMPool {
    /// Structural soundness of a pool record: the fee configuration is within
    /// its caps and `k` really is the product of the reserves.
    pub open spec fn wf(self) -> bool {
        &&& self.fee_bps <= MAX_FEE_BPS
        &&& self.protocol_fee_bps <= MAX_PROTOCOL_FEE_BPS
        &&& self.protocol_fee_bps <= self.fee_bps
        &&& self.k == self.token_reserve as int * self.sol_reserve as int
        &&& self.last_swap_at >= 0
    }

    /// The pool's current price as stored by `get_price`.
    pub open spec fn spec_price(self) -> int {
        spec_price_of(self.token_reserve as int, self.sol_reserve as int)
    }

    /// Create an empty pool with the given fee configuration.
    ///
    /// Fails with `InvalidConfiguration` when the trading fee is above 10%,
    /// the protocol fee is above 1%, or the protocol fee exceeds the trading
    /// fee; succeeds on every other input.
    pub fn initialize_pool(
        outcome_index: u8,
        fee_bps: u16,
        protocol_fee_bps: u16,
        current_time: i64,
    ) -> (r: Result<AMMPool, BetFunError>)
        requires
            current_time >= 0,
        ensures
            match r {
                Ok(p) => {
                    &&& fee_bps <= MAX_FEE_BPS
                    &&& protocol_fee_bps <= MAX_PROTOCOL_FEE_BPS
                    &&& protocol_fee_bps <= fee_bps
                    &&& p.wf()
                    &&& p == (AMMPool {
                        outcome_index,
                        token_reserve: 0u64,
                        sol_reserve: 0u64,
                        k: 0u128,
                        total_lp_tokens: 0u64,
                        fee_bps,
                        protocol_fee_bps,
                        fees_collected: 0u64,
                        volume_24h: 0u64,
                        swap_count: 0u64,
                        last_swap_at: current_time,
                        last_price: 0u64,
                        price_24h_ago: 0u64,
                    })
                },
                Err(e) => {
                    &&& e == BetFunError::InvalidConfiguration
                    &&& (fee_bps > MAX_FEE_BPS || protocol_fee_bps > MAX_PROTOCOL_FEE_BPS
                        || protocol_fee_bps > fee_bps)
                },
            },
    {
        if fee_bps > MAX_FEE_BPS {
            return Err(BetFunError::InvalidConfiguration);
        }
        if protocol_fee_bps > MAX_PROTOCOL_FEE_BPS {
            return Err(BetFunError::InvalidConfiguration);
        }
        if fee_bps < protocol_fee_bps {
            return Err(BetFunError::InvalidConfiguration);
        }
        Ok(
            AMMPool {
                outcome_index,
                token_reserve: 0,
                sol_reserve: 0,
                k: 0,
                total_lp_tokens: 0,
                fee_bps,
                protocol_fee_bps,
                fees_collected: 0,
                volume_24h: 0,
                swap_count: 0,
                last_swap_at: current_time,
                last_price: 0,
                price_24h_ago: 0,
            },
        )
    }

    /// Current price: `sol_reserve * 1e9 / token_reserve` at 1e9 scale,
    /// truncated to 64 bits; 0 when the pool holds no share tokens.
    pub fn get_price(&self) -> (r: u64)
        ensures
            r as int == self.spec_price(),
    {
        if self.token_reserve == 0 {
            return 0;
        }
        let wide: u128 = wide_mul_u64(self.sol_reserve, PRICE_SCALE);
        let q: u128 = wide / (self.token_reserve as u128);
        (q % U64_BOUND) as u64
    }

    /// Quote the constant-product output for `amount_in` against the given
    /// reserves, with this pool's trading fee applied to the input.
    ///
    /// Errors: `InvalidAmount` on a zero input, `InsufficientLiquidity` on an
    /// empty reserve, `InsufficientOutputAmount` when the formula rounds to
    /// zero; otherwise the quote is owed, is positive, and is strictly below
    /// the output reserve.
    pub fn get_amount_out(&self, amount_in: u64, reserve_in: u64, reserve_out: u64) -> (r: Result<
        u64,
        BetFunError,
    >)
        requires
            self.fee_bps <= BPS_DENOMINATOR,
        ensures
            match r {
                Ok(v) => {
                    &&& amount_in > 0
                    &&& reserve_in > 0
                    &&& reserve_out > 0
                    &&& v as int == spec_amount_out(
                        amount_in as int,
                        reserve_in as int,
                        reserve_out as int,
                        self.fee_bps as int,
                    )
                    &&& 0 < v < reserve_out
                },
                Err(e) => {
                    &&& (e == BetFunError::InvalidAmount <==> amount_in == 0)
                    &&& (e == BetFunError::InsufficientLiquidity <==> (amount_in > 0 && (
                    reserve_in == 0 || reserve_out == 0)))
                    &&& (e == BetFunError::InsufficientOutputAmount <==> (amount_in > 0
                        && reserve_in > 0 && reserve_out > 0 && spec_amount_out(
                        amount_in as int,
                        reserve_in as int,
                        reserve_out as int,
                        self.fee_bps as int,
                    ) == 0))
                },
            },
            r is Ok <==> (amount_in > 0 && reserve_in > 0 && reserve_out > 0 && spec_amount_out(
                amount_in as int,
                reserve_in as int,
                reserve_out as int,
                self.fee_bps as int,
            ) > 0),
    {
        if amount_in == 0 {
            return Err(BetFunError::InvalidAmount);
        }
        if reserve_in == 0 || reserve_out == 0 {
            return Err(BetFunError::InsufficientLiquidity);
        }
        let net128: u128 = wide_mul_u64(amount_in, BPS_DENOMINATOR - (self.fee_bps as u64))
            / (BPS_DENOMINATOR as u128);
        proof {
            assert(amount_in as int * (BPS_DENOMINATOR as int - self.fee_bps as int)
                <= BPS_DENOMINATOR as int * amount_in as int) by (nonlinear_arith)
                requires
                    0 <= amount_in as int,
                    0 <= self.fee_bps as int <= BPS_DENOMINATOR as int,
            ;
            lemma_multiply_divide_le(
                amount_in as int * (BPS_DENOMINATOR as int - self.fee_bps as int),
                BPS_DENOMINATOR as int,
                amount_in as int,
            );
        }
        let net: u64 = net128 as u64;
        let numerator: u128 = wide_mul_u64(net, reserve_out);
        let denominator: u128 = (reserve_in as u128) + (net as u128);
        let out: u128 = numerator / denominator;
        proof {
            let e = net as int;
            let x = reserve_in as int;
            let y = reserve_out as int;
            lemma_product_after_payout(x, y, e);
            // strictly below the output reserve: (x+e) * out <= e * y < (x+e) * y
            lemma_fundamental_div_mod(e * y, x + e);
            assert((e * y) / (x + e) < y) by (nonlinear_arith)
                requires
                    0 < x,
                    0 < y,
                    0 <= e,
                    (x + e) * ((e * y) / (x + e)) <= e * y,
                    (e * y) / (x + e) >= 0,
            ;
        }
        if out == 0 {
            return Err(BetFunError::InsufficientOutputAmount);
        }
        Ok(out as u64)
    }

    /// LP tokens owed for a deposit, quoted against the current reserves.
    ///
    /// The first provider receives `floor(sqrt(token_amount * sol_amount))`;
    /// later providers receive the smaller of the two proportional shares.
    /// The whole outcome equals `spec_calculate_lp_tokens`: success is owed
    /// on every other input, `InsufficientLiquidityMinted` comes exactly
    /// when that number is zero, and `ArithmeticOverflow` exactly when a
    /// reserve backing an existing LP supply is empty or a proportional
    /// share does not fit 64 bits.
    pub fn calculate_lp_tokens(&self, token_amount: u64, sol_amount: u64) -> (r: Result<
        u64,
        BetFunError,
    >)
        ensures
            r == spec_calculate_lp_tokens(*self, token_amount as int, sol_amount as int),
            r matches Ok(v) ==> v > 0,
    {
        if self.total_lp_tokens == 0 {
            let product: u128 = wide_mul_u64(token_amount, sol_amount);
            let lp128: u128 = isqrt_u128(product);
            let lp: u64 = lp128 as u64;
            if lp == 0 {
                return Err(BetFunError::InsufficientLiquidityMinted);
            }
            Ok(lp)
        } else {
            if self.token_reserve == 0 || self.sol_reserve == 0 {
                return Err(BetFunError::ArithmeticOverflow);
            }
            let from_tokens: u128 = wide_mul_u64(self.total_lp_tokens, token_amount)
                / (self.token_reserve as u128);
            let from_sol: u128 = wide_mul_u64(self.total_lp_tokens, sol_amount)
                / (self.sol_reserve as u128);
            if from_tokens > u64::MAX as u128 || from_sol > u64::MAX as u128 {
                return Err(BetFunError::ArithmeticOverflow);
            }
            let lp: u64 = if from_tokens < from_sol {
                from_tokens as u64
            } else {
                from_sol as u64
            };
            if lp == 0 {
                return Err(BetFunError::InsufficientLiquidityMinted);
            }
            Ok(lp)
        }
    }

    /// Reserve amounts owed for burning `lp_tokens`: each reserve scaled by
    /// `lp_tokens / total_lp_tokens`, rounded down.
    ///
    /// Errors: `InvalidAmount` on zero, `InsufficientLiquidity` when more LP
    /// tokens are offered than exist; otherwise the amounts are owed.
    pub fn calculate_withdraw_amounts(&self, lp_tokens: u64) -> (r: Result<
        (u64, u64),
        BetFunError,
    >)
        ensures
            match r {
                Ok(v) => {
                    &&& 0 < lp_tokens <= self.total_lp_tokens
                    &&& v.0 as int == self.token_reserve as int * lp_tokens as int
                        / self.total_lp_tokens as int
                    &&& v.1 as int == self.sol_reserve as int * lp_tokens as int
                        / self.total_lp_tokens as int
                    &&& v.0 <= self.token_reserve
                    &&& v.1 <= self.sol_reserve
                },
                Err(e) => {
                    &&& (e == BetFunError::InvalidAmount <==> lp_tokens == 0)
                    &&& (e == BetFunError::InsufficientLiquidity <==> lp_tokens
                        > self.total_lp_tokens)
                },
            },
            r is Ok <==> 0 < lp_tokens <= self.total_lp_tokens,
    {
        if lp_tokens == 0 {
            return Err(BetFunError::InvalidAmount);
        }
        if lp_tokens > self.total_lp_tokens {
            return Err(BetFunError::InsufficientLiquidity);
        }
        let token_amount: u128 = wide_mul_u64(self.token_reserve, lp_tokens)
            / (self.total_lp_tokens as u128);
        let sol_amount: u128 = wide_mul_u64(self.sol_reserve, lp_tokens)
            / (self.total_lp_tokens as u128);
        proof {
            lemma_scaled_share_le_reserve(
                self.token_reserve as int,
                lp_tokens as int,
                self.total_lp_tokens as int,
            );
            lemma_scaled_share_le_reserve(
                self.sol_reserve as int,
                lp_tokens as int,
                self.total_lp_tokens as int,
            );
        }
        Ok((token_amount as u64, sol_amount as u64))
    }

    /// Simulate a swap and report how far it would move the pool price, in
    /// basis points of the current price, capped at 10000.
    ///
    /// Fails exactly as the underlying quote does, and with
    /// `ArithmeticOverflow` when the current price is zero and no relative
    /// change exists.
    pub fn calculate_price_impact(&self, amount_in: u64, is_token_to_sol: bool) -> (r: Result<
        u16,
        BetFunError,
    >)
        requires
            self.fee_bps <= BPS_DENOMINATOR,
        ensures
            r == spec_price_impact(*self, amount_in as int, is_token_to_sol),
    {
        let current_price = self.get_price();
        let (reserve_in, reserve_out) = if is_token_to_sol {
            (self.token_reserve, self.sol_reserve)
        } else {
            (self.sol_reserve, self.token_reserve)
        };
        let amount_out = match self.get_amount_out(amount_in, reserve_in, reserve_out) {
            Ok(v) => v,
            Err(e) => {
                return Err(e);
            },
        };
        if current_price == 0 {
            return Err(BetFunError::ArithmeticOverflow);
        }
        let new_price: u64 = if is_token_to_sol {
            let new_sol = self.sol_reserve - amount_out;
            let new_tokens: u128 = (self.token_reserve as u128) + (amount_in as u128);
            ((wide_mul_u64(new_sol, PRICE_SCALE) / new_tokens) % U64_BOUND) as u64
        } else {
            let new_sol: u128 = (self.sol_reserve as u128) + (amount_in as u128);
            let new_tokens = self.token_reserve - amount_out;
            proof {
                assert(new_sol * PRICE_SCALE as int <= u128::MAX) by (nonlinear_arith)
                    requires
                        0 <= new_sol < 0x2_0000_0000_0000_0000,
                ;
            }
            (((new_sol * (PRICE_SCALE as u128)) / (new_tokens as u128)) % U64_BOUND) as u64
        };
        let diff: u64 = if new_price > current_price {
            new_price - current_price
        } else {
            current_price - new_price
        };
        let impact: u128 = wide_mul_u64(diff, BPS_DENOMINATOR) / (current_price as u128);
        let capped: u64 = if impact > BPS_DENOMINATOR as u128 {
            BPS_DENOMINATOR
        } else {
            impact as u64
        };
        Ok(capped as u16)
    }

    /// Execute a swap against the pool: price the fee-reduced input on the
    /// constant-product curve, enforce the caller's slippage floor, move the
    /// full input into the priced-in reserve, pay the output and the
    /// protocol's fee slice out of the other, recompute `k`, and record the
    /// swap in the rolling statistics.
    ///
    /// The whole outcome, error precedence included, equals `spec_swap` on
    /// the entry state: on any error the pool is untouched. On success the
    /// product of the reserves never drops below its prior value except by
    /// the protocol fee extracted from the output reserve, and that loss is
    /// bounded exactly; with no protocol extraction the product never drops.
    pub fn swap(
        &mut self,
        amount_in: u64,
        min_amount_out: u64,
        is_token_to_sol: bool,
        current_time: i64,
    ) -> (r: Result<SwapExecuted, BetFunError>)
        requires
            old(self).wf(),
            old(self).swap_count < u64::MAX,
            current_time >= 0,
        ensures
            match r {
                Ok(ev) => {
                    &&& spec_swap(
                        *old(self),
                        amount_in as int,
                        min_amount_out as int,
                        is_token_to_sol,
                        current_time as int,
                    ) == Ok::<_, BetFunError>((*final(self), ev))
                    &&& final(self).wf()
                    &&& ev.amount_out >= min_amount_out
                    &&& final(self).swap_count == old(self).swap_count + 1
                    &&& final(self).fees_collected == old(self).fees_collected + ev.fee_amount
                    &&& (!is_token_to_sol ==> final(self).k >= old(self).k)
                    &&& (is_token_to_sol ==> final(self).k + ev.protocol_fee as int
                        * final(self).token_reserve as int >= old(self).k)
                    &&& (ev.protocol_fee == 0 ==> final(self).k >= old(self).k)
                },
                Err(e) => {
                    &&& spec_swap(
                        *old(self),
                        amount_in as int,
                        min_amount_out as int,
                        is_token_to_sol,
                        current_time as int,
                    ) == Err::<(AMMPool, SwapExecuted), _>(e)
                    &&& *final(self) == *old(self)
                },
            },
    {
        if amount_in == 0 {
            return Err(BetFunError::InvalidAmount);
        }
        let (reserve_in, reserve_out) = if is_token_to_sol {
            (self.token_reserve, self.sol_reserve)
        } else {
            (self.sol_reserve, self.token_reserve)
        };
        if reserve_in == 0 || reserve_out == 0 {
            return Err(BetFunError::InsufficientLiquidity);
        }
        let net128: u128 = wide_mul_u64(amount_in, BPS_DENOMINATOR - (self.fee_bps as u64))
            / (BPS_DENOMINATOR as u128);
        proof {
            lemma_net_input_le(amount_in as int, self.fee_bps as int);
        }
        let net: u64 = net128 as u64;
        let out128: u128 = wide_mul_u64(net, reserve_out) / ((reserve_in as u128) + (net as u128));
        proof {
            lemma_out_below_reserve(reserve_in as int, reserve_out as int, net as int);
        }
        let amount_out: u64 = out128 as u64;
        if amount_out < min_amount_out {
            return Err(BetFunError::SlippageToleranceExceeded);
        }
        if amount_out == 0 {
            return Err(BetFunError::InsufficientOutputAmount);
        }
        let fee128: u128 = wide_mul_u64(amount_in, self.fee_bps as u64) / (BPS_DENOMINATOR as u128);
        proof {
            // with the complement of the fee, the same lemma bounds
            // amount_in * fee / 10000 by amount_in
            lemma_net_input_le(amount_in as int, (BPS_DENOMINATOR - self.fee_bps) as int);
        }
        let fee_amount: u64 = fee128 as u64;
        if self.fee_bps == 0 {
            return Err(BetFunError::ArithmeticOverflow);
        }
        let pf128: u128 = wide_mul_u64(fee_amount, self.protocol_fee_bps as u64) / (self.fee_bps
            as u128);
        proof {
            lemma_net_input_general_le(fee_amount as int, self.protocol_fee_bps as int, self.fee_bps as int);
        }
        let protocol_fee: u64 = pf128 as u64;
        let price_before = self.get_price();
        let price_impact: u16 = match self.calculate_price_impact(amount_in, is_token_to_sol) {
            Ok(v) => v,
            Err(e) => {
                return Err(e);
            },
        };
        // All reserve updates are validated before anything is written.
        let (new_token, new_sol): (u64, u64) = if is_token_to_sol {
            let tr128: u128 = (self.token_reserve as u128) + (amount_in as u128);
            if tr128 > u64::MAX as u128 {
                return Err(BetFunError::ArithmeticOverflow);
            }
            let deduct: u128 = (amount_out as u128) + (protocol_fee as u128);
            if deduct > self.sol_reserve as u128 {
                return Err(BetFunError::ArithmeticOverflow);
            }
            (tr128 as u64, ((self.sol_reserve as u128) - deduct) as u64)
        } else {
            let sr128: u128 = (self.sol_reserve as u128) + (amount_in as u128);
            if sr128 > u64::MAX as u128 {
                return Err(BetFunError::ArithmeticOverflow);
            }
            ((self.token_reserve - amount_out), (sr128 - (protocol_fee as u128)) as u64)
        };
        let fees128: u128 = (self.fees_collected as u128) + (fee_amount as u128);
        if fees128 > u64::MAX as u128 {
            return Err(BetFunError::ArithmeticOverflow);
        }
        proof {
            lemma_swap_k_bounds(
                self.token_reserve as int,
                self.sol_reserve as int,
                amount_in as int,
                self.fee_bps as int,
                self.protocol_fee_bps as int,
                is_token_to_sol,
            );
        }
        self.token_reserve = new_token;
        self.sol_reserve = new_sol;
        self.k = wide_mul_u64(new_token, new_sol);
        let volume: u64 = if is_token_to_sol {
            amount_out
        } else {
            amount_in
        };
        self.update_swap_stats(volume, current_time);
        self.fees_collected = fees128 as u64;
        let price_after = self.get_price();
        Ok(
            SwapExecuted {
                is_token_to_sol,
                amount_in,
                amount_out,
                fee_amount,
                protocol_fee,
                price_impact,
                price_before,
                price_after,
            },
        )
    }

    /// Deposit both legs into the pool and mint LP tokens against them.
    ///
    /// The first provider sets the reserves outright and receives
    /// `floor(sqrt(token_amount * sol_amount))`; later providers must match
    /// the current reserve ratio within 1% on both legs and receive the
    /// smaller proportional share. The whole outcome, error precedence
    /// included, equals `spec_add_liquidity` on the entry state; on any
    /// error neither the pool nor the position changes.
    pub fn add_liquidity(
        &mut self,
        position: &mut LiquidityPosition,
        token_amount: u64,
        sol_amount: u64,
        min_lp_tokens: u64,
        current_time: i64,
    ) -> (r: Result<u64, BetFunError>)
        requires
            old(self).wf(),
            current_time >= 0,
        ensures
            match r {
                Ok(lp) => {
                    &&& spec_add_liquidity(
                        *old(self),
                        *old(position),
                        token_amount as int,
                        sol_amount as int,
                        min_lp_tokens as int,
                        current_time as int,
                    ) == Ok::<_, BetFunError>((*final(self), *final(position), lp))
                    &&& final(self).wf()
                    &&& lp >= min_lp_tokens
                    &&& lp > 0
                    &&& final(self).total_lp_tokens == old(self).total_lp_tokens + lp
                    &&& final(position).lp_tokens as int == (if old(position).lp_tokens == 0 {
                        lp as int
                    } else {
                        old(position).lp_tokens + lp
                    })
                },
                Err(e) => {
                    &&& spec_add_liquidity(
                        *old(self),
                        *old(position),
                        token_amount as int,
                        sol_amount as int,
                        min_lp_tokens as int,
                        current_time as int,
                    ) == Err::<(AMMPool, LiquidityPosition, u64), _>(e)
                    &&& *final(self) == *old(self)
                    &&& *final(position) == *old(position)
                },
            },
    {
        if token_amount == 0 {
            return Err(BetFunError::InvalidAmount);
        }
        if sol_amount == 0 {
            return Err(BetFunError::InvalidAmount);
        }
        let (lp, new_token, new_sol): (u64, u64, u64) = if self.total_lp_tokens == 0 {
            let product: u128 = wide_mul_u64(token_amount, sol_amount);
            let lp128: u128 = isqrt_u128(product);
            let lpv: u64 = lp128 as u64;
            if lpv == 0 {
                return Err(BetFunError::InsufficientLiquidityMinted);
            }
            if lpv < min_lp_tokens {
                return Err(BetFunError::SlippageToleranceExceeded);
            }
            (lpv, token_amount, sol_amount)
        } else {
            let x = self.token_reserve;
            let y = self.sol_reserve;
            if x == 0 || y == 0 {
                return Err(BetFunError::ArithmeticOverflow);
            }
            let exp_s128: u128 = wide_mul_u64(token_amount, y) / (x as u128);
            if exp_s128 > u64::MAX as u128 {
                return Err(BetFunError::ArithmeticOverflow);
            }
            let expected_sol: u64 = exp_s128 as u64;
            let sol_tolerance: u64 = expected_sol / 100;
            if sol_amount < expected_sol - sol_tolerance || sol_amount > expected_sol.saturating_add(
                sol_tolerance,
            ) {
                return Err(BetFunError::SlippageToleranceExceeded);
            }
            let exp_t128: u128 = wide_mul_u64(sol_amount, x) / (y as u128);
            if exp_t128 > u64::MAX as u128 {
                return Err(BetFunError::ArithmeticOverflow);
            }
            let expected_tokens: u64 = exp_t128 as u64;
            let token_tolerance: u64 = expected_tokens / 100;
            if token_amount < expected_tokens - token_tolerance || token_amount
                > expected_tokens.saturating_add(token_tolerance) {
                return Err(BetFunError::SlippageToleranceExceeded);
            }
            let from_tokens128: u128 = wide_mul_u64(self.total_lp_tokens, token_amount) / (
            x as u128);
            if from_tokens128 > u64::MAX as u128 {
                return Err(BetFunError::ArithmeticOverflow);
            }
            let from_sol128: u128 = wide_mul_u64(self.total_lp_tokens, sol_amount) / (y as u128);
            if from_sol128 > u64::MAX as u128 {
                return Err(BetFunError::ArithmeticOverflow);
            }
            let lpv: u64 = if from_tokens128 < from_sol128 {
                from_tokens128 as u64
            } else {
                from_sol128 as u64
            };
            if lpv == 0 {
                return Err(BetFunError::InsufficientLiquidityMinted);
            }
            let nt128: u128 = (x as u128) + (token_amount as u128);
            if nt128 > u64::MAX as u128 {
                return Err(BetFunError::ArithmeticOverflow);
            }
            let ns128: u128 = (y as u128) + (sol_amount as u128);
            if ns128 > u64::MAX as u128 {
                return Err(BetFunError::ArithmeticOverflow);
            }
            if lpv < min_lp_tokens {
                return Err(BetFunError::SlippageToleranceExceeded);
            }
            (lpv, nt128 as u64, ns128 as u64)
        };
        let total128: u128 = (self.total_lp_tokens as u128) + (lp as u128);
        if total128 > u64::MAX as u128 {
            return Err(BetFunError::ArithmeticOverflow);
        }
        if position.lp_tokens != 0 {
            if (position.lp_tokens as u128) + (lp as u128) > u64::MAX as u128 {
                return Err(BetFunError::ArithmeticOverflow);
            }
            if (position.tokens_deposited as u128) + (token_amount as u128) > u64::MAX as u128 {
                return Err(BetFunError::ArithmeticOverflow);
            }
            if (position.sol_deposited as u128) + (sol_amount as u128) > u64::MAX as u128 {
                return Err(BetFunError::ArithmeticOverflow);
            }
        }
        self.token_reserve = new_token;
        self.sol_reserve = new_sol;
        self.k = wide_mul_u64(new_token, new_sol);
        self.total_lp_tokens = total128 as u64;
        self.last_price = self.get_price();
        if position.lp_tokens == 0 {
            position.lp_tokens = lp;
            position.tokens_deposited = token_amount;
            position.sol_deposited = sol_amount;
            position.created_at = current_time;
            position.fees_earned = 0;
        } else {
            position.lp_tokens = position.lp_tokens + lp;
            position.tokens_deposited = position.tokens_deposited + token_amount;
            position.sol_deposited = position.sol_deposited + sol_amount;
        }
        Ok(lp)
    }

    /// Burn LP tokens and withdraw the proportional share of both reserves.
    ///
    /// Enforces the caller's minimum amounts, shrinks the reserves, `k` and
    /// the LP supply, reduces the position's deposit bookkeeping
    /// proportionally, and accrues any lamport excess over the proportional
    /// deposit share as fees earned. The whole outcome equals
    /// `spec_remove_liquidity` on the entry state; on any error neither the
    /// pool nor the position changes.
    pub fn remove_liquidity(
        &mut self,
        position: &mut LiquidityPosition,
        lp_tokens_to_burn: u64,
        min_token_amount: u64,
        min_sol_amount: u64,
    ) -> (r: Result<(u64, u64), BetFunError>)
        requires
            old(self).wf(),
        ensures
            match r {
                Ok(v) => {
                    &&& spec_remove_liquidity(
                        *old(self),
                        *old(position),
                        lp_tokens_to_burn as int,
                        min_token_amount as int,
                        min_sol_amount as int,
                    ) == Ok::<_, BetFunError>((*final(self), *final(position), v))
                    &&& final(self).wf()
                    &&& v.0 >= min_token_amount
                    &&& v.1 >= min_sol_amount
                    &&& v.0 as int == old(self).token_reserve as int * lp_tokens_to_burn as int
                        / old(self).total_lp_tokens as int
                    &&& v.1 as int == old(self).sol_reserve as int * lp_tokens_to_burn as int
                        / old(self).total_lp_tokens as int
                    &&& final(self).total_lp_tokens == old(self).total_lp_tokens
                        - lp_tokens_to_burn
                    &&& final(self).token_reserve == old(self).token_reserve - v.0
                    &&& final(self).sol_reserve == old(self).sol_reserve - v.1
                    &&& final(position).lp_tokens == old(position).lp_tokens - lp_tokens_to_burn
                },
                Err(e) => {
                    &&& spec_remove_liquidity(
                        *old(self),
                        *old(position),
                        lp_tokens_to_burn as int,
                        min_token_amount as int,
                        min_sol_amount as int,
                    ) == Err::<(AMMPool, LiquidityPosition, (u64, u64)), _>(e)
                    &&& *final(self) == *old(self)
                    &&& *final(position) == *old(position)
                },
            },
    {
        if lp_tokens_to_burn == 0 {
            return Err(BetFunError::InvalidAmount);
        }
        if lp_tokens_to_burn > self.total_lp_tokens {
            return Err(BetFunError::InsufficientLiquidity);
        }
        let ta128: u128 = wide_mul_u64(self.token_reserve, lp_tokens_to_burn)
            / (self.total_lp_tokens as u128);
        let sa128: u128 = wide_mul_u64(self.sol_reserve, lp_tokens_to_burn)
            / (self.total_lp_tokens as u128);
        proof {
            lemma_scaled_share_le_reserve(
                self.token_reserve as int,
                lp_tokens_to_burn as int,
                self.total_lp_tokens as int,
            );
            lemma_scaled_share_le_reserve(
                self.sol_reserve as int,
                lp_tokens_to_burn as int,
                self.total_lp_tokens as int,
            );
        }
        let token_amount: u64 = ta128 as u64;
        let sol_amount: u64 = sa128 as u64;
        if token_amount < min_token_amount {
            return Err(BetFunError::SlippageToleranceExceeded);
        }
        if sol_amount < min_sol_amount {
            return Err(BetFunError::SlippageToleranceExceeded);
        }
        if lp_tokens_to_burn > position.lp_tokens {
            return Err(BetFunError::ArithmeticOverflow);
        }
        let twd128: u128 = wide_mul_u64(position.tokens_deposited, lp_tokens_to_burn)
            / (position.lp_tokens as u128);
        let swd128: u128 = wide_mul_u64(position.sol_deposited, lp_tokens_to_burn)
            / (position.lp_tokens as u128);
        proof {
            lemma_scaled_share_le_reserve(
                position.tokens_deposited as int,
                lp_tokens_to_burn as int,
                position.lp_tokens as int,
            );
            lemma_scaled_share_le_reserve(
                position.sol_deposited as int,
                lp_tokens_to_burn as int,
                position.lp_tokens as int,
            );
        }
        let tokens_withdrawn_from_deposit: u64 = twd128 as u64;
        let sol_withdrawn_from_deposit: u64 = swd128 as u64;
        let sol_gain: u64 = if sol_amount > sol_withdrawn_from_deposit {
            sol_amount - sol_withdrawn_from_deposit
        } else {
            0
        };
        let fees128: u128 = (position.fees_earned as u128) + (sol_gain as u128);
        if fees128 > u64::MAX as u128 {
            return Err(BetFunError::ArithmeticOverflow);
        }
        self.token_reserve = self.token_reserve - token_amount;
        self.sol_reserve = self.sol_reserve - sol_amount;
        self.k = wide_mul_u64(self.token_reserve, self.sol_reserve);
        self.total_lp_tokens = self.total_lp_tokens - lp_tokens_to_burn;
        self.last_price = self.get_price();
        position.lp_tokens = position.lp_tokens - lp_tokens_to_burn;
        position.tokens_deposited = position.tokens_deposited - tokens_withdrawn_from_deposit;
        position.sol_deposited = position.sol_deposited - sol_withdrawn_from_deposit;
        position.fees_earned = fees128 as u64;
        Ok((token_amount, sol_amount))
    }

    /// Record a swap in the rolling statistics: bump the count, accrue the
    /// volume (saturating), refresh the stored price, and restart the 24h
    /// window when more than a day has passed since the previous swap.
    pub fn update_swap_stats(&mut self, volume: u64, current_time: i64)
        requires
            old(self).swap_count < u64::MAX,
            old(self).last_swap_at >= 0,
            current_time >= 0,
        ensures
            *final(self) == spec_update_swap_stats(*old(self), volume as int, current_time as int),
    {
        self.swap_count = self.swap_count + 1;
        self.volume_24h = self.volume_24h.saturating_add(volume);
        self.last_price = self.get_price();
        if current_time - self.last_swap_at > DAY_SECONDS {
            self.volume_24h = volume;
            self.price_24h_ago = self.last_price;
        }
        self.last_swap_at = current_time;
    }

    /// Signed 24h price change in basis points, relative to the price at the
    /// start of the window; 0 when no window has started.
    pub fn price_change_24h(&self) -> (r: i32)
        requires
            -0x8000_0000 <= spec_change_bps(self.last_price as int, self.price_24h_ago as int)
                < 0x8000_0000,
        ensures
            r as int == spec_change_bps(self.last_price as int, self.price_24h_ago as int),
    {
        if self.price_24h_ago == 0 {
            return 0;
        }
        let prev: u128 = self.price_24h_ago as u128;
        if self.last_price >= self.price_24h_ago {
            let m: u128 = wide_mul_u64(self.last_price - self.price_24h_ago, BPS_DENOMINATOR)
                / prev;
            m as i32
        } else {
            let m: u128 = wide_mul_u64(self.price_24h_ago - self.last_price, BPS_DENOMINATOR)
                / prev;
            proof {
                lemma_div_ordered(
                    (self.price_24h_ago - self.last_price) * BPS_DENOMINATOR as int,
                    u64::MAX as int * BPS_DENOMINATOR as int,
                    prev as int,
                );
            }
            let neg: i128 = -(m as i128);
            neg as i32
        }
    }
}

impl LiquidityPosition {
    /// What this position is worth right now: the reserve amounts its LP
    /// tokens would withdraw from the given pool.
    pub fn calculate_value(&self, pool: &AMMPool) -> (r: Result<(u64, u64), BetFunError>)
        ensures
            match r {
                Ok(v) => {
                    &&& 0 < self.lp_tokens <= pool.total_lp_tokens
                    &&& v.0 as int == pool.token_reserve as int * self.lp_tokens as int
                        / pool.total_lp_tokens as int
                    &&& v.1 as int == pool.sol_reserve as int * self.lp_tokens as int
                        / pool.total_lp_tokens as int
                },
                Err(e) => {
                    &&& (e == BetFunError::InvalidAmount <==> self.lp_tokens == 0)
                    &&& (e == BetFunError::InsufficientLiquidity <==> self.lp_tokens
                        > pool.total_lp_tokens)
                },
            },
            r is Ok <==> 0 < self.lp_tokens <= pool.total_lp_tokens,
    {
        pool.calculate_withdraw_amounts(self.lp_tokens)
    }

    /// Difference between the position's current withdrawable value and the
    /// value of simply having held the deposit, both priced at the pool's
    /// current price; negative means the pool did worse than holding.
    pub fn calculate_impermanent_loss(&self, pool: &AMMPool) -> (r: Result<i64, BetFunError>)
        ensures
            r == spec_impermanent_loss(*self, *pool),
    {
        let (current_tokens, current_sol) = match self.calculate_value(pool) {
            Ok(v) => v,
            Err(e) => {
                return Err(e);
            },
        };
        let price = pool.get_price();
        let current_value: u128 = (current_sol as u128) + wide_mul_u64(current_tokens, price) / (
        PRICE_SCALE as u128);
        let initial_value: u128 = (self.sol_deposited as u128) + wide_mul_u64(
            self.tokens_deposited,
            price,
        ) / (PRICE_SCALE as u128);
        if current_value > i64::MAX as u128 || initial_value > i64::MAX as u128 {
            return Err(BetFunError::ArithmeticOverflow);
        }
        if current_value >= initial_value {
            Ok((current_value - initial_value) as i64)
        } else {
            Ok(-((initial_value - current_value) as i64))
        }
    }
}

/// The outcome of `calculate_impermanent_loss`: the position's withdrawable
/// value minus the held-deposit value, both at the pool's current price.
pub open spec fn spec_impermanent_loss(pos: LiquidityPosition, p: AMMPool) -> Result<
    i64,
    BetFunError,
> {
    if pos.lp_tokens == 0 {
        Err(BetFunError::InvalidAmount)
    } else if pos.lp_tokens > p.total_lp_tokens {
        Err(BetFunError::InsufficientLiquidity)
    } else {
        let ct = p.token_reserve as int * pos.lp_tokens as int / p.total_lp_tokens as int;
        let cs = p.sol_reserve as int * pos.lp_tokens as int / p.total_lp_tokens as int;
        let price = p.spec_price();
        let current_value = cs + ct * price / (PRICE_SCALE as int);
        let initial_value = pos.sol_deposited as int + pos.tokens_deposited as int * price / (
        PRICE_SCALE as int);
        if current_value > i64::MAX || initial_value > i64::MAX {
            Err(BetFunError::ArithmeticOverflow)
        } else {
            Ok((current_value - initial_value) as i64)
        }
    }
}

/// Round-trip law for liquidity: a deposit followed immediately by removing
/// exactly the LP tokens it minted never returns more than the deposit on
/// either leg, and the pool's first deposit comes back exactly.
pub proof fn lemma_liquidity_round_trip(
    p: AMMPool,
    pos: LiquidityPosition,
    t: u64,
    s: u64,
    min_lp: u64,
    now: int,
)
    requires
        spec_add_liquidity(p, pos, t as int, s as int, min_lp as int, now) is Ok,
        pos.fees_earned as int + s as int <= u64::MAX,
    ensures
        ({
            let added = spec_add_liquidity(p, pos, t as int, s as int, min_lp as int, now)->Ok_0;
            let removed = spec_remove_liquidity(added.0, added.1, added.2 as int, 0, 0);
            &&& removed is Ok
            &&& removed->Ok_0.2.0 <= t
            &&& removed->Ok_0.2.1 <= s
            &&& (p.total_lp_tokens == 0 ==> removed->Ok_0.2.0 == t && removed->Ok_0.2.1 == s)
        }),
{
    let added = spec_add_liquidity(p, pos, t as int, s as int, min_lp as int, now)->Ok_0;
    let p2 = added.0;
    let pos2 = added.1;
    let lp = added.2 as int;
    let ta = p2.token_reserve as int * lp / p2.total_lp_tokens as int;
    let sa = p2.sol_reserve as int * lp / p2.total_lp_tokens as int;
    if p.total_lp_tokens == 0 {
        // reserves are exactly the deposit and the whole LP supply is `lp`
        lemma_div_multiples_vanish(t as int, lp);
        lemma_div_multiples_vanish(s as int, lp);
        assert(t as int * lp == lp * t as int) by (nonlinear_arith);
        assert(s as int * lp == lp * s as int) by (nonlinear_arith);
        assert(ta == t as int);
        assert(sa == s as int);
    } else {
        let x = p.token_reserve as int;
        let y = p.sol_reserve as int;
        let total = p.total_lp_tokens as int;
        let from_tokens = total * t as int / x;
        let from_sol = total * s as int / y;
        lemma_fundamental_div_mod(total * t as int, x);
        lemma_fundamental_div_mod(total * s as int, y);
        assert(lp * x <= total * t as int) by (nonlinear_arith)
            requires
                lp <= from_tokens,
                x * from_tokens <= total * t as int,
                0 <= x,
        ;
        assert(lp * y <= total * s as int) by (nonlinear_arith)
            requires
                lp <= from_sol,
                y * from_sol <= total * s as int,
                0 <= y,
        ;
        lemma_withdraw_within_deposit(x, t as int, total, lp);
        lemma_withdraw_within_deposit(y, s as int, total, lp);
    }
    // the removal itself is owed: positive burn within both the pool's LP
    // supply and the position's holding, and the fee accrual fits
    lemma_scaled_share_le_reserve(p2.token_reserve as int, lp, p2.total_lp_tokens as int);
    lemma_scaled_share_le_reserve(p2.sol_reserve as int, lp, p2.total_lp_tokens as int);
    lemma_scaled_share_le_reserve(pos2.tokens_deposited as int, lp, pos2.lp_tokens as int);
    lemma_scaled_share_le_reserve(pos2.sol_deposited as int, lp, pos2.lp_tokens as int);
}

/// Signed relative change in basis points, truncated toward zero; 0 when no
/// reference price exists.
pub open spec fn spec_change_bps(last: int, prev: int) -> int {
    if prev == 0 {
        0
    } else if last >= prev {
        (last - prev) * (BPS_DENOMINATOR as int) / prev
    } else {
        -((prev - last) * (BPS_DENOMINATOR as int) / prev)
    }
}

/// The pool after `update_swap_stats`: count bumped, volume accrued
/// (saturating), price refreshed, and the 24h window restarted when more
/// than a day passed since the previous swap.
pub open spec fn spec_update_swap_stats(p: AMMPool, volume: int, current_time: int) -> AMMPool {
    let price = p.spec_price();
    let reset = current_time - p.last_swap_at > DAY_SECONDS as int;
    AMMPool {
        swap_count: (p.swap_count + 1) as u64,
        volume_24h: if reset {
            volume as u64
        } else {
            spec_saturating_add_u64(p.volume_24h as int, volume) as u64
        },
        last_price: price as u64,
        price_24h_ago: if reset {
            price as u64
        } else {
            p.price_24h_ago
        },
        last_swap_at: current_time as i64,
        ..p
    }
}

/// The outcome of `calculate_price_impact`: the quote's own failures first,
/// then `ArithmeticOverflow` on a zero current price, else the capped
/// relative move of the pool price.
pub open spec fn spec_price_impact(p: AMMPool, amount_in: int, is_token_to_sol: bool) -> Result<
    u16,
    BetFunError,
> {
    let x = p.token_reserve as int;
    let y = p.sol_reserve as int;
    let rin = if is_token_to_sol {
        x
    } else {
        y
    };
    let rout = if is_token_to_sol {
        y
    } else {
        x
    };
    if amount_in <= 0 {
        Err(BetFunError::InvalidAmount)
    } else if rin == 0 || rout == 0 {
        Err(BetFunError::InsufficientLiquidity)
    } else {
        let out = spec_amount_out(amount_in, rin, rout, p.fee_bps as int);
        if out == 0 {
            Err(BetFunError::InsufficientOutputAmount)
        } else if p.spec_price() == 0 {
            Err(BetFunError::ArithmeticOverflow)
        } else {
            let new_price = if is_token_to_sol {
                spec_price_of(x + amount_in, y - out)
            } else {
                spec_price_of(x - out, y + amount_in)
            };
            Ok(spec_price_impact_bps(p.spec_price(), new_price) as u16)
        }
    }
}

/// The outcome of `swap` on a given pool state: either the error the
/// operation stops on, in the order the checks run, or the committed pool
/// and the swap report, as one value.
pub open spec fn spec_swap(
    p: AMMPool,
    amount_in: int,
    min_amount_out: int,
    is_token_to_sol: bool,
    current_time: int,
) -> Result<(AMMPool, SwapExecuted), BetFunError> {
    let x = p.token_reserve as int;
    let y = p.sol_reserve as int;
    let rin = if is_token_to_sol {
        x
    } else {
        y
    };
    let rout = if is_token_to_sol {
        y
    } else {
        x
    };
    if amount_in <= 0 {
        Err(BetFunError::InvalidAmount)
    } else if rin == 0 || rout == 0 {
        Err(BetFunError::InsufficientLiquidity)
    } else {
        let out = spec_amount_out(amount_in, rin, rout, p.fee_bps as int);
        if out < min_amount_out {
            Err(BetFunError::SlippageToleranceExceeded)
        } else if out == 0 {
            Err(BetFunError::InsufficientOutputAmount)
        } else if p.fee_bps == 0 {
            Err(BetFunError::ArithmeticOverflow)
        } else if p.spec_price() == 0 {
            Err(BetFunError::ArithmeticOverflow)
        } else {
            let fee_amount = spec_fee_amount(amount_in, p.fee_bps as int);
            let pf = spec_protocol_fee(amount_in, p.fee_bps as int, p.protocol_fee_bps as int);
            let add_overflow = if is_token_to_sol {
                x + amount_in > u64::MAX
            } else {
                y + amount_in > u64::MAX
            };
            let sub_underflow = is_token_to_sol && out + pf > y;
            if add_overflow || sub_underflow {
                Err(BetFunError::ArithmeticOverflow)
            } else if p.fees_collected + fee_amount > u64::MAX {
                Err(BetFunError::ArithmeticOverflow)
            } else {
                let new_token = if is_token_to_sol {
                    x + amount_in
                } else {
                    x - out
                };
                let new_sol = if is_token_to_sol {
                    y - out - pf
                } else {
                    y + amount_in - pf
                };
                let pool_swapped = AMMPool {
                    token_reserve: new_token as u64,
                    sol_reserve: new_sol as u64,
                    k: (new_token * new_sol) as u128,
                    ..p
                };
                let volume = if is_token_to_sol {
                    out
                } else {
                    amount_in
                };
                let pool_tracked = spec_update_swap_stats(pool_swapped, volume, current_time);
                let pool_final = AMMPool {
                    fees_collected: (p.fees_collected + fee_amount) as u64,
                    ..pool_tracked
                };
                let impact_price = if is_token_to_sol {
                    spec_price_of(x + amount_in, y - out)
                } else {
                    spec_price_of(x - out, y + amount_in)
                };
                let ev = SwapExecuted {
                    is_token_to_sol,
                    amount_in: amount_in as u64,
                    amount_out: out as u64,
                    fee_amount: fee_amount as u64,
                    protocol_fee: pf as u64,
                    price_impact: spec_price_impact_bps(p.spec_price(), impact_price) as u16,
                    price_before: p.spec_price() as u64,
                    price_after: pool_final.spec_price() as u64,
                };
                Ok((pool_final, ev))
            }
        }
    }
}

/// LP tokens owed for a deposit: the square-root rule for the first
/// provider, the smaller proportional share afterwards.
pub open spec fn spec_lp_minted(p: AMMPool, t: int, s: int) -> int {
    if p.total_lp_tokens == 0 {
        spec_sqrt_floor(t * s)
    } else {
        spec_min(
            p.total_lp_tokens as int * t / p.token_reserve as int,
            p.total_lp_tokens as int * s / p.sol_reserve as int,
        )
    }
}

/// The outcome of `calculate_lp_tokens`, error precedence included: the
/// square-root rule for a pool with no LP supply, the smaller proportional
/// share against the reserves afterwards.
pub open spec fn spec_calculate_lp_tokens(p: AMMPool, t: int, s: int) -> Result<u64, BetFunError> {
    if p.total_lp_tokens == 0 {
        let lp = spec_sqrt_floor(t * s);
        if lp == 0 {
            Err(BetFunError::InsufficientLiquidityMinted)
        } else {
            Ok(lp as u64)
        }
    } else {
        let x = p.token_reserve as int;
        let y = p.sol_reserve as int;
        if x == 0 || y == 0 {
            Err(BetFunError::ArithmeticOverflow)
        } else {
            let from_tokens = p.total_lp_tokens as int * t / x;
            let from_sol = p.total_lp_tokens as int * s / y;
            if from_tokens > u64::MAX || from_sol > u64::MAX {
                Err(BetFunError::ArithmeticOverflow)
            } else {
                let lp = spec_min(from_tokens, from_sol);
                if lp == 0 {
                    Err(BetFunError::InsufficientLiquidityMinted)
                } else {
                    Ok(lp as u64)
                }
            }
        }
    }
}

/// Shared tail of `spec_add_liquidity`: grow the LP supply, refresh the
/// stored price, and open or grow the provider's position.
pub open spec fn spec_commit_liquidity(
    p: AMMPool,
    pos: LiquidityPosition,
    new_token: int,
    new_sol: int,
    t: int,
    s: int,
    lp: int,
    now: int,
) -> Result<(AMMPool, LiquidityPosition, u64), BetFunError> {
    if p.total_lp_tokens + lp > u64::MAX {
        Err(BetFunError::ArithmeticOverflow)
    } else {
        let pool2 = AMMPool {
            token_reserve: new_token as u64,
            sol_reserve: new_sol as u64,
            k: (new_token * new_sol) as u128,
            total_lp_tokens: (p.total_lp_tokens + lp) as u64,
            last_price: spec_price_of(new_token, new_sol) as u64,
            ..p
        };
        if pos.lp_tokens == 0 {
            Ok(
                (
                    pool2,
                    LiquidityPosition {
                        lp_tokens: lp as u64,
                        tokens_deposited: t as u64,
                        sol_deposited: s as u64,
                        created_at: now as i64,
                        fees_earned: 0u64,
                    },
                    lp as u64,
                ),
            )
        } else if pos.lp_tokens + lp > u64::MAX {
            Err(BetFunError::ArithmeticOverflow)
        } else if pos.tokens_deposited + t > u64::MAX {
            Err(BetFunError::ArithmeticOverflow)
        } else if pos.sol_deposited + s > u64::MAX {
            Err(BetFunError::ArithmeticOverflow)
        } else {
            Ok(
                (
                    pool2,
                    LiquidityPosition {
                        lp_tokens: (pos.lp_tokens + lp) as u64,
                        tokens_deposited: (pos.tokens_deposited + t) as u64,
                        sol_deposited: (pos.sol_deposited + s) as u64,
                        ..pos
                    },
                    lp as u64,
                ),
            )
        }
    }
}

/// The outcome of `add_liquidity` on a given pool and position, error
/// precedence included.
pub open spec fn spec_add_liquidity(
    p: AMMPool,
    pos: LiquidityPosition,
    t: int,
    s: int,
    min_lp: int,
    now: int,
) -> Result<(AMMPool, LiquidityPosition, u64), BetFunError> {
    if t <= 0 || s <= 0 {
        Err(BetFunError::InvalidAmount)
    } else if p.total_lp_tokens == 0 {
        let lp = spec_sqrt_floor(t * s);
        if lp == 0 {
            Err(BetFunError::InsufficientLiquidityMinted)
        } else if lp < min_lp {
            Err(BetFunError::SlippageToleranceExceeded)
        } else {
            spec_commit_liquidity(p, pos, t, s, t, s, lp, now)
        }
    } else {
        let x = p.token_reserve as int;
        let y = p.sol_reserve as int;
        if x == 0 || y == 0 {
            Err(BetFunError::ArithmeticOverflow)
        } else {
            let expected_sol = t * y / x;
            if expected_sol > u64::MAX {
                Err(BetFunError::ArithmeticOverflow)
            } else if s < expected_sol - expected_sol / 100 || s > spec_saturating_add_u64(
                expected_sol,
                expected_sol / 100,
            ) {
                Err(BetFunError::SlippageToleranceExceeded)
            } else {
                let expected_tokens = s * x / y;
                if expected_tokens > u64::MAX {
                    Err(BetFunError::ArithmeticOverflow)
                } else if t < expected_tokens - expected_tokens / 100 || t
                    > spec_saturating_add_u64(expected_tokens, expected_tokens / 100) {
                    Err(BetFunError::SlippageToleranceExceeded)
                } else {
                    let from_tokens = p.total_lp_tokens as int * t / x;
                    let from_sol = p.total_lp_tokens as int * s / y;
                    if from_tokens > u64::MAX {
                        Err(BetFunError::ArithmeticOverflow)
                    } else if from_sol > u64::MAX {
                        Err(BetFunError::ArithmeticOverflow)
                    } else {
                        let lp = spec_min(from_tokens, from_sol);
                        if lp == 0 {
                            Err(BetFunError::InsufficientLiquidityMinted)
                        } else if x + t > u64::MAX {
                            Err(BetFunError::ArithmeticOverflow)
                        } else if y + s > u64::MAX {
                            Err(BetFunError::ArithmeticOverflow)
                        } else if lp < min_lp {
                            Err(BetFunError::SlippageToleranceExceeded)
                        } else {
                            spec_commit_liquidity(p, pos, x + t, y + s, t, s, lp, now)
                        }
                    }
                }
            }
        }
    }
}

/// The outcome of `remove_liquidity` on a given pool and position, error
/// precedence included.
pub open spec fn spec_remove_liquidity(
    p: AMMPool,
    pos: LiquidityPosition,
    burn: int,
    min_t: int,
    min_s: int,
) -> Result<(AMMPool, LiquidityPosition, (u64, u64)), BetFunError> {
    if burn <= 0 {
        Err(BetFunError::InvalidAmount)
    } else if burn > p.total_lp_tokens {
        Err(BetFunError::InsufficientLiquidity)
    } else {
        let x = p.token_reserve as int;
        let y = p.sol_reserve as int;
        let total = p.total_lp_tokens as int;
        let ta = x * burn / total;
        let sa = y * burn / total;
        if ta < min_t {
            Err(BetFunError::SlippageToleranceExceeded)
        } else if sa < min_s {
            Err(BetFunError::SlippageToleranceExceeded)
        } else if burn > pos.lp_tokens {
            Err(BetFunError::ArithmeticOverflow)
        } else {
            let twd = pos.tokens_deposited as int * burn / pos.lp_tokens as int;
            let swd = pos.sol_deposited as int * burn / pos.lp_tokens as int;
            let gain = if sa > swd {
                sa - swd
            } else {
                0
            };
            if pos.fees_earned + gain > u64::MAX {
                Err(BetFunError::ArithmeticOverflow)
            } else {
                let pool2 = AMMPool {
                    token_reserve: (x - ta) as u64,
                    sol_reserve: (y - sa) as u64,
                    k: ((x - ta) * (y - sa)) as u128,
                    total_lp_tokens: (total - burn) as u64,
                    last_price: spec_price_of(x - ta, y - sa) as u64,
                    ..p
                };
                let pos2 = LiquidityPosition {
                    lp_tokens: (pos.lp_tokens - burn) as u64,
                    tokens_deposited: (pos.tokens_deposited - twd) as u64,
                    sol_deposited: (pos.sol_deposited - swd) as u64,
                    fees_earned: (pos.fees_earned + gain) as u64,
                    ..pos
                };
                Ok((pool2, pos2, (ta as u64, sa as u64)))
            }
        }
    }
}

/// Scaling by a fraction of at most one rounds down to at most the input:
/// `0 <= a * (B - f) / B <= a`.
proof fn lemma_net_input_le(a: int, f: int)
    requires
        0 <= a,
        0 <= f <= BPS_DENOMINATOR as int,
    ensures
        0 <= a * (BPS_DENOMINATOR as int - f) / (BPS_DENOMINATOR as int) <= a,
{
    let b = BPS_DENOMINATOR as int;
    assert(a * (b - f) <= b * a && 0 <= a * (b - f)) by (nonlinear_arith)
        requires
            0 <= a,
            0 <= f <= b,
            b == BPS_DENOMINATOR as int,
    ;
    lemma_multiply_divide_le(a * (b - f), b, a);
    assert(a * (b - f) / b >= 0) by (nonlinear_arith)
        requires
            0 <= a * (b - f),
            0 < b,
    ;
}

/// A fraction `p / f <= 1` of any amount stays within the amount:
/// `0 <= a * p / f <= a`.
proof fn lemma_net_input_general_le(a: int, p: int, f: int)
    requires
        0 <= a,
        0 <= p <= f,
        1 <= f,
    ensures
        0 <= a * p / f <= a,
{
    assert(a * p <= f * a && 0 <= a * p) by (nonlinear_arith)
        requires
            0 <= a,
            0 <= p <= f,
    ;
    lemma_multiply_divide_le(a * p, f, a);
    assert(a * p / f >= 0) by (nonlinear_arith)
        requires
            0 <= a * p,
            0 < f,
    ;
}

/// A constant-product payout never empties the output reserve:
/// `0 <= e * y / (x + e) < y` whenever both reserves are positive.
proof fn lemma_out_below_reserve(x: int, y: int, e: int)
    requires
        0 < x,
        0 < y,
        0 <= e,
    ensures
        0 <= e * y / (x + e) < y,
{
    lemma_product_after_payout(x, y, e);
    lemma_fundamental_div_mod(e * y, x + e);
    assert((e * y) / (x + e) < y) by (nonlinear_arith)
        requires
            0 < x,
            0 < y,
            0 <= e,
            (x + e) * ((e * y) / (x + e)) <= e * y,
            (e * y) / (x + e) >= 0,
    ;
}

/// The two sides of the swap's product law.
///
/// Selling tokens for lamports (`d`): adding the gross input while paying
/// out the curve's quote keeps the product at least `x * y`; only the
/// protocol fee taken from the lamport side can then lower it, by exactly
/// `pf` per unit of the grown token reserve.
///
/// Selling lamports for tokens (`!d`): the protocol fee stays within the
/// margin the curve already withheld, so the product never drops at all.
proof fn lemma_swap_k_bounds(x: int, y: int, a: int, f: int, p: int, d: bool)
    requires
        0 < x,
        0 < y,
        0 < a,
        1 <= f <= BPS_DENOMINATOR as int,
        0 <= p <= f,
    ensures
        0 <= spec_protocol_fee(a, f, p) <= spec_fee_amount(a, f) <= a,
        d ==> (x + a) * (y - spec_amount_out(a, x, y, f) - spec_protocol_fee(a, f, p))
            + spec_protocol_fee(a, f, p) * (x + a) >= x * y,
        !d ==> (x - spec_amount_out(a, y, x, f)) * (y + a - spec_protocol_fee(a, f, p)) >= x * y,
{
    let b = BPS_DENOMINATOR as int;
    let e = spec_net_input(a, f);
    let fee = spec_fee_amount(a, f);
    let pf = spec_protocol_fee(a, f, p);
    lemma_net_input_le(a, f);
    lemma_net_input_le(a, b - f);
    lemma_net_input_general_le(fee, p, f);
    if d {
        let out = spec_amount_out(a, x, y, f);
        lemma_product_with_full_input(x, y, e, a);
        assert((x + a) * (y - out - pf) + pf * (x + a) == (x + a) * (y - out)) by (nonlinear_arith);
    } else {
        let out = spec_amount_out(a, y, x, f);
        lemma_protocol_fee_within_margin(a, f, p, b);
        lemma_product_after_payout(y, x, e);
        assert((y + e) * (x - out) >= y * x);
        lemma_mul_inequality(y + e, y + a - pf, x - out);
        assert((y + e) * (x - out) <= (y + a - pf) * (x - out));
        assert((x - out) * (y + a - pf) == (y + a - pf) * (x - out)) by (nonlinear_arith);
        assert(y * x == x * y) by (nonlinear_arith);
    }
}

/// A proportional withdrawal never exceeds the reserve it draws from:
/// `reserve * lp / total <= reserve` when `lp <= total`.
proof fn lemma_scaled_share_le_reserve(reserve: int, lp: int, total: int)
    requires
        0 <= reserve,
        0 < total,
        0 <= lp <= total,
    ensures
        0 <= reserve * lp / total <= reserve,
{
    lemma_mul_inequality(lp, total, reserve);
    assert(lp * reserve == reserve * lp) by (nonlinear_arith);
    assert(total * reserve == reserve * total) by (nonlinear_arith);
    lemma_multiply_divide_le(reserve * lp, total, reserve);
    assert(reserve * lp >= 0) by (nonlinear_arith)
        requires
            reserve >= 0,
            lp >= 0,
    ;
    assert(reserve * lp / total >= 0) by (nonlinear_arith)
        requires
            reserve * lp >= 0,
            total > 0,
    ;
}

} // verus!
