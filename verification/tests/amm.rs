use betfun::amm_pool::{AMMPool, LiquidityPosition};
use betfun::errors::BetFunError;
use betfun::math::isqrt_u128;

fn fresh_position() -> LiquidityPosition {
    LiquidityPosition {
        lp_tokens: 0,
        tokens_deposited: 0,
        sol_deposited: 0,
        created_at: 0,
        fees_earned: 0,
    }
}

fn pool_with_liquidity(
    token_reserve: u64,
    sol_reserve: u64,
    fee_bps: u16,
    protocol_fee_bps: u16,
) -> (AMMPool, LiquidityPosition) {
    let mut pool = AMMPool::initialize_pool(0, fee_bps, protocol_fee_bps, 1_000).unwrap();
    let mut position = fresh_position();
    pool.add_liquidity(&mut position, token_reserve, sol_reserve, 0, 1_000)
        .unwrap();
    (pool, position)
}

#[test]
fn initialize_pool_validates_fee_caps() {
    assert_eq!(
        AMMPool::initialize_pool(0, 1_001, 0, 0).unwrap_err(),
        BetFunError::InvalidConfiguration
    );
    assert_eq!(
        AMMPool::initialize_pool(0, 1_000, 101, 0).unwrap_err(),
        BetFunError::InvalidConfiguration
    );
    assert_eq!(
        AMMPool::initialize_pool(0, 5, 10, 0).unwrap_err(),
        BetFunError::InvalidConfiguration
    );
    let pool = AMMPool::initialize_pool(3, 30, 10, 77).unwrap();
    assert_eq!(pool.outcome_index, 3);
    assert_eq!(pool.fee_bps, 30);
    assert_eq!(pool.protocol_fee_bps, 10);
    assert_eq!(pool.token_reserve, 0);
    assert_eq!(pool.sol_reserve, 0);
    assert_eq!(pool.k, 0);
    assert_eq!(pool.last_swap_at, 77);
}

#[test]
fn integer_sqrt_edges() {
    assert_eq!(isqrt_u128(0), 0);
    assert_eq!(isqrt_u128(1), 1);
    assert_eq!(isqrt_u128(3), 1);
    assert_eq!(isqrt_u128(4), 2);
    assert_eq!(isqrt_u128(4_000_000_000_000), 2_000_000);
    assert_eq!(isqrt_u128(u128::MAX), u64::MAX as u128);
}

#[test]
fn first_liquidity_deposit_mints_sqrt() {
    // token_amount = 1_000_000, sol_amount = 4_000_000:
    // lp = floor(sqrt(4e12)) = 2_000_000
    let mut pool = AMMPool::initialize_pool(0, 30, 10, 0).unwrap();
    let mut position = fresh_position();
    let lp = pool
        .add_liquidity(&mut position, 1_000_000, 4_000_000, 0, 500)
        .unwrap();
    assert_eq!(lp, 2_000_000);
    assert_eq!(pool.total_lp_tokens, 2_000_000);
    assert_eq!(pool.token_reserve, 1_000_000);
    assert_eq!(pool.sol_reserve, 4_000_000);
    assert_eq!(pool.k, 4_000_000_000_000);
    assert_eq!(position.lp_tokens, 2_000_000);
    assert_eq!(position.tokens_deposited, 1_000_000);
    assert_eq!(position.sol_deposited, 4_000_000);
    assert_eq!(position.created_at, 500);
    assert_eq!(position.fees_earned, 0);
}

#[test]
fn get_price_is_scaled_reserve_ratio() {
    let (pool, _) = pool_with_liquidity(1_000_000, 1_000_000_000, 30, 10);
    // 1e9 * 1e9 / 1e6 = 1e12
    assert_eq!(pool.get_price(), 1_000_000_000_000);
    let empty = AMMPool::initialize_pool(0, 30, 10, 0).unwrap();
    assert_eq!(empty.get_price(), 0);
}

#[test]
fn quote_follows_constant_product_formula() {
    // amount_in_net = 10_000 * 9970 / 10_000 = 9_970
    // amount_out = 9_970 * 1e9 / (1e6 + 9_970) = 9_871_580
    let (pool, _) = pool_with_liquidity(1_000_000, 1_000_000_000, 30, 10);
    let out = pool
        .get_amount_out(10_000, pool.token_reserve, pool.sol_reserve)
        .unwrap();
    assert_eq!(out, 9_871_580);
}

#[test]
fn quote_error_taxonomy() {
    let (pool, _) = pool_with_liquidity(1_000_000, 1_000_000_000, 30, 10);
    assert_eq!(
        pool.get_amount_out(0, 1, 1).unwrap_err(),
        BetFunError::InvalidAmount
    );
    assert_eq!(
        pool.get_amount_out(5, 0, 1).unwrap_err(),
        BetFunError::InsufficientLiquidity
    );
    assert_eq!(
        pool.get_amount_out(5, 1, 0).unwrap_err(),
        BetFunError::InsufficientLiquidity
    );
    // net input of 1 against a huge input reserve rounds the output to zero
    assert_eq!(
        pool.get_amount_out(1, u64::MAX, 10).unwrap_err(),
        BetFunError::InsufficientOutputAmount
    );
}

#[test]
fn swap_token_to_sol_full_accounting() {
    let (mut pool, _) = pool_with_liquidity(1_000_000, 1_000_000_000, 30, 10);
    let before_k = pool.k;
    let ev = pool.swap(10_000, 0, true, 2_000).unwrap();
    assert_eq!(ev.amount_out, 9_871_580);
    assert_eq!(ev.fee_amount, 30);
    assert_eq!(ev.protocol_fee, 10);
    assert_eq!(ev.price_before, 1_000_000_000_000);
    assert_eq!(ev.price_impact, 196);
    assert_eq!(pool.token_reserve, 1_010_000);
    assert_eq!(pool.sol_reserve, 990_128_410);
    assert_eq!(pool.k, 1_010_000u128 * 990_128_410u128);
    assert_eq!(ev.price_after, 980_325_158_415);
    assert_eq!(pool.last_price, 980_325_158_415);
    assert_eq!(pool.swap_count, 1);
    assert_eq!(pool.fees_collected, 30);
    assert_eq!(pool.volume_24h, 9_871_580);
    assert_eq!(pool.last_swap_at, 2_000);
    // fee accrual never shrinks the product beyond the protocol extraction,
    // and here it grows it
    assert!(pool.k >= before_k);
}

#[test]
fn swap_sol_to_token_keeps_product() {
    let (mut pool, _) = pool_with_liquidity(1_000_000, 1_000_000_000, 30, 10);
    let before_k = pool.k;
    let ev = pool.swap(5_000_000, 0, false, 2_000).unwrap();
    assert!(ev.amount_out > 0);
    assert_eq!(pool.sol_reserve, 1_000_000_000 + 5_000_000 - ev.protocol_fee);
    assert_eq!(pool.token_reserve, 1_000_000 - ev.amount_out);
    // the product never drops on this side, protocol fee included
    assert!(pool.k >= before_k);
    assert_eq!(pool.volume_24h, 5_000_000);
}

#[test]
fn swap_error_taxonomy() {
    let (mut pool, _) = pool_with_liquidity(1_000_000, 1_000_000_000, 30, 10);
    let snapshot = pool;
    assert_eq!(
        pool.swap(0, 0, true, 2_000).unwrap_err(),
        BetFunError::InvalidAmount
    );
    assert_eq!(
        pool.swap(10_000, 10_000_000, true, 2_000).unwrap_err(),
        BetFunError::SlippageToleranceExceeded
    );
    assert_eq!(pool, snapshot, "failed swaps must leave the pool untouched");

    let mut empty = AMMPool::initialize_pool(0, 30, 10, 0).unwrap();
    assert_eq!(
        empty.swap(10_000, 0, true, 2_000).unwrap_err(),
        BetFunError::InsufficientLiquidity
    );

    // a zero trading fee makes the protocol-fee split divide by zero
    let mut no_fee = AMMPool::initialize_pool(0, 0, 0, 0).unwrap();
    let mut position = fresh_position();
    no_fee
        .add_liquidity(&mut position, 1_000_000, 1_000_000_000, 0, 0)
        .unwrap();
    assert_eq!(
        no_fee.swap(10_000, 0, true, 2_000).unwrap_err(),
        BetFunError::ArithmeticOverflow
    );
}

#[test]
fn price_impact_matches_simulation() {
    let (pool, _) = pool_with_liquidity(1_000_000, 1_000_000_000, 30, 10);
    assert_eq!(pool.calculate_price_impact(10_000, true).unwrap(), 196);
    // tiny swap, negligible impact
    assert_eq!(pool.calculate_price_impact(10, true).unwrap(), 0);
    // buying half the lamport reserve roughly halves the token side
    let impact = pool.calculate_price_impact(500_000_000, false).unwrap();
    assert!(impact > 5_000);
    // draining trades are capped at 100%
    assert_eq!(pool.calculate_price_impact(u64::MAX / 2, true).unwrap(), 10_000);
}

#[test]
fn slippage_floor_is_checked_before_zero_output() {
    let (mut pool, _) = pool_with_liquidity(u64::MAX, 10, 30, 10);
    // this quote rounds to zero; with a floor the slippage error comes first
    assert_eq!(
        pool.swap(1, 5, true, 2_000).unwrap_err(),
        BetFunError::SlippageToleranceExceeded
    );
    assert_eq!(
        pool.swap(1, 0, true, 2_000).unwrap_err(),
        BetFunError::InsufficientOutputAmount
    );
}

#[test]
fn ratio_tolerance_boundary_is_one_percent() {
    // expected sol for 100_000 tokens at 1:4 is 400_000, tolerance 4_000
    let (mut pool, mut position) = pool_with_liquidity(1_000_000, 4_000_000, 30, 10);
    assert_eq!(
        pool.add_liquidity(&mut position, 100_000, 404_001, 0, 2_000)
            .unwrap_err(),
        BetFunError::SlippageToleranceExceeded
    );
    let lp = pool
        .add_liquidity(&mut position, 100_000, 404_000, 0, 2_000)
        .unwrap();
    // the lamport leg is over-supplied, so the token leg decides
    assert_eq!(lp, 200_000);
}

#[test]
fn subsequent_liquidity_must_match_ratio() {
    let (mut pool, mut position) = pool_with_liquidity(1_000_000, 4_000_000, 30, 10);
    // matching the 1:4 ratio mints proportional LP tokens
    let lp = pool
        .add_liquidity(&mut position, 100_000, 400_000, 0, 2_000)
        .unwrap();
    assert_eq!(lp, 200_000);
    assert_eq!(pool.total_lp_tokens, 2_200_000);
    assert_eq!(pool.token_reserve, 1_100_000);
    assert_eq!(pool.sol_reserve, 4_400_000);
    assert_eq!(position.lp_tokens, 2_200_000);
    assert_eq!(position.tokens_deposited, 1_100_000);
    assert_eq!(position.sol_deposited, 4_400_000);

    // 10% off the ratio is rejected
    let snapshot = (pool, position);
    assert_eq!(
        pool.add_liquidity(&mut position, 100_000, 440_000, 0, 2_000)
            .unwrap_err(),
        BetFunError::SlippageToleranceExceeded
    );
    assert_eq!((pool, position), snapshot);
}

#[test]
fn add_liquidity_enforces_minimum_lp() {
    let mut pool = AMMPool::initialize_pool(0, 30, 10, 0).unwrap();
    let mut position = fresh_position();
    assert_eq!(
        pool.add_liquidity(&mut position, 1_000_000, 4_000_000, 2_000_001, 0)
            .unwrap_err(),
        BetFunError::SlippageToleranceExceeded
    );
    assert_eq!(
        pool.add_liquidity(&mut position, 0, 4_000_000, 0, 0).unwrap_err(),
        BetFunError::InvalidAmount
    );
    assert_eq!(
        pool.add_liquidity(&mut position, 1_000_000, 0, 0, 0).unwrap_err(),
        BetFunError::InvalidAmount
    );
    assert_eq!(pool.total_lp_tokens, 0);
}

#[test]
fn remove_liquidity_round_trip_returns_deposit() {
    let (mut pool, mut position) = pool_with_liquidity(1_000_000, 4_000_000, 30, 10);
    let (tokens, sol) = pool
        .remove_liquidity(&mut position, 2_000_000, 0, 0)
        .unwrap();
    // the first deposit comes back exactly
    assert_eq!(tokens, 1_000_000);
    assert_eq!(sol, 4_000_000);
    assert_eq!(pool.total_lp_tokens, 0);
    assert_eq!(pool.token_reserve, 0);
    assert_eq!(pool.sol_reserve, 0);
    assert_eq!(pool.k, 0);
    assert_eq!(position.lp_tokens, 0);
    assert_eq!(position.tokens_deposited, 0);
    assert_eq!(position.sol_deposited, 0);
    assert_eq!(position.fees_earned, 0);
}

#[test]
fn partial_remove_is_proportional() {
    let (mut pool, mut position) = pool_with_liquidity(1_000_000, 4_000_000, 30, 10);
    let (tokens, sol) = pool.remove_liquidity(&mut position, 500_000, 0, 0).unwrap();
    // 500_000 / 2_000_000 of each reserve
    assert_eq!(tokens, 250_000);
    assert_eq!(sol, 1_000_000);
    assert_eq!(pool.token_reserve, 750_000);
    assert_eq!(pool.sol_reserve, 3_000_000);
    assert_eq!(pool.total_lp_tokens, 1_500_000);
    assert_eq!(position.lp_tokens, 1_500_000);
    assert_eq!(position.tokens_deposited, 750_000);
    assert_eq!(position.sol_deposited, 3_000_000);
}

#[test]
fn remove_liquidity_error_taxonomy() {
    let (mut pool, mut position) = pool_with_liquidity(1_000_000, 4_000_000, 30, 10);
    assert_eq!(
        pool.remove_liquidity(&mut position, 0, 0, 0).unwrap_err(),
        BetFunError::InvalidAmount
    );
    assert_eq!(
        pool.remove_liquidity(&mut position, 2_000_001, 0, 0).unwrap_err(),
        BetFunError::InsufficientLiquidity
    );
    assert_eq!(
        pool.remove_liquidity(&mut position, 500_000, 250_001, 0).unwrap_err(),
        BetFunError::SlippageToleranceExceeded
    );
    assert_eq!(
        pool.remove_liquidity(&mut position, 500_000, 0, 1_000_001).unwrap_err(),
        BetFunError::SlippageToleranceExceeded
    );
    assert_eq!(pool.token_reserve, 1_000_000);
    assert_eq!(pool.sol_reserve, 4_000_000);
}

#[test]
fn fees_accrue_to_withdrawing_provider() {
    // seed 1:1000, trade back and forth, then withdraw everything: the
    // lamport side grew past the deposit and the excess lands in
    // fees_earned
    let (mut pool, mut position) = pool_with_liquidity(1_000_000, 1_000_000_000, 30, 0);
    pool.swap(50_000, 0, true, 2_000).unwrap();
    pool.swap(60_000_000, 0, false, 3_000).unwrap();
    assert_eq!(pool.sol_reserve, 1_012_517_027);
    let lp = position.lp_tokens;
    let (_, sol) = pool.remove_liquidity(&mut position, lp, 0, 0).unwrap();
    assert_eq!(sol, 1_012_517_027);
    assert_eq!(position.lp_tokens, 0);
    assert_eq!(position.fees_earned, 12_517_027);
}

#[test]
fn swap_statistics_window_resets_after_a_day() {
    let (mut pool, _) = pool_with_liquidity(1_000_000, 1_000_000_000, 30, 10);
    pool.swap(10_000, 0, true, 2_000).unwrap();
    let volume_first = pool.volume_24h;
    assert!(volume_first > 0);
    // second swap within the day accumulates volume
    let ev = pool.swap(10_000, 0, true, 3_000).unwrap();
    assert_eq!(pool.volume_24h, volume_first + ev.amount_out);
    // a swap more than 24h after the previous one restarts the window
    let ev3 = pool.swap(10_000, 0, true, 3_000 + 86_401).unwrap();
    assert_eq!(pool.volume_24h, ev3.amount_out);
    assert_eq!(pool.price_24h_ago, pool.last_price);
}

#[test]
fn price_change_24h_in_basis_points() {
    let (mut pool, _) = pool_with_liquidity(1_000_000, 1_000_000_000, 30, 10);
    pool.last_price = 110;
    pool.price_24h_ago = 100;
    assert_eq!(pool.price_change_24h(), 1_000);
    pool.last_price = 90;
    assert_eq!(pool.price_change_24h(), -1_000);
    pool.price_24h_ago = 0;
    assert_eq!(pool.price_change_24h(), 0);
}

#[test]
fn position_value_and_impermanent_loss() {
    let (mut pool, mut position) = pool_with_liquidity(1_000_000, 1_000_000_000, 30, 10);
    let (tokens, sol) = position.calculate_value(&pool).unwrap();
    assert_eq!(tokens, 1_000_000);
    assert_eq!(sol, 1_000_000_000);
    // nothing traded: current value equals held value
    assert_eq!(position.calculate_impermanent_loss(&pool).unwrap(), 0);
    // after a swap the reserves shift and the difference shows up
    pool.swap(100_000, 0, true, 2_000).unwrap();
    let loss = position.calculate_impermanent_loss(&pool).unwrap();
    assert_eq!(loss, -7_994_025);
}

#[test]
fn calculate_lp_tokens_and_withdraw_quotes() {
    let (pool, _) = pool_with_liquidity(1_000_000, 4_000_000, 30, 10);
    assert_eq!(pool.calculate_lp_tokens(100_000, 400_000).unwrap(), 200_000);
    assert_eq!(
        pool.calculate_lp_tokens(0, 0).unwrap_err(),
        BetFunError::InsufficientLiquidityMinted
    );
    assert_eq!(
        pool.calculate_withdraw_amounts(500_000).unwrap(),
        (250_000, 1_000_000)
    );
    assert_eq!(
        pool.calculate_withdraw_amounts(0).unwrap_err(),
        BetFunError::InvalidAmount
    );
    assert_eq!(
        pool.calculate_withdraw_amounts(2_000_001).unwrap_err(),
        BetFunError::InsufficientLiquidity
    );
    let empty = AMMPool::initialize_pool(0, 30, 10, 0).unwrap();
    assert_eq!(
        empty.calculate_lp_tokens(0, 5).unwrap_err(),
        BetFunError::InsufficientLiquidityMinted
    );
}
