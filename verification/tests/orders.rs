use betfun::errors::BetFunError;
use betfun::order_book::{
    LimitOrder, OrderBook, OrderSide, OrderStatus, OrderType, PlaceOrderParams,
};

fn limit_params(side: OrderSide, price: u64, size: u64) -> PlaceOrderParams {
    PlaceOrderParams {
        order_type: OrderType::Limit,
        side,
        price,
        size,
        expires_at: 0,
        stop_price: None,
        visible_size: None,
        twap_interval: None,
    }
}

fn place(
    book: &mut OrderBook,
    owner: u64,
    side: OrderSide,
    price: u64,
    size: u64,
) -> (LimitOrder, u64) {
    book.place_limit_order(owner, limit_params(side, price, size), u64::MAX, 1_000)
        .unwrap()
}

#[test]
fn placing_orders_updates_the_book() {
    let mut book = OrderBook::new(2);
    let (buy, buy_escrow) = place(&mut book, 7, OrderSide::Buy, 100, 50);
    assert_eq!(buy.order_id, 0);
    assert_eq!(buy.outcome_index, 2);
    assert_eq!(buy.owner, 7);
    assert_eq!(buy.status, OrderStatus::Open);
    assert_eq!(buy.size, 50);
    assert_eq!(buy.remaining_size, 50);
    assert_eq!(buy.filled_size, 0);
    // a bid escrows price * size lamports
    assert_eq!(buy_escrow, 5_000);

    let (sell, sell_escrow) = place(&mut book, 8, OrderSide::Sell, 120, 40);
    assert_eq!(sell.order_id, 1);
    // an ask escrows the shares themselves
    assert_eq!(sell_escrow, 40);

    assert_eq!(book.next_order_id, 2);
    assert_eq!(book.active_orders, 2);
    assert_eq!(book.total_buy_orders, 1);
    assert_eq!(book.total_sell_orders, 1);
    assert_eq!(book.best_bid, 100);
    assert_eq!(book.best_ask, 120);
    assert_eq!(book.spread, 20);
    assert_eq!(book.mid_price, 110);
}

#[test]
fn place_order_error_taxonomy() {
    let mut book = OrderBook::new(0);
    assert_eq!(
        book.place_limit_order(1, limit_params(OrderSide::Buy, 0, 10), 100, 0)
            .unwrap_err(),
        BetFunError::InvalidAmount
    );
    assert_eq!(
        book.place_limit_order(1, limit_params(OrderSide::Buy, 10, 0), 100, 0)
            .unwrap_err(),
        BetFunError::InvalidAmount
    );
    let mut iceberg = limit_params(OrderSide::Sell, 10, 10);
    iceberg.order_type = OrderType::Iceberg;
    iceberg.visible_size = Some(11);
    assert_eq!(
        book.place_limit_order(1, iceberg, 100, 0).unwrap_err(),
        BetFunError::InvalidConfiguration
    );
    let mut expired = limit_params(OrderSide::Buy, 10, 10);
    expired.expires_at = 500;
    assert_eq!(
        book.place_limit_order(1, expired, 100, 1_000).unwrap_err(),
        BetFunError::InvalidConfiguration
    );
    // bid escrow price * size must fit 64 bits
    assert_eq!(
        book.place_limit_order(1, limit_params(OrderSide::Buy, u64::MAX, 2), u64::MAX, 0)
            .unwrap_err(),
        BetFunError::ArithmeticOverflow
    );
    assert_eq!(
        book.place_limit_order(1, limit_params(OrderSide::Buy, 100, 50), 4_999, 0)
            .unwrap_err(),
        BetFunError::InsufficientFunds
    );
    assert_eq!(book.next_order_id, 0);
    assert_eq!(book.active_orders, 0);
}

#[test]
fn full_match_settles_both_orders() {
    // Buy(price=100, size=50) against Sell(price=90, size=50) at
    // match_price=95 with fee_bps=30: both reach Filled, the trade records
    // size 50, price 95, and each side pays floor(95*50*30/10000) = 14
    let mut book = OrderBook::new(0);
    let (mut buy, _) = place(&mut book, 1, OrderSide::Buy, 100, 50);
    let (mut sell, _) = place(&mut book, 2, OrderSide::Sell, 90, 50);
    let trade = book
        .settle_match(&mut buy, &mut sell, 50, 95, 30, 5_000)
        .unwrap();
    assert_eq!(trade.trade_id, 0);
    assert_eq!(trade.buy_order_id, buy.order_id);
    assert_eq!(trade.sell_order_id, sell.order_id);
    assert_eq!(trade.buyer, 1);
    assert_eq!(trade.seller, 2);
    assert_eq!(trade.price, 95);
    assert_eq!(trade.size, 50);
    assert_eq!(trade.buyer_fee, 14);
    assert_eq!(trade.seller_fee, 14);
    assert_eq!(trade.executed_at, 5_000);

    assert_eq!(buy.status, OrderStatus::Filled);
    assert_eq!(sell.status, OrderStatus::Filled);
    assert_eq!(buy.filled_size, 50);
    assert_eq!(buy.remaining_size, 0);
    assert_eq!(buy.avg_fill_price, 95);
    assert_eq!(buy.fees_paid, 14);
    assert_eq!(sell.fees_paid, 14);

    assert_eq!(book.trade_count, 1);
    assert_eq!(book.active_orders, 0);
    assert_eq!(book.last_trade_price, 95);
    assert_eq!(book.volume_24h, 4_750);
}

#[test]
fn partial_fills_keep_size_accounting() {
    let mut book = OrderBook::new(0);
    let (mut buy, _) = place(&mut book, 1, OrderSide::Buy, 100, 50);
    let (mut sell, _) = place(&mut book, 2, OrderSide::Sell, 90, 80);
    book.settle_match(&mut buy, &mut sell, 50, 95, 30, 5_000)
        .unwrap();
    assert_eq!(buy.status, OrderStatus::Filled);
    assert_eq!(sell.status, OrderStatus::PartiallyFilled);
    assert_eq!(sell.filled_size, 50);
    assert_eq!(sell.remaining_size, 30);
    // filled + remaining always recomposes the size
    assert_eq!(sell.filled_size + sell.remaining_size, sell.size);
    // only the filled bid left the active count
    assert_eq!(book.active_orders, 1);
}

#[test]
fn weighted_average_fill_price() {
    let mut book = OrderBook::new(0);
    let (mut buy, _) = place(&mut book, 1, OrderSide::Buy, 100, 30);
    let (mut sell_a, _) = place(&mut book, 2, OrderSide::Sell, 80, 10);
    let (mut sell_b, _) = place(&mut book, 3, OrderSide::Sell, 90, 20);
    book.settle_match(&mut buy, &mut sell_a, 10, 80, 0, 5_000)
        .unwrap();
    assert_eq!(buy.avg_fill_price, 80);
    assert_eq!(buy.status, OrderStatus::PartiallyFilled);
    book.settle_match(&mut buy, &mut sell_b, 20, 90, 0, 5_001)
        .unwrap();
    // (80*10 + 90*20) / 30 = 86 (integer floor)
    assert_eq!(buy.avg_fill_price, 86);
    assert_eq!(buy.status, OrderStatus::Filled);
    assert_eq!(buy.fill_percentage(), 100);
}

#[test]
fn settle_match_error_taxonomy() {
    let mut book = OrderBook::new(0);
    let (mut buy, _) = place(&mut book, 1, OrderSide::Buy, 100, 50);
    let (mut sell, _) = place(&mut book, 2, OrderSide::Sell, 90, 50);
    // swapped sides
    let mut wrong_side = sell;
    assert_eq!(
        book.settle_match(&mut wrong_side, &mut sell, 10, 95, 30, 0)
            .unwrap_err(),
        BetFunError::InvalidConfiguration
    );
    // zero and oversize matches
    assert_eq!(
        book.settle_match(&mut buy, &mut sell, 0, 95, 30, 0).unwrap_err(),
        BetFunError::InvalidAmount
    );
    assert_eq!(
        book.settle_match(&mut buy, &mut sell, 51, 95, 30, 0).unwrap_err(),
        BetFunError::InvalidAmount
    );
    // price must cross: sell.price <= match_price <= buy.price
    assert_eq!(
        book.settle_match(&mut buy, &mut sell, 10, 101, 30, 0).unwrap_err(),
        BetFunError::InvalidConfiguration
    );
    assert_eq!(
        book.settle_match(&mut buy, &mut sell, 10, 89, 30, 0).unwrap_err(),
        BetFunError::InvalidConfiguration
    );
    // a cancelled order cannot settle
    let mut cancelled = buy;
    book.cancel_order(&mut cancelled, 1, 0).unwrap();
    assert_eq!(
        book.settle_match(&mut cancelled, &mut sell, 10, 95, 30, 0)
            .unwrap_err(),
        BetFunError::InvalidConfiguration
    );
    assert_eq!(buy.remaining_size, 50);
    assert_eq!(sell.remaining_size, 50);
}

#[test]
fn cancel_refunds_only_the_remainder() {
    // cancelling a partially filled bid refunds price * remaining_size,
    // never the original full size
    let mut book = OrderBook::new(0);
    let (mut buy, _) = place(&mut book, 1, OrderSide::Buy, 100, 50);
    let (mut sell, _) = place(&mut book, 2, OrderSide::Sell, 90, 20);
    book.settle_match(&mut buy, &mut sell, 20, 95, 30, 5_000)
        .unwrap();
    assert_eq!(buy.status, OrderStatus::PartiallyFilled);
    assert_eq!(buy.remaining_size, 30);
    let refund = book.cancel_order(&mut buy, 1, 6_000).unwrap();
    assert_eq!(refund, 100 * 30);
    assert_eq!(buy.status, OrderStatus::Cancelled);
    assert_eq!(buy.updated_at, 6_000);
    assert_eq!(book.active_orders, 0);
    assert_eq!(book.total_buy_orders, 0);
}

#[test]
fn cancel_sell_refunds_remaining_shares() {
    let mut book = OrderBook::new(0);
    let (mut sell, _) = place(&mut book, 2, OrderSide::Sell, 90, 20);
    let refund = book.cancel_order(&mut sell, 2, 0).unwrap();
    assert_eq!(refund, 20);
    assert_eq!(sell.status, OrderStatus::Cancelled);
}

#[test]
fn cancel_order_error_taxonomy() {
    let mut book = OrderBook::new(0);
    let (mut buy, _) = place(&mut book, 1, OrderSide::Buy, 100, 50);
    assert_eq!(
        book.cancel_order(&mut buy, 99, 0).unwrap_err(),
        BetFunError::Unauthorized
    );
    book.cancel_order(&mut buy, 1, 0).unwrap();
    assert_eq!(
        book.cancel_order(&mut buy, 1, 0).unwrap_err(),
        BetFunError::InvalidConfiguration
    );
}

#[test]
fn stop_loss_triggering_by_side() {
    let mut book = OrderBook::new(0);
    let mut params = limit_params(OrderSide::Buy, 100, 10);
    params.order_type = OrderType::StopLoss;
    params.stop_price = Some(150);
    let (stop_buy, _) = book.place_limit_order(1, params, u64::MAX, 0).unwrap();
    // a Buy stop triggers when the price rises to or above the stop
    assert!(!stop_buy.is_stop_triggered(149));
    assert!(stop_buy.is_stop_triggered(150));
    assert!(stop_buy.is_stop_triggered(151));

    let mut params = limit_params(OrderSide::Sell, 100, 10);
    params.order_type = OrderType::StopLoss;
    params.stop_price = Some(80);
    let (stop_sell, _) = book.place_limit_order(1, params, u64::MAX, 0).unwrap();
    // a Sell stop triggers when the price falls to or below the stop
    assert!(!stop_sell.is_stop_triggered(81));
    assert!(stop_sell.is_stop_triggered(80));
    assert!(stop_sell.is_stop_triggered(79));

    // no stop price: never triggers
    let (plain, _) = place(&mut book, 1, OrderSide::Buy, 100, 10);
    assert!(!plain.is_stop_triggered(0));
}

#[test]
fn iceberg_discloses_at_most_visible_size() {
    let mut book = OrderBook::new(0);
    let mut params = limit_params(OrderSide::Sell, 100, 50);
    params.order_type = OrderType::Iceberg;
    params.visible_size = Some(10);
    let (mut iceberg, _) = book.place_limit_order(1, params, u64::MAX, 0).unwrap();
    assert_eq!(iceberg.get_visible_size(), 10);
    // once less than the visible size remains, only the remainder shows
    let (mut buy, _) = place(&mut book, 2, OrderSide::Buy, 100, 45);
    book.settle_match(&mut buy, &mut iceberg, 45, 100, 0, 0)
        .unwrap();
    assert_eq!(iceberg.remaining_size, 5);
    assert_eq!(iceberg.get_visible_size(), 5);
    // non-iceberg orders show their whole remainder
    let (plain, _) = place(&mut book, 3, OrderSide::Sell, 100, 50);
    assert_eq!(plain.get_visible_size(), 50);
}

#[test]
fn twap_slices_wait_for_the_interval() {
    let mut book = OrderBook::new(0);
    let mut params = limit_params(OrderSide::Buy, 100, 50);
    params.order_type = OrderType::TWAP;
    params.twap_interval = Some(600);
    let (twap, _) = book.place_limit_order(1, params, u64::MAX, 1_000).unwrap();
    assert_eq!(twap.twap_last_execution, Some(1_000));
    assert!(!twap.should_execute_twap(1_599));
    assert!(twap.should_execute_twap(1_600));
    // a plain order never schedules
    let (plain, _) = place(&mut book, 1, OrderSide::Buy, 100, 10);
    assert!(!plain.should_execute_twap(i64::MAX));
}

#[test]
fn expiry_and_fill_percentage() {
    let mut book = OrderBook::new(0);
    let mut params = limit_params(OrderSide::Buy, 100, 50);
    params.expires_at = 2_000;
    let (order, _) = book.place_limit_order(1, params, u64::MAX, 1_000).unwrap();
    assert!(!order.is_expired(1_999));
    assert!(order.is_expired(2_000));
    // expires_at == 0 means no expiry
    let (open_ended, _) = place(&mut book, 1, OrderSide::Buy, 100, 10);
    assert!(!open_ended.is_expired(i64::MAX));

    let mut buy = order;
    let mut sell = place(&mut book, 2, OrderSide::Sell, 90, 50).0;
    book.settle_match(&mut buy, &mut sell, 20, 95, 0, 0).unwrap();
    assert_eq!(buy.fill_percentage(), 40);
}

#[test]
fn best_prices_and_trade_stats() {
    let mut book = OrderBook::new(0);
    book.update_best_prices(100, 110);
    assert_eq!(book.spread, 10);
    assert_eq!(book.mid_price, 105);
    book.update_trade_stats(95, 1_000, 5_000);
    book.update_trade_stats(105, 2_000, 6_000);
    book.update_trade_stats(90, 500, 7_000);
    assert_eq!(book.trade_count, 3);
    assert_eq!(book.volume_24h, 3_500);
    assert_eq!(book.last_trade_price, 90);
    assert_eq!(book.last_trade_at, 7_000);
    assert_eq!(book.high_24h, 105);
    assert_eq!(book.low_24h, 90);

    book.last_trade_price = 120;
    book.price_24h_ago = 100;
    assert_eq!(book.price_change_24h(), 2_000);
    book.last_trade_price = 95;
    assert_eq!(book.price_change_24h(), -500);
}
