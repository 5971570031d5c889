use nexus::risk::gatekeeper::fat_finger_collars::FatFingerResult;
use nexus::risk::gatekeeper::pre_trade_interceptor::{
    OrderType, OrderValidationRequest, PreTradeConfig, PreTradeRiskInterceptor, RiskValidationResult, Side,
};

fn create_test_order(id: u64, price: u64, quantity: u64) -> OrderValidationRequest {
    OrderValidationRequest {
        order_id: id,
        symbol: *b"BTC-PERP      \0\0",
        side: Side::Buy,
        order_type: OrderType::Limit,
        quantity,
        price,
        timestamp_ns: 1000,
        client_order_id: id,
    }
}

#[test]
fn test_basic_validation() {
    let config = PreTradeConfig::default();
    let mut interceptor = PreTradeRiskInterceptor::new(config);

    interceptor.update_mid_price(b"BTC-PERP", 50_000_000_000, 500);

    let order = create_test_order(1, 50_000_000_000, 1_000_000);
    assert_eq!(interceptor.validate_order(order), RiskValidationResult::Approved);

    let stats = interceptor.stats();
    assert_eq!(stats.approved_count, 1);
    assert_eq!(stats.rejected_count, 0);
}

#[test]
fn test_size_exceeded() {
    let mut config = PreTradeConfig::default();
    config.max_order_size = 1_000_000;
    let mut interceptor = PreTradeRiskInterceptor::new(config);

    let order = create_test_order(1, 50_000_000_000, 2_000_000);
    match interceptor.validate_order(order) {
        RiskValidationResult::SizeExceeded { submitted, max_allowed } => {
            assert_eq!(submitted, 2_000_000);
            assert_eq!(max_allowed, 1_000_000);
        }
        _ => panic!("Expected SizeExceeded"),
    }
}

#[test]
fn test_zero_quantity() {
    let mut interceptor = PreTradeRiskInterceptor::new(PreTradeConfig::default());

    let order = create_test_order(1, 50_000_000_000, 0);
    assert_eq!(interceptor.validate_order(order), RiskValidationResult::InvalidParameters("zero_quantity"));
}

#[test]
fn test_system_halt() {
    let mut interceptor = PreTradeRiskInterceptor::new(PreTradeConfig::default());
    interceptor.halt();

    let order = create_test_order(1, 50_000_000_000, 1_000_000);
    assert_eq!(interceptor.validate_order(order), RiskValidationResult::SystemHalted);

    interceptor.resume();
    assert!(!interceptor.is_halted());
}

#[test]
fn test_open_order_tracking() {
    let mut interceptor = PreTradeRiskInterceptor::new(PreTradeConfig::default());
    let symbol = b"BTC-PERP";

    assert_eq!(interceptor.stats().total_open_orders, 0);

    interceptor.increment_open_orders(symbol);
    interceptor.increment_open_orders(symbol);
    assert_eq!(interceptor.stats().total_open_orders, 2);

    interceptor.decrement_open_orders(symbol);
    assert_eq!(interceptor.stats().total_open_orders, 1);
}

#[test]
fn open_order_limit_uses_symbol_before_padding() {
    let mut config = PreTradeConfig::default();
    config.max_open_orders_per_symbol = 1;
    let mut interceptor = PreTradeRiskInterceptor::new(config);
    interceptor.update_mid_price(b"ETH", 3_000, 900);
    interceptor.increment_open_orders(b"ETH");
    let mut order = create_test_order(7, 3_000, 5);
    order.symbol = *b"ETH\0\0\0\0\0\0\0\0\0\0\0\0\0";
    assert_eq!(
        interceptor.validate_order(order),
        RiskValidationResult::OpenOrderLimitExceeded { current_count: 1, max_allowed: 1 }
    );
    assert_eq!(interceptor.stats().rejected_count, 1);
}

#[test]
fn approved_orders_are_queued_and_drained() {
    let mut interceptor = PreTradeRiskInterceptor::new(PreTradeConfig::default());
    interceptor.update_mid_price(b"BTC-PERP", 50_000_000_000, 500);
    for id in 0..3 {
        assert_eq!(interceptor.validate_order(create_test_order(id, 50_000_000_000, 10)), RiskValidationResult::Approved);
    }
    assert_eq!(interceptor.get_queue().len(), 3);
    assert_eq!(interceptor.get_queue().capacity(), 4096);
    assert_eq!(interceptor.stats().queue_length, 3);
    assert_eq!(interceptor.process_queued_orders(), 3);
    assert!(interceptor.get_queue().is_empty());
}

#[test]
fn fat_finger_violations_are_reported() {
    let mut interceptor = PreTradeRiskInterceptor::new(PreTradeConfig::default());
    // No mid-price yet: a market order is refused as stale.
    let mut market = create_test_order(1, 0, 10);
    market.order_type = OrderType::Market;
    assert_eq!(
        interceptor.validate_order(market),
        RiskValidationResult::FatFingerViolation(FatFingerResult::StaleMidPrice)
    );
    interceptor.update_mid_price(b"BTC-PERP", 100_000_000, 500);
    assert_eq!(
        interceptor.validate_order(create_test_order(2, 103_000_000, 10)),
        RiskValidationResult::FatFingerViolation(FatFingerResult::TooHigh {
            submitted_price: 103_000_000,
            max_allowed: 102_000_000,
            deviation_bps: 300,
        })
    );
    let stats = interceptor.stats();
    assert_eq!(stats.rejected_count, 2);
    assert_eq!(stats.fat_finger_rejections, 1);
    assert_eq!(stats.approved_count, 0);
}

#[test]
fn full_queue_refuses_the_order() {
    let config = PreTradeConfig { queue_capacity: 2, ..PreTradeConfig::default() };
    let mut interceptor = PreTradeRiskInterceptor::new(config);
    interceptor.update_mid_price(b"BTC-PERP", 50_000_000_000, 500);
    for id in 0..2 {
        assert_eq!(interceptor.validate_order(create_test_order(id, 50_000_000_000, 10)), RiskValidationResult::Approved);
    }
    assert_eq!(
        interceptor.validate_order(create_test_order(2, 50_000_000_000, 10)),
        RiskValidationResult::InvalidParameters("queue_full")
    );
    let stats = interceptor.stats();
    assert_eq!(stats.approved_count, 2);
    assert_eq!(stats.rejected_count, 1);
    assert_eq!(interceptor.get_queue().len(), 2);
    // Draining makes room again.
    assert_eq!(interceptor.process_queued_orders(), 2);
    assert_eq!(interceptor.validate_order(create_test_order(3, 50_000_000_000, 10)), RiskValidationResult::Approved);
}
