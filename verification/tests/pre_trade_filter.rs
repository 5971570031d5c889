use nexus::risk::gatekeeper::pre_trade_filter::{GatekeeperConfig, PreTradeRiskGatekeeper, RiskOrder, RiskViolation};

fn create_test_order(is_buy: bool, is_limit: bool, price: u64, quantity: u64) -> RiskOrder {
    RiskOrder {
        order_id: 1,
        symbol_hash: 42,
        is_buy,
        is_limit,
        quantity,
        price,
        micro_price: 50_000_000_000,
        timestamp_ns: 1000,
        margin_required: quantity,
    }
}

#[test]
fn test_valid_limit_order() {
    let config = GatekeeperConfig::default();
    let mut gatekeeper = PreTradeRiskGatekeeper::new(config);

    let order = create_test_order(true, true, 50_000_000_000, 1_000_000);
    assert!(gatekeeper.validate(&order).is_ok());

    let stats = gatekeeper.stats();
    assert_eq!(stats.total_approved, 1);
    assert_eq!(stats.total_rejected, 0);
}

#[test]
fn test_market_order_rejection() {
    let config = GatekeeperConfig::default();
    let mut gatekeeper = PreTradeRiskGatekeeper::new(config);

    let order = create_test_order(true, false, 0, 1_000_000);
    assert!(matches!(gatekeeper.validate(&order), Err(RiskViolation::MarketOrderRejected)));
}

#[test]
fn test_kill_switch_blocks_all() {
    let config = GatekeeperConfig::default();
    let mut gatekeeper = PreTradeRiskGatekeeper::new(config);

    gatekeeper.activate_kill_switch();

    let order = create_test_order(true, true, 50_000_000_000, 1_000_000);
    assert!(matches!(gatekeeper.validate(&order), Err(RiskViolation::KillSwitchActive)));

    let stats = gatekeeper.stats();
    assert_eq!(stats.kill_switch_blocks, 1);
}

#[test]
fn test_position_tracking() {
    let config = GatekeeperConfig::default();
    let mut gatekeeper = PreTradeRiskGatekeeper::new(config);

    gatekeeper.record_fill(42, 1_000_000, true);
    assert_eq!(gatekeeper.get_position(42), 1_000_000);

    gatekeeper.record_fill(42, 500_000, false);
    assert_eq!(gatekeeper.get_position(42), 500_000);
}

#[test]
fn approvals_carry_consecutive_sequence_numbers() {
    let mut gatekeeper = PreTradeRiskGatekeeper::new(GatekeeperConfig::default());
    let order = create_test_order(true, true, 50_000_000_000, 1_000_000);
    let first = gatekeeper.validate(&order).unwrap();
    let second = gatekeeper.validate(&order).unwrap();
    assert_eq!(first.sequence(), 0);
    assert_eq!(second.sequence(), 1);
    assert_eq!(second.timestamp_ns(), 1000);
}

#[test]
fn each_check_refuses_with_its_reason() {
    let mut gatekeeper = PreTradeRiskGatekeeper::new(GatekeeperConfig::default());

    let zero = create_test_order(true, true, 50_000_000_000, 0);
    assert_eq!(gatekeeper.validate(&zero), Err(RiskViolation::InvalidParameters("zero_quantity")));

    let high = create_test_order(true, true, 52_000_000_000, 1_000);
    assert_eq!(
        gatekeeper.validate(&high),
        Err(RiskViolation::PriceCollarViolation { submitted_price: 52_000_000_000, min_allowed: 0, max_allowed: 51_000_000_000 })
    );

    let low = create_test_order(false, true, 48_000_000_000, 1_000);
    assert_eq!(
        gatekeeper.validate(&low),
        Err(RiskViolation::PriceCollarViolation {
            submitted_price: 48_000_000_000,
            min_allowed: 49_000_000_000,
            max_allowed: u64::MAX,
        })
    );

    let big = create_test_order(true, true, 50_000_000_000, 20_000_000_000);
    assert_eq!(
        gatekeeper.validate(&big),
        Err(RiskViolation::PositionLimitExceeded {
            current_position: 0,
            requested_delta: 20_000_000_000,
            max_position: 10_000_000_000,
        })
    );

    let mut margin = create_test_order(true, true, 50_000_000_000, 1_000);
    margin.margin_required = 2_000_000_000;
    assert_eq!(
        gatekeeper.validate(&margin),
        Err(RiskViolation::MarginLimitExceeded {
            current_margin_used: 0,
            requested_margin: 2_000_000_000,
            max_margin: 1_000_000_000,
        })
    );

    let stats = gatekeeper.stats();
    assert_eq!(stats.total_validated, 5);
    assert_eq!(stats.total_rejected, 5);
    assert_eq!(stats.price_violations, 2);
    assert_eq!(stats.position_violations, 1);
    assert_eq!(stats.margin_violations, 1);
    assert_eq!(stats.total_approved, 0);
}

#[test]
fn kill_switch_can_be_lifted() {
    let mut gatekeeper = PreTradeRiskGatekeeper::new(GatekeeperConfig::default());
    gatekeeper.activate_kill_switch();
    assert!(gatekeeper.is_kill_switch_active());
    gatekeeper.deactivate_kill_switch();
    assert!(!gatekeeper.is_kill_switch_active());
    gatekeeper.update_micro_price(42, 50_000_000_000, 10);
    gatekeeper.record_cancel(42, 10, true);
    let order = create_test_order(false, true, 50_000_000_000, 1_000);
    assert!(gatekeeper.validate(&order).is_ok());
    // Validation does not move the position.
    assert_eq!(gatekeeper.get_position(42), 0);
}

#[test]
fn sell_of_two_to_the_63_is_refused_at_the_position_limit() {
    let config = GatekeeperConfig { reject_market_orders: false, ..GatekeeperConfig::default() };
    let mut gatekeeper = PreTradeRiskGatekeeper::new(config);
    let order = create_test_order(false, false, 0, 1u64 << 63);
    assert_eq!(
        gatekeeper.validate(&order),
        Err(RiskViolation::PositionLimitExceeded {
            current_position: 0,
            requested_delta: i64::MIN,
            max_position: 10_000_000_000,
        })
    );
    assert_eq!(gatekeeper.get_position(42), 0);
    let stats = gatekeeper.stats();
    assert_eq!(stats.position_violations, 1);
    assert_eq!(stats.total_rejected, 1);
}

#[test]
fn earlier_checks_decide_before_the_position_arithmetic() {
    let mut gatekeeper = PreTradeRiskGatekeeper::new(GatekeeperConfig::default());
    gatekeeper.activate_kill_switch();
    let order = create_test_order(false, false, 0, 1u64 << 63);
    assert_eq!(gatekeeper.validate(&order), Err(RiskViolation::KillSwitchActive));
}

#[test]
fn validation_history_is_counted_once_each() {
    let mut gatekeeper = PreTradeRiskGatekeeper::new(GatekeeperConfig::default());
    let good = create_test_order(true, true, 50_000_000_000, 1_000_000);
    let market = create_test_order(true, false, 0, 1_000_000);
    let zero = create_test_order(true, true, 50_000_000_000, 0);
    let first = gatekeeper.validate(&good).unwrap();
    assert!(gatekeeper.validate(&market).is_err());
    assert!(gatekeeper.validate(&zero).is_err());
    let second = gatekeeper.validate(&good).unwrap();
    assert_eq!(first.sequence(), 0);
    assert_eq!(second.sequence(), 1);
    let s = gatekeeper.stats();
    assert_eq!(s.total_validated, 4);
    assert_eq!(s.total_approved + s.total_rejected, 4);
    assert_eq!(s.market_order_rejections, 1);
    assert_eq!(gatekeeper.get_position(42), 0);
}
