use nexus::risk::gatekeeper::position_accumulator::scale_conversion::{
    btc_to_satoshi, eth_to_wei, satoshi_to_btc, wei_to_eth,
};
use nexus::risk::gatekeeper::position_accumulator::{AtomicPositionAccumulator, PositionCheckResult};

#[test]
fn test_basic_position_tracking() {
    let mut accumulator = AtomicPositionAccumulator::new(10_000_000_000);

    assert_eq!(accumulator.get_position(42), 0);

    accumulator.update_position(42, 100_000_000);
    assert_eq!(accumulator.get_position(42), 100_000_000);

    accumulator.update_position(42, -50_000_000);
    assert_eq!(accumulator.get_position(42), 50_000_000);
}

#[test]
fn test_position_limit_check() {
    let mut accumulator = AtomicPositionAccumulator::new(1_000_000_000);

    let result = accumulator.check_position_would_exceed(42, 500_000_000);
    assert_eq!(result, Ok(()));

    let result = accumulator.check_position_would_exceed(42, 1_500_000_000);
    assert!(matches!(result, Err(PositionCheckResult::WouldExceed { .. })));
}

#[test]
fn test_short_position_limit() {
    let mut accumulator = AtomicPositionAccumulator::new(1_000_000_000);

    let result = accumulator.check_position_would_exceed(42, -500_000_000);
    assert_eq!(result, Ok(()));

    let result = accumulator.check_position_would_exceed(42, -1_500_000_000);
    assert!(matches!(result, Err(PositionCheckResult::WouldExceed { .. })));
}

#[test]
fn test_partial_fill_reconciliation() {
    let mut accumulator = AtomicPositionAccumulator::new(10_000_000_000);

    for _i in 0..1000 {
        accumulator.update_position(42, 1_000_000);
    }

    assert_eq!(accumulator.get_position(42), 1_000_000_000);

    for _i in 0..1000 {
        accumulator.update_position(42, -1_000_000);
    }

    assert_eq!(accumulator.get_position(42), 0);
}

#[test]
fn position_accumulator_test_overflow_protection() {
    let mut accumulator = AtomicPositionAccumulator::new(i64::MAX);

    accumulator.set_position(42, i64::MAX - 100);

    let result = accumulator.check_position_would_exceed(42, 200);
    assert!(matches!(result, Err(PositionCheckResult::WouldExceed { .. })));
}

#[test]
fn test_scale_conversions() {
    assert_eq!(btc_to_satoshi(1), 100_000_000);
    assert_eq!(satoshi_to_btc(100_000_000), 1);

    assert_eq!(eth_to_wei(1), 1_000_000_000_000_000_000);
    assert_eq!(wei_to_eth(1_000_000_000_000_000_000), 1);
}

#[test]
fn limit_violation_reports_fields() {
    let mut accumulator = AtomicPositionAccumulator::new(1_000);
    accumulator.set_position(3, 900);
    assert_eq!(
        accumulator.check_position_would_exceed(3, 200),
        Err(PositionCheckResult::WouldExceed { current: 900, requested_delta: 200, new_position: 1_100, max_allowed: 1_000 })
    );
    assert_eq!(accumulator.check_position_would_exceed(3, -1_900), Ok(()));
    assert_eq!(accumulator.violation_count(), 1);
    // Asking about a delta does not move the position.
    assert_eq!(accumulator.get_position(3), 900);
    assert_eq!(accumulator.max_position(), 1_000);
}

#[test]
fn overflowing_check_reports_current_position() {
    let mut accumulator = AtomicPositionAccumulator::new(i64::MAX);
    accumulator.set_position(1, i64::MAX - 100);
    assert_eq!(
        accumulator.check_position_would_exceed(1, 200),
        Err(PositionCheckResult::WouldExceed {
            current: i64::MAX - 100,
            requested_delta: 200,
            new_position: i64::MAX - 100,
            max_allowed: i64::MAX,
        })
    );
}

#[test]
fn updates_wrap_and_reset_clears() {
    let mut accumulator = AtomicPositionAccumulator::new(10);
    accumulator.set_position(5, i64::MAX);
    accumulator.update_position(5, 1);
    assert_eq!(accumulator.get_position(5), i64::MIN);
    assert_eq!(accumulator.update_count(), 1);
    accumulator.update_position(6, 4);
    accumulator.reset_all_positions();
    assert_eq!(accumulator.get_position(5), 0);
    assert_eq!(accumulator.get_position(6), 0);
    assert_eq!(accumulator.update_count(), 2);
}

#[test]
fn conversions_saturate_and_truncate() {
    assert_eq!(btc_to_satoshi(u64::MAX), u64::MAX);
    assert_eq!(satoshi_to_btc(199_999_999), 1);
    assert_eq!(eth_to_wei(u64::MAX), u64::MAX as u128 * 1_000_000_000_000_000_000);
    assert_eq!(wei_to_eth(1_999_999_999_999_999_999), 1);
}

#[test]
fn position_of_i64_min_exceeds_every_limit() {
    let mut accumulator = AtomicPositionAccumulator::new(i64::MAX);
    accumulator.set_position(9, -i64::MAX);
    assert_eq!(
        accumulator.check_position_would_exceed(9, -1),
        Err(PositionCheckResult::WouldExceed {
            current: -i64::MAX,
            requested_delta: -1,
            new_position: i64::MIN,
            max_allowed: i64::MAX,
        })
    );
    assert_eq!(accumulator.violation_count(), 1);
    assert_eq!(accumulator.get_position(9), -i64::MAX);
}
