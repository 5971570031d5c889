use nexus::risk::gatekeeper::fat_finger_collars::price_bounds::{is_within_bounds, lower_bound, upper_bound};
use nexus::risk::gatekeeper::fat_finger_collars::{FatFingerResult, FatFingerValidator, PriceBps};

#[test]
fn fat_finger_collars_test_valid_buy_price() {
    let mut validator = FatFingerValidator::new(200, 1_000_000_000);
    validator.update_mid_price(100_000_000, 1000);

    assert_eq!(validator.validate_limit_price(100_000_000, true, 2000), FatFingerResult::Valid);
    assert_eq!(validator.validate_limit_price(101_000_000, true, 2000), FatFingerResult::Valid);
    assert_eq!(validator.validate_limit_price(102_000_000, true, 2000), FatFingerResult::Valid);
}

#[test]
fn fat_finger_collars_test_invalid_buy_price() {
    let mut validator = FatFingerValidator::new(200, 1_000_000_000);
    validator.update_mid_price(100_000_000, 1000);

    match validator.validate_limit_price(103_000_000, true, 2000) {
        FatFingerResult::TooHigh { submitted_price, max_allowed, deviation_bps } => {
            assert_eq!(submitted_price, 103_000_000);
            assert_eq!(max_allowed, 102_000_000);
            assert!(deviation_bps >= 294);
        }
        _ => panic!("Expected TooHigh result"),
    }
}

#[test]
fn fat_finger_collars_test_valid_sell_price() {
    let mut validator = FatFingerValidator::new(200, 1_000_000_000);
    validator.update_mid_price(100_000_000, 1000);

    assert_eq!(validator.validate_limit_price(100_000_000, false, 2000), FatFingerResult::Valid);
    assert_eq!(validator.validate_limit_price(99_000_000, false, 2000), FatFingerResult::Valid);
}

#[test]
fn fat_finger_collars_test_invalid_sell_price() {
    let mut validator = FatFingerValidator::new(200, 1_000_000_000);
    validator.update_mid_price(100_000_000, 1000);

    match validator.validate_limit_price(95_000_000, false, 2000) {
        FatFingerResult::TooLow { .. } => {}
        _ => panic!("Expected TooLow result"),
    }
}

#[test]
fn test_stale_mid_price() {
    let mut validator = FatFingerValidator::new(200, 100_000_000);
    validator.update_mid_price(100_000_000, 1000);

    assert_eq!(validator.validate_limit_price(100_000_000, true, 200_000_000), FatFingerResult::StaleMidPrice);
}

#[test]
fn test_zero_mid_price() {
    let mut validator = FatFingerValidator::new(200, 1_000_000_000);

    assert_eq!(validator.validate_limit_price(100_000_000, true, 2000), FatFingerResult::StaleMidPrice);
}

#[test]
fn fat_finger_collars_test_price_bounds_helpers() {
    let mid = 100_000_000;
    let collar = 200;

    assert_eq!(upper_bound(mid, collar), 102_000_000);
    assert_eq!(lower_bound(mid, collar), 98_000_000);

    assert!(is_within_bounds(101_000_000, mid, collar, true));
    assert!(!is_within_bounds(103_000_000, mid, collar, true));

    assert!(is_within_bounds(99_000_000, mid, collar, false));
    assert!(!is_within_bounds(97_000_000, mid, collar, false));
}

#[test]
fn fat_finger_collars_test_overflow_protection() {
    let mid = u64::MAX / 2;
    let collar = 500;

    let upper = upper_bound(mid, collar);
    assert!(upper > mid);

    let mid = 1;
    let collar = 1;

    let lower = lower_bound(mid, collar);
    assert!(lower <= mid);
}

#[test]
fn exact_deviation_and_rejection_count() {
    let mut validator = FatFingerValidator::new(200, 1_000_000_000);
    validator.update_mid_price(100_000_000, 1000);
    assert_eq!(
        validator.validate_limit_price(103_000_000, true, 2000),
        FatFingerResult::TooHigh { submitted_price: 103_000_000, max_allowed: 102_000_000, deviation_bps: 300 }
    );
    assert_eq!(
        validator.validate_limit_price(95_000_000, false, 2000),
        FatFingerResult::TooLow { submitted_price: 95_000_000, min_allowed: 98_000_000, deviation_bps: 500 }
    );
    assert_eq!(validator.rejection_count(), 2);
    // A stale verdict is not a collar violation.
    let _ = validator.validate_limit_price(1, true, 5_000_000_000);
    assert_eq!(validator.reset_rejection_count(), 2);
    assert_eq!(validator.rejection_count(), 0);
    assert_eq!(validator.get_mid_price(), 100_000_000);
}

#[test]
fn deviation_is_capped() {
    let mut validator = FatFingerValidator::new(0, u64::MAX);
    validator.update_mid_price(1, 0);
    match validator.validate_limit_price(1_000_000, true, 0) {
        FatFingerResult::TooHigh { deviation_bps, .. } => assert_eq!(deviation_bps, u16::MAX),
        _ => panic!("expected TooHigh"),
    }
}

#[test]
fn market_order_needs_fresh_mid() {
    let mut validator = FatFingerValidator::new(200, 100);
    assert!(!validator.validate_market_order(0));
    validator.update_mid_price(50, 1000);
    assert!(validator.validate_market_order(1100));
    assert!(!validator.validate_market_order(1101));
}

#[test]
fn price_bps_roundtrip() {
    assert_eq!(PriceBps::from_bps(250).as_bps(), 250);
}

#[test]
fn zero_lower_bound_admits_any_sell() {
    // With a 100% collar the lower bound is zero: every sell price passes.
    assert_eq!(lower_bound(1000, 10000), 0);
    assert!(is_within_bounds(0, 1000, 10000, false));
    let mut validator = FatFingerValidator::new(10000, 10);
    validator.update_mid_price(1000, 0);
    assert_eq!(validator.validate_limit_price(1, false, 0), FatFingerResult::Valid);
}
