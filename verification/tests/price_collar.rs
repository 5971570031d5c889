use nexus::risk::gatekeeper::price_collar::price_bounds::{is_within_bounds, lower_bound, upper_bound};
use nexus::risk::gatekeeper::price_collar::{PriceCollarValidator, PriceValidationResult};

#[test]
fn price_collar_test_valid_buy_price() {
    let mut validator = PriceCollarValidator::new(200, 1_000_000_000);

    assert!(validator.validate(50_000_000_000, true, 50_000_000_000, 1000).is_ok());
    assert!(validator.validate(51_000_000_000, true, 50_000_000_000, 1000).is_ok());
    assert!(validator.validate(51_000_000_000, true, 50_000_000_000, 1000).is_ok());
}

#[test]
fn price_collar_test_invalid_buy_price() {
    let mut validator = PriceCollarValidator::new(200, 1_000_000_000);

    let result = validator.validate(51_500_000_000, true, 50_000_000_000, 1000);
    assert!(matches!(result, Err(PriceValidationResult::TooHigh { .. })));
}

#[test]
fn price_collar_test_valid_sell_price() {
    let mut validator = PriceCollarValidator::new(200, 1_000_000_000);

    assert!(validator.validate(50_000_000_000, false, 50_000_000_000, 1000).is_ok());
    assert!(validator.validate(49_000_000_000, false, 50_000_000_000, 1000).is_ok());
}

#[test]
fn price_collar_test_invalid_sell_price() {
    let mut validator = PriceCollarValidator::new(200, 1_000_000_000);

    let result = validator.validate(47_500_000_000, false, 50_000_000_000, 1000);
    assert!(matches!(result, Err(PriceValidationResult::TooLow { .. })));
}

#[test]
fn test_zero_micro_price() {
    let mut validator = PriceCollarValidator::new(200, 1_000_000_000);

    let result = validator.validate(50_000_000_000, true, 0, 1000);
    assert_eq!(result, Err(PriceValidationResult::StalePrice));
}

#[test]
fn price_collar_test_price_bounds_helpers() {
    let mid = 50_000_000_000;
    let collar = 200;

    assert_eq!(upper_bound(mid, collar), 51_000_000_000);
    assert_eq!(lower_bound(mid, collar), 49_000_000_000);

    assert!(is_within_bounds(50_500_000_000, mid, collar, true));
    assert!(!is_within_bounds(52_000_000_000, mid, collar, true));

    assert!(is_within_bounds(49_500_000_000, mid, collar, false));
    assert!(!is_within_bounds(48_000_000_000, mid, collar, false));
}

#[test]
fn price_collar_test_overflow_protection() {
    let mid = u64::MAX / 2;
    let collar = 500;

    let upper = upper_bound(mid, collar);
    assert!(upper > mid);
}

#[test]
fn violations_are_counted_and_reset() {
    let mut validator = PriceCollarValidator::new(200, 1_000_000_000);
    assert_eq!(
        validator.validate(51_500_000_000, true, 50_000_000_000, 1000),
        Err(PriceValidationResult::TooHigh { submitted: 51_500_000_000, max_allowed: 51_000_000_000 })
    );
    assert_eq!(
        validator.validate(47_500_000_000, false, 50_000_000_000, 1000),
        Err(PriceValidationResult::TooLow { submitted: 47_500_000_000, min_allowed: 49_000_000_000 })
    );
    let _ = validator.validate(1, true, 0, 0);
    assert_eq!(validator.violation_count(), 2);
    assert_eq!(validator.reset_violations(), 2);
    assert_eq!(validator.violation_count(), 0);
}

#[test]
fn micro_price_per_symbol_slot() {
    let mut validator = PriceCollarValidator::new(200, 100);
    assert!(validator.is_price_stale(7, 0));
    validator.update_price(7, 42_000, 1_000);
    assert_eq!(validator.get_micro_price(7), 42_000);
    // Hashes 1024 apart share a slot.
    assert_eq!(validator.get_micro_price(7 + 1024), 42_000);
    assert_eq!(validator.get_micro_price(8), 0);
    assert!(!validator.is_price_stale(7, 1_100));
    assert!(validator.is_price_stale(7, 1_101));
}
