use nexus::risk::breakers::pnl_derivative_tracker::PnLDerivativeTracker;
use nexus::risk::breakers::velocity_of_loss::{VelocityCheckResult, VelocityCircuitBreaker, VelocityConfig};

fn micro_usd(pnl_usd: f64) -> i64 {
    (pnl_usd * 1_000_000.0) as i64
}

#[test]
fn velocity_of_loss_test_normal_operation() {
    let config = VelocityConfig::default();
    let mut breaker = VelocityCircuitBreaker::new(config);

    for i in 0..20 {
        let pnl = (i as f64 - 10.0) * 100.0;
        let ts = i * 1_000_000;

        let result = breaker.update(micro_usd(pnl), ts);
        assert_eq!(result, VelocityCheckResult::Normal);
    }

    assert!(!breaker.is_tripped());
}

#[test]
fn velocity_of_loss_test_rapid_loss_detection() {
    let config = VelocityConfig::default();
    let mut breaker = VelocityCircuitBreaker::new(config);

    for i in 0..30 {
        let pnl = -(i as f64) * 1000.0;
        let ts = i * 1_000_000;

        breaker.update(micro_usd(pnl), ts);
    }

    assert!(breaker.is_tripped());

    let stats = breaker.stats();
    assert!(stats.critical_count > 0);
}

#[test]
fn velocity_of_loss_test_reset_after_trip() {
    let config = VelocityConfig::default();
    let mut breaker = VelocityCircuitBreaker::new(config);

    for i in 0..30 {
        let pnl = -(i as f64) * 1000.0;
        let ts = i * 1_000_000;
        breaker.update(micro_usd(pnl), ts);
    }

    assert!(breaker.is_tripped());

    breaker.reset();
    assert!(!breaker.is_tripped());
}

#[test]
fn velocity_warning_then_critical() {
    let mut breaker = VelocityCircuitBreaker::new(VelocityConfig::default());
    assert_eq!(breaker.update(0, 10_000_000), VelocityCheckResult::Normal);
    // -$0.2 over 1 ms: between the warning and critical thresholds.
    assert_eq!(
        breaker.update(-200_000, 11_000_000),
        VelocityCheckResult::Warning { velocity_usd_per_ms: -200_000, threshold_usd_per_ms: -100_000 }
    );
    // -$1 over the next 1 ms, measured from the oldest sample 2 ms back.
    assert_eq!(
        breaker.update(-1_200_000, 12_000_000),
        VelocityCheckResult::Critical { velocity_usd_per_ms: -600_000, threshold_usd_per_ms: -500_000 }
    );
    assert_eq!(breaker.stats().warning_count, 1);
    assert_eq!(breaker.stats().critical_count, 1);
    breaker.force_trip(99);
    let stats = breaker.stats();
    assert!(stats.is_tripped);
    assert_eq!(stats.current_pnl_micro_usd, -1_200_000);
    assert_eq!(breaker.get_current_pnl_micro_usd(), -1_200_000);
    assert_eq!(stats.time_window_ms, 50);
}

#[test]
fn velocity_exact_value_after_full_window() {
    let mut breaker = VelocityCircuitBreaker::new(VelocityConfig::default());
    // Fill the whole window so every slot holds a real sample.
    for i in 0..64u64 {
        breaker.update(-(i as i64) * 1_000, 1_000_000_000 + i * 1_000_000);
    }
    // The oldest sample within 50 ms of the newest is 50 ms older: 50 ms at
    // -1000 micro-USD per ms.
    assert_eq!(breaker.stats().current_velocity_micro_usd_per_ms, -1_000);
}

#[test]
fn test_derivative_calculation() {
    let mut tracker = PnLDerivativeTracker::new();

    for i in 0..10 {
        let pnl = -(i as f64) * 100.0;
        let ts = i * 1_000_000;
        tracker.update(micro_usd(pnl), ts);
    }

    let stats = tracker.get_stats();

    assert!(stats.first_derivative_micro_usd_per_ms < 0);
}

#[test]
fn test_acceleration_detection() {
    let mut tracker = PnLDerivativeTracker::new();

    for i in 0..5 {
        let pnl = -(i as f64) * 50.0;
        tracker.update(micro_usd(pnl), i * 1_000_000);
    }
    for i in 5..10 {
        let pnl = -250.0 - ((i - 5) as f64) * 200.0;
        tracker.update(micro_usd(pnl), i * 1_000_000);
    }

    let stats = tracker.get_stats();

    assert!(stats.second_derivative_micro_usd_per_ms2 < 0);
}

#[test]
fn derivative_exact_values() {
    let mut tracker = PnLDerivativeTracker::default();
    assert_eq!(tracker.get_stats().first_derivative_micro_usd_per_ms, 0);
    tracker.update(0, 0);
    tracker.update(-100, 1_000_000);
    tracker.update(-400, 2_000_000);
    let stats = tracker.get_stats();
    // Oldest to newest: -400 over 2 ms.
    assert_eq!(stats.first_derivative_micro_usd_per_ms, -200);
    // Middle is the newest sample itself (count / 2 = 1 back from head).
    assert_eq!(stats.second_derivative_micro_usd_per_ms2, 200);
    assert_eq!(tracker.get_pnl_micro_usd(), -400);
}

#[test]
fn try_update_refuses_overflowing_window() {
    let config = VelocityConfig {
        warning_threshold_usd_per_ms: -100,
        critical_threshold_usd_per_ms: -500,
        time_window_ms: u64::MAX,
    };
    let mut breaker = VelocityCircuitBreaker::new(config);
    // A single sample needs no window arithmetic.
    assert_eq!(breaker.try_update(5, 1_000_000), Some(VelocityCheckResult::Normal));
    // The second one would overflow the window length: nothing changes.
    assert_eq!(breaker.try_update(-5, 2_000_000), None);
    assert_eq!(breaker.get_current_pnl_micro_usd(), 5);
    assert_eq!(breaker.stats().current_velocity_micro_usd_per_ms, 0);
}

#[test]
fn try_update_matches_update() {
    let mut a = VelocityCircuitBreaker::new(VelocityConfig::default());
    let mut b = VelocityCircuitBreaker::new(VelocityConfig::default());
    for i in 0..10u64 {
        let pnl = -(i as i64) * 700_000;
        let ts = 5_000_000 + i * 1_000_000;
        assert_eq!(Some(a.update(pnl, ts)), b.try_update(pnl, ts));
    }
    assert_eq!(a.stats(), b.stats());
    assert!(a.is_tripped());
}

#[test]
fn sub_millisecond_segments_have_no_derivative() {
    let mut tracker = PnLDerivativeTracker::new();
    tracker.update(0, 0);
    tracker.update(-1, 500_000);
    assert!(tracker.try_get_stats().is_none());
    tracker.update(-2, 2_000_000);
    let stats = tracker.try_get_stats().unwrap();
    assert_eq!(stats.first_derivative_micro_usd_per_ms, -1);
}
