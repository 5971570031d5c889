use nexus::risk::kill_switch::flatten_fsm::{FlattenConfig, FlattenFSM, FlattenState, TransitionResult};
use nexus::risk::kill_switch::global_atomic_halt::{GlobalKillSwitch, KillSwitchCheck};
use nexus::risk::kill_switch::twap_liquidation_router::{TWAPConfig, TWAPLiquidationRouter};

#[test]
fn test_normal_state() {
    let fsm = FlattenFSM::new(FlattenConfig::default());
    assert_eq!(fsm.get_state(), FlattenState::Trading);
    assert!(!fsm.is_liquidating());
}

#[test]
fn test_flatten_sequence() {
    let mut fsm = FlattenFSM::new(FlattenConfig::default());

    let result = fsm.initiate_flatten(100_000_000);
    assert!(matches!(result, TransitionResult::Success(FlattenState::CancellingOrders)));

    fsm.record_cancel();
    fsm.record_cancel();

    let result = fsm.begin_twap_liquidation();
    assert!(matches!(result, TransitionResult::Success(FlattenState::TWAPLiquidation)));

    fsm.record_liquidation_fill(50_000_000);
    assert_eq!(fsm.stats().positions_remaining, 50_000_000);

    fsm.record_liquidation_fill(50_000_000);

    let result = fsm.check_liquidation_complete();
    assert!(matches!(result, TransitionResult::Success(FlattenState::FlatAndHalted)));
}

#[test]
fn flatten_fsm_test_invalid_transition() {
    let mut fsm = FlattenFSM::new(FlattenConfig::default());

    let result = fsm.begin_twap_liquidation();
    assert!(matches!(result, TransitionResult::Rejected { .. }));
}

#[test]
fn flatten_short_position_and_overfill() {
    let mut fsm = FlattenFSM::new(FlattenConfig::default());
    assert!(matches!(fsm.initiate_flatten(-300), TransitionResult::Success(FlattenState::CancellingOrders)));
    assert!(fsm.is_liquidating());
    assert_eq!(
        fsm.initiate_flatten(5),
        TransitionResult::Rejected { current: FlattenState::CancellingOrders, requested: FlattenState::CancellingOrders }
    );
    let _ = fsm.begin_twap_liquidation();
    // A fill larger than what remains leaves the remainder unchanged.
    fsm.record_liquidation_fill(400);
    assert_eq!(fsm.stats().positions_remaining, 300);
    assert_eq!(
        fsm.check_liquidation_complete(),
        TransitionResult::Rejected { current: FlattenState::TWAPLiquidation, requested: FlattenState::FlatAndHalted }
    );
    fsm.record_liquidation_fill(300);
    assert_eq!(fsm.check_liquidation_complete(), TransitionResult::Success(FlattenState::FlatAndHalted));
    assert!(!fsm.is_liquidating());
    let stats = fsm.stats();
    assert_eq!(stats.total_liquidated, 700);
    assert_eq!(stats.liquidation_trips, 1);
    fsm.reset();
    assert_eq!(fsm.get_state(), FlattenState::Trading);
    assert_eq!(fsm.max_slippage_bps(), 500);
    assert_eq!(fsm.twap_interval_ms(), 1000);
}

#[test]
fn flatten_of_most_negative_position() {
    let mut fsm = FlattenFSM::new(FlattenConfig::default());
    let _ = fsm.initiate_flatten(i64::MIN);
    // 2^63 does not fit an i64 and wraps in the statistics.
    assert_eq!(fsm.stats().positions_remaining, i64::MIN);
}

#[test]
fn global_atomic_halt_test_initial_state() {
    let ks = GlobalKillSwitch::new();
    assert_eq!(ks.check(), KillSwitchCheck::Clear);
    assert!(!ks.is_halted());
    assert_eq!(ks.trip_count(), 0);
}

#[test]
fn test_trip_and_reset() {
    let mut ks = GlobalKillSwitch::new();

    ks.trip(1000);
    assert_eq!(ks.check(), KillSwitchCheck::Halted);
    assert!(ks.is_halted());
    assert_eq!(ks.trip_count(), 1);

    ks.reset();
    assert_eq!(ks.check(), KillSwitchCheck::Clear);
    assert!(!ks.is_halted());
}

#[test]
fn kill_switch_history_and_auto_trip() {
    let mut ks = GlobalKillSwitch::default();
    assert!(!ks.has_been_tripped());
    assert!(ks.is_auto_trip_enabled());
    ks.set_auto_trip(false);
    assert!(!ks.is_auto_trip_enabled());
    ks.trip(10);
    ks.trip(20);
    ks.reset();
    assert!(ks.has_been_tripped());
    assert_eq!(ks.trip_count(), 2);
    assert_eq!(ks.last_trip_timestamp_ns(), 20);
}

#[test]
fn test_twap_slice_calculation() {
    let config = TWAPConfig::default();
    let mut router = TWAPLiquidationRouter::new(config);

    router.initialize(100_000_000, true, 50_000_000_000);

    let slice = router.next_slice(50_000_000_000).unwrap();

    assert!(slice.quantity >= 9_000_000 && slice.quantity <= 11_000_000);

    assert!(!slice.is_buy);

    let min_limit = 50_000_000_000 * 95 / 100;
    assert!(slice.limit_price >= min_limit);
    assert!(slice.limit_price <= 50_000_000_000);
}

#[test]
fn test_short_liquidation() {
    let config = TWAPConfig::default();
    let mut router = TWAPLiquidationRouter::new(config);

    router.initialize(50_000_000, false, 40_000_000_000);

    let slice = router.next_slice(40_000_000_000).unwrap();

    assert!(slice.is_buy);

    let max_limit = 40_000_000_000 * 105 / 100;
    assert!(slice.limit_price <= max_limit);
    assert!(slice.limit_price >= 40_000_000_000);
}

#[test]
fn test_liquidation_completion() {
    let config = TWAPConfig::default();
    let mut router = TWAPLiquidationRouter::new(config);

    router.initialize(100_000_000, true, 50_000_000_000);

    assert!(!router.is_complete());

    while let Some(slice) = router.next_slice(50_000_000_000) {
        router.mark_slice_executed(slice.quantity);
    }

    assert!(router.is_complete());
    assert_eq!(router.remaining_position(), 0);
}

#[test]
fn test_zero_slippage_config() {
    let mut config = TWAPConfig::default();
    config.max_slippage_bps = 0;
    let mut router = TWAPLiquidationRouter::new(config);

    router.initialize(100_000_000, true, 50_000_000_000);

    let slice = router.next_slice(50_000_000_000).unwrap();

    assert_eq!(slice.limit_price, 50_000_000_000);
}

#[test]
fn twap_exact_slices_and_minimum_size() {
    let mut router = TWAPLiquidationRouter::new(TWAPConfig::default());
    router.initialize(100_000_000, true, 50_000_000_000);
    let slice = router.next_slice(0).unwrap();
    assert_eq!(slice.quantity, 10_000_000);
    assert_eq!(slice.limit_price, 47_500_000_000);
    let mut count = 0;
    while let Some(s) = router.next_slice(0) {
        router.mark_slice_executed(s.quantity);
        count += 1;
    }
    assert_eq!(count, 10);
    let stats = router.stats();
    assert_eq!(stats.slices_executed, 10);
    assert_eq!(stats.total_liquidated, 100_000_000);
    assert!(stats.is_complete);
    assert_eq!(router.current_slice(), 10);

    // Small positions go out at the minimum order size.
    router.reset();
    router.initialize(25_000, false, 1_000);
    router.update_reference_price(2_000);
    let s = router.next_slice(0).unwrap();
    assert_eq!(s.quantity, 10_000);
    assert_eq!(s.limit_price, 2_100);
    assert!(s.is_buy);
}
