use nexus::risk::hedging::doomsday_state_machine::{hysteresis_step, DoomsdayState};
use nexus::risk::margin::auto_deleverager::action_delay_elapsed;
use nexus::risk::margin::cross_venue_aggregator::Venue;
use nexus::rl::actions::hybrid_action_space::{OrderType, TradeSide};
use nexus::rl::safety::lyapunov_function::SafetyStatus;

#[test]
fn doomsday_severity_and_crisis() {
    let levels = [
        DoomsdayState::Normal,
        DoomsdayState::Vigilant,
        DoomsdayState::Warning,
        DoomsdayState::Critical,
        DoomsdayState::Survival,
    ];
    for (i, level) in levels.iter().enumerate() {
        assert_eq!(level.severity() as usize, i);
        assert_eq!(level.is_crisis(), i >= 3);
    }
}

#[test]
fn venue_names() {
    assert_eq!(Venue::Binance.as_str(), "binance");
    assert_eq!(Venue::Bybit.as_str(), "bybit");
    assert_eq!(Venue::Deribit.as_str(), "deribit");
    assert_eq!(Venue::OKX.as_str(), "okx");
    assert_eq!(Venue::Coinbase.as_str(), "coinbase");
    assert_eq!(Venue::Kraken.as_str(), "kraken");
    assert_eq!(Venue::Custom(9).as_str(), "custom");
}

#[test]
fn order_type_codes() {
    for code in 0u8..5 {
        let t = OrderType::from_u8(code).unwrap();
        assert_eq!(t as u8, code);
    }
    assert_eq!(OrderType::from_u8(5), None);
    assert!(OrderType::Limit.requires_price());
    assert!(OrderType::PostOnly.requires_price());
    assert!(!OrderType::Market.requires_price());
    assert!(!OrderType::IOC.requires_price());
    assert!(!OrderType::FOK.requires_price());
}

#[test]
fn trade_side_codes() {
    assert_eq!(TradeSide::from_i32(0), Some(TradeSide::Buy));
    assert_eq!(TradeSide::from_i32(1), Some(TradeSide::Sell));
    assert_eq!(TradeSide::from_i32(2), Some(TradeSide::Hold));
    assert_eq!(TradeSide::from_i32(-1), None);
    assert_eq!(TradeSide::from_i32(3), None);
    assert!(TradeSide::Hold.is_neutral());
    assert!(!TradeSide::Buy.is_neutral());
}

#[test]
fn safety_status_interventions() {
    assert!(!SafetyStatus::Safe.needs_intervention());
    assert!(SafetyStatus::Warning.needs_intervention());
    assert!(SafetyStatus::Critical.needs_intervention());
    assert!(SafetyStatus::Critical.is_critical());
    assert!(!SafetyStatus::Warning.is_critical());
}

#[test]
fn doomsday_escalates_at_once_and_steps_down_only_when_allowed() {
    let (normal, warning, survival) = (DoomsdayState::Normal, DoomsdayState::Warning, DoomsdayState::Survival);
    // Escalation ignores the cooldown.
    assert_eq!(hysteresis_step(normal, survival, false, false), survival);
    // De-escalation needs both the cooldown and subsided risk.
    assert_eq!(hysteresis_step(survival, warning, false, true), survival);
    assert_eq!(hysteresis_step(survival, warning, true, false), survival);
    assert_eq!(hysteresis_step(survival, warning, true, true), warning);
    // Same level stays.
    assert_eq!(hysteresis_step(warning, warning, false, false), warning);
}

#[test]
fn deleveraging_actions_are_paced() {
    // No action recorded yet: always allowed.
    assert!(action_delay_elapsed(0, 5, 100));
    // 99.9 ms after an action at 1 ms: not yet; 100 ms after: allowed.
    assert!(!action_delay_elapsed(1_000_000, 100_900_000, 100));
    assert!(action_delay_elapsed(1_000_000, 101_000_000, 100));
}
