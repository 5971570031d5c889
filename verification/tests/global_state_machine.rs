use nexus::risk::breakers::global_state_machine::{GlobalStateMachine, SystemState, TransitionResult};

#[test]
fn global_state_machine_test_initial_state() {
    let sm = GlobalStateMachine::new();
    assert_eq!(sm.get_state(), SystemState::Trading);
    assert!(sm.is_trading());
    assert!(!sm.is_halted());
    assert!(!sm.is_dead());
}

#[test]
fn test_valid_transitions() {
    let mut sm = GlobalStateMachine::new();

    let result = sm.halt(1000);
    assert!(matches!(result, TransitionResult::Success(SystemState::Halting)));
    assert_eq!(sm.get_state(), SystemState::Halting);

    let result = sm.flatten(2000);
    assert!(matches!(result, TransitionResult::Success(SystemState::Flattening)));

    let result = sm.transition(SystemState::Dead, 3000);
    assert!(matches!(result, TransitionResult::Success(SystemState::Dead)));
    assert!(sm.is_dead());
}

#[test]
fn global_state_machine_test_invalid_transition() {
    let mut sm = GlobalStateMachine::new();

    let result = sm.transition(SystemState::Flattening, 1000);
    assert!(matches!(result, TransitionResult::Rejected { .. }));

    assert_eq!(sm.get_state(), SystemState::Trading);
}

#[test]
fn test_emergency_stop() {
    let mut sm = GlobalStateMachine::new();
    sm.emergency_stop(1000);
    assert!(sm.is_dead());

    let mut sm2 = GlobalStateMachine::new();
    let _ = sm2.halt(1000);
    sm2.emergency_stop(2000);
    assert!(sm2.is_dead());
}

#[test]
fn test_any_to_dead_transition() {
    let mut sm = GlobalStateMachine::new();
    let result = sm.transition(SystemState::Dead, 1000);
    assert!(matches!(result, TransitionResult::Success(SystemState::Dead)));
}

#[test]
fn test_state_allows_methods() {
    assert!(SystemState::Trading.allows_new_orders());
    assert!(!SystemState::Halting.allows_new_orders());
    assert!(!SystemState::Dead.allows_new_orders());

    assert!(SystemState::Trading.allows_cancellations());
    assert!(SystemState::Halting.allows_cancellations());
    assert!(!SystemState::Dead.allows_cancellations());

    assert!(SystemState::Flattening.is_flattening());
    assert!(!SystemState::Trading.is_flattening());
}

#[test]
fn test_from_u8_roundtrip() {
    for i in 0u8..6 {
        if let Some(state) = SystemState::from_u8(i) {
            assert_eq!(SystemState::from_u8(state as u8), Some(state));
        }
    }
    assert_eq!(SystemState::from_u8(100), None);
    assert_eq!(SystemState::from_u8(255), None);
}

#[test]
fn test_stats() {
    let mut sm = GlobalStateMachine::new();

    let initial_stats = sm.stats();
    assert_eq!(initial_stats.current_state, SystemState::Trading);
    assert_eq!(initial_stats.transition_count, 0);
    assert_eq!(initial_stats.rejection_count, 0);

    let _ = sm.halt(1000);
    let _ = sm.resume(2000);

    let _ = sm.transition(SystemState::Flattening, 3000);

    let final_stats = sm.stats();
    assert_eq!(final_stats.transition_count, 2);
    assert!(final_stats.rejection_count >= 1);
}

#[test]
fn second_halt_is_rejected() {
    let mut sm = GlobalStateMachine::new();
    assert!(matches!(sm.halt(1), TransitionResult::Success(SystemState::Halting)));
    assert_eq!(
        sm.halt(2),
        TransitionResult::Rejected { current_state: SystemState::Halting, requested_state: SystemState::Halting }
    );
    assert_eq!(sm.get_state(), SystemState::Halting);
    assert_eq!(sm.stats().rejection_count, 1);
}

#[test]
fn dead_state_is_terminal() {
    let mut sm = GlobalStateMachine::new();
    sm.emergency_stop(5);
    assert!(matches!(sm.resume(6), TransitionResult::Rejected { .. }));
    assert!(matches!(sm.pause(7), TransitionResult::Rejected { .. }));
    assert!(sm.is_dead());
    assert!(matches!(sm.transition(SystemState::Dead, 8), TransitionResult::Success(SystemState::Dead)));
}

#[test]
fn pause_and_resume_and_counter_reset() {
    let mut sm = GlobalStateMachine::new();
    assert!(matches!(sm.pause(1), TransitionResult::Success(SystemState::Paused)));
    assert!(sm.is_halted());
    assert!(matches!(sm.resume(2), TransitionResult::Success(SystemState::Trading)));
    assert_eq!(sm.stats().transition_count, 2);
    sm.reset_counters();
    assert_eq!(sm.stats().transition_count, 0);
    assert_eq!(sm.get_state(), SystemState::Trading);
    assert_eq!(SystemState::Recovery.to_u8(), 5);
    assert!(SystemState::Dead.is_terminal());
}

#[test]
fn transition_counter_wraps() {
    let mut sm = GlobalStateMachine::new();
    for _ in 0..128 {
        let _ = sm.halt(0);
        let _ = sm.resume(0);
    }
    assert_eq!(sm.stats().transition_count, 0);
}

#[test]
fn default_machine_is_trading_with_zero_counters() {
    let sm = GlobalStateMachine::default();
    assert_eq!(sm.get_state(), SystemState::Trading);
    let stats = sm.stats();
    assert_eq!(stats.transition_count, 0);
    assert_eq!(stats.rejection_count, 0);
}
