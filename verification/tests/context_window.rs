use codey::context_window::{
    DynamicContextWindowKey, DynamicContextWindowState, CONTEXT_WINDOW_STEPS,
};

#[test]
fn upgrades_through_supported_steps() {
    let mut state = DynamicContextWindowState::new();

    assert_eq!(state.current_context_window(), 32_000);
    assert_eq!(state.maybe_upgrade(32_000), None);
    assert_eq!(state.maybe_upgrade(32_001), Some(128_000));
    assert_eq!(state.current_context_window(), 128_000);
    assert_eq!(state.maybe_upgrade(128_001), Some(200_000));
    assert_eq!(state.current_context_window(), 200_000);
    assert_eq!(state.maybe_upgrade(200_001), None);
}

#[test]
fn compact_retry_is_limited_per_turn_and_step() {
    let mut state = DynamicContextWindowState::new();

    assert!(state.record_compact_retry("turn-1", 40_000));
    assert!(!state.record_compact_retry("turn-1", 40_000));

    assert_eq!(state.maybe_upgrade(40_000), Some(128_000));
    assert!(state.record_compact_retry("turn-1", 140_000));
    assert!(!state.record_compact_retry("turn-1", 140_000));

    assert!(state.record_compact_retry("turn-2", 140_000));
}

#[test]
fn fitting_input_needs_no_retry() {
    let mut state = DynamicContextWindowState::new();
    assert!(!state.record_compact_retry("turn-1", 32_000));
    assert!(state.record_compact_retry("turn-1", 32_001));
    assert!(!state.record_compact_retry("turn-1", 32_000));
}

#[test]
fn returning_to_an_earlier_turn_starts_over() {
    let mut state = DynamicContextWindowState::new();
    assert!(state.record_compact_retry("turn-1", 40_000));
    assert!(state.record_compact_retry("turn-2", 40_000));
    assert!(state.record_compact_retry("turn-1", 40_000));
}

#[test]
fn upgrade_moves_one_step_at_a_time() {
    let mut state = DynamicContextWindowState::new();
    assert_eq!(state.maybe_upgrade(i64::MAX), Some(128_000));
    assert_eq!(state.maybe_upgrade(i64::MAX), Some(200_000));
    assert_eq!(state.maybe_upgrade(i64::MAX), None);
    assert_eq!(state.current_context_window(), 200_000);
}

#[test]
fn negative_input_changes_nothing() {
    let mut state = DynamicContextWindowState::new();
    assert_eq!(state.maybe_upgrade(-1), None);
    assert!(!state.record_compact_retry("turn-1", i64::MIN));
    assert_eq!(state.current_context_window(), 32_000);
}

#[test]
fn supported_windows() {
    assert_eq!(CONTEXT_WINDOW_STEPS, [32_000, 128_000, 200_000]);
}

#[test]
fn key_holds_provider_and_model() {
    let key = DynamicContextWindowKey::new("openai".to_string(), "gpt-test".to_string());
    assert_eq!(key.model_provider_id, "openai");
    assert_eq!(key.model, "gpt-test");
    assert_eq!(key.clone(), key);
}
