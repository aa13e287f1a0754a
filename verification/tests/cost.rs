//! Token counts and turns.
use recursive_tui::cost::{
    context_window_for_model, detect_model_name, saturating_u32, TurnState, UsageStats,
};

#[test]
fn turn_state_finish_clears_running_flag() {
    let mut t = TurnState::default();
    t.start();
    assert!(t.running);
    t.finish();
    assert!(!t.running, "finish should clear running");
    assert!(t.started_at.is_none(), "finish should clear started_at");
}

#[test]
fn record_with_cache_sets_last_prompt_tokens_to_cache_sum_for_anthropic() {
    let mut u = UsageStats::default();
    u.record_with_cache(150, 50, 900, 150);
    assert_eq!(u.last_prompt_tokens, 900 + 150);
}

#[test]
fn record_with_cache_falls_back_to_input_tokens_without_cache_report() {
    let mut u = UsageStats::default();
    u.record_with_cache(1234, 50, 0, 0);
    assert_eq!(u.last_prompt_tokens, 1234);
}

#[test]
fn totals_stop_at_the_top() {
    let mut u = UsageStats::default();
    u.record(u64::MAX, 1);
    u.record(5, 2);
    assert_eq!(u.total_input, u64::MAX);
    assert_eq!(u.total_output, 3);
    assert_eq!(u.input_tokens, 5);
    assert_eq!(saturating_u32(u64::MAX), u32::MAX);
    assert_eq!(saturating_u32(7), 7);
}

#[test]
fn finished_turn_keeps_its_cache_figures() {
    let mut u = UsageStats::default();
    u.snapshot_turn_cache_pct();
    assert_eq!(u.last_turn_cache, None);
    u.record_with_cache(10, 1, 30, 10);
    u.snapshot_turn_cache_pct();
    assert_eq!(u.last_turn_cache, Some((30, 40)));
    u.begin_turn();
    assert_eq!(u.turn_cache_hit, 0);
    assert_eq!(u.total_cache_hit, 30);
    assert_eq!(u.last_turn_cache, Some((30, 40)));
}

#[test]
fn configuration_decides_on_model_and_window() {
    assert_eq!(detect_model_name(Some("m".to_string())), "m");
    assert_eq!(detect_model_name(None), "gpt-4o-mini");
    assert_eq!(context_window_for_model(Some(64_000), 128_000), 64_000);
    assert_eq!(context_window_for_model(None, 128_000), 128_000);
}
