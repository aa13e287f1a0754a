//! Walking and searching the history.
use recursive_tui::app::App;
use recursive_tui::input_state::InputMode;
use recursive_tui::keys::{KeyCode, KeyEvent, KeyModifiers};

fn k(code: KeyCode) -> KeyEvent {
    KeyEvent::new(code, KeyModifiers::none())
}

fn kc(code: KeyCode, c: char) -> KeyEvent {
    let _ = c;
    KeyEvent::new(code, KeyModifiers::none())
}

fn app_with_history(entries: &[&str]) -> App {
    let mut app = App::new();
    app.prompt.history = entries.iter().map(|s| s.to_string()).collect();
    app
}

#[test]
fn should_walk_history_up_false_when_history_empty() {
    let app = app_with_history(&[]);
    assert!(!app.should_walk_history_up());
}

#[test]
fn should_walk_history_up_requires_empty_buffer_when_not_walking() {
    let mut app = app_with_history(&["abc", "def"]);
    app.prompt.buffer = "x".to_string();
    assert!(!app.should_walk_history_up());
    app.prompt.buffer.clear();
    assert!(app.should_walk_history_up());
}

#[test]
fn should_walk_history_up_true_when_already_walking() {
    let mut app = app_with_history(&["abc"]);
    app.prompt.history_idx = Some(0);
    app.prompt.buffer = "x".to_string();
    assert!(app.should_walk_history_up());
}

#[test]
fn should_walk_history_down_false_when_not_walking() {
    let app = app_with_history(&["abc", "def"]);
    assert!(!app.should_walk_history_down());
}

#[test]
fn should_walk_history_down_true_when_walking() {
    let mut app = app_with_history(&["abc"]);
    app.prompt.history_idx = Some(0);
    assert!(app.should_walk_history_down());
}

#[test]
fn hsearch_up_decrements_selected() {
    let mut app = app_with_history(&["abc", "def", "ghi"]);
    app.enter_history_search_mode();
    app.hsearch_selected = 2;
    let _ = app.handle_history_search_key(k(KeyCode::Up));
    assert_eq!(app.hsearch_selected, 1);
}

#[test]
fn hsearch_up_at_zero_does_not_underflow() {
    let mut app = app_with_history(&["abc", "def"]);
    app.enter_history_search_mode();
    app.hsearch_selected = 0;
    let _ = app.handle_history_search_key(k(KeyCode::Up));
    assert_eq!(app.hsearch_selected, 0);
}

#[test]
fn hsearch_up_guard_short_circuits_on_empty_matches() {
    let mut app = app_with_history(&["abc"]);
    app.hsearch_matches.clear();
    app.hsearch_selected = 2;
    let _ = app.handle_history_search_key(k(KeyCode::Up));
    assert_eq!(app.hsearch_selected, 2);
}

#[test]
fn hsearch_down_increments_selected() {
    let mut app = app_with_history(&["abc", "def", "ghi"]);
    app.enter_history_search_mode();
    app.hsearch_selected = 0;
    let _ = app.handle_history_search_key(k(KeyCode::Down));
    assert_eq!(app.hsearch_selected, 1);
}

#[test]
fn hsearch_down_clamps_at_last_and_guard_short_circuits() {
    let mut app = app_with_history(&["abc", "def", "ghi"]);
    app.enter_history_search_mode();
    app.hsearch_selected = 2;
    let _ = app.handle_history_search_key(k(KeyCode::Down));
    assert_eq!(app.hsearch_selected, 2);
}

#[test]
fn hsearch_char_appends_to_query_and_refreshes_matches() {
    let mut app = app_with_history(&["abc", "axy", "xyz"]);
    app.enter_history_search_mode();
    assert_eq!(app.hsearch_matches.len(), 3);
    let _ = app.handle_history_search_key(kc(KeyCode::Char('a'), 'a'));
    assert_eq!(app.hsearch_query, "a");
    assert_eq!(app.hsearch_matches, vec![1, 0]);
}

#[test]
fn hsearch_backspace_truncates_last_char() {
    let mut app = app_with_history(&["abc", "def"]);
    app.enter_history_search_mode();
    app.hsearch_query = "ab".to_string();
    let _ = app.handle_history_search_key(k(KeyCode::Backspace));
    assert_eq!(app.hsearch_query, "a");
}

#[test]
fn hsearch_backspace_on_empty_query_exits_mode() {
    let mut app = app_with_history(&["abc"]);
    app.enter_history_search_mode();
    assert_eq!(app.prompt.mode, InputMode::HistorySearch);
    let _ = app.handle_history_search_key(k(KeyCode::Backspace));
    assert_ne!(app.prompt.mode, InputMode::HistorySearch);
}

#[test]
fn hsearch_esc_exits_mode() {
    let mut app = app_with_history(&["abc"]);
    app.enter_history_search_mode();
    let _ = app.handle_history_search_key(k(KeyCode::Esc));
    assert_ne!(app.prompt.mode, InputMode::HistorySearch);
}

#[test]
fn hsearch_enter_commits_selected_entry_to_buffer() {
    let mut app = app_with_history(&["abc", "def"]);
    app.enter_history_search_mode();
    assert_eq!(app.hsearch_matches, vec![1, 0]);
    app.hsearch_selected = 0;
    let _ = app.handle_history_search_key(k(KeyCode::Enter));
    assert_eq!(app.prompt.buffer, "def");
    assert_ne!(app.prompt.mode, InputMode::HistorySearch);
}

#[test]
fn refresh_hsearch_matches_resets_selected_when_out_of_range() {
    let mut app = app_with_history(&["abc", "def", "ghi"]);
    app.enter_history_search_mode();
    app.hsearch_selected = 5;
    app.refresh_hsearch_matches();
    assert_eq!(app.hsearch_selected, 0);
}

#[test]
fn refresh_hsearch_matches_keeps_in_range_selected() {
    let mut app = app_with_history(&["abc", "axy", "xyz"]);
    app.hsearch_query = "a".to_string();
    app.hsearch_selected = 1;
    app.refresh_hsearch_matches();
    assert_eq!(app.hsearch_matches, vec![1, 0]);
    assert_eq!(app.hsearch_selected, 1);
}
