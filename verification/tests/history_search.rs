//! Searching the history.
use recursive_tui::app::App;
use recursive_tui::completion::{search_history, MAX_HSEARCH_RESULTS};
use recursive_tui::input_state::InputMode;
use recursive_tui::keys::{KeyCode, KeyEvent, KeyModifiers};

fn k(code: KeyCode) -> KeyEvent {
    KeyEvent::new(code, KeyModifiers::none())
}

fn ctrl(code: KeyCode) -> KeyEvent {
    KeyEvent::new(code, KeyModifiers::control())
}

fn history_app(entries: &[&str]) -> App {
    let mut app = App::new();
    for e in entries {
        app.prompt.history.push(e.to_string());
    }
    app
}

#[test]
fn history_search_empty_query_returns_all_reversed() {
    let h = vec!["a".to_string(), "b".to_string(), "c".to_string()];
    let r = search_history(&h, "");
    assert_eq!(r, vec![2, 1, 0]);
}

#[test]
fn history_search_prefix_match_ranked_first() {
    let h = vec![
        "foo bar".to_string(),
        "zz foo".to_string(),
        "foobar".to_string(),
    ];
    let r = search_history(&h, "foo");
    assert!(r.iter().position(|&x| x == 2) < r.iter().position(|&x| x == 1));
    assert!(r.iter().position(|&x| x == 0) < r.iter().position(|&x| x == 1));
}

#[test]
fn history_search_case_insensitive() {
    let h = vec!["Hello World".to_string(), "goodbye".to_string()];
    let r = search_history(&h, "hello");
    assert!(r.contains(&0));
    assert!(!r.contains(&1));
}

#[test]
fn history_search_returns_at_most_12() {
    let h: Vec<String> = (0..20).map(|i| format!("entry {i}")).collect();
    let r = search_history(&h, "entry");
    assert!(r.len() <= MAX_HSEARCH_RESULTS);
}

#[test]
fn ctrl_r_in_prompt_mode_enters_history_search() {
    let mut app = history_app(&["hello", "world"]);
    assert_eq!(app.prompt.mode, InputMode::Prompt);
    app.handle_key(ctrl(KeyCode::Char('r')));
    assert_eq!(app.prompt.mode, InputMode::HistorySearch);
    assert_eq!(app.hsearch_matches.len(), 2);
}

#[test]
fn ctrl_r_in_bash_mode_no_op() {
    let mut app = history_app(&["hello"]);
    app.prompt.mode = InputMode::Bash;
    app.handle_key(ctrl(KeyCode::Char('r')));
    assert_eq!(app.prompt.mode, InputMode::Bash);
}

#[test]
fn history_search_enter_fills_buffer() {
    let mut app = history_app(&["cargo build", "cargo test"]);
    app.handle_key(ctrl(KeyCode::Char('r')));
    assert_eq!(app.prompt.mode, InputMode::HistorySearch);
    assert_eq!(app.hsearch_selected, 0);
    app.handle_history_search_key(k(KeyCode::Enter));
    assert_eq!(app.prompt.mode, InputMode::Prompt);
    assert_eq!(app.prompt.buffer, "cargo test");
}

#[test]
fn history_search_esc_cancels() {
    let mut app = history_app(&["hello"]);
    app.handle_key(ctrl(KeyCode::Char('r')));
    assert_eq!(app.prompt.mode, InputMode::HistorySearch);
    app.handle_history_search_key(k(KeyCode::Esc));
    assert_eq!(app.prompt.mode, InputMode::Prompt);
    assert!(app.prompt.buffer.is_empty());
}

#[test]
fn history_search_backspace_on_empty_exits_mode() {
    let mut app = history_app(&["hello"]);
    app.handle_key(ctrl(KeyCode::Char('r')));
    assert_eq!(app.prompt.mode, InputMode::HistorySearch);
    assert!(app.hsearch_query.is_empty());
    app.handle_history_search_key(k(KeyCode::Backspace));
    assert_eq!(app.prompt.mode, InputMode::Prompt);
}
