//! Keys with modifiers.
use recursive_tui::app::App;
use recursive_tui::input_state::InputMode;
use recursive_tui::keys::{KeyCode, KeyEvent, KeyModifiers};

fn k(code: KeyCode) -> KeyEvent {
    KeyEvent::new(code, KeyModifiers::none())
}

#[test]
fn ctrl_r_in_history_search_cycles_selected() {
    let mut app = App::new();
    app.prompt.mode = InputMode::HistorySearch;
    app.hsearch_matches = vec![0, 1, 2];
    app.hsearch_selected = 1;
    let action = app.handle_key(KeyEvent::new(KeyCode::Char('r'), KeyModifiers::control()));
    assert!(action.is_none());
    assert_eq!(app.hsearch_selected, 2);
}

#[test]
fn ctrl_r_in_history_search_empty_matches_no_panic() {
    let mut app = App::new();
    app.prompt.mode = InputMode::HistorySearch;
    app.hsearch_matches = vec![];
    app.hsearch_selected = 0;
    let action = app.handle_key(KeyEvent::new(KeyCode::Char('r'), KeyModifiers::control()));
    assert!(action.is_none());
    assert_eq!(app.hsearch_selected, 0);
}

#[test]
fn shift_enter_inserts_newline_no_submit() {
    let mut app = App::new();
    app.prompt.buffer = "x".to_string();
    app.prompt.cursor = 1;
    let action = app.handle_key(KeyEvent::new(KeyCode::Enter, KeyModifiers::shift()));
    assert!(action.is_none(), "Shift+Enter must not submit");
    assert_eq!(app.prompt.buffer, "x\n");
}

#[test]
fn plain_j_inserts_j_not_newline() {
    let mut app = App::new();
    app.prompt.buffer = "x".to_string();
    app.prompt.cursor = 1;
    let action = app.handle_key(KeyEvent::new(KeyCode::Char('j'), KeyModifiers::none()));
    assert!(action.is_none());
    assert_eq!(app.prompt.buffer, "xj");
}

#[test]
fn delete_key_deletes_forward() {
    let mut app = App::new();
    app.prompt.buffer = "ab".to_string();
    app.prompt.cursor = 0;
    let action = app.handle_key(k(KeyCode::Delete));
    assert!(action.is_none());
    assert_eq!(app.prompt.buffer, "b");
}

#[test]
fn ctrl_c_clears_non_empty_buffer_in_prompt_mode() {
    let mut app = App::new();
    app.prompt.buffer = "x".to_string();
    app.prompt.mode = InputMode::Prompt;
    let action = app.handle_ctrl_c();
    assert!(action.is_none());
    assert_eq!(app.prompt.buffer, "");
}

#[test]
fn esc_resets_non_prompt_mode_to_prompt() {
    let mut app = App::new();
    app.prompt.mode = InputMode::Command;
    app.prompt.buffer = String::new();
    let action = app.handle_esc();
    assert!(action.is_none());
    assert_eq!(app.prompt.mode, InputMode::Prompt);
}

#[test]
fn meta_enter_inserts_newline_no_submit() {
    let mut app = App::new();
    app.prompt.buffer = "x".to_string();
    app.prompt.cursor = 1;
    let action = app.handle_key(KeyEvent::new(KeyCode::Enter, KeyModifiers { meta: true, ..KeyModifiers::none() }));
    assert!(action.is_none(), "Meta+Enter must not submit");
    assert_eq!(app.prompt.buffer, "x\n");
}

#[test]
fn backspace_in_non_prompt_mode_with_buffer_deletes_char() {
    let mut app = App::new();
    app.prompt.mode = InputMode::Command;
    app.prompt.buffer = "x".to_string();
    app.prompt.cursor = 1;
    let action = app.handle_key(k(KeyCode::Backspace));
    assert!(action.is_none());
    assert_eq!(app.prompt.buffer, "");
}

#[test]
fn up_with_non_empty_buffer_does_not_walk_history() {
    let mut app = App::new();
    app.prompt.history = vec!["abc".into(), "def".into()];
    app.prompt.buffer = "x".to_string();
    app.prompt.cursor = 1;
    app.prompt.history_idx = None;
    let action = app.handle_key(k(KeyCode::Up));
    assert!(action.is_none());
    assert_eq!(app.prompt.buffer, "x");
    assert!(app.prompt.history_idx.is_none());
}
