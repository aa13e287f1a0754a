//! File names behind an `@`.
use recursive_tui::app::App;
use recursive_tui::completion::{glob_workspace_files, FileNode, MAX_ATFILE_SUGGESTIONS};
use recursive_tui::input_state::InputMode;
use recursive_tui::keys::{KeyCode, KeyEvent, KeyModifiers};

fn k(code: KeyCode) -> KeyEvent {
    KeyEvent::new(code, KeyModifiers::none())
}

fn workspace() -> Vec<FileNode> {
    let mut nodes = vec![
        FileNode::File { name: "Cargo.toml".to_string(), modified: 0 },
        FileNode::File { name: "Cargo.lock".to_string(), modified: 0 },
    ];
    for i in 0..20 {
        nodes.push(FileNode::File { name: format!("notes{i}.md"), modified: 0 });
    }
    nodes
}

#[test]
fn atfile_mode_triggered_by_at_in_prompt_mode() {
    let mut app = App::new();
    assert_eq!(app.prompt.mode, InputMode::Prompt);
    app.handle_char_input('@');
    assert_eq!(app.prompt.mode, InputMode::AtFile);
    assert!(app.prompt.buffer.ends_with('@'));
}

#[test]
fn atfile_mode_not_triggered_in_bash_mode() {
    let mut app = App::new();
    app.prompt.mode = InputMode::Bash;
    app.handle_char_input('@');
    assert_eq!(app.prompt.mode, InputMode::Bash);
}

#[test]
fn atfile_mode_not_triggered_in_command_mode() {
    let mut app = App::new();
    app.prompt.mode = InputMode::Command;
    app.handle_char_input('@');
    assert_eq!(app.prompt.mode, InputMode::Command);
}

#[test]
fn glob_workspace_files_filters_by_query_prefix() {
    let results = glob_workspace_files(&workspace(), "Cargo");
    assert!(results.len() <= MAX_ATFILE_SUGGESTIONS);
    for r in &results {
        assert!(r.to_lowercase().contains("cargo"), "unexpected result: {r}");
    }
}

#[test]
fn glob_workspace_files_returns_at_most_12() {
    let results = glob_workspace_files(&workspace(), "");
    assert!(results.len() <= MAX_ATFILE_SUGGESTIONS);
}

#[test]
fn atfile_backspace_on_empty_query_exits_mode_and_deletes_at() {
    let mut app = App::new();
    app.handle_char_input('h');
    app.handle_char_input('i');
    app.handle_char_input('@');
    assert_eq!(app.prompt.mode, InputMode::AtFile);
    assert_eq!(app.prompt.buffer, "hi@");

    app.handle_atfile_key(k(KeyCode::Backspace));
    assert_eq!(app.prompt.mode, InputMode::Prompt);
    assert_eq!(app.prompt.buffer, "hi");
}

#[test]
fn atfile_enter_inserts_selected_path_and_exits() {
    let mut app = App::new();
    app.handle_char_input('@');
    assert_eq!(app.prompt.mode, InputMode::AtFile);

    app.atfile_suggestions = vec!["src/lib.rs".to_string(), "src/main.rs".to_string()];
    app.atfile_selected = Some(0);

    app.handle_atfile_key(k(KeyCode::Enter));
    assert_eq!(app.prompt.mode, InputMode::Prompt);
    assert!(
        app.prompt.buffer.ends_with("@src/lib.rs"),
        "buffer was: {}",
        app.prompt.buffer
    );
}

#[test]
fn atfile_esc_cancels_and_preserves_at_query() {
    let mut app = App::new();
    app.handle_char_input('t');
    app.handle_char_input('e');
    app.handle_char_input('s');
    app.handle_char_input('t');
    app.handle_char_input(' ');
    app.handle_char_input('@');
    app.handle_atfile_key(k(KeyCode::Char('s')));
    app.handle_atfile_key(k(KeyCode::Char('r')));
    app.handle_atfile_key(k(KeyCode::Char('c')));

    assert_eq!(app.prompt.mode, InputMode::AtFile);
    let buf_before = app.prompt.buffer.clone();

    app.handle_atfile_key(k(KeyCode::Esc));
    assert_eq!(app.prompt.mode, InputMode::Prompt);
    assert_eq!(app.prompt.buffer, buf_before);
    assert!(app.atfile_suggestions.is_empty());
}

#[test]
fn atfile_up_down_navigation() {
    let mut app = App::new();
    app.handle_char_input('@');
    app.atfile_suggestions = vec!["a.rs".to_string(), "b.rs".to_string(), "c.rs".to_string()];
    app.atfile_selected = None;

    app.handle_atfile_key(k(KeyCode::Down));
    assert_eq!(app.atfile_selected, Some(0));

    app.handle_atfile_key(k(KeyCode::Down));
    assert_eq!(app.atfile_selected, Some(1));

    app.handle_atfile_key(k(KeyCode::Up));
    assert_eq!(app.atfile_selected, Some(0));

    app.handle_atfile_key(k(KeyCode::Up));
    assert_eq!(app.atfile_selected, None);
}
