//! File names at the edges of the list.
use recursive_tui::app::App;
use recursive_tui::completion::FileNode;
use recursive_tui::input_state::InputMode;
use recursive_tui::keys::{KeyCode, KeyEvent, KeyModifiers};

fn k(code: KeyCode) -> KeyEvent {
    KeyEvent::new(code, KeyModifiers::none())
}

#[test]
fn refresh_atfile_suggestions_clamps_out_of_range_to_last() {
    let mut app = App::new();
    app.atfile_query = "Cargo".into();
    app.around.files = vec![
        FileNode::File { name: "Cargo.toml".to_string(), modified: 0 },
        FileNode::File { name: "Cargo.lock".to_string(), modified: 0 },
    ];
    app.atfile_selected = Some(usize::MAX);
    app.refresh_atfile_suggestions();
    let n = app.atfile_suggestions.len();
    assert!(n > 0, "glob(\"Cargo\") should return files in this repo");
    assert_eq!(app.atfile_selected, Some(n - 1));
}

#[test]
fn atfile_down_at_last_stays() {
    let mut app = App::new();
    app.prompt.mode = InputMode::AtFile;
    app.atfile_suggestions = vec!["a".into(), "b".into(), "c".into()];
    app.atfile_selected = Some(2);
    let action = app.handle_atfile_key(k(KeyCode::Down));
    assert!(action.is_none());
    assert_eq!(app.atfile_selected, Some(2));
}

#[test]
fn atfile_backspace_removes_last_query_char() {
    let mut app = App::new();
    app.prompt.mode = InputMode::AtFile;
    app.atfile_query = "abc".into();
    app.prompt.buffer = "@abc".into();
    app.prompt.cursor = 4;
    let action = app.handle_atfile_key(k(KeyCode::Backspace));
    assert!(action.is_none());
    assert_eq!(app.atfile_query, "ab");
}

#[test]
fn atfile_char_appends_to_query() {
    let mut app = App::new();
    app.prompt.mode = InputMode::AtFile;
    app.atfile_query = String::new();
    app.prompt.buffer = "@".into();
    app.prompt.cursor = 1;
    let action = app.handle_atfile_key(k(KeyCode::Char('x')));
    assert!(action.is_none());
    assert_eq!(app.atfile_query, "x");
}
