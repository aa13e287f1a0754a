//! The command menu.
use recursive_tui::app::App;
use recursive_tui::command_menu::{command_menu_entries, MAX_VISIBLE};
use recursive_tui::keys::{KeyCode, KeyEvent, KeyModifiers};

fn k(code: KeyCode) -> KeyEvent {
    KeyEvent::new(code, KeyModifiers::none())
}

fn matches_count(app: &App) -> usize {
    let entries = command_menu_entries(&app.commands, &app.prompt.buffer);
    entries.len().min(MAX_VISIBLE)
}

#[test]
fn cmd_menu_down_at_last_stays() {
    let mut app = App::new();
    app.prompt.buffer = "/".to_string();
    let mc = matches_count(&app);
    assert!(mc >= 8, "need >=8 entries for boundary, got {mc}");
    let last = mc - 1;
    app.command_menu_selected = Some(last);
    assert_eq!(app.handle_command_menu_key(k(KeyCode::Down)), Some(None));
    assert_eq!(app.command_menu_selected, Some(last));
}

#[test]
fn cmd_menu_down_from_none_starts_at_zero() {
    let mut app = App::new();
    app.prompt.buffer = "/".to_string();
    app.command_menu_selected = None;
    assert_eq!(app.handle_command_menu_key(k(KeyCode::Down)), Some(None));
    assert_eq!(app.command_menu_selected, Some(0));
}

#[test]
fn cmd_menu_up_decrements_selected() {
    let mut app = App::new();
    app.prompt.buffer = "/".to_string();
    app.command_menu_selected = Some(1);
    assert_eq!(app.handle_command_menu_key(k(KeyCode::Up)), Some(None));
    assert_eq!(app.command_menu_selected, Some(0));
}
