//! Interactive panels.
use recursive_tui::app::App;
use recursive_tui::events::UserAction;
use recursive_tui::keys::{KeyCode, KeyEvent, KeyModifiers};
use recursive_tui::model::TranscriptBlock;
use recursive_tui::panel::CommandPanelState;
use recursive_tui::theme::all_themes;

fn k(code: KeyCode) -> KeyEvent {
    KeyEvent::new(code, KeyModifiers::none())
}

fn ctrl(code: KeyCode) -> KeyEvent {
    KeyEvent::new(code, KeyModifiers::control())
}

fn panel(
    name: &str,
    selected: Option<usize>,
    item_count: usize,
    context: Option<&str>,
) -> CommandPanelState {
    let mut p = CommandPanelState::new(name, vec![]);
    p.selected = selected;
    p.item_count = item_count;
    p.context = context.map(|s| s.to_string());
    p
}

#[test]
fn panel_esc_closes() {
    let mut app = App::new();
    app.active_command_panel = Some(panel("theme", None, 3, None));
    assert!(app.handle_command_panel_key(k(KeyCode::Esc)).is_none());
    assert!(app.active_command_panel.is_none());
}

#[test]
fn panel_up_decrements_selected() {
    let mut app = App::new();
    app.active_command_panel = Some(panel("theme", Some(1), 3, None));
    assert!(app.handle_command_panel_key(k(KeyCode::Up)).is_none());
    assert_eq!(app.active_command_panel.as_ref().unwrap().selected, Some(0));
}

#[test]
fn panel_up_scrolls_when_no_selection() {
    let mut app = App::new();
    let mut p = panel("help", None, 0, None);
    p.scroll = 5;
    app.active_command_panel = Some(p);
    assert!(app.handle_command_panel_key(k(KeyCode::Up)).is_none());
    assert_eq!(app.active_command_panel.as_ref().unwrap().scroll, 4);
}

#[test]
fn panel_down_increments_selected() {
    let mut app = App::new();
    app.active_command_panel = Some(panel("theme", Some(1), 3, None));
    assert!(app.handle_command_panel_key(k(KeyCode::Down)).is_none());
    assert_eq!(app.active_command_panel.as_ref().unwrap().selected, Some(2));
}

#[test]
fn panel_down_scrolls_when_no_selection() {
    let mut app = App::new();
    let mut p = panel("help", None, 0, None);
    p.scroll = 5;
    app.active_command_panel = Some(p);
    assert!(app.handle_command_panel_key(k(KeyCode::Down)).is_none());
    assert_eq!(app.active_command_panel.as_ref().unwrap().scroll, 6);
}

#[test]
fn panel_enter_resume_returns_resume_session() {
    let mut app = App::new();
    app.active_command_panel = Some(panel("resume", Some(0), 2, Some("/tmp/s0\n/tmp/s1")));
    let action = app.handle_command_panel_key(k(KeyCode::Enter));
    match action {
        Some(UserAction::ResumeSession { session_dir }) => {
            assert_eq!(session_dir, "/tmp/s0");
        }
        other => panic!("expected ResumeSession, got {other:?}"),
    }
    assert!(
        app.active_command_panel.is_none(),
        "Enter should close panel"
    );
}

#[test]
fn panel_enter_theme_switches_theme() {
    let mut app = App::new();
    let original = app.theme.name;
    app.active_command_panel = Some(panel("theme", Some(1), 3, None));
    assert!(app.handle_command_panel_key(k(KeyCode::Enter)).is_none());
    assert_eq!(app.theme.name, all_themes()[1].name);
    assert_ne!(app.theme.name, original);
    assert!(app.active_command_panel.is_none());
}

#[test]
fn rebuild_theme_updates_panel_lines() {
    let mut app = App::new();
    app.active_command_panel = Some(panel("theme", None, 3, None));
    assert!(app.active_command_panel.as_ref().unwrap().lines.is_empty());
    app.rebuild_panel_lines_for_selection("theme", 1, None);
    assert!(!app.active_command_panel.as_ref().unwrap().lines.is_empty());
}

#[test]
fn rebuild_journal_updates_panel_lines() {
    let mut app = App::new();
    app.active_command_panel = Some(panel("journal", None, 0, None));
    app.rebuild_panel_lines_for_selection("journal", 0, None);
    assert!(!app.active_command_panel.as_ref().unwrap().lines.is_empty());
}

#[test]
fn rebuild_resume_updates_panel_lines() {
    let mut app = App::new();
    app.active_command_panel = Some(panel("resume", None, 0, None));
    app.rebuild_panel_lines_for_selection("resume", 0, None);
    assert!(!app.active_command_panel.as_ref().unwrap().lines.is_empty());
}

#[test]
fn rebuild_model_updates_panel_lines() {
    let mut app = App::new();
    app.active_command_panel = Some(panel("model", None, 0, None));
    assert!(app.active_command_panel.as_ref().unwrap().lines.is_empty());
    app.rebuild_panel_lines_for_selection("model", 0, None);
    let lines = &app.active_command_panel.as_ref().unwrap().lines;
    assert!(!lines.is_empty(), "model picker should rebuild lines");
    let text: String = lines
        .iter()
        .flat_map(|l| l.spans.iter())
        .map(|s| s.content.clone())
        .collect();
    assert!(
        text.contains("Select model"),
        "rebuilt lines should have header: {text:?}"
    );
}

#[test]
fn panel_enter_model_emits_switch_model() {
    let mut app = App::new();
    let ctx = "alpha\x1fa-1\nbeta\x1fb-2";
    app.active_command_panel = Some(panel("model", Some(1), 2, Some(ctx)));
    let action = app.handle_command_panel_key(k(KeyCode::Enter));
    match action {
        Some(UserAction::SwitchModel { preset_id, model }) => {
            assert_eq!(preset_id, "beta");
            assert_eq!(model, "b-2");
        }
        other => panic!("expected SwitchModel, got {other:?}"),
    }
    assert!(
        app.active_command_panel.is_none(),
        "Enter should close panel"
    );
}

#[test]
fn panel_enter_model_malformed_context_pushes_error() {
    let mut app = App::new();
    app.active_command_panel = Some(panel("model", Some(0), 1, Some("garbage")));
    let action = app.handle_command_panel_key(k(KeyCode::Enter));
    assert!(
        action.is_none(),
        "malformed context must not emit an action"
    );
    assert!(app.active_command_panel.is_none(), "panel should close");
    let has_error = app
        .blocks
        .iter()
        .any(|b| matches!(b, TranscriptBlock::Error { text } if text.contains("switch model")));
    assert!(has_error, "expected an error block for malformed selection");
}

#[test]
fn panel_enter_model_synthetic_current_is_noop() {
    let mut app = App::new();
    let ctx = "\x1fz-ai/glm-5.2\nanthropic\x1fsome-model-4-5";
    app.active_command_panel = Some(panel("model", Some(0), 2, Some(ctx)));
    let action = app.handle_command_panel_key(k(KeyCode::Enter));
    assert!(
        action.is_none(),
        "synthetic current row must not emit SwitchModel"
    );
    assert!(app.active_command_panel.is_none(), "panel should close");
    let has_system = app
        .blocks
        .iter()
        .any(|b| matches!(b, TranscriptBlock::System { text } if text.contains("Already using")));
    assert!(has_system, "expected an 'Already using' system note");
}

#[test]
fn panel_ctrl_p_moves_cursor_up() {
    let mut app = App::new();
    app.active_command_panel = Some(panel("model", Some(2), 4, None));
    let _ = app.handle_command_panel_key(ctrl(KeyCode::Char('p')));
    assert_eq!(
        app.active_command_panel.as_ref().unwrap().selected,
        Some(1),
        "Ctrl+P should decrement the cursor"
    );
}

#[test]
fn panel_ctrl_n_moves_cursor_down() {
    let mut app = App::new();
    app.active_command_panel = Some(panel("model", Some(1), 4, None));
    let _ = app.handle_command_panel_key(ctrl(KeyCode::Char('n')));
    assert_eq!(
        app.active_command_panel.as_ref().unwrap().selected,
        Some(2),
        "Ctrl+N should increment the cursor"
    );
}

#[test]
fn panel_ctrl_n_clamps_at_last_item() {
    let mut app = App::new();
    app.active_command_panel = Some(panel("model", Some(3), 4, None));
    let _ = app.handle_command_panel_key(ctrl(KeyCode::Char('n')));
    assert_eq!(
        app.active_command_panel.as_ref().unwrap().selected,
        Some(3),
        "Ctrl+N should clamp at the last item"
    );
}

#[test]
fn panel_pageup_decrements_scroll() {
    let mut app = App::new();
    let mut p = panel("help", None, 0, None);
    p.scroll = 15;
    app.active_command_panel = Some(p);
    assert!(app.handle_command_panel_key(k(KeyCode::PageUp)).is_none());
    assert_eq!(app.active_command_panel.as_ref().unwrap().scroll, 5);
}

#[test]
fn panel_pagedown_increments_scroll() {
    let mut app = App::new();
    let mut p = panel("help", None, 0, None);
    p.scroll = 5;
    app.active_command_panel = Some(p);
    assert!(app.handle_command_panel_key(k(KeyCode::PageDown)).is_none());
    assert_eq!(app.active_command_panel.as_ref().unwrap().scroll, 15);
}
