//! Dialogs with a list.
use recursive_tui::app::App;
use recursive_tui::events::UserAction;
use recursive_tui::keys::{KeyCode, KeyEvent, KeyModifiers};
use recursive_tui::modal::{ConfirmAction, JournalEntry, McpEntry, Modal, ResumeEntry};
use recursive_tui::model::TranscriptBlock;

fn k(code: KeyCode) -> KeyEvent {
    KeyEvent::new(code, KeyModifiers::none())
}

fn app_with_resume(entries: usize, selected: usize) -> App {
    let mut app = App::new();
    let entries: Vec<ResumeEntry> = (0..entries)
        .map(|i| ResumeEntry {
            session_dir: format!("/tmp/s{i}"),
            slug: format!("s{i}"),
            updated_at: "2026-06-01 14:22".to_string(),
            turn_count: i,
        })
        .collect();
    app.modals.push(Modal::ResumePicker { entries, selected });
    app
}

fn app_with_mcp(entries: usize, selected: usize) -> App {
    let mut app = App::new();
    let entries: Vec<McpEntry> = (0..entries)
        .map(|i| McpEntry {
            name: format!("srv{i}"),
            transport: "stdio".to_string(),
            enabled: true,
        })
        .collect();
    app.modals.push(Modal::McpServers { entries, selected });
    app
}

fn resume_selected(app: &App) -> usize {
    match app.modals.last() {
        Some(Modal::ResumePicker { selected, .. }) => *selected,
        _ => panic!("no ResumePicker modal"),
    }
}

fn mcp_selected(app: &App) -> usize {
    match app.modals.last() {
        Some(Modal::McpServers { selected, .. }) => *selected,
        _ => panic!("no McpServers modal"),
    }
}

#[test]
fn resume_esc_pops_modal() {
    let mut app = app_with_resume(3, 1);
    assert_eq!(app.modals.len(), 1);
    let _ = app.handle_resume_picker_key(k(KeyCode::Esc));
    assert!(app.modals.is_empty());
}

#[test]
fn resume_q_pops_modal() {
    let mut app = app_with_resume(3, 1);
    let _ = app.handle_resume_picker_key(k(KeyCode::Char('q')));
    assert!(app.modals.is_empty());
}

#[test]
fn resume_up_decrements_selected() {
    let mut app = app_with_resume(3, 2);
    let _ = app.handle_resume_picker_key(k(KeyCode::Up));
    assert_eq!(resume_selected(&app), 1);
}

#[test]
fn resume_up_clamps_at_zero() {
    let mut app = app_with_resume(3, 0);
    let _ = app.handle_resume_picker_key(k(KeyCode::Up));
    assert_eq!(resume_selected(&app), 0);
}

#[test]
fn resume_down_increments_selected() {
    let mut app = app_with_resume(3, 0);
    let _ = app.handle_resume_picker_key(k(KeyCode::Down));
    assert_eq!(resume_selected(&app), 1);
}

#[test]
fn resume_down_clamps_at_last_and_guard_arithmetic() {
    let mut app = app_with_resume(3, 2);
    let _ = app.handle_resume_picker_key(k(KeyCode::Down));
    assert_eq!(resume_selected(&app), 2);
}

#[test]
fn resume_enter_returns_resume_session_action() {
    let mut app = app_with_resume(3, 1);
    let action = app.handle_resume_picker_key(k(KeyCode::Enter));
    match action {
        Some(UserAction::ResumeSession { session_dir }) => {
            assert_eq!(session_dir, "/tmp/s1");
        }
        other => panic!("expected ResumeSession, got {other:?}"),
    }
    assert!(app.modals.is_empty(), "Enter should pop the picker");
}

#[test]
fn resume_enter_on_empty_entries_pops_without_action() {
    let mut app = app_with_resume(0, 0);
    let action = app.handle_resume_picker_key(k(KeyCode::Enter));
    assert!(action.is_none());
    assert!(app.modals.is_empty());
}

#[test]
fn mcp_esc_pops_modal() {
    let mut app = app_with_mcp(3, 1);
    let _ = app.handle_mcp_servers_key(k(KeyCode::Esc));
    assert!(app.modals.is_empty());
}

#[test]
fn mcp_up_decrements_selected() {
    let mut app = app_with_mcp(3, 2);
    let _ = app.handle_mcp_servers_key(k(KeyCode::Up));
    assert_eq!(mcp_selected(&app), 1);
}

#[test]
fn mcp_up_clamps_at_zero() {
    let mut app = app_with_mcp(3, 0);
    let _ = app.handle_mcp_servers_key(k(KeyCode::Up));
    assert_eq!(mcp_selected(&app), 0);
}

#[test]
fn mcp_down_increments_selected() {
    let mut app = app_with_mcp(3, 0);
    let _ = app.handle_mcp_servers_key(k(KeyCode::Down));
    assert_eq!(mcp_selected(&app), 1);
}

#[test]
fn mcp_down_clamps_at_last_and_guard_plus() {
    let mut app = app_with_mcp(3, 2);
    let _ = app.handle_mcp_servers_key(k(KeyCode::Down));
    assert_eq!(mcp_selected(&app), 2);
}

#[test]
fn modal_scroll_follows_selection_upward() {
    let mut app = App::new();
    app.modal_scroll = 10;
    app.modal_scroll_follow_selection(2);
    assert_eq!(app.modal_scroll, 3);
}

#[test]
fn modal_scroll_follows_selection_downward_with_offset() {
    let mut app = App::new();
    app.modal_scroll = 5;
    app.modal_scroll_follow_selection(31);
    assert_eq!(app.modal_scroll, 6);
}

#[test]
fn modal_scroll_boundary_row_equals_scroll_stays() {
    let mut app = App::new();
    app.modal_scroll = 4;
    app.modal_scroll_follow_selection(2);
    assert_eq!(app.modal_scroll, 4);
}

#[test]
fn modal_scroll_unchanged_when_selection_in_view() {
    let mut app = App::new();
    app.modal_scroll = 0;
    app.modal_scroll_follow_selection(5);
    assert_eq!(app.modal_scroll, 0);
}

fn journal(entries: usize, selected: usize) -> Modal {
    Modal::Journal {
        entries: (0..entries)
            .map(|i| JournalEntry {
                name: format!("j{i}"),
                preview: String::new(),
            })
            .collect(),
        selected,
    }
}

#[test]
fn modal_enter_on_confirm_exit_quits_and_pops() {
    let mut app = App::new();
    app.modals.push(Modal::Confirm {
        prompt: "exit?".into(),
        on_yes: ConfirmAction::Exit,
    });
    assert!(app.handle_modal_key(k(KeyCode::Enter)));
    assert!(
        app.should_quit,
        "Enter on Confirm Exit should set should_quit"
    );
    assert!(app.modals.is_empty());
}

#[test]
fn modal_enter_on_confirm_clear_resets_transcript() {
    let mut app = App::new();
    app.modals.push(Modal::Confirm {
        prompt: "clear?".into(),
        on_yes: ConfirmAction::Clear,
    });
    app.blocks
        .push(TranscriptBlock::User { text: "x".into() });
    app.blocks
        .push(TranscriptBlock::User { text: "y".into() });
    assert_eq!(app.blocks.len(), 2);
    assert!(app.handle_modal_key(k(KeyCode::Enter)));
    assert_eq!(app.blocks.len(), 1);
    assert!(app.modals.is_empty());
}

#[test]
fn modal_enter_on_non_confirm_pops() {
    let mut app = App::new();
    app.modals.push(Modal::Help);
    assert!(app.handle_modal_key(k(KeyCode::Enter)));
    assert!(app.modals.is_empty());
}

#[test]
fn modal_pageup_step_10_on_text_modal() {
    let mut app = App::new();
    app.modals.push(Modal::Help);
    app.modal_scroll = 20;
    assert!(app.handle_modal_key(k(KeyCode::PageUp)));
    assert_eq!(app.modal_scroll, 10);
}

#[test]
fn modal_pagedown_step_10_on_text_modal() {
    let mut app = App::new();
    app.modals.push(Modal::Help);
    app.modal_scroll = 0;
    assert!(app.handle_modal_key(k(KeyCode::PageDown)));
    assert_eq!(app.modal_scroll, 10);
}

#[test]
fn modal_journal_up_decrements_selected() {
    let mut app = App::new();
    app.modals.push(journal(3, 2));
    assert!(app.handle_modal_key(k(KeyCode::Up)));
    match app.modals.last() {
        Some(Modal::Journal { selected, .. }) => assert_eq!(*selected, 1),
        _ => panic!("journal modal gone"),
    }
}

#[test]
fn modal_journal_up_at_zero_stays() {
    let mut app = App::new();
    app.modals.push(journal(3, 0));
    assert!(app.handle_modal_key(k(KeyCode::Up)));
    match app.modals.last() {
        Some(Modal::Journal { selected, .. }) => assert_eq!(*selected, 0),
        _ => panic!("journal modal gone"),
    }
}

#[test]
fn modal_journal_down_increments_selected() {
    let mut app = App::new();
    app.modals.push(journal(3, 0));
    assert!(app.handle_modal_key(k(KeyCode::Down)));
    match app.modals.last() {
        Some(Modal::Journal { selected, .. }) => assert_eq!(*selected, 1),
        _ => panic!("journal modal gone"),
    }
}

#[test]
fn modal_journal_down_at_last_stays() {
    let mut app = App::new();
    app.modals.push(journal(3, 2));
    assert!(app.handle_modal_key(k(KeyCode::Down)));
    match app.modals.last() {
        Some(Modal::Journal { selected, .. }) => assert_eq!(*selected, 2),
        _ => panic!("journal modal gone"),
    }
}
