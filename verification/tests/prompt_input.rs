//! Typing at the prompt.
use recursive_tui::app::App;
use recursive_tui::events::{UiEvent, UserAction};
use recursive_tui::input_state::{strip_history_prefix, HISTORY_CAPACITY, InputMode};
use recursive_tui::keys::{KeyCode, KeyEvent, KeyModifiers};
use recursive_tui::model::{AppScreen, ToolResultData, TranscriptBlock};

fn k(code: KeyCode) -> KeyEvent {
    KeyEvent::new(code, KeyModifiers::none())
}

fn shift(code: KeyCode) -> KeyEvent {
    KeyEvent::new(code, KeyModifiers::shift())
}

fn alt(code: KeyCode) -> KeyEvent {
    KeyEvent::new(code, KeyModifiers { alt: true, ..KeyModifiers::none() })
}

fn ctrl(c: char) -> KeyEvent {
    KeyEvent::new(KeyCode::Char(c), KeyModifiers::control())
}

fn fresh_app() -> App {
    let mut app = App::new();
    app.screen = AppScreen::Chat;
    app
}

#[test]
fn shift_tab_cycles_modes() {
    let mut app = fresh_app();
    assert_eq!(app.prompt.mode, InputMode::Prompt);
    let _ = app.handle_key(k(KeyCode::BackTab));
    assert_eq!(app.prompt.mode, InputMode::Bash);
    let _ = app.handle_key(k(KeyCode::BackTab));
    assert_eq!(app.prompt.mode, InputMode::Note);
    let _ = app.handle_key(k(KeyCode::BackTab));
    assert_eq!(app.prompt.mode, InputMode::Prompt);
}

#[test]
fn leading_bang_enters_bash_mode_when_buffer_empty() {
    let mut app = fresh_app();
    let _ = app.handle_key(k(KeyCode::Char('!')));
    assert_eq!(app.prompt.mode, InputMode::Bash);
    assert!(app.prompt.buffer.is_empty());
}

#[test]
fn leading_hash_enters_note_mode() {
    let mut app = fresh_app();
    let _ = app.handle_key(k(KeyCode::Char('#')));
    assert_eq!(app.prompt.mode, InputMode::Note);
    assert!(app.prompt.buffer.is_empty());
}

#[test]
fn leading_slash_enters_command_mode() {
    let mut app = fresh_app();
    let _ = app.handle_key(k(KeyCode::Char('/')));
    assert_eq!(app.prompt.mode, InputMode::Command);
    assert!(app.prompt.buffer.is_empty());
}

#[test]
fn leading_bang_after_existing_text_is_just_a_char() {
    let mut app = fresh_app();
    let _ = app.handle_key(k(KeyCode::Char('h')));
    let _ = app.handle_key(k(KeyCode::Char('!')));
    assert_eq!(app.prompt.mode, InputMode::Prompt);
    assert_eq!(app.prompt.buffer, "h!");
}

#[test]
fn backspace_on_empty_exits_to_prompt_mode() {
    let mut app = fresh_app();
    let _ = app.handle_key(k(KeyCode::Char('!')));
    assert_eq!(app.prompt.mode, InputMode::Bash);
    let _ = app.handle_key(k(KeyCode::Backspace));
    assert_eq!(app.prompt.mode, InputMode::Prompt);
}

#[test]
fn cursor_left_right_moves_within_buffer() {
    let mut app = fresh_app();
    for c in "abc".chars() {
        let _ = app.handle_key(k(KeyCode::Char(c)));
    }
    assert_eq!(app.prompt.cursor, 3);
    let _ = app.handle_key(k(KeyCode::Left));
    assert_eq!(app.prompt.cursor, 2);
    let _ = app.handle_key(k(KeyCode::Left));
    assert_eq!(app.prompt.cursor, 1);
    let _ = app.handle_key(k(KeyCode::Right));
    assert_eq!(app.prompt.cursor, 2);
}

#[test]
fn cursor_handles_multibyte_chars() {
    let mut app = fresh_app();
    for c in "你好".chars() {
        let _ = app.handle_key(k(KeyCode::Char(c)));
    }
    assert_eq!(app.prompt.cursor, 6);
    let _ = app.handle_key(k(KeyCode::Left));
    assert_eq!(app.prompt.cursor, 3);
    let _ = app.handle_key(k(KeyCode::Backspace));
    assert_eq!(app.prompt.buffer, "好");
}

#[test]
fn insert_at_cursor_not_just_end() {
    let mut app = fresh_app();
    for c in "ac".chars() {
        let _ = app.handle_key(k(KeyCode::Char(c)));
    }
    let _ = app.handle_key(k(KeyCode::Left));
    let _ = app.handle_key(k(KeyCode::Char('b')));
    assert_eq!(app.prompt.buffer, "abc");
}

#[test]
fn shift_enter_inserts_newline_at_cursor() {
    let mut app = fresh_app();
    let _ = app.handle_key(k(KeyCode::Char('a')));
    let _ = app.handle_key(shift(KeyCode::Enter));
    let _ = app.handle_key(k(KeyCode::Char('b')));
    assert_eq!(app.prompt.buffer, "a\nb");
}

#[test]
fn alt_enter_also_inserts_newline() {
    let mut app = fresh_app();
    let _ = app.handle_key(k(KeyCode::Char('a')));
    let _ = app.handle_key(alt(KeyCode::Enter));
    let _ = app.handle_key(k(KeyCode::Char('b')));
    assert_eq!(app.prompt.buffer, "a\nb");
}

#[test]
fn history_up_down_navigates_records() {
    let mut app = fresh_app();
    app.set_input("first");
    let _ = app.handle_key(k(KeyCode::Enter));
    app.set_input("second");
    let _ = app.handle_key(k(KeyCode::Enter));
    assert_eq!(app.prompt.history.len(), 2);

    let _ = app.handle_key(k(KeyCode::Up));
    assert_eq!(app.prompt.buffer, "second");
    let _ = app.handle_key(k(KeyCode::Up));
    assert_eq!(app.prompt.buffer, "first");
    let _ = app.handle_key(k(KeyCode::Down));
    assert_eq!(app.prompt.buffer, "second");
    let _ = app.handle_key(k(KeyCode::Down));
    assert!(app.prompt.buffer.is_empty());
}

#[test]
fn history_up_saves_draft_and_restores_on_overflow() {
    let mut app = fresh_app();
    app.set_input("alpha");
    let _ = app.handle_key(k(KeyCode::Enter));
    let _ = app.handle_key(k(KeyCode::Up));
    assert_eq!(app.prompt.buffer, "alpha");
    let _ = app.handle_key(k(KeyCode::Down));
    assert!(app.prompt.buffer.is_empty());
}

#[test]
fn history_preserves_mode_prefix() {
    let mut app = fresh_app();
    let _ = app.handle_key(k(KeyCode::Char('!')));
    for c in "echo hi".chars() {
        let _ = app.handle_key(k(KeyCode::Char(c)));
    }
    let _ = app.handle_key(k(KeyCode::Enter));
    assert_eq!(app.prompt.mode, InputMode::Prompt);
    let _ = app.handle_key(k(KeyCode::Up));
    assert_eq!(app.prompt.mode, InputMode::Bash);
    assert_eq!(app.prompt.buffer, "echo hi");
}

#[test]
fn history_capacity_truncates_oldest() {
    let mut app = fresh_app();
    for i in 0..(HISTORY_CAPACITY + 5) {
        app.set_input(&format!("msg{i}"));
        let _ = app.handle_key(k(KeyCode::Enter));
    }
    assert_eq!(app.prompt.history.len(), HISTORY_CAPACITY);
    assert!(!app.prompt.history.iter().any(|h| h == "msg0"));
}

#[test]
fn submit_in_bash_mode_dispatches_run_shell() {
    let mut app = fresh_app();
    let _ = app.handle_key(k(KeyCode::Char('!')));
    for c in "ls".chars() {
        let _ = app.handle_key(k(KeyCode::Char(c)));
    }
    let action = app.handle_key(k(KeyCode::Enter));
    assert!(matches!(action, Some(UserAction::RunShell(s)) if s == "ls"));
    assert!(app.prompt.buffer.is_empty());
    assert_eq!(app.prompt.mode, InputMode::Prompt);
}

#[test]
fn submit_in_note_mode_appends_system_block() {
    let mut app = fresh_app();
    let _ = app.handle_key(k(KeyCode::Char('#')));
    for c in "remember this".chars() {
        let _ = app.handle_key(k(KeyCode::Char(c)));
    }
    let action = app.handle_key(k(KeyCode::Enter));
    assert!(action.is_none());
    assert!(app
        .blocks
        .iter()
        .any(|b| matches!(b, TranscriptBlock::System { text }
            if text.contains("remember this"))));
}

#[test]
fn submit_in_command_mode_dispatches_to_registry() {
    let mut app = fresh_app();
    let _ = app.handle_key(k(KeyCode::Char('/')));
    for c in "help".chars() {
        let _ = app.handle_key(k(KeyCode::Char(c)));
    }
    let action = app.handle_key(k(KeyCode::Enter));
    assert!(action.is_none());
    assert!(app.active_command_panel.is_some());
    assert_eq!(
        app.active_command_panel.as_ref().unwrap().command_name,
        "help"
    );
    assert_eq!(app.prompt.mode, InputMode::CommandInteract);
}

#[test]
fn submit_clears_buffer_and_resets_mode() {
    let mut app = fresh_app();
    let _ = app.handle_key(k(KeyCode::Char('!')));
    let _ = app.handle_key(k(KeyCode::Char('x')));
    let _ = app.handle_key(k(KeyCode::Enter));
    assert!(app.prompt.buffer.is_empty());
    assert_eq!(app.prompt.cursor, 0);
    assert_eq!(app.prompt.mode, InputMode::Prompt);
    assert!(app.prompt.history_idx.is_none());
}

#[test]
fn home_end_target_current_line_only() {
    let mut app = fresh_app();
    app.set_input("ab\ncd");
    app.prompt.cursor = 4;
    let _ = app.handle_key(k(KeyCode::Home));
    assert_eq!(app.prompt.cursor, 3);
    let _ = app.handle_key(k(KeyCode::End));
    assert_eq!(app.prompt.cursor, 5);
}

#[test]
fn ctrl_e_with_empty_buffer_toggles_tool_result() {
    let mut app = fresh_app();
    app.handle_ui_event(UiEvent::ToolResult {
        id: "1".into(),
        name: "Read".into(),
        output: "ok".into(),
        success: true,
    });
    let _ = app.handle_key(ctrl('e'));
    match app.blocks.last() {
        Some(TranscriptBlock::ToolCall {
            result: Some(ToolResultData { expanded, .. }),
            ..
        }) => assert!(*expanded),
        other => panic!("expected ToolCall with Some(result), got {other:?}"),
    }
}

#[test]
fn ctrl_e_with_text_moves_to_end_of_line() {
    let mut app = fresh_app();
    app.set_input("hello");
    app.prompt.cursor = 1;
    let _ = app.handle_key(ctrl('e'));
    assert_eq!(app.prompt.cursor, 5);
}

#[test]
fn ctrl_a_moves_to_line_start() {
    let mut app = fresh_app();
    app.set_input("hello");
    let _ = app.handle_key(ctrl('a'));
    assert_eq!(app.prompt.cursor, 0);
}

#[test]
fn history_down_with_no_walk_in_progress_is_noop() {
    let mut app = fresh_app();
    let _ = app.handle_key(k(KeyCode::Down));
    assert!(app.prompt.history_idx.is_none());
}

#[test]
fn strip_history_prefix_recognises_all_modes() {
    assert_eq!(strip_history_prefix("!ls").0, InputMode::Bash);
    assert_eq!(strip_history_prefix("#note").0, InputMode::Note);
    assert_eq!(strip_history_prefix("/cmd").0, InputMode::Command);
    assert_eq!(strip_history_prefix("hello").0, InputMode::Prompt);
    assert_eq!(strip_history_prefix("!ls").1, "ls");
}
