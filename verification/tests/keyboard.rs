//! Keys in the conversation.
use std::time::{Duration, Instant};

use recursive_tui::app::App;
use recursive_tui::events::{UiEvent, UserAction};
use recursive_tui::input_state::InputMode;
use recursive_tui::keys::{KeyCode, KeyEvent, KeyModifiers};
use recursive_tui::modal::Modal;
use recursive_tui::model::{AppScreen, ToolResultData, TranscriptBlock};

fn key(code: KeyCode) -> KeyEvent {
    KeyEvent::new(code, KeyModifiers::none())
}

fn ctrl(c: char) -> KeyEvent {
    KeyEvent::new(KeyCode::Char(c), KeyModifiers::control())
}

fn shift(code: KeyCode) -> KeyEvent {
    KeyEvent::new(code, KeyModifiers::shift())
}

#[test]
fn ctrl_e_toggles_expanded_on_last_tool_result() {
    let mut app = App::new();
    app.screen = AppScreen::Chat;
    app.handle_ui_event(UiEvent::ToolResult {
        id: "1".into(),
        name: "Read".into(),
        output: "long output".into(),
        success: true,
    });
    let _ = app.handle_key(ctrl('e'));
    match app.blocks.last() {
        Some(TranscriptBlock::ToolCall {
            result: Some(ToolResultData { expanded, .. }),
            ..
        }) => assert!(*expanded),
        other => panic!("expected ToolCall with Some(result), got {other:?}"),
    }
    let _ = app.handle_key(ctrl('e'));
    match app.blocks.last() {
        Some(TranscriptBlock::ToolCall {
            result: Some(ToolResultData { expanded, .. }),
            ..
        }) => assert!(!*expanded),
        other => panic!("expected ToolCall with Some(result), got {other:?}"),
    }
}

#[test]
fn enter_moves_input_to_blocks() {
    let mut app = App::new();
    app.screen = AppScreen::Chat;
    app.set_input("hello");
    let action = app.handle_key(key(KeyCode::Enter));
    assert!(app.input().is_empty());
    assert!(app
        .blocks
        .iter()
        .any(|b| matches!(b, TranscriptBlock::User { text } if text == "hello")));
    assert!(matches!(action, Some(UserAction::SendMessage(s)) if s == "hello"));
}

#[test]
fn enter_starts_a_turn() {
    let mut app = App::new();
    app.screen = AppScreen::Chat;
    app.set_input("hi");
    let _ = app.handle_key(key(KeyCode::Enter));
    assert!(app.turn.running);
    assert_eq!(app.turn_count, 1);
}

#[test]
fn esc_clears_buffer_without_quitting() {
    let mut app = App::new();
    app.screen = AppScreen::Chat;
    app.set_input("partial");
    let _ = app.handle_key(key(KeyCode::Esc));
    assert!(!app.should_quit);
    assert!(app.input().is_empty());
}

#[test]
fn commands_char_appends_to_input() {
    let mut app = App::new();
    app.screen = AppScreen::Chat;
    let _ = app.handle_key(key(KeyCode::Char('h')));
    let _ = app.handle_key(key(KeyCode::Char('i')));
    assert_eq!(app.input(), "hi");
}

#[test]
fn commands_backspace_removes_last_char() {
    let mut app = App::new();
    app.screen = AppScreen::Chat;
    app.set_input("hello");
    let _ = app.handle_key(key(KeyCode::Backspace));
    assert_eq!(app.input(), "hell");
}

#[test]
fn plain_up_does_not_scroll_transcript() {
    let mut app = App::new();
    app.screen = AppScreen::Chat;
    for i in 0..30 {
        app.blocks.push(TranscriptBlock::System {
            text: format!("msg {i}"),
        });
    }
    let _ = app.handle_key(key(KeyCode::Up));
    assert_eq!(app.scroll_offset, 0);
    let _ = app.handle_key(key(KeyCode::Down));
    assert_eq!(app.scroll_offset, 0);
}

#[test]
fn shift_up_increases_scroll_offset() {
    let mut app = App::new();
    app.screen = AppScreen::Chat;
    for i in 0..30 {
        app.blocks.push(TranscriptBlock::System {
            text: format!("msg {i}"),
        });
    }
    let _ = app.handle_key(shift(KeyCode::Up));
    assert_eq!(app.scroll_offset, 3);
    let _ = app.handle_key(shift(KeyCode::Up));
    assert_eq!(app.scroll_offset, 6);
}

#[test]
fn shift_down_stops_at_zero() {
    let mut app = App::new();
    app.screen = AppScreen::Chat;
    app.scroll_offset = 6;
    let _ = app.handle_key(shift(KeyCode::Down));
    let _ = app.handle_key(shift(KeyCode::Down));
    let _ = app.handle_key(shift(KeyCode::Down));
    assert_eq!(app.scroll_offset, 0);
}

#[test]
fn page_up_scrolls_by_twenty() {
    let mut app = App::new();
    app.screen = AppScreen::Chat;
    let _ = app.handle_key(key(KeyCode::PageUp));
    assert_eq!(app.scroll_offset, 20);
}

#[test]
fn page_down_scrolls_by_twenty() {
    let mut app = App::new();
    app.screen = AppScreen::Chat;
    app.scroll_offset = 25;
    let _ = app.handle_key(key(KeyCode::PageDown));
    assert_eq!(app.scroll_offset, 5);
}

#[test]
fn page_up_scrolls_even_when_buffer_not_empty() {
    let mut app = App::new();
    app.screen = AppScreen::Chat;
    app.set_input("typing");
    let _ = app.handle_key(key(KeyCode::PageUp));
    assert_eq!(app.scroll_offset, 20);
}

#[test]
fn plan_review_y_dispatches_confirm_plan_action() {
    let mut app = App::new();
    app.screen = AppScreen::Chat;
    app.modals.push(Modal::PlanReview {
        plan_text: "do".into(),
        tool_calls: vec![],
        edited_text: None,
    });
    let action = app.handle_key(key(KeyCode::Char('y')));
    assert!(matches!(action, Some(UserAction::ConfirmPlan)));
    assert!(app.modals.is_empty());
}

#[test]
fn plan_review_n_dispatches_reject_plan_action() {
    let mut app = App::new();
    app.screen = AppScreen::Chat;
    app.modals.push(Modal::PlanReview {
        plan_text: "do".into(),
        tool_calls: vec![],
        edited_text: None,
    });
    let action = app.handle_key(key(KeyCode::Char('n')));
    match action {
        Some(UserAction::RejectPlan(reason)) => assert_eq!(reason, "user rejected"),
        other => panic!("expected RejectPlan, got {other:?}"),
    }
    assert!(app.modals.is_empty());
}

#[test]
fn plan_review_e_copies_text_to_input_and_closes_modal() {
    let mut app = App::new();
    app.screen = AppScreen::Chat;
    app.modals.push(Modal::PlanReview {
        plan_text: "edit me please".into(),
        tool_calls: vec![],
        edited_text: None,
    });
    let action = app.handle_key(key(KeyCode::Char('e')));
    assert!(action.is_none());
    assert_eq!(app.input(), "edit me please");
    assert_eq!(app.prompt.mode, InputMode::Prompt);
    assert!(app.modals.is_empty());
}

#[test]
fn esc_first_press_closes_modal_not_quits() {
    let mut app = App::new();
    app.screen = AppScreen::Chat;
    app.modals.push(Modal::Help);
    let _ = app.handle_key(key(KeyCode::Esc));
    assert!(app.modals.is_empty());
    assert!(!app.should_quit);
}

#[test]
fn esc_first_press_clears_input_when_modal_empty_and_buffer_set() {
    let mut app = App::new();
    app.screen = AppScreen::Chat;
    app.set_input("partial");
    let _ = app.handle_key(key(KeyCode::Esc));
    assert!(!app.should_quit);
    assert!(app.input().is_empty());
}

#[test]
fn esc_does_not_quit_after_double_press_when_idle() {
    let mut app = App::new();
    app.screen = AppScreen::Chat;
    let _ = app.handle_key(key(KeyCode::Esc));
    let _ = app.handle_key(key(KeyCode::Esc));
    assert!(!app.should_quit);
}

#[test]
fn ctrl_c_first_press_during_turn_dispatches_interrupt() {
    let mut app = App::new();
    app.screen = AppScreen::Chat;
    app.turn.start();
    let action = app.handle_key(ctrl('c'));
    assert!(matches!(action, Some(UserAction::Interrupt)));
    assert!(app.blocks.iter().any(|b| matches!(b,
        TranscriptBlock::System { text } if text.contains("Interrupting"))));
    assert!(!app.should_quit);
}

#[test]
fn ctrl_c_first_press_idle_pushes_warning_then_exits_on_second() {
    let mut app = App::new();
    app.screen = AppScreen::Chat;
    let _ = app.handle_key(ctrl('c'));
    assert!(!app.should_quit);
    assert!(app.blocks.iter().any(|b| matches!(b,
        TranscriptBlock::System { text } if text.contains("Press Ctrl+C again"))));
    let _ = app.handle_key(ctrl('c'));
    assert!(app.should_quit);
}

#[test]
fn ctrl_c_double_press_within_window_quits() {
    let mut app = App::new();
    app.screen = AppScreen::Chat;
    app.turn.start();
    let _ = app.handle_key(ctrl('c'));
    let _ = app.handle_key(ctrl('c'));
    assert!(app.should_quit);
}

#[test]
fn ctrl_c_outside_window_resets_counter() {
    let mut app = App::new();
    app.screen = AppScreen::Chat;
    app.double_press.last_ctrl_c_at = Some(Instant::now() - Duration::from_secs(60));
    let action = app.handle_key(ctrl('c'));
    assert!(action.is_none());
    assert!(!app.should_quit);
    assert!(app.blocks.iter().any(|b| matches!(b,
        TranscriptBlock::System { text } if text.contains("Press Ctrl+C again"))));
}
