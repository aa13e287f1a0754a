//! The plain chat front end.
use std::time::Duration;

use recursive_tui::chat::{App, StyledMessage, UiEvent};
use recursive_tui::events::UserAction;
use recursive_tui::keys::KeyCode;
use recursive_tui::model::AppScreen;
use recursive_tui::style::{Color, Style};

#[test]
fn app_new_creates_empty_state() {
    let app = App::new();
    assert!(app.input.is_empty());
    assert!(!app.messages.is_empty());
    assert!(!app.should_quit);
}

#[test]
fn app_new_starts_in_splash_screen() {
    let app = App::new();
    assert_eq!(app.screen, AppScreen::Splash);
}

#[test]
fn splash_auto_transitions_after_elapsed() {
    let app = App::new();
    assert!(app.splash_start.elapsed() < Duration::from_secs(2));
    assert_eq!(app.screen, AppScreen::Splash);
}

#[test]
fn app_no_session_shows_system_message() {
    let app = App::new();
    assert!(app.session_id.is_none());
    assert!(matches!(&app.messages[0], StyledMessage::System(t) if t.contains("Welcome")));
}

#[test]
fn styled_message_user_to_line_contains_text() {
    let msg = StyledMessage::User("hello world".into());
    let line = msg.to_line();
    let content: String = line.spans.iter().map(|s| s.content.as_str()).collect();
    assert!(content.contains("You: hello world"));
}

#[test]
fn styled_message_assistant_to_line_contains_text() {
    let msg = StyledMessage::Assistant("I can help".into());
    let line = msg.to_line();
    let content: String = line.spans.iter().map(|s| s.content.as_str()).collect();
    assert!(content.contains("Agent: I can help"));
}

#[test]
fn styled_message_tool_call_to_line_contains_name() {
    let msg = StyledMessage::ToolCall("read_file".into());
    let line = msg.to_line();
    let content: String = line.spans.iter().map(|s| s.content.as_str()).collect();
    assert!(content.contains("🔧 read_file"));
}

#[test]
fn styled_message_tool_result_success_to_line() {
    let msg = StyledMessage::ToolResult {
        name: "read_file".into(),
        success: true,
    };
    let line = msg.to_line();
    let content: String = line.spans.iter().map(|s| s.content.as_str()).collect();
    assert!(content.contains("✓ read_file"));
}

#[test]
fn styled_message_tool_result_failure_to_line() {
    let msg = StyledMessage::ToolResult {
        name: "write_file".into(),
        success: false,
    };
    let line = msg.to_line();
    let content: String = line.spans.iter().map(|s| s.content.as_str()).collect();
    assert!(content.contains("✗ write_file"));
}

#[test]
fn styled_message_system_to_line_contains_text() {
    let msg = StyledMessage::System("Connected".into());
    let line = msg.to_line();
    let content: String = line.spans.iter().map(|s| s.content.as_str()).collect();
    assert!(content.contains("Connected"));
}

#[test]
fn separator_to_line_produces_correct_output() {
    let msg = StyledMessage::Separator;
    let line = msg.to_line();
    let content: String = line.spans.iter().map(|s| s.content.as_str()).collect();
    assert!(content.contains("────────"));
    assert_eq!(line.style, Style::fg(Color::DarkGray));
}

#[test]
fn handle_ui_event_adds_tool_call() {
    let mut app = App::new();
    app.screen = AppScreen::Chat;
    app.handle_ui_event(UiEvent::ToolCall {
        name: "search".into(),
    });
    assert!(matches!(
        app.messages.last(),
        Some(StyledMessage::ToolCall(n)) if n == "search"
    ));
}

#[test]
fn handle_ui_event_adds_tool_result() {
    let mut app = App::new();
    app.screen = AppScreen::Chat;
    app.handle_ui_event(UiEvent::ToolResult {
        name: "search".into(),
        success: true,
    });
    assert!(matches!(
        app.messages.last(),
        Some(StyledMessage::ToolResult { name, success }) if name == "search" && *success
    ));
}

#[test]
fn handle_ui_event_adds_assistant_message() {
    let mut app = App::new();
    app.screen = AppScreen::Chat;
    app.handle_ui_event(UiEvent::AssistantMessage {
        content: "Hello!".into(),
    });
    let len = app.messages.len();
    assert!(matches!(
        &app.messages[len - 2],
        StyledMessage::Assistant(t) if t == "Hello!"
    ));
}

#[test]
fn handle_ui_event_adds_error_as_system() {
    let mut app = App::new();
    app.screen = AppScreen::Chat;
    app.handle_ui_event(UiEvent::Error {
        message: "timeout".into(),
    });
    assert!(matches!(
        app.messages.last(),
        Some(StyledMessage::System(t)) if t.contains("timeout")
    ));
}

#[test]
fn assistant_message_adds_separator() {
    let mut app = App::new();
    app.screen = AppScreen::Chat;
    app.handle_ui_event(UiEvent::AssistantMessage {
        content: "response".into(),
    });
    assert!(matches!(
        app.messages.last(),
        Some(StyledMessage::Separator)
    ));
}

#[test]
fn enter_moves_input_to_messages() {
    let mut app = App::new();
    app.screen = AppScreen::Chat;
    app.input = "hello".to_string();
    let action = app.handle_key(KeyCode::Enter);
    assert!(app.input.is_empty());
    assert!(app
        .messages
        .iter()
        .any(|m| matches!(m, StyledMessage::User(t) if t.contains("hello"))));
    assert!(matches!(action, Some(UserAction::SendMessage(s)) if s == "hello"));
}

#[test]
fn esc_sets_should_quit() {
    let mut app = App::new();
    app.screen = AppScreen::Chat;
    let _ = app.handle_key(KeyCode::Esc);
    assert!(app.should_quit);
}

#[test]
fn app_char_appends_to_input() {
    let mut app = App::new();
    app.screen = AppScreen::Chat;
    let _ = app.handle_key(KeyCode::Char('h'));
    let _ = app.handle_key(KeyCode::Char('i'));
    assert_eq!(app.input, "hi");
}

#[test]
fn app_backspace_removes_last_char() {
    let mut app = App::new();
    app.screen = AppScreen::Chat;
    app.input = "hello".to_string();
    let _ = app.handle_key(KeyCode::Backspace);
    assert_eq!(app.input, "hell");
}

#[test]
fn scroll_up_increases_offset() {
    let mut app = App::new();
    app.screen = AppScreen::Chat;
    for i in 0..30 {
        app.messages.push(StyledMessage::System(format!("msg {i}")));
    }
    let _ = app.handle_key(KeyCode::Up);
    assert_eq!(app.scroll_offset, 1);
    let _ = app.handle_key(KeyCode::Up);
    assert_eq!(app.scroll_offset, 2);
}

#[test]
fn scroll_down_decreases_offset_stops_at_zero() {
    let mut app = App::new();
    app.screen = AppScreen::Chat;
    app.scroll_offset = 3;
    let _ = app.handle_key(KeyCode::Down);
    assert_eq!(app.scroll_offset, 2);
    let _ = app.handle_key(KeyCode::Down);
    assert_eq!(app.scroll_offset, 1);
    let _ = app.handle_key(KeyCode::Down);
    assert_eq!(app.scroll_offset, 0);
    let _ = app.handle_key(KeyCode::Down);
    assert_eq!(app.scroll_offset, 0);
}

#[test]
fn new_message_resets_scroll_to_bottom() {
    let mut app = App::new();
    app.screen = AppScreen::Chat;
    app.scroll_offset = 5;
    app.handle_ui_event(UiEvent::AssistantMessage {
        content: "hello".into(),
    });
    assert_eq!(app.scroll_offset, 0);
}

#[test]
fn scroll_keys_ignored_when_input_not_empty() {
    let mut app = App::new();
    app.screen = AppScreen::Chat;
    app.input = "typing".to_string();
    let _ = app.handle_key(KeyCode::Up);
    assert_eq!(app.scroll_offset, 0);
    let _ = app.handle_key(KeyCode::PageUp);
    assert_eq!(app.scroll_offset, 0);
}

#[test]
fn page_up_scrolls_by_ten() {
    let mut app = App::new();
    app.screen = AppScreen::Chat;
    let _ = app.handle_key(KeyCode::PageUp);
    assert_eq!(app.scroll_offset, 10);
}

#[test]
fn page_down_scrolls_by_ten() {
    let mut app = App::new();
    app.screen = AppScreen::Chat;
    app.scroll_offset = 15;
    let _ = app.handle_key(KeyCode::PageDown);
    assert_eq!(app.scroll_offset, 5);
}

#[test]
fn plan_message_triggers_plan_review() {
    let mut app = App::new();
    app.screen = AppScreen::Chat;
    app.handle_ui_event(UiEvent::AssistantMessage {
        content: "## Plan\n1. Do thing A\n2. Do thing B".into(),
    });
    assert!(matches!(
        app.screen,
        AppScreen::PlanReview { ref plan_text }
        if plan_text == "## Plan\n1. Do thing A\n2. Do thing B"
    ));
}

#[test]
fn plan_message_with_plan_colon_triggers_review() {
    let mut app = App::new();
    app.screen = AppScreen::Chat;
    app.handle_ui_event(UiEvent::AssistantMessage {
        content: "Plan: refactor the module".into(),
    });
    assert!(matches!(app.screen, AppScreen::PlanReview { .. }));
}

#[test]
fn non_plan_message_stays_in_chat() {
    let mut app = App::new();
    app.screen = AppScreen::Chat;
    app.handle_ui_event(UiEvent::AssistantMessage {
        content: "Hello, I can help you.".into(),
    });
    assert_eq!(app.screen, AppScreen::Chat);
}

#[test]
fn plan_approve_sends_and_returns_to_chat() {
    let mut app = App::new();
    app.screen = AppScreen::PlanReview {
        plan_text: "## Plan\nDo X".into(),
    };
    let action = app.handle_key(KeyCode::Enter);
    assert_eq!(app.screen, AppScreen::Chat);
    assert!(matches!(action, Some(UserAction::ConfirmPlan)));
    assert!(app
        .messages
        .iter()
        .any(|m| matches!(m, StyledMessage::System(t) if t == "Plan approved")));
    assert!(app
        .messages
        .iter()
        .any(|m| matches!(m, StyledMessage::Assistant(t) if t == "## Plan\nDo X")));
}

#[test]
fn plan_approve_with_y_key() {
    let mut app = App::new();
    app.screen = AppScreen::PlanReview {
        plan_text: "Plan: do stuff".into(),
    };
    let action = app.handle_key(KeyCode::Char('y'));
    assert_eq!(app.screen, AppScreen::Chat);
    assert!(matches!(action, Some(UserAction::ConfirmPlan)));
    assert!(app
        .messages
        .iter()
        .any(|m| matches!(m, StyledMessage::System(t) if t == "Plan approved")));
}

#[test]
fn plan_reject_returns_to_chat() {
    let mut app = App::new();
    app.screen = AppScreen::PlanReview {
        plan_text: "## Plan\nDo Y".into(),
    };
    let action = app.handle_key(KeyCode::Esc);
    assert_eq!(app.screen, AppScreen::Chat);
    assert!(matches!(action, Some(UserAction::RejectPlan(_))));
    assert!(app
        .messages
        .iter()
        .any(|m| matches!(m, StyledMessage::System(t) if t == "Plan rejected")));
    assert!(!app
        .messages
        .iter()
        .any(|m| matches!(m, StyledMessage::Assistant(t) if t.contains("Do Y"))));
}

#[test]
fn plan_reject_with_n_key() {
    let mut app = App::new();
    app.screen = AppScreen::PlanReview {
        plan_text: "Plan: something".into(),
    };
    let action = app.handle_key(KeyCode::Char('n'));
    assert_eq!(app.screen, AppScreen::Chat);
    assert!(matches!(action, Some(UserAction::RejectPlan(_))));
    assert!(app
        .messages
        .iter()
        .any(|m| matches!(m, StyledMessage::System(t) if t == "Plan rejected")));
}

#[test]
fn plan_edit_prefills_input() {
    let mut app = App::new();
    app.screen = AppScreen::PlanReview {
        plan_text: "## Plan\nEdit me".into(),
    };
    let action = app.handle_key(KeyCode::Char('e'));
    assert_eq!(app.screen, AppScreen::Chat);
    assert_eq!(app.input, "## Plan\nEdit me");
    assert!(action.is_none());
}
