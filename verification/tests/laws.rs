//! What holds across several calls, on concrete values.
use recursive_tui::app::handlers::{
    finish_add_dir, read_switch, show_status_after, switch_hook, switch_theme, DirResolution,
};
use recursive_tui::app::keyboard::{is_double_press, DOUBLE_PRESS_WINDOW_NANOS};
use recursive_tui::app::{App, DirRequest};
use recursive_tui::chat;
use recursive_tui::command_menu::tab_complete_names;
use recursive_tui::completion::{rank_history, search_history};
use recursive_tui::events::{PermissionRequest, UiEvent, UserAction};
use recursive_tui::input_state::{strip_history_prefix, InputMode};
use recursive_tui::keys::{KeyCode, KeyEvent, KeyModifiers};
use recursive_tui::modal::{Modal, ResumeEntry};
use recursive_tui::model::{AppScreen, TranscriptBlock};
use recursive_tui::order::{sort_order, sorted_unique};
use recursive_tui::render::clamp;
use recursive_tui::skill_commands::SkillCommand;
use recursive_tui::text::{
    chars_of, join, lines_of, number_text, parse_u32, replace_text, trimmed, words_of,
};

fn key(code: KeyCode) -> KeyEvent {
    KeyEvent::new(code, KeyModifiers::none())
}

fn ctrl(c: char) -> KeyEvent {
    KeyEvent::new(KeyCode::Char(c), KeyModifiers::control())
}

fn type_text(app: &mut App, text: &str) {
    for c in text.chars() {
        app.handle_key(key(KeyCode::Char(c)));
    }
}

fn session(dir: &str) -> ResumeEntry {
    ResumeEntry {
        session_dir: dir.to_string(),
        slug: dir.to_string(),
        updated_at: "2026-06-01 14:22".to_string(),
        turn_count: 1,
    }
}

fn request(tool: &str) -> PermissionRequest {
    PermissionRequest { tool_name: tool.to_string(), args_preview: String::new() }
}

fn strings(items: &[&str]) -> Vec<String> {
    items.iter().map(|s| s.to_string()).collect()
}

#[test]
fn esc_quits_from_nowhere() {
    let mut app = App::new();
    app.modals.push(Modal::Help);
    app.set_pending_permission(request("Bash"));
    app.plan_mode_request_pending = true;
    app.turn.start();
    for _ in 0..6 {
        app.handle_key(key(KeyCode::Esc));
        assert!(!app.should_quit);
    }
}

#[test]
fn double_press_has_a_window() {
    assert!(!is_double_press(None));
    assert!(is_double_press(Some(DOUBLE_PRESS_WINDOW_NANOS)));
    assert!(!is_double_press(Some(DOUBLE_PRESS_WINDOW_NANOS + 1)));
    let now = std::time::Instant::now();
    for (since, quits) in [
        (None, false),
        (Some(0), true),
        (Some(DOUBLE_PRESS_WINDOW_NANOS), true),
        (Some(DOUBLE_PRESS_WINDOW_NANOS + 1), false),
    ] {
        let mut app = App::new();
        assert!(app.press_ctrl_c_after(since, now).is_none());
        assert_eq!(app.should_quit, quits);
        assert_eq!(app.double_press.last_ctrl_c_at.is_none(), quits);
    }
}

#[test]
fn uptime_is_shown_in_whole_seconds() {
    let mut app = App::new();
    show_status_after(&mut app, 61_999_999_999);
    assert!(matches!(app.blocks.last(), Some(TranscriptBlock::System { text })
        if text == "Status — turn 0, blocks 0, tokens 0, uptime 61s"));
    show_status_after(&mut app, 999_999_999);
    assert!(matches!(app.blocks.last(), Some(TranscriptBlock::System { text })
        if text == "Status — turn 0, blocks 1, tokens 0, uptime 0s"));
}

#[test]
fn spinner_moves_on_and_starts_again() {
    let mut app = App::new();
    assert_eq!(app.spinner_frame, 0);
    app.advance_spinner();
    assert_eq!(app.spinner_frame, 1);
    app.spinner_frame = usize::MAX;
    app.advance_spinner();
    assert_eq!(app.spinner_frame, 0);
}

#[test]
fn ctrl_c_closes_a_dialog_before_it_clears_the_prompt() {
    let mut app = App::new();
    app.set_input("text");
    app.modals.push(Modal::Help);
    let now = std::time::Instant::now();
    app.press_ctrl_c(false, now);
    assert!(app.modals.is_empty());
    assert_eq!(app.input(), "text");
    app.press_ctrl_c(false, now);
    assert_eq!(app.input(), "");
    app.press_ctrl_c(true, now);
    assert!(app.should_quit);
    assert!(app.double_press.last_ctrl_c_at.is_none());
}

#[test]
fn tool_allowed_for_good_is_not_asked_for_again() {
    let mut app = App::new();
    for _ in 0..2 {
        app.pending_permission = Some(request("Bash"));
        app.handle_key(key(KeyCode::Char('A')));
        assert_eq!(app.permission_reply, Some(true));
    }
    assert_eq!(app.auto_allowed_tools, vec!["Bash"]);
    app.permission_reply = None;
    app.set_pending_permission(request("Bash"));
    assert!(app.pending_permission.is_none());
    assert_eq!(app.permission_reply, Some(true));
    app.set_pending_permission(request("Write"));
    app.handle_key(key(KeyCode::Char('x')));
    assert!(app.pending_permission.is_some(), "other keys answer nothing");
    assert_eq!(app.input(), "");
}

#[test]
fn typing_can_be_taken_back() {
    let mut app = App::new();
    app.set_input("añb");
    app.handle_key(key(KeyCode::Left));
    let cursor = app.prompt.cursor;
    app.handle_key(key(KeyCode::Char('é')));
    app.handle_key(key(KeyCode::Backspace));
    assert_eq!(app.input(), "añb");
    assert_eq!(app.prompt.cursor, cursor);
}

#[test]
fn lines_of_the_prompt_can_be_walked() {
    let mut app = App::new();
    app.set_input("first\nab\nlast line");
    app.handle_key(ctrl('p'));
    assert_eq!(app.prompt.cursor, 8, "the shorter line ends before the column");
    app.handle_key(ctrl('p'));
    assert_eq!(app.prompt.cursor, 2);
    app.handle_key(ctrl('p'));
    assert_eq!(app.prompt.cursor, 2, "there is no line above the first");
    app.handle_key(ctrl('n'));
    assert_eq!(app.prompt.cursor, 8);
}

#[test]
fn empty_prompt_sends_nothing() {
    let mut app = App::new();
    assert_eq!(app.handle_key(key(KeyCode::Enter)), None);
    assert!(app.blocks.is_empty());
    assert_eq!(app.turn_count, 0);
}

#[test]
fn unknown_slash_command_is_reported() {
    let mut app = App::new();
    type_text(&mut app, "/frobnicate now");
    assert_eq!(app.handle_key(key(KeyCode::Enter)), None);
    match app.blocks.last() {
        Some(TranscriptBlock::Error { text }) => {
            assert_eq!(text, "Unknown command: /frobnicate. Try /help.");
        }
        other => panic!("expected an error, got {other:?}"),
    }
    assert_eq!(app.prompt.history, vec!["/frobnicate now"]);
}

#[test]
fn slash_command_hands_its_action_on() {
    let mut app = App::new();
    type_text(&mut app, "/compact");
    assert_eq!(app.handle_key(key(KeyCode::Enter)), Some(UserAction::Compact));
    type_text(&mut app, "/resume");
    assert_eq!(app.handle_key(key(KeyCode::Enter)), None);
    match app.blocks.last() {
        Some(TranscriptBlock::Error { text }) => assert_eq!(text, "No saved sessions found."),
        other => panic!("expected an error, got {other:?}"),
    }
}

#[test]
fn skill_is_expanded_and_run() {
    let mut app = App::new();
    app.around.skills = Some(vec![SkillCommand {
        name: "fix".to_string(),
        description: "Fix it".to_string(),
        aliases: vec!["f".to_string()],
        argument_hint: String::new(),
        allowed_tools: None,
        prompt_template: "Fix $ARGUMENTS; yes, $ARGUMENTS.".to_string(),
        source_path: String::new(),
    }]);
    type_text(&mut app, "/f  a   b");
    let action = app.handle_key(key(KeyCode::Enter));
    assert_eq!(
        action,
        Some(UserAction::RunSkillPrompt { prompt: "Fix a b; yes, a b.".to_string() })
    );
    assert!(app.turn.running);
    assert!(matches!(
        &app.blocks[0],
        TranscriptBlock::System { text } if text == "Running skill /fix: Fix it"
    ));
    assert!(matches!(&app.blocks[1], TranscriptBlock::User { text } if text == "Fix a b; yes, a b."));
}

#[test]
fn chosen_session_is_the_one_that_is_resumed() {
    let mut app = App::new();
    app.around.sessions = vec![session("/s/a"), session("/s/b"), session("/s/c")];
    type_text(&mut app, "/resume");
    app.handle_key(key(KeyCode::Enter));
    app.handle_key(key(KeyCode::Down));
    app.handle_key(ctrl('n'));
    app.handle_key(key(KeyCode::Down));
    app.handle_key(key(KeyCode::Up));
    let action = app.handle_key(key(KeyCode::Enter));
    assert_eq!(action, Some(UserAction::ResumeSession { session_dir: "/s/b".to_string() }));
    assert_eq!(app.prompt.mode, InputMode::Prompt);
}

#[test]
fn directory_is_granted_once() {
    let mut app = App::new();
    let ask = DirRequest { path: "x".to_string(), read_only: true };
    for _ in 0..2 {
        finish_add_dir(
            &mut app,
            ask.clone(),
            DirResolution::Directory { canonical: "/x".to_string() },
        );
    }
    assert_eq!(app.session_roots.len(), 1);
    assert!(matches!(
        app.blocks.last(),
        Some(TranscriptBlock::System { text }) if text == "Already granted: /x"
    ));
    finish_add_dir(
        &mut app,
        ask,
        DirResolution::NotADirectory { canonical: "/f".to_string() },
    );
    assert!(matches!(
        app.blocks.last(),
        Some(TranscriptBlock::Error { text }) if text == "/add-dir: \"/f\" is not a directory"
    ));
}

#[test]
fn events_keep_what_is_being_typed() {
    let mut app = App::new();
    app.set_input("draft");
    for ev in [
        UiEvent::TurnStarted,
        UiEvent::AssistantPartial { text: "a".to_string() },
        UiEvent::AssistantPartial { text: "b".to_string() },
        UiEvent::Latency { llm_ms: 12 },
        UiEvent::AssistantMessage { content: "whole".to_string() },
        UiEvent::Interrupted,
        UiEvent::LoopIdle,
    ] {
        app.handle_ui_event(ev);
    }
    assert_eq!(app.input(), "draft");
    assert!(!app.turn.running);
    assert_eq!(app.pending_latency_ms, None);
    assert_eq!(app.blocks.len(), 2);
    assert!(matches!(
        &app.blocks[0],
        TranscriptBlock::Assistant { text, streaming: false, latency_ms: Some(12) } if text == "whole"
    ));
}

#[test]
fn context_breakdown_is_kept_until_the_conversation_is_dropped() {
    let mut app = App::new();
    app.handle_ui_event(UiEvent::ContextBreakdown { breakdown: "{}".to_string() });
    assert_eq!(app.usage.last_breakdown.as_deref(), Some("{}"));
    assert!(app.blocks.is_empty());
    app.handle_ui_event(UiEvent::TurnStarted);
    assert_eq!(app.usage.last_breakdown.as_deref(), Some("{}"));
    app.reset_transcript();
    assert_eq!(app.usage.last_breakdown, None);
}

#[test]
fn expanding_twice_changes_nothing() {
    let mut app = App::new();
    app.handle_ui_event(UiEvent::ToolResult {
        id: "1".to_string(),
        name: "Read".to_string(),
        output: "o".to_string(),
        success: true,
    });
    let before = app.blocks.clone();
    app.handle_key(ctrl('e'));
    assert_ne!(app.blocks, before);
    app.handle_key(ctrl('e'));
    assert_eq!(app.blocks, before);
}

#[test]
fn hook_line_replaces_the_line_before_it() {
    let mut app = App::new();
    for last_line in ["one", "two"] {
        app.handle_ui_event(UiEvent::HookProgress {
            hook_event: "PreTool".to_string(),
            hook_name: "fmt".to_string(),
            last_line: last_line.to_string(),
        });
    }
    assert_eq!(app.blocks.len(), 1);
    assert!(matches!(
        &app.blocks[0],
        TranscriptBlock::System { text } if text == "⚡ hook fmt: two"
    ));
}

#[test]
fn session_resumed_replaces_visible_transcript() {
    let mut app = App::new();
    app.handle_ui_event(UiEvent::AssistantMessage { content: "OLD-TURN-MUST-VANISH".to_string() });
    app.handle_ui_event(UiEvent::SessionResumed {
        session_id: "s1".to_string(),
        turn_count: 3,
        blocks: vec![
            TranscriptBlock::User { text: "resumed question".to_string() },
            TranscriptBlock::Assistant {
                text: "resumed answer".to_string(),
                streaming: false,
                latency_ms: None,
            },
        ],
    });
    assert!(matches!(&app.blocks[0], TranscriptBlock::User { text } if text == "resumed question"));
    assert!(
        matches!(&app.blocks[1], TranscriptBlock::Assistant { text, .. } if text == "resumed answer")
    );
    assert!(!app.blocks.iter().any(
        |b| matches!(b, TranscriptBlock::Assistant { text, .. } if text == "OLD-TURN-MUST-VANISH")
    ));
}

#[test]
fn session_resumed_appends_resume_note() {
    let mut app = App::new();
    app.handle_ui_event(UiEvent::SessionResumed {
        session_id: "abc123".to_string(),
        turn_count: 9,
        blocks: vec![TranscriptBlock::User { text: "q".to_string() }],
    });
    match app.blocks.last() {
        Some(TranscriptBlock::System { text }) => {
            assert!(text.contains("Resumed session abc123") && text.contains("9 messages"));
        }
        other => panic!("expected a note, got {other:?}"),
    }
}

#[test]
fn type_str_then_enter_emits_send_message() {
    let mut app = App::new();
    type_text(&mut app, "hello");
    assert_eq!(
        app.handle_key(key(KeyCode::Enter)),
        Some(UserAction::SendMessage("hello".to_string()))
    );
}

#[test]
fn model_panel_shows_current_custom_model_as_synthetic_entry() {
    let mut app = App::new();
    app.active_preset = None;
    app.model_name = "z-ai/glm-5.2".to_string();
    type_text(&mut app, "/model");
    app.handle_key(key(KeyCode::Enter));
    let panel = app.active_command_panel.as_ref().expect("the panel is open");
    let text: String =
        panel.lines.iter().flat_map(|l| l.spans.iter()).map(|s| s.content.clone()).collect();
    assert!(text.contains("current: z-ai/glm-5.2"), "got: {text}");
    assert!(text.contains("Current (custom provider)"), "got: {text}");
    assert!(text.contains('✓'), "got: {text}");
}

#[test]
fn marker_of_a_mode_is_stripped_again() {
    for (marked, mode, text) in [
        ("!ls", InputMode::Bash, "ls"),
        ("#n", InputMode::Note, "n"),
        ("/c", InputMode::Command, "c"),
        ("plain", InputMode::Prompt, "plain"),
        ("", InputMode::Prompt, ""),
    ] {
        assert_eq!(strip_history_prefix(marked), (mode, text));
    }
}

#[test]
fn search_ignores_letter_case() {
    let history = strings(&["ÄPFEL kaufen", "run TESTS", "tests"]);
    assert_eq!(search_history(&history, "Äpfel"), vec![0]);
    assert_eq!(search_history(&history, "TESTS"), vec![2, 1]);
    assert_eq!(rank_history(&strings(&["ab", "b"]), "b"), vec![1, 0]);
}

#[test]
fn names_are_completed_as_far_as_they_agree() {
    assert_eq!(tab_complete_names("co", &vec!["compact", "compare"]), Some("compa".to_string()));
    assert_eq!(tab_complete_names("c", &vec!["clear", "cost"]), None);
    assert_eq!(tab_complete_names("x", &vec!["clear"]), None);
}

#[test]
fn orders_are_stable_and_sets_are_sorted() {
    assert_eq!(sort_order(&strings(&["b", "a", "b", "A"])), vec![3, 1, 0, 2]);
    assert_eq!(sorted_unique(&strings(&["b", "a", "b"])), vec!["a", "b"]);
}

#[test]
fn joined_lines_come_back_as_lines() {
    let parts = strings(&["a", "", "c"]);
    let text = join(&parts, "\n");
    assert_eq!(text, "a\n\nc");
    assert_eq!(lines_of(&text), parts);
    assert_eq!(lines_of("a\r\nb\n"), strings(&["a", "b"]));
}

#[test]
fn white_space_is_that_of_unicode() {
    assert_eq!(words_of("a\u{3000}b\u{a0} c\u{85}"), strings(&["a", "b", "c"]));
    assert_eq!(trimmed(&chars_of("\u{2003} x \t")), "x");
    assert_eq!(words_of("a\u{200b}b").len(), 1);
}

#[test]
fn numbers_and_texts_are_written_as_usual() {
    assert_eq!(number_text(0), "0");
    assert_eq!(number_text(u64::MAX), "18446744073709551615");
    assert_eq!(parse_u32("+7"), Some(7));
    assert_eq!(parse_u32("4294967296"), None);
    assert_eq!(parse_u32(""), None);
    assert_eq!(replace_text("aXbX", "X", "yy"), "ayybyy");
    assert_eq!(clamp("abcde", 4), "abc…");
    assert_eq!(clamp("abcde", 0), "…");
}

#[test]
fn plan_in_the_chat_leads_back_to_the_chat() {
    for (code, added) in [
        (KeyCode::Enter, 2),
        (KeyCode::Char('n'), 1),
        (KeyCode::Char('e'), 0),
    ] {
        let mut app = chat::App::new();
        app.handle_ui_event(chat::UiEvent::AssistantMessage { content: "PLAN: go".to_string() });
        assert!(matches!(app.screen, AppScreen::PlanReview { .. }));
        let before = app.messages.len();
        app.handle_key(code);
        assert_eq!(app.screen, AppScreen::Chat);
        assert_eq!(app.messages.len(), before + added);
    }
}

#[test]
fn switches_and_themes_are_read_from_words() {
    assert_eq!(read_switch("on"), Some(true));
    assert_eq!(read_switch("0"), Some(false));
    assert_eq!(read_switch("ON"), None);
    let mut app = App::new();
    app.pending_permission = Some(request("Bash"));
    switch_hook(&mut app, Some(false));
    assert!(app.pending_permission.is_none());
    assert_eq!(app.permission_reply, Some(false));
    type_text(&mut app, "/permissions ON");
    app.handle_key(key(KeyCode::Enter));
    assert!(app.permission_hook_enabled);
    switch_theme(&mut app, "solarized");
    assert_eq!(app.theme.name, "solarized");
    switch_theme(&mut app, "neon");
    assert_eq!(app.theme.name, "solarized");
    assert!(matches!(
        app.blocks.last(),
        Some(TranscriptBlock::Error { text })
            if text == "Unknown theme 'neon'. Available: dark, light, solarized"
    ));
}

#[test]
fn submission_comes_back_in_its_mode() {
    let mut app = App::new();
    type_text(&mut app, "#note");
    app.handle_key(key(KeyCode::Enter));
    assert_eq!(app.prompt.history, vec!["#note"]);
    app.handle_key(key(KeyCode::Up));
    assert_eq!(app.prompt.mode, InputMode::Note);
    assert_eq!(app.input(), "note");
}
