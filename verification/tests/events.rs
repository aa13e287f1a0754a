//! Events of the agent worker.
use serde_json::Value;

use recursive_tui::app::App;
use recursive_tui::events::UiEvent;
use recursive_tui::modal::Modal;
use recursive_tui::model::{AppScreen, TranscriptBlock};

fn read_call() -> Value {
    let mut arguments = serde_json::Map::new();
    arguments.insert("path".to_string(), Value::String("src/foo.rs".to_string()));
    let mut call = serde_json::Map::new();
    call.insert("name".to_string(), Value::String("Read".to_string()));
    call.insert("id".to_string(), Value::String("1".to_string()));
    call.insert("arguments".to_string(), Value::Object(arguments));
    Value::Object(call)
}

#[test]
fn transcript_apply_partial_token_appends_to_streaming_assistant() {
    let mut app = App::new();
    app.screen = AppScreen::Chat;
    app.handle_ui_event(UiEvent::AssistantPartial { text: "hel".into() });
    app.handle_ui_event(UiEvent::AssistantPartial { text: "lo".into() });

    match app.blocks.last() {
        Some(TranscriptBlock::Assistant {
            text, streaming, ..
        }) => {
            assert_eq!(text, "hello");
            assert!(*streaming);
        }
        other => panic!("expected streaming Assistant, got {other:?}"),
    }
}

#[test]
fn reasoning_partials_stream_then_finalise_above_answer() {
    let mut app = App::new();
    app.screen = AppScreen::Chat;
    app.handle_ui_event(UiEvent::ReasoningPartial {
        text: "Step one. ".into(),
    });
    app.handle_ui_event(UiEvent::ReasoningPartial {
        text: "Step two.".into(),
    });
    match app.blocks.last() {
        Some(TranscriptBlock::Reasoning { text, streaming }) => {
            assert_eq!(text, "Step one. Step two.");
            assert!(*streaming);
        }
        other => panic!("expected streaming Reasoning, got {other:?}"),
    }
    app.handle_ui_event(UiEvent::AssistantPartial {
        text: "The answer.".into(),
    });
    app.handle_ui_event(UiEvent::Reasoning {
        content: "Step one. Step two.".into(),
    });
    app.handle_ui_event(UiEvent::AssistantMessage {
        content: "The answer.".into(),
    });

    assert_eq!(app.blocks.len(), 2);
    match &app.blocks[0] {
        TranscriptBlock::Reasoning { text, streaming } => {
            assert_eq!(text, "Step one. Step two.");
            assert!(!*streaming);
        }
        other => panic!("expected finalised Reasoning first, got {other:?}"),
    }
    match &app.blocks[1] {
        TranscriptBlock::Assistant {
            text, streaming, ..
        } => {
            assert_eq!(text, "The answer.");
            assert!(!*streaming);
        }
        other => panic!("expected finalised Assistant second, got {other:?}"),
    }
}

#[test]
fn reasoning_without_partials_inserts_before_streaming_answer() {
    let mut app = App::new();
    app.screen = AppScreen::Chat;
    app.handle_ui_event(UiEvent::AssistantPartial {
        text: "Answer".into(),
    });
    app.handle_ui_event(UiEvent::Reasoning {
        content: "thought".into(),
    });

    assert_eq!(app.blocks.len(), 2);
    assert!(matches!(
        &app.blocks[0],
        TranscriptBlock::Reasoning { text, streaming: false } if text == "thought"
    ));
    assert!(matches!(
        &app.blocks[1],
        TranscriptBlock::Assistant {
            streaming: true,
            ..
        }
    ));
}

#[test]
fn transcript_apply_assistant_text_finalizes_streaming() {
    let mut app = App::new();
    app.screen = AppScreen::Chat;
    app.handle_ui_event(UiEvent::AssistantPartial { text: "hel".into() });
    app.handle_ui_event(UiEvent::AssistantMessage {
        content: "hello world".into(),
    });

    match app.blocks.last() {
        Some(TranscriptBlock::Assistant {
            text, streaming, ..
        }) => {
            assert_eq!(text, "hello world");
            assert!(!*streaming);
        }
        other => panic!("expected finalised Assistant, got {other:?}"),
    }
}

#[test]
fn transcript_assistant_text_without_prior_stream_creates_block() {
    let mut app = App::new();
    app.screen = AppScreen::Chat;
    app.handle_ui_event(UiEvent::AssistantMessage {
        content: "single shot".into(),
    });
    match app.blocks.last() {
        Some(TranscriptBlock::Assistant {
            text, streaming, ..
        }) => {
            assert_eq!(text, "single shot");
            assert!(!*streaming);
        }
        other => panic!("expected non-streaming Assistant, got {other:?}"),
    }
}

#[test]
fn tool_call_and_result_pair_by_id() {
    let mut app = App::new();
    app.screen = AppScreen::Chat;
    app.handle_ui_event(UiEvent::ToolCall {
        id: "abc".into(),
        name: "Read".into(),
        arguments: r#"{"path":"src/agent.rs"}"#.into(),
    });
    app.handle_ui_event(UiEvent::ToolResult {
        id: "abc".into(),
        name: "Read".into(),
        output: "ok".into(),
        success: true,
    });

    let tool_calls: Vec<_> = app
        .blocks
        .iter()
        .filter(|b| matches!(b, TranscriptBlock::ToolCall { id, .. } if id == "abc"))
        .collect();
    assert_eq!(tool_calls.len(), 1, "ToolResult must merge into ToolCall");
    let block = tool_calls[0];
    match block {
        TranscriptBlock::ToolCall {
            id,
            result: Some(r),
            ..
        } => {
            assert_eq!(id, "abc");
            assert!(r.success);
            assert_eq!(r.output, "ok");
        }
        other => panic!("expected ToolCall with Some(result), got {other:?}"),
    }
}

#[test]
fn write_file_result_renders_diff_block() {
    let mut app = App::new();
    app.screen = AppScreen::Chat;
    app.handle_ui_event(UiEvent::ToolCall {
        id: "1".into(),
        name: "Write".into(),
        arguments: r#"{"path":"src/new.rs","contents":"x"}"#.into(),
    });
    app.handle_ui_event(UiEvent::ToolResult {
        id: "1".into(),
        name: "Write".into(),
        output: "Wrote 42 bytes to src/new.rs".into(),
        success: true,
    });
    let has_diff = app.blocks.iter().any(
        |b| matches!(b, TranscriptBlock::Diff { path, .. } if path.contains("src/new.rs")),
    );
    assert!(has_diff, "expected Diff block from Write");
}

#[test]
fn compacted_event_creates_compacted_block() {
    let mut app = App::new();
    app.screen = AppScreen::Chat;
    app.handle_ui_event(UiEvent::Compacted {
        removed: 12,
        kept: 1,
    });
    assert!(matches!(
        app.blocks.last(),
        Some(TranscriptBlock::Compacted {
            removed: 12,
            kept: 1
        })
    ));
}

#[test]
fn usage_stats_accumulate_across_turns() {
    let mut app = App::new();
    app.screen = AppScreen::Chat;
    app.handle_ui_event(UiEvent::Usage {
        input_tokens: 100,
        output_tokens: 50,
        cache_hit_tokens: 60,
        cache_miss_tokens: 40,
    });
    app.handle_ui_event(UiEvent::Usage {
        input_tokens: 30,
        output_tokens: 20,
        cache_hit_tokens: 10,
        cache_miss_tokens: 20,
    });
    assert_eq!(app.usage.total_input, 130);
    assert_eq!(app.usage.total_output, 70);
    assert_eq!(app.usage.input_tokens, 30);
    assert_eq!(app.usage.output_tokens, 20);
    assert_eq!(app.usage.total_cache_hit, 70);
    assert_eq!(app.usage.total_cache_miss, 60);
    assert_eq!(app.usage.cache_hit_tokens, 10);
    assert_eq!(app.usage.cache_miss_tokens, 20);
}

#[test]
fn turn_started_resets_per_turn_cache_but_keeps_totals() {
    let mut app = App::new();
    app.screen = AppScreen::Chat;
    app.handle_ui_event(UiEvent::Usage {
        input_tokens: 100,
        output_tokens: 50,
        cache_hit_tokens: 0,
        cache_miss_tokens: 100,
    });
    app.handle_ui_event(UiEvent::Usage {
        input_tokens: 10,
        output_tokens: 20,
        cache_hit_tokens: 100,
        cache_miss_tokens: 10,
    });
    assert_eq!(app.usage.turn_cache_hit, 100);
    assert_eq!(app.usage.turn_cache_miss, 110);

    app.handle_ui_event(UiEvent::TurnStarted);
    assert_eq!(app.usage.turn_cache_hit, 0);
    assert_eq!(app.usage.turn_cache_miss, 0);
    assert_eq!(app.usage.total_cache_hit, 100);
    assert_eq!(app.usage.total_cache_miss, 110);

    app.handle_ui_event(UiEvent::Usage {
        input_tokens: 5,
        output_tokens: 5,
        cache_hit_tokens: 200,
        cache_miss_tokens: 5,
    });
    assert_eq!(app.usage.turn_cache_hit, 200);
    assert_eq!(app.usage.turn_cache_miss, 5);
}

#[test]
fn error_event_pushes_error_block() {
    let mut app = App::new();
    app.screen = AppScreen::Chat;
    app.handle_ui_event(UiEvent::Error {
        message: "boom".into(),
    });
    assert!(matches!(
        app.blocks.last(),
        Some(TranscriptBlock::Error { text }) if text.contains("boom")
    ));
}

#[test]
fn plan_proposed_event_opens_plan_review_modal() {
    let mut app = App::new();
    app.screen = AppScreen::Chat;
    app.handle_ui_event(UiEvent::PlanProposed {
        plan_text: "1. Read\n2. Edit".into(),
        tool_calls: vec![read_call()],
    });
    assert!(app.modals.is_empty());
    assert!(app.blocks.iter().any(|b| matches!(b,
        TranscriptBlock::PlanProposal { plan_text, .. }
            if plan_text.contains("Read"))));
    assert!(app.plan_awaiting_approval);
}

#[test]
fn plan_confirmed_closes_modal_and_pushes_system_block() {
    let mut app = App::new();
    app.screen = AppScreen::Chat;
    app.modals.push(Modal::PlanReview {
        plan_text: "do".into(),
        tool_calls: vec![],
        edited_text: None,
    });
    app.handle_ui_event(UiEvent::PlanConfirmed);
    assert!(app.modals.is_empty());
    assert!(app
        .blocks
        .iter()
        .any(|b| matches!(b, TranscriptBlock::System { text } if text == "Plan approved")));
}

#[test]
fn plan_rejected_pushes_system_block_with_reason() {
    let mut app = App::new();
    app.screen = AppScreen::Chat;
    app.modals.push(Modal::PlanReview {
        plan_text: "do".into(),
        tool_calls: vec![],
        edited_text: None,
    });
    app.handle_ui_event(UiEvent::PlanRejected {
        reason: "user rejected".into(),
    });
    assert!(app.modals.is_empty());
    assert!(app.blocks.iter().any(|b| matches!(b,
        TranscriptBlock::System { text } if text == "Plan rejected: user rejected")));
}

#[test]
fn new_event_keeps_scroll_offset_when_user_scrolled_up() {
    let mut app = App::new();
    app.screen = AppScreen::Chat;
    app.scroll_offset = 5;
    app.handle_ui_event(UiEvent::AssistantMessage {
        content: "hello".into(),
    });
    assert_eq!(app.scroll_offset, 5);
}

#[test]
fn new_event_at_bottom_keeps_user_at_bottom() {
    let mut app = App::new();
    app.screen = AppScreen::Chat;
    app.scroll_offset = 0;
    app.handle_ui_event(UiEvent::AssistantMessage {
        content: "hello".into(),
    });
    assert_eq!(app.scroll_offset, 0);
}

#[test]
fn turn_finished_stops_turn() {
    let mut app = App::new();
    app.screen = AppScreen::Chat;
    app.set_input("hi");
    app.handle_ui_event(UiEvent::TurnFinished);
    assert!(!app.turn.running);
}

#[test]
fn turn_started_rearms_spinner_after_finish() {
    let mut app = App::new();
    app.screen = AppScreen::Chat;
    app.handle_ui_event(UiEvent::TurnFinished);
    assert!(!app.turn.running, "precondition: spinner cleared on finish");

    app.handle_ui_event(UiEvent::TurnStarted);
    assert!(app.turn.running, "TurnStarted must re-arm the spinner");
    assert!(app.turn.started_at.is_some(), "spinner timer must reset");
}
