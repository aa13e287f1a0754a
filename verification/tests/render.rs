//! Previews, diffs and saved conversations.
use recursive_tui::message::{Message, Role, ToolCall};
use recursive_tui::model::{DiffLineKind, TranscriptBlock};
use recursive_tui::render::{
    blocks_from_messages, clamp, extract_write_file_path_from_result, parse_v4a_patch,
    preview_args, verb_for_tool,
};

fn message(role: Role, content: &str) -> Message {
    Message {
        role,
        content: content.to_string(),
        tool_calls: Vec::new(),
        tool_call_id: None,
        reasoning_content: None,
    }
}

fn tool_result(id: &str, content: &str) -> Message {
    Message { tool_call_id: Some(id.to_string()), ..message(Role::Tool, content) }
}

#[test]
fn tool_call_args_preview_extracts_path() {
    let preview = preview_args(r#"{"path":"src/agent.rs"}"#);
    assert!(preview.contains("path"));
    assert!(preview.contains("src/agent.rs"));
}

#[test]
fn blocks_from_messages_reconstructs_conversation() {
    let messages = vec![
        message(Role::System, "you are a helpful agent"),
        message(Role::User, "hello"),
        Message {
            tool_calls: vec![ToolCall {
                id: "call-1".into(),
                name: "Read".into(),
                arguments: r#"{"path":"src/foo.rs"}"#.into(),
            }],
            ..message(Role::Assistant, "let me check")
        },
        tool_result("call-1", "file contents here"),
        message(Role::Assistant, "all done"),
    ];

    let blocks = blocks_from_messages(&messages);

    assert!(!blocks
        .iter()
        .any(|b| matches!(b, TranscriptBlock::System { .. })));
    assert!(matches!(&blocks[0], TranscriptBlock::User { text } if text == "hello"));
    assert!(
        matches!(&blocks[1], TranscriptBlock::Assistant { text, .. } if text == "let me check")
    );
    match &blocks[2] {
        TranscriptBlock::ToolCall { id, name, result, .. } => {
            assert_eq!(id, "call-1");
            assert_eq!(name, "Read");
            let r = result.as_ref().expect("tool result should be filled");
            assert!(r.success);
            assert_eq!(r.output, "file contents here");
        }
        other => panic!("expected ToolCall, got {other:?}"),
    }
    assert!(matches!(&blocks[3], TranscriptBlock::Assistant { text, .. } if text == "all done"));
}

#[test]
fn unseen_messages_leave_no_trace() {
    let seen = vec![message(Role::User, "hi"), message(Role::Assistant, "hello")];
    let mut all = seen.clone();
    all.insert(0, message(Role::System, "rules"));
    all.insert(2, message(Role::User, " \n"));
    assert_eq!(blocks_from_messages(&all), blocks_from_messages(&seen));
}

#[test]
fn blocks_from_messages_orphan_tool_result_renders_standalone() {
    let messages = vec![tool_result("orphan", "result body")];
    let blocks = blocks_from_messages(&messages);
    assert_eq!(blocks.len(), 1);
    match &blocks[0] {
        TranscriptBlock::ToolCall { id, result, .. } => {
            assert_eq!(id, "orphan");
            assert_eq!(result.as_ref().unwrap().output, "result body");
        }
        other => panic!("expected ToolCall, got {other:?}"),
    }
}

#[test]
fn verb_for_tool_categorises_tools() {
    assert_eq!(verb_for_tool("Read"), "Reading");
    assert_eq!(verb_for_tool("Edit"), "Editing");
    assert_eq!(verb_for_tool("Bash"), "Running");
    assert_eq!(verb_for_tool("custom_xyz"), "Calling tool");
}

#[test]
fn parse_v4a_patch_extracts_path_and_pm_lines() {
    let patch = "*** Begin Patch\n*** Update File: src/foo.rs\n@@ pub fn bar()\n pub fn bar() {\n-    let x = 1;\n+    let x = 2;\n }\n*** End Patch";
    let (path, hunks) = parse_v4a_patch(patch).unwrap();
    assert_eq!(path, "src/foo.rs");
    assert!(!hunks.is_empty());
    let kinds: Vec<_> = hunks
        .iter()
        .flat_map(|h| h.lines.iter().map(|l| l.kind.clone()))
        .collect();
    assert!(kinds.contains(&DiffLineKind::Add));
    assert!(kinds.contains(&DiffLineKind::Remove));
}

#[test]
fn blocks_from_messages_emits_reasoning_block_when_non_empty() {
    let msg = Message {
        reasoning_content: Some("thinking hard".to_string()),
        ..message(Role::Assistant, "")
    };
    let blocks = blocks_from_messages(&[msg]);
    assert_eq!(blocks.len(), 1, "expected exactly one Reasoning block, got {blocks:?}");
    assert!(matches!(
        &blocks[0],
        TranscriptBlock::Reasoning { text, .. } if text == "thinking hard"
    ));
}

#[test]
fn clamp_returns_input_unchanged_at_exact_max() {
    assert_eq!(clamp("abcd", 4), "abcd");
}

#[test]
fn extract_write_file_path_from_result_finds_path_after_to() {
    let path = extract_write_file_path_from_result("Wrote 42 bytes to crates/foo/bar.rs");
    assert_eq!(path.as_deref(), Some("crates/foo/bar.rs"));
}
