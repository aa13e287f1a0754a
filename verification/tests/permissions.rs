//! Permission requests and plans.
use recursive_tui::app::App;
use recursive_tui::events::{PermissionRequest, UiEvent, UserAction};
use recursive_tui::keys::{KeyCode, KeyEvent, KeyModifiers};
use recursive_tui::model::TranscriptBlock;

fn make_perm(tool: &str, args: &str) -> App {
    let mut app = App::new();
    let req = PermissionRequest {
        tool_name: tool.to_string(),
        args_preview: args.to_string(),
    };
    app.set_pending_permission(req);
    app
}

fn k(code: KeyCode) -> KeyEvent {
    KeyEvent::new(code, KeyModifiers::none())
}

#[test]
fn pending_permission_set_and_stored() {
    let app = make_perm("Bash", "ls -la");
    assert!(app.pending_permission.is_some());
    let p = app.pending_permission.as_ref().unwrap();
    assert_eq!(p.tool_name, "Bash");
    assert_eq!(p.args_preview, "ls -la");
}

#[test]
fn y_key_sends_true_and_clears_modal() {
    let mut app = make_perm("Bash", "ls");
    app.handle_permission_key(k(KeyCode::Char('y')));
    assert!(app.pending_permission.is_none());
    assert_eq!(app.permission_reply, Some(true));
}

#[test]
fn n_key_sends_false_and_clears_modal() {
    let mut app = make_perm("Bash", "rm -rf /");
    app.handle_permission_key(k(KeyCode::Char('n')));
    assert!(app.pending_permission.is_none());
    assert_eq!(app.permission_reply, Some(false));
}

#[test]
fn esc_key_sends_false() {
    let mut app = make_perm("Write", "path=foo.txt");
    app.handle_permission_key(k(KeyCode::Esc));
    assert!(app.pending_permission.is_none());
    assert_eq!(app.permission_reply, Some(false));
}

#[test]
fn enter_key_sends_true() {
    let mut app = make_perm("Read", "path=foo.txt");
    app.handle_permission_key(k(KeyCode::Enter));
    assert!(app.pending_permission.is_none());
    assert_eq!(app.permission_reply, Some(true));
}

#[test]
fn a_key_sends_true_and_adds_to_auto_allowed() {
    let mut app = make_perm("Bash", "cargo test");
    app.handle_permission_key(k(KeyCode::Char('a')));
    assert!(app.pending_permission.is_none());
    assert_eq!(app.permission_reply, Some(true));
    assert!(app.auto_allows("Bash"));
}

#[test]
fn auto_allowed_tool_skips_modal() {
    let mut app = App::new();
    app.auto_allowed_tools.push("Bash".to_string());
    let req = PermissionRequest {
        tool_name: "Bash".to_string(),
        args_preview: "cargo build".to_string(),
    };
    app.set_pending_permission(req);
    assert!(app.pending_permission.is_none());
    assert_eq!(app.permission_reply, Some(true));
}

#[test]
fn handle_key_routes_to_permission_when_pending() {
    let mut app = App::new();
    let req = PermissionRequest {
        tool_name: "Write".to_string(),
        args_preview: "path=foo.rs".to_string(),
    };
    app.pending_permission = Some(PermissionRequest {
        tool_name: req.tool_name,
        args_preview: req.args_preview,
    });
    assert!(app.pending_permission.is_some());
    app.handle_key(k(KeyCode::Char('n')));
    assert!(app.pending_permission.is_none());
}

#[test]
fn plan_mode_requested_event_sets_pending_flag() {
    let mut app = App::new();
    app.handle_ui_event(UiEvent::PlanModeRequested {
        reason: "The task is complex".into(),
    });
    assert!(app.plan_mode_request_pending);
    assert!(app.blocks.iter().any(|b| matches!(b,
        TranscriptBlock::PlanModeRequest { reason, approved: None }
            if reason.contains("complex"))));
}

#[test]
fn plan_mode_request_y_dispatches_approve_action() {
    let mut app = App::new();
    app.handle_ui_event(UiEvent::PlanModeRequested {
        reason: "need to plan".into(),
    });
    assert!(app.plan_mode_request_pending);
    let action = app.handle_key(k(KeyCode::Char('y')));
    assert!(!app.plan_mode_request_pending, "flag should be cleared");
    assert!(matches!(action, Some(UserAction::ApprovePlanMode)));
}

#[test]
fn plan_mode_request_n_dispatches_reject_action() {
    let mut app = App::new();
    app.handle_ui_event(UiEvent::PlanModeRequested {
        reason: "need to plan".into(),
    });
    let action = app.handle_key(k(KeyCode::Char('n')));
    assert!(!app.plan_mode_request_pending, "flag should be cleared");
    assert!(matches!(action, Some(UserAction::RejectPlanMode(r)) if r == "user skipped"));
}

#[test]
fn plan_mode_approved_event_marks_block() {
    let mut app = App::new();
    app.handle_ui_event(UiEvent::PlanModeRequested {
        reason: "complex".into(),
    });
    app.handle_ui_event(UiEvent::PlanModeApproved);
    assert!(!app.plan_mode_request_pending);
    assert!(app.blocks.iter().any(|b| matches!(
        b,
        TranscriptBlock::PlanModeRequest {
            approved: Some(true),
            ..
        }
    )));
}

#[test]
fn inline_plan_y_dispatches_confirm_and_clears_flag() {
    let mut app = App::new();
    app.handle_ui_event(UiEvent::PlanProposed {
        plan_text: "do the thing".into(),
        tool_calls: vec![],
    });
    assert!(app.plan_awaiting_approval);
    let action = app.handle_key(k(KeyCode::Char('y')));
    assert!(!app.plan_awaiting_approval, "flag should be cleared");
    assert!(matches!(action, Some(UserAction::ConfirmPlan)));
    assert!(app.input().is_empty());
}

#[test]
fn inline_plan_enter_dispatches_confirm_and_clears_flag() {
    let mut app = App::new();
    app.handle_ui_event(UiEvent::PlanProposed {
        plan_text: "do the thing".into(),
        tool_calls: vec![],
    });
    let action = app.handle_key(k(KeyCode::Enter));
    assert!(!app.plan_awaiting_approval);
    assert!(matches!(action, Some(UserAction::ConfirmPlan)));
}

#[test]
fn inline_plan_n_dispatches_reject_and_clears_flag() {
    let mut app = App::new();
    app.handle_ui_event(UiEvent::PlanProposed {
        plan_text: "do the thing".into(),
        tool_calls: vec![],
    });
    let action = app.handle_key(k(KeyCode::Char('n')));
    assert!(!app.plan_awaiting_approval);
    match action {
        Some(UserAction::RejectPlan(r)) => assert_eq!(r, "user rejected"),
        other => panic!("expected RejectPlan, got {other:?}"),
    }
}

#[test]
fn inline_plan_e_copies_text_to_input_and_emits_reject() {
    let mut app = App::new();
    app.handle_ui_event(UiEvent::PlanProposed {
        plan_text: "the plan text".into(),
        tool_calls: vec![],
    });
    let action = app.handle_key(k(KeyCode::Char('e')));
    assert!(!app.plan_awaiting_approval);
    assert_eq!(app.input(), "the plan text");
    match action {
        Some(UserAction::RejectPlan(r)) => assert_eq!(r, "user edited"),
        other => panic!("expected RejectPlan(user edited), got {other:?}"),
    }
}

#[test]
fn inline_plan_other_key_consumed_flag_stays() {
    let mut app = App::new();
    app.handle_ui_event(UiEvent::PlanProposed {
        plan_text: "the plan text".into(),
        tool_calls: vec![],
    });
    let action = app.handle_key(k(KeyCode::Char('z')));
    assert!(
        app.plan_awaiting_approval,
        "flag must stay set for other keys"
    );
    assert!(action.is_none());
    assert!(app.input().is_empty());
}

#[test]
fn plan_mode_rejected_event_marks_block() {
    let mut app = App::new();
    app.handle_ui_event(UiEvent::PlanModeRequested {
        reason: "complex".into(),
    });
    app.handle_ui_event(UiEvent::PlanModeRejected {
        reason: "user skipped".into(),
    });
    assert!(!app.plan_mode_request_pending);
    assert!(app.blocks.iter().any(|b| matches!(
        b,
        TranscriptBlock::PlanModeRequest {
            approved: Some(false),
            ..
        }
    )));
}
