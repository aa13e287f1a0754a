//! The agent worker.
use recursive_tui::backend::worker::{
    ArbiterDecision, Effect, LoopState, NextStep, Trigger, TurnEnd, TurnJob, TurnKind, TurnStep,
    WeixinStep, Worker,
};
use recursive_tui::backend::{
    compact_reply, map_agent_event, mcp_reply, mcp_server_transport, permission_decision,
    resume_reply, session_slug, switch_reply, weixin_final_text, AgentEvent, McpServer,
    PermissionDecision, RuntimeOutcome,
};
use recursive_tui::events::{UiEvent, UserAction};
use recursive_tui::runtime_builder::RuntimeBuild;

#[test]
fn map_partial_token_to_assistant_partial() {
    let ev = AgentEvent::PartialToken {
        text: "hel".into(),
        step: 0,
    };
    assert_eq!(
        map_agent_event(ev),
        Some(UiEvent::AssistantPartial { text: "hel".into() })
    );
}

#[test]
fn weixin_final_text_extracts_outcome_final_text() {
    let outcome = RuntimeOutcome { final_text: Some("hello".into()) };
    let got = weixin_final_text(Ok(Ok(Some(outcome))));
    assert_eq!(got.as_deref(), Some("hello"));
}

#[test]
fn weixin_final_text_returns_none_when_no_outcome() {
    let none_outcome: Result<Result<Option<RuntimeOutcome>, String>, String> = Ok(Ok(None));
    assert_eq!(weixin_final_text(none_outcome), None);
}

#[test]
fn map_assistant_text_to_assistant_message() {
    let ev = AgentEvent::AssistantText {
        text: "hi".into(),
        step: 0,
    };
    assert_eq!(
        map_agent_event(ev),
        Some(UiEvent::AssistantMessage {
            content: "hi".into()
        })
    );
}

#[test]
fn map_tool_result_error_prefix_marks_failure() {
    let ev = AgentEvent::ToolResult {
        id: "1".into(),
        name: "Read".into(),
        output: "ERROR: missing".into(),
        step: 0,
        is_error: true,
    };
    let mapped = map_agent_event(ev).unwrap();
    match mapped {
        UiEvent::ToolResult { success, .. } => assert!(!success),
        other => panic!("expected ToolResult, got {other:?}"),
    }
}

#[test]
fn map_compacted_event() {
    let ev = AgentEvent::Compacted {
        removed: 5,
        kept: 2,
        summary_chars: 800,
        step: 0,
    };
    assert_eq!(
        map_agent_event(ev),
        Some(UiEvent::Compacted {
            removed: 5,
            kept: 2
        })
    );
}

#[test]
fn map_plan_proposed_is_forwarded() {
    let ev = AgentEvent::PlanProposed {
        plan_text: "p".into(),
        tool_calls: vec![],
    };
    match map_agent_event(ev) {
        Some(UiEvent::PlanProposed {
            plan_text,
            tool_calls,
        }) => {
            assert_eq!(plan_text, "p");
            assert!(tool_calls.is_empty());
        }
        other => panic!("expected PlanProposed forward, got {other:?}"),
    }
}

#[test]
fn map_plan_confirmed_is_forwarded() {
    let mapped = map_agent_event(AgentEvent::PlanConfirmed);
    assert_eq!(mapped, Some(UiEvent::PlanConfirmed));
}

#[test]
fn map_plan_rejected_is_forwarded() {
    let mapped = map_agent_event(AgentEvent::PlanRejected {
        reason: "user rejected".into(),
    });
    assert_eq!(
        mapped,
        Some(UiEvent::PlanRejected {
            reason: "user rejected".into(),
        })
    );
}

#[test]
fn loop_state_defaults() {
    let ls = LoopState {
        active: true,
        turns_run: 5,
        max_turns: 10,
    };
    assert!(ls.active);
    assert_eq!(ls.turns_run, 5);
    assert_eq!(ls.max_turns, 10);
}

#[test]
fn map_partial_reasoning_to_reasoning_partial() {
    let ev = AgentEvent::PartialReasoning {
        text: "th".into(),
        step: 0,
    };
    assert_eq!(
        map_agent_event(ev),
        Some(UiEvent::ReasoningPartial { text: "th".into() })
    );
}

#[test]
fn map_reasoning_to_reasoning() {
    let ev = AgentEvent::Reasoning {
        text: "think".into(),
        step: 0,
    };
    assert_eq!(
        map_agent_event(ev),
        Some(UiEvent::Reasoning {
            content: "think".into()
        })
    );
}

#[test]
fn map_tool_call_to_tool_call() {
    let ev = AgentEvent::ToolCall {
        name: "Read".into(),
        id: "c1".into(),
        arguments: "{}".into(),
        step: 0,
    };
    assert_eq!(
        map_agent_event(ev),
        Some(UiEvent::ToolCall {
            id: "c1".into(),
            name: "Read".into(),
            arguments: "{}".into(),
        })
    );
}

#[test]
fn map_usage_to_usage() {
    let ev = AgentEvent::Usage {
        input_tokens: 10,
        output_tokens: 20,
        cache_hit_tokens: 30,
        cache_miss_tokens: 40,
        step: 0,
    };
    assert_eq!(
        map_agent_event(ev),
        Some(UiEvent::Usage {
            input_tokens: 10,
            output_tokens: 20,
            cache_hit_tokens: 30,
            cache_miss_tokens: 40,
        })
    );
}

#[test]
fn map_context_breakdown_to_context_breakdown() {
    let ev = AgentEvent::ContextBreakdown { breakdown: r#"{"system":12}"#.into(), step: 0 };
    assert_eq!(
        map_agent_event(ev),
        Some(UiEvent::ContextBreakdown { breakdown: r#"{"system":12}"#.into() })
    );
}

#[test]
fn map_latency_to_latency() {
    let ev = AgentEvent::Latency {
        step: 0,
        llm_ms: 123,
    };
    assert_eq!(map_agent_event(ev), Some(UiEvent::Latency { llm_ms: 123 }));
}

#[test]
fn map_turn_finished_to_turn_finished() {
    let ev = AgentEvent::TurnFinished {
        reason: "done".into(),
        steps: 3,
    };
    assert_eq!(map_agent_event(ev), Some(UiEvent::TurnFinished));
}

#[test]
fn map_plan_mode_requested() {
    let ev = AgentEvent::PlanModeRequested {
        reason: "why".into(),
    };
    assert_eq!(
        map_agent_event(ev),
        Some(UiEvent::PlanModeRequested {
            reason: "why".into()
        })
    );
}

#[test]
fn map_plan_mode_approved() {
    assert_eq!(
        map_agent_event(AgentEvent::PlanModeApproved),
        Some(UiEvent::PlanModeApproved)
    );
}

#[test]
fn map_plan_mode_rejected() {
    let ev = AgentEvent::PlanModeRejected {
        reason: "no".into(),
    };
    assert_eq!(
        map_agent_event(ev),
        Some(UiEvent::PlanModeRejected {
            reason: "no".into()
        })
    );
}

#[test]
fn map_todo_updated() {
    let ev = AgentEvent::TodoUpdated { todos: vec![] };
    assert_eq!(
        map_agent_event(ev),
        Some(UiEvent::TodoUpdated { todos: vec![] })
    );
}

#[test]
fn map_goal_continuing() {
    let ev = AgentEvent::GoalContinuing {
        reason: "not yet".into(),
        turns: 2,
    };
    assert_eq!(
        map_agent_event(ev),
        Some(UiEvent::GoalContinuing {
            reason: "not yet".into(),
            turns: 2
        })
    );
}

#[test]
fn map_goal_achieved() {
    let ev = AgentEvent::GoalAchieved {
        condition: "done".into(),
        turns: 5,
    };
    assert_eq!(
        map_agent_event(ev),
        Some(UiEvent::GoalAchieved {
            condition: "done".into(),
            turns: 5
        })
    );
}

#[test]
fn map_goal_cleared() {
    assert_eq!(
        map_agent_event(AgentEvent::GoalCleared),
        Some(UiEvent::GoalCleared)
    );
}

#[test]
fn map_hook_started() {
    let ev = AgentEvent::HookStarted {
        hook_event: "PreTool".into(),
        hook_name: "fmt".into(),
        status_message: Some("running".into()),
    };
    assert_eq!(
        map_agent_event(ev),
        Some(UiEvent::HookStarted {
            hook_event: "PreTool".into(),
            hook_name: "fmt".into(),
            status_message: Some("running".into()),
        })
    );
}

#[test]
fn map_hook_progress() {
    let ev = AgentEvent::HookProgress {
        hook_event: "PreTool".into(),
        hook_name: "fmt".into(),
        last_line: "ok".into(),
    };
    assert_eq!(
        map_agent_event(ev),
        Some(UiEvent::HookProgress {
            hook_event: "PreTool".into(),
            hook_name: "fmt".into(),
            last_line: "ok".into(),
        })
    );
}

#[test]
fn map_hook_finished() {
    let ev = AgentEvent::HookFinished {
        hook_event: "PreTool".into(),
        hook_name: "fmt".into(),
        outcome: "passed".into(),
        duration_ms: 42,
    };
    assert_eq!(
        map_agent_event(ev),
        Some(UiEvent::HookFinished {
            hook_event: "PreTool".into(),
            hook_name: "fmt".into(),
            outcome: "passed".into(),
            duration_ms: 42,
        })
    );
}

#[test]
fn map_hook_system_message() {
    let ev = AgentEvent::HookSystemMessage { text: "hi".into() };
    assert_eq!(
        map_agent_event(ev),
        Some(UiEvent::HookSystemMessage { text: "hi".into() })
    );
}

#[test]
fn mcp_server_transport_classifies_http_url() {
    let s = McpServer {
        name: "h".into(),
        command: String::new(),
        args: vec![],
        url: Some("http://x".into()),
        env: None,
    };
    assert_eq!(mcp_server_transport(&s), "http");
}

#[test]
fn mcp_server_transport_classifies_stdio_command() {
    let s = McpServer {
        name: "s".into(),
        command: "node".into(),
        args: vec![],
        url: None,
        env: None,
    };
    assert_eq!(mcp_server_transport(&s), "stdio");
}

#[test]
fn mcp_server_transport_classifies_unknown_when_empty() {
    let s = McpServer {
        name: "u".into(),
        command: String::new(),
        args: vec![],
        url: None,
        env: None,
    };
    assert_eq!(mcp_server_transport(&s), "unknown");
}

// ---------------------------------------------------------------------------
// The worker, step by step
// ---------------------------------------------------------------------------

fn ready() -> Worker {
    Worker::start(RuntimeBuild::Ready).0
}

fn offline() -> Worker {
    Worker::start(RuntimeBuild::Offline { reason: "no key in offline mode".into() }).0
}

fn told(effects: &[Effect]) -> Vec<UiEvent> {
    effects
        .iter()
        .filter_map(|e| match e {
            Effect::Emit(ev) => Some(ev.clone()),
            _ => None,
        })
        .collect()
}

fn started_turn(effects: &[Effect]) -> Option<TurnJob> {
    effects.iter().find_map(|e| match e {
        Effect::RunTurn(job) => Some(job.clone()),
        _ => None,
    })
}

/// Runs the worker until it waits, with every turn coming to its end, and
/// returns what the interface was told.
fn run_until_waiting(w: &mut Worker) -> Vec<UiEvent> {
    let mut out = Vec::new();
    loop {
        match w.next_step() {
            NextStep::StopLoop => out.push(UiEvent::LoopStopped),
            NextStep::Act(action) => {
                let effects = w.handle_action(action, false);
                out.extend(told(&effects));
                if w.turn.is_some() {
                    out.extend(told(&w.finish_turn(TurnEnd::Done(None), true)));
                }
            }
            NextStep::Arbitrate | NextStep::Wait => return out,
        }
    }
}

#[test]
fn worker_says_first_whether_there_is_a_runtime() {
    assert_eq!(Worker::start(RuntimeBuild::Ready).1, UiEvent::RuntimeReady);
    let (w, first) = Worker::start(RuntimeBuild::Offline { reason: "why".into() });
    assert_eq!(first, UiEvent::RuntimeOffline { reason: "why".into() });
    assert!(!w.has_runtime);
}

#[test]
fn run_shell_action_works_when_runtime_offline() {
    let mut w = offline();
    let effects = w.handle_action(UserAction::RunShell("echo hi".into()), false);
    assert!(matches!(&effects[..], [Effect::RunShell(c)] if c == "echo hi"));
}

#[test]
fn interrupt_action_sets_cancel_flag() {
    let mut w = ready();
    let effects = w.handle_action(UserAction::Interrupt, false);
    assert!(matches!(&effects[..], [Effect::RaiseCancel]));
}

#[test]
fn interrupt_aborts_running_turn_and_emits_interrupted() {
    let mut w = ready();
    let effects = w.handle_action(UserAction::SendMessage("work".into()), false);
    assert!(started_turn(&effects).is_some());
    let step = w.handle_turn_action(Some(UserAction::SendMessage("later".into())));
    assert!(matches!(step, TurnStep::Nothing));
    assert_eq!(w.queued.len(), 1);
    let step = w.handle_turn_action(Some(UserAction::Interrupt));
    assert!(matches!(step, TurnStep::RaiseCancel));
    let effects = w.finish_turn(TurnEnd::Cancelled, true);
    assert_eq!(told(&effects), vec![UiEvent::Interrupted, UiEvent::TurnFinished]);
    assert!(effects.iter().any(|e| matches!(e, Effect::RewindTranscript)));
    assert!(w.queued.is_empty());
    assert!(w.has_runtime);
}

#[test]
fn start_loop_emits_loop_started_and_runs_turn() {
    let mut w = ready();
    let effects = w.handle_action(
        UserAction::StartLoop { goal: "test goal".into(), max_turns: 2 },
        false,
    );
    assert!(matches!(&effects[0], Effect::OpenSession(name) if name == "test goal"));
    assert_eq!(told(&effects), vec![UiEvent::LoopStarted { goal: "test goal".into() }]);
    let seen = run_until_waiting(&mut w);
    assert_eq!(seen, vec![UiEvent::TurnStarted, UiEvent::TurnFinished]);
}

#[test]
fn stop_loop_emits_loop_stopped() {
    let mut w = ready();
    w.handle_action(UserAction::StartLoop { goal: "test".into(), max_turns: 10 }, false);
    run_until_waiting(&mut w);
    assert!(matches!(w.next_step(), NextStep::Arbitrate));
    let d = w.arbitrate(Trigger::Action(UserAction::StopLoop));
    let (seen, action) = w.apply_decision(d);
    assert_eq!(seen, vec![UiEvent::LoopStopped]);
    assert!(action.is_none());
    assert!(w.loop_state.is_none());
}

#[test]
fn set_goal_rejected_during_loop() {
    let mut w = ready();
    w.handle_action(UserAction::StartLoop { goal: "test".into(), max_turns: 10 }, false);
    run_until_waiting(&mut w);
    let goal = UserAction::SetGoal { condition: "achieve".into(), max_turns: 5 };
    let d = w.arbitrate(Trigger::Action(goal));
    let (_, action) = w.apply_decision(d);
    let effects = w.handle_action(action.expect("the action comes back"), false);
    match &told(&effects)[..] {
        [UiEvent::Error { message }] => assert!(message.contains("event loop is active")),
        other => panic!("expected one error, got {other:?}"),
    }
    assert!(started_turn(&effects).is_none());
}

#[test]
fn set_goal_queued_before_the_arbiter_waits_is_rejected_too() {
    let mut w = ready();
    w.handle_action(UserAction::StartLoop { goal: "test".into(), max_turns: 10 }, false);
    run_until_waiting(&mut w);
    let goal = UserAction::SetGoal { condition: "achieve".into(), max_turns: 5 };
    let d = w.drain_action(goal.clone()).expect("the action is forwarded");
    assert!(matches!(&d, ArbiterDecision::Forward(a) if *a == goal));
    assert!(w.queued.is_empty());
    let (seen, action) = w.apply_decision(d);
    assert!(seen.is_empty());
    let effects = w.handle_action(action.expect("the action comes back"), false);
    match &told(&effects)[..] {
        [UiEvent::Error { message }] => assert!(message.contains("event loop is active")),
        other => panic!("expected one error, got {other:?}"),
    }
}

#[test]
fn actions_beside_the_loop_are_forwarded_by_the_arbiter() {
    for action in [
        UserAction::Compact,
        UserAction::RunShell("ls".into()),
        UserAction::ListMcpServers,
        UserAction::ClearGoal,
    ] {
        let mut w = ready();
        w.handle_action(UserAction::StartLoop { goal: "test".into(), max_turns: 0 }, false);
        run_until_waiting(&mut w);
        let drained = w.drain_action(action.clone());
        assert!(matches!(drained, Some(ArbiterDecision::Forward(a)) if a == action));
        let waited = w.arbitrate(Trigger::Action(action.clone()));
        assert!(matches!(waited, ArbiterDecision::Forward(a) if a == action));
    }
}

#[test]
fn shutdown_ends_the_worker_while_the_loop_waits() {
    for queued_before in [true, false] {
        let mut w = ready();
        w.handle_action(UserAction::StartLoop { goal: "test".into(), max_turns: 0 }, false);
        w.session_opened();
        run_until_waiting(&mut w);
        let d = if queued_before {
            w.drain_action(UserAction::Shutdown).expect("a shutdown decides")
        } else {
            w.arbitrate(Trigger::Action(UserAction::Shutdown))
        };
        assert!(matches!(d, ArbiterDecision::Stop));
        let (seen, action) = w.apply_decision(d);
        assert_eq!(seen, vec![UiEvent::LoopStopped]);
        let effects = w.handle_action(action.expect("the shutdown comes back"), false);
        assert!(matches!(&effects[..], [Effect::CloseSession]));
        assert!(w.ended);
        assert!(!w.has_session);
    }
}

#[test]
fn shutdown_ends_the_worker_while_a_turn_runs() {
    let mut w = ready();
    w.handle_action(UserAction::SendMessage("work".into()), false);
    w.session_opened();
    assert!(matches!(w.handle_turn_action(Some(UserAction::Shutdown)), TurnStep::Abort));
    let effects = w.finish_turn(TurnEnd::ShutDown, true);
    assert!(matches!(effects.last(), Some(Effect::CloseSession)));
    assert!(w.ended);
    assert!(!w.has_session);
}

#[test]
fn loop_stopped_during_a_turn_stops_with_it() {
    let mut w = ready();
    w.handle_action(UserAction::StartLoop { goal: "test".into(), max_turns: 0 }, false);
    let NextStep::Act(action) = w.next_step() else {
        panic!("the goal is the first message");
    };
    w.handle_action(action, false);
    assert!(matches!(w.handle_turn_action(Some(UserAction::StopLoop)), TurnStep::Nothing));
    assert!(w.turn.is_some(), "the turn goes on");
    assert!(w.loop_state.is_some());
    let effects = w.finish_turn(TurnEnd::Done(None), true);
    assert_eq!(told(&effects), vec![UiEvent::TurnFinished, UiEvent::LoopStopped]);
    assert!(w.loop_state.is_none());
    assert!(matches!(w.next_step(), NextStep::Wait));
}

#[test]
fn loop_is_rejected_while_a_goal_is_active() {
    let mut w = ready();
    let effects = w.handle_action(
        UserAction::StartLoop { goal: "g".into(), max_turns: 0 },
        true,
    );
    match &told(&effects)[..] {
        [UiEvent::Error { message }] => assert!(message.contains("goal loop is already active")),
        other => panic!("expected one error, got {other:?}"),
    }
    w.handle_action(UserAction::StartLoop { goal: "g".into(), max_turns: 0 }, false);
    let effects = w.handle_action(
        UserAction::StartLoop { goal: "h".into(), max_turns: 0 },
        false,
    );
    match &told(&effects)[..] {
        [UiEvent::Error { message }] => assert!(message.contains("Loop is already active")),
        other => panic!("expected one error, got {other:?}"),
    }
}

#[test]
fn loop_trigger_runs_turn() {
    let mut w = ready();
    w.handle_action(UserAction::StartLoop { goal: "goal".into(), max_turns: 0 }, false);
    run_until_waiting(&mut w);
    let trigger = UserAction::LoopTrigger { source: "manual".into(), prompt: "check".into() };
    let d = w.drain_action(trigger).expect("a trigger decides");
    let (seen, action) = w.apply_decision(d);
    assert_eq!(
        seen,
        vec![UiEvent::LoopTurnScheduled { source: "manual".into(), delay_secs: None }]
    );
    assert_eq!(action, Some(UserAction::SendMessage("[trigger:manual] check".into())));
    let effects = w.handle_action(action.unwrap(), false);
    assert!(started_turn(&effects).is_some());
}

#[test]
fn loop_trigger_needs_a_loop() {
    let mut w = ready();
    let effects = w.handle_action(
        UserAction::LoopTrigger { source: "s".into(), prompt: "p".into() },
        false,
    );
    assert_eq!(
        told(&effects),
        vec![UiEvent::Error { message: "No active loop. Use /loop start first.".into() }]
    );
    w.handle_action(UserAction::StartLoop { goal: "goal".into(), max_turns: 0 }, false);
    w.handle_action(UserAction::LoopTrigger { source: "s".into(), prompt: "p".into() }, false);
    assert_eq!(w.queued.back().map(|s| s.as_str()), Some("[trigger:s] p"));
}

#[test]
fn arbiter_takes_jobs_and_wakeups() {
    let mut w = ready();
    w.handle_action(UserAction::StartLoop { goal: "goal".into(), max_turns: 0 }, false);
    match w.arbitrate(Trigger::JobDone(Some(("j1".into(), "done".into())))) {
        ArbiterDecision::Run { prompt, source, delay_secs } => {
            assert_eq!(prompt, "Background job 'j1' completed:\ndone");
            assert_eq!(source, "bg-complete");
            assert_eq!(delay_secs, None);
        }
        other => panic!("expected Run, got {other:?}"),
    }
    match w.arbitrate(Trigger::Wakeup { prompt: "look".into(), delay_secs: 30 }) {
        ArbiterDecision::Run { prompt, source, delay_secs } => {
            assert_eq!(prompt, "look");
            assert_eq!(source, "wakeup");
            assert_eq!(delay_secs, Some(30));
        }
        other => panic!("expected Run, got {other:?}"),
    }
    let d = w.arbitrate(Trigger::JobDone(None));
    assert_eq!(w.apply_decision(d).0, vec![UiEvent::LoopIdle]);
    assert!(matches!(w.arbitrate(Trigger::Closed), ArbiterDecision::Stop));
    assert!(matches!(w.drain_action(UserAction::StopLoop), Some(ArbiterDecision::Stop)));
    assert!(matches!(w.drain_action(UserAction::Interrupt), Some(ArbiterDecision::Stop)));
    assert!(w
        .drain_action(UserAction::StartLoop { goal: "again".into(), max_turns: 0 })
        .is_none());
    assert!(!w.ended);
    let before = w.queued.len();
    assert!(w.drain_action(UserAction::SendMessage("m".into())).is_none());
    assert_eq!(w.queued.len(), before + 1);
}

#[test]
fn max_turns_cap_auto_stops_loop() {
    let mut w = ready();
    w.handle_action(UserAction::StartLoop { goal: "g".into(), max_turns: 1 }, false);
    let seen = run_until_waiting(&mut w);
    assert_eq!(
        seen,
        vec![UiEvent::TurnStarted, UiEvent::TurnFinished, UiEvent::LoopStopped]
    );
    assert!(w.loop_state.is_none());
}

#[test]
fn max_turns_zero_runs_unlimited_without_auto_stop() {
    let mut w = ready();
    w.handle_action(UserAction::StartLoop { goal: "g".into(), max_turns: 0 }, false);
    for i in 0..50 {
        w.queued.push_back(format!("m{i}"));
    }
    let seen = run_until_waiting(&mut w);
    assert!(seen.contains(&UiEvent::TurnFinished));
    assert!(!seen.contains(&UiEvent::LoopStopped));
    assert_eq!(w.loop_state.map(|l| l.turns_run), Some(51));
}

#[test]
fn max_turns_cap_counts_arbiter_run_turns() {
    let mut w = ready();
    w.handle_action(UserAction::StartLoop { goal: "g".into(), max_turns: 2 }, false);
    let mut seen = run_until_waiting(&mut w);
    let trigger = UserAction::LoopTrigger { source: "test".into(), prompt: "p".into() };
    let d = w.arbitrate(Trigger::Action(trigger));
    let (_, action) = w.apply_decision(d);
    seen.extend(told(&w.handle_action(action.unwrap(), false)));
    seen.extend(told(&w.finish_turn(TurnEnd::Done(None), true)));
    seen.extend(run_until_waiting(&mut w));
    let turns = seen.iter().filter(|e| **e == UiEvent::TurnStarted).count();
    assert_eq!(turns, 2, "expected exactly two turns before the cap");
    assert!(seen.contains(&UiEvent::LoopStopped), "expected LoopStopped after max_turns=2");
}

#[test]
fn messages_are_handled_in_the_order_they_came() {
    let mut w = ready();
    w.handle_action(UserAction::SendMessage("first".into()), false);
    for text in ["second", "third"] {
        w.handle_turn_action(Some(UserAction::SendMessage(text.into())));
    }
    w.finish_turn(TurnEnd::Done(None), true);
    for expected in ["second", "third"] {
        match w.next_step() {
            NextStep::Act(UserAction::SendMessage(text)) => assert_eq!(text, expected),
            other => panic!("expected {expected}, got {other:?}"),
        }
    }
    assert!(matches!(w.next_step(), NextStep::Wait));
}

#[test]
fn first_message_opens_the_session_once() {
    let mut w = ready();
    let long = "x".repeat(250);
    let effects = w.handle_action(UserAction::SendMessage(long), false);
    assert!(matches!(&effects[0], Effect::OpenSession(name) if name.len() == 200));
    w.session_opened();
    w.finish_turn(TurnEnd::Done(None), true);
    let effects = w.handle_action(UserAction::SendMessage("again".into()), false);
    assert!(matches!(&effects[0], Effect::LowerCancel));
    w.finish_turn(TurnEnd::Done(Some("it broke".into())), true);
    let effects = w.handle_action(UserAction::Shutdown, false);
    assert!(matches!(&effects[..], [Effect::CloseSession]));
    assert!(w.ended);
    assert_eq!(session_slug("short"), "short");
}

#[test]
fn failed_turn_reports_its_error() {
    let mut w = ready();
    w.handle_action(UserAction::RunSkillPrompt { prompt: "p".into() }, false);
    assert_eq!(w.turn, Some(TurnKind::Skill));
    let effects = w.finish_turn(TurnEnd::Done(Some("it broke".into())), true);
    assert_eq!(
        told(&effects),
        vec![UiEvent::Error { message: "it broke".into() }, UiEvent::TurnFinished]
    );
}

#[test]
fn turn_without_its_runtime_still_reports_what_happened() {
    let mut w = ready();
    w.handle_action(UserAction::SendMessage("m".into()), false);
    let effects = w.finish_turn(TurnEnd::Done(Some("it broke".into())), false);
    assert_eq!(told(&effects), vec![UiEvent::Error { message: "it broke".into() }]);
    assert_eq!(effects.len(), 1);
    assert!(!w.has_runtime);
    let mut w = ready();
    w.handle_action(UserAction::SendMessage("m".into()), false);
    w.handle_turn_action(Some(UserAction::SendMessage("later".into())));
    let effects = w.finish_turn(TurnEnd::Cancelled, false);
    assert_eq!(told(&effects), vec![UiEvent::Interrupted]);
    assert_eq!(effects.len(), 1);
    assert_eq!(w.queued.len(), 1);
}

#[test]
fn turn_that_was_left_may_bring_its_runtime_back() {
    let mut w = ready();
    w.handle_action(UserAction::SendMessage("m".into()), false);
    assert!(matches!(w.handle_turn_action(None), TurnStep::Detach));
    let effects = w.finish_turn(TurnEnd::Detached, true);
    assert!(matches!(
        &effects[..],
        [Effect::Emit(UiEvent::TurnFinished), Effect::LowerCancel]
    ));
    assert!(w.has_runtime);
}

#[test]
fn cancelled_skill_keeps_the_queue() {
    let mut w = ready();
    w.queued.push_back("waiting".into());
    w.handle_action(UserAction::RunSkillPrompt { prompt: "p".into() }, false);
    w.finish_turn(TurnEnd::Cancelled, true);
    assert_eq!(w.queued.len(), 1);
}

#[test]
fn turn_answers_plans_and_ends_with_the_worker() {
    let mut w = ready();
    let effects = w.handle_action(UserAction::ConfirmPlan, false);
    assert!(matches!(started_turn(&effects), Some(TurnJob::AcceptedPlan)));
    assert!(matches!(w.handle_turn_action(Some(UserAction::ConfirmPlan)), TurnStep::ApprovePlan));
    assert!(matches!(
        w.handle_turn_action(Some(UserAction::RejectPlan("no".into()))),
        TurnStep::RejectPlan(r) if r == "no"
    ));
    assert!(matches!(
        w.handle_turn_action(Some(UserAction::ApprovePlanMode)),
        TurnStep::ApprovePlanMode
    ));
    assert!(matches!(
        w.handle_turn_action(Some(UserAction::RejectPlanMode("no".into()))),
        TurnStep::RejectPlanMode(r) if r == "no"
    ));
    assert!(matches!(w.handle_turn_action(Some(UserAction::Compact)), TurnStep::Nothing));
    assert!(matches!(w.handle_turn_action(Some(UserAction::Shutdown)), TurnStep::Abort));
    let effects = w.finish_turn(TurnEnd::ShutDown, true);
    assert_eq!(told(&effects), vec![UiEvent::TurnFinished]);
    assert!(w.ended);
    let mut w = ready();
    w.handle_action(UserAction::SendMessage("m".into()), false);
    assert!(matches!(w.handle_turn_action(None), TurnStep::Detach));
    assert!(w.finish_turn(TurnEnd::Detached, false).is_empty());
    assert!(!w.has_runtime);
    assert!(w.handle_action(UserAction::SendMessage("m".into()), false).is_empty());
}

#[test]
fn goal_runs_with_its_prompt() {
    let mut w = ready();
    let effects = w.handle_action(
        UserAction::SetGoal { condition: "tests pass".into(), max_turns: 7 },
        false,
    );
    match started_turn(&effects) {
        Some(TurnJob::Goal { prompt, condition, max_turns }) => {
            assert_eq!(
                prompt,
                "Start working towards the following goal: tests pass\n\nContinue until the goal is achieved."
            );
            assert_eq!(condition, "tests pass");
            assert_eq!(max_turns, 7);
        }
        other => panic!("expected a goal, got {other:?}"),
    }
}

#[test]
fn switch_model_emits_model_switched() {
    let mut w = ready();
    let effects = w.handle_action(
        UserAction::SwitchModel { preset_id: "deepseek".into(), model: "deepseek-chat".into() },
        false,
    );
    match &effects[..] {
        [Effect::SwitchModel { preset_id, model }] => {
            let reply = switch_reply(preset_id.clone(), model.clone(), Ok(()));
            assert_eq!(
                reply,
                UiEvent::ModelSwitched {
                    preset_id: "deepseek".into(),
                    model: "deepseek-chat".into()
                }
            );
        }
        other => panic!("expected SwitchModel, got {other:?}"),
    }
    assert_eq!(
        switch_reply("p".into(), "m".into(), Err("no key".into())),
        UiEvent::Error { message: "switch model failed: no key".into() }
    );
}

#[test]
fn switch_model_offline_emits_error() {
    let mut w = offline();
    let effects = w.handle_action(
        UserAction::SwitchModel { preset_id: "deepseek".into(), model: "deepseek-chat".into() },
        false,
    );
    match &told(&effects)[..] {
        [UiEvent::Error { message }] => assert!(message.contains("offline"), "got: {message}"),
        other => panic!("expected one error, got {other:?}"),
    }
}

#[test]
fn offline_worker_answers_with_its_reason() {
    let mut w = offline();
    let reason = "no key in offline mode";
    let effects = w.handle_action(UserAction::SendMessage("hi".into()), false);
    assert_eq!(
        told(&effects),
        vec![UiEvent::Error { message: reason.into() }, UiEvent::TurnFinished]
    );
    let effects = w.handle_action(UserAction::Compact, false);
    assert_eq!(
        told(&effects),
        vec![UiEvent::Error { message: "compact unavailable in offline mode".into() }]
    );
    for action in [
        UserAction::ConfirmPlan,
        UserAction::RejectPlan("r".into()),
        UserAction::ClearGoal,
        UserAction::ResumeSession { session_dir: "/s".into() },
        UserAction::SetPlanningMode(true),
    ] {
        assert!(w.handle_action(action, false).is_empty());
    }
    let effects = w.handle_action(UserAction::ListMcpServers, false);
    assert!(matches!(&effects[..], [Effect::ListMcpServers]));
}

#[test]
fn runtime_is_asked_where_there_is_one() {
    let mut w = ready();
    assert!(matches!(&w.handle_action(UserAction::Compact, false)[..], [Effect::Compact]));
    assert!(matches!(&w.handle_action(UserAction::ClearGoal, false)[..], [Effect::ClearGoal]));
    assert!(matches!(
        &w.handle_action(UserAction::ResumeSession { session_dir: "/s".into() }, false)[..],
        [Effect::LoadSession(dir)] if dir == "/s"
    ));
    assert!(matches!(
        &w.handle_action(UserAction::RejectPlan("r".into()), false)[..],
        [Effect::RejectPlan(r)] if r == "r"
    ));
    assert!(matches!(
        &w.handle_action(UserAction::ApprovePlanMode, false)[..],
        [Effect::ApprovePlanMode]
    ));
    assert!(matches!(
        &w.handle_action(UserAction::RejectPlanMode("r".into()), false)[..],
        [Effect::RejectPlanMode(r)] if r == "r"
    ));
}

#[test]
fn wechat_message_is_shown_and_run() {
    let (shown, step) = ready().handle_weixin("u".into(), "hi".into());
    assert_eq!(
        shown,
        vec![
            UiEvent::WeixinMessage { user_id: "u".into(), text: "hi".into() },
            UiEvent::TurnStarted
        ]
    );
    assert!(matches!(step, WeixinStep::Run(text) if text == "hi"));
    let (shown, step) = offline().handle_weixin("u".into(), "hi".into());
    assert_eq!(shown.len(), 1);
    assert!(matches!(step, WeixinStep::NoAnswer));
}

// ---------------------------------------------------------------------------
// Replies
// ---------------------------------------------------------------------------

#[test]
fn tui_event_sink_emit_forwards_mapped_event() {
    let ev = AgentEvent::TurnFinished { reason: "done".into(), steps: 1 };
    assert_eq!(map_agent_event(ev), Some(UiEvent::TurnFinished));
}

#[test]
fn tui_event_sink_emit_drops_unmapped_event() {
    let ev = AgentEvent::LlmRetry { step: 0, attempt: 1, wait_ms: 10, reason: "timeout".into() };
    assert_eq!(map_agent_event(ev), None);
    assert_eq!(map_agent_event(AgentEvent::Other), None);
}

#[test]
fn permission_hook_disabled_auto_allows() {
    assert_eq!(permission_decision(false, true, Some(false)), PermissionDecision::Allow);
}

#[test]
fn permission_hook_enabled_requests_user_and_allows_on_true() {
    assert_eq!(permission_decision(true, true, Some(true)), PermissionDecision::Allow);
    let denied = PermissionDecision::Deny("denied by user".into());
    assert_eq!(permission_decision(true, true, Some(false)), denied);
    assert_eq!(permission_decision(true, true, None), denied);
    assert_eq!(permission_decision(true, false, None), PermissionDecision::Allow);
}

#[test]
fn replies_name_what_went_wrong() {
    assert_eq!(compact_reply(Ok(())), None);
    assert_eq!(
        compact_reply(Err("too short".into())),
        Some(UiEvent::Error { message: "compact failed: too short".into() })
    );
    assert_eq!(
        resume_reply(Some("s1"), Err("gone".into())),
        UiEvent::Error { message: "Failed to load session: gone".into() }
    );
    match resume_reply(None, Ok(&vec![])) {
        UiEvent::SessionResumed { session_id, turn_count, blocks } => {
            assert_eq!(session_id, "unknown");
            assert_eq!(turn_count, 0);
            assert!(blocks.is_empty());
        }
        other => panic!("expected SessionResumed, got {other:?}"),
    }
}

#[test]
fn servers_are_listed_with_their_transport() {
    let servers = vec![McpServer {
        name: "s".into(),
        command: "node".into(),
        args: vec![],
        url: None,
        env: None,
    }];
    match mcp_reply(&servers) {
        UiEvent::McpServersLoaded { entries } => {
            assert_eq!(entries.len(), 1);
            assert_eq!(entries[0].name, "s");
            assert_eq!(entries[0].transport, "stdio");
            assert!(entries[0].enabled);
        }
        other => panic!("expected McpServersLoaded, got {other:?}"),
    }
}

#[test]
fn every_turn_is_announced_before_it_runs() {
    for action in [
        UserAction::SendMessage("m".into()),
        UserAction::ConfirmPlan,
        UserAction::SetGoal { condition: "c".into(), max_turns: 1 },
        UserAction::RunSkillPrompt { prompt: "p".into() },
    ] {
        let mut w = ready();
        let effects = w.handle_action(action, false);
        let n = effects.len();
        assert!(matches!(effects[n - 1], Effect::RunTurn(_)));
        assert!(matches!(effects[n - 2], Effect::Emit(UiEvent::TurnStarted)));
    }
}
