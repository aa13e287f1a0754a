//! What the events of the agent worker do to the interface.
use vstd::prelude::*;
#[allow(unused_imports)]
use vstd::string::*;

use crate::app::{App, GoalState, LoopUiState};
use crate::cost::{idle, recorded_with_cache, turn_begun, turn_snapshot, underway, UsageStats};
use crate::events::UiEvent;
use crate::modal::Modal;
use crate::model::{block_models, BlockModel, TranscriptBlock};
use crate::render::{preview, preview_args, tool_verb, verb_for_tool};
use crate::text::{concat2, concat4, concat5, decimal, number_text};
use crate::transcript::{
    answer_closed, answer_finished, answer_plan_request, answer_streamed, answer_timed,
    close_answer, expansion_toggled, finish_answer, finish_reasoning, hook_reported,
    plan_request_answered, reasoning_finished, reasoning_streamed, report_hook, return_tool,
    stream_answer, stream_reasoning, time_answer, toggle_expansion, tool_returned,
};

verus! {

/// A note of the interface.
pub open spec fn note(text: Seq<char>) -> BlockModel {
    BlockModel::System { text }
}

/// The transcript once an event is shown. `latency` is the latest round-trip
/// time of the turn.
pub open spec fn shown(blocks: Seq<BlockModel>, ev: UiEvent, latency: Option<u64>) -> Seq<
    BlockModel,
> {
    match ev {
        UiEvent::AssistantPartial { text } => answer_streamed(blocks, text@, latency),
        UiEvent::ReasoningPartial { text } => reasoning_streamed(blocks, text@),
        UiEvent::Reasoning { content } => reasoning_finished(blocks, content@),
        UiEvent::AssistantMessage { content } => answer_finished(blocks, content@, latency),
        UiEvent::ToolCall { id, name, arguments } => blocks.push(
            BlockModel::ToolCall {
                id: id@,
                name: name@,
                args_preview: preview(arguments@),
                result: None,
            },
        ),
        UiEvent::ToolResult { id, name, output, success } => tool_returned(
            blocks,
            id@,
            name@,
            output@,
            success,
        ),
        UiEvent::Latency { llm_ms } => answer_timed(blocks, llm_ms),
        UiEvent::Compacted { removed, kept } => blocks.push(
            BlockModel::Compacted { removed, kept },
        ),
        UiEvent::TurnFinished => answer_closed(blocks),
        UiEvent::RuntimeOffline { reason } => blocks.push(note(reason@)),
        UiEvent::Error { message } => blocks.push(
            BlockModel::Error { text: "Error: "@ + message@ },
        ),
        UiEvent::PlanProposed { plan_text, tool_calls } => blocks.push(
            BlockModel::PlanProposal { plan_text: plan_text@, tool_calls: tool_calls@ },
        ),
        UiEvent::PlanConfirmed => blocks.push(note("Plan approved"@)),
        UiEvent::PlanRejected { reason } => blocks.push(note("Plan rejected: "@ + reason@)),
        UiEvent::PlanModeRequested { reason } => blocks.push(
            BlockModel::PlanModeRequest { reason: reason@, approved: None },
        ),
        UiEvent::PlanModeApproved => plan_request_answered(blocks, true),
        UiEvent::PlanModeRejected { reason } => plan_request_answered(blocks, false),
        UiEvent::GoalContinuing { reason, turns } => blocks.push(
            note("Goal continuing (turn "@ + decimal(turns as nat) + "): "@ + reason@),
        ),
        UiEvent::GoalAchieved { condition, turns } => blocks.push(
            note(
                "Goal achieved after "@ + decimal(turns as nat) + " turns: \""@ + condition@
                    + "\""@,
            ),
        ),
        UiEvent::GoalCleared => blocks.push(note("Goal cleared."@)),
        UiEvent::Interrupted => blocks.push(note("[Interrupted]"@)),
        UiEvent::SessionResumed { session_id, turn_count, blocks: resumed } => block_models(
            resumed@,
        ).push(
            note(
                "▶ Resumed session "@ + session_id@ + " ("@ + decimal(turn_count as nat)
                    + " messages)"@,
            ),
        ),
        UiEvent::HookStarted { hook_event, hook_name, status_message } => blocks.push(
            note("⚡ hook ["@ + hook_event@ + "] "@ + hook_name@ + " started"@),
        ),
        UiEvent::HookProgress { hook_event, hook_name, last_line } => hook_reported(
            blocks,
            "⚡ hook "@ + hook_name@ + ": "@ + last_line@,
        ),
        UiEvent::HookFinished { hook_event, hook_name, outcome, duration_ms } => blocks.push(
            note(
                ("✓ hook ["@ + hook_event@ + "] "@ + hook_name@) + " → "@ + outcome@ + " ("@
                    + decimal(duration_ms as nat) + "ms)"@,
            ),
        ),
        UiEvent::HookSystemMessage { text } => blocks.push(note(text@)),
        UiEvent::WeixinMessage { user_id, text } => blocks.push(
            BlockModel::WeixinMessage { user_id: user_id@, text: text@ },
        ),
        _ => blocks,
    }
}

/// Whether an event shows the end of the transcript even to a user who
/// scrolled up.
pub open spec fn jumps_to_end(ev: UiEvent) -> bool {
    ||| ev is SessionResumed
    ||| ev is HookStarted
    ||| ev is HookProgress
    ||| ev is HookFinished
    ||| ev is HookSystemMessage
    ||| ev is WeixinMessage
}

/// The dialogs once a plan review on top is closed.
pub open spec fn review_closed(modals: Seq<Modal>) -> Seq<Modal> {
    if modals.len() > 0 && modals.last() is PlanReview {
        modals.drop_last()
    } else {
        modals
    }
}

/// What an event does to the state beside the transcript and the scroll
/// position: `b` is the state that `a` becomes.
pub open spec fn state_after(a: App, ev: UiEvent, b: App) -> bool {
    match ev {
        UiEvent::RuntimeReady => b == (App { connected: true, ..a }),
        UiEvent::RuntimeOffline { reason } => b == (App {
            connected: false,
            offline_reason: Some(reason),
            ..a
        }),
        UiEvent::ModelSwitched { preset_id, model } => b == (App {
            active_preset: Some(preset_id),
            model_name: model,
            ..a
        }),
        UiEvent::ToolCall { id, name, arguments } => {
            &&& b == (App { turn: b.turn, ..a })
            &&& b.turn.running == a.turn.running
            &&& b.turn.started_at == a.turn.started_at
            &&& b.turn.spinner_verb@ == tool_verb(name@)
        },
        UiEvent::Usage { input_tokens, output_tokens, cache_hit_tokens, cache_miss_tokens } => b
            == (App {
            usage: recorded_with_cache(
                a.usage,
                input_tokens,
                output_tokens,
                cache_hit_tokens,
                cache_miss_tokens,
            ),
            ..a
        }),
        UiEvent::Latency { llm_ms } => b == (App {
            usage: UsageStats { last_latency_ms: llm_ms, ..a.usage },
            pending_latency_ms: Some(llm_ms),
            ..a
        }),
        UiEvent::ContextBreakdown { breakdown } => b == (App {
            usage: UsageStats { last_breakdown: Some(breakdown), ..a.usage },
            ..a
        }),
        UiEvent::TurnStarted => {
            &&& b == (App { turn: b.turn, usage: turn_begun(a.usage), ..a })
            &&& underway(b.turn)
        },
        UiEvent::TurnFinished => {
            &&& b == (App {
                turn: b.turn,
                usage: turn_snapshot(a.usage),
                pending_latency_ms: None,
                ..a
            })
            &&& idle(b.turn)
        },
        UiEvent::PlanProposed { plan_text, tool_calls } => b == (App {
            plan_awaiting_approval: true,
            ..a
        }),
        UiEvent::PlanConfirmed => {
            &&& b == (App { modals: b.modals, plan_awaiting_approval: false, ..a })
            &&& b.modals@ == review_closed(a.modals@)
        },
        UiEvent::PlanRejected { reason } => {
            &&& b == (App { modals: b.modals, plan_awaiting_approval: false, ..a })
            &&& b.modals@ == review_closed(a.modals@)
        },
        UiEvent::PlanModeRequested { reason } => b == (App {
            plan_mode_request_pending: true,
            ..a
        }),
        UiEvent::PlanModeApproved => b == (App { plan_mode_request_pending: false, ..a }),
        UiEvent::PlanModeRejected { reason } => b == (App {
            plan_mode_request_pending: false,
            ..a
        }),
        UiEvent::TodoUpdated { todos } => b == (App { current_todos: todos, ..a }),
        UiEvent::GoalContinuing { reason, turns } => b == (App {
            active_goal: match a.active_goal {
                Some(g) => Some(GoalState { turns, last_reason: Some(reason), ..g }),
                None => None,
            },
            ..a
        }),
        UiEvent::GoalAchieved { condition, turns } => b == (App { active_goal: None, ..a }),
        UiEvent::GoalCleared => b == (App { active_goal: None, ..a }),
        UiEvent::Interrupted => {
            &&& b == (App {
                turn: b.turn,
                pending_latency_ms: None,
                plan_awaiting_approval: false,
                ..a
            })
            &&& idle(b.turn)
        },
        UiEvent::McpServersLoaded { entries } => {
            &&& b == (App { modals: b.modals, modal_scroll: 0, ..a })
            &&& b.modals@ == a.modals@.push(Modal::McpServers { entries, selected: 0 })
        },
        UiEvent::SessionResumed { session_id, turn_count, blocks } => {
            &&& b == (App { turn: b.turn, ..a })
            &&& idle(b.turn)
        },
        UiEvent::LoopStopped => b == (App { loop_state: None, ..a }),
        UiEvent::LoopTurnScheduled { source, delay_secs } => b == (App {
            loop_state: match a.loop_state {
                Some(l) => Some(
                    LoopUiState {
                        turns_run: if l.turns_run < u32::MAX {
                            (l.turns_run + 1) as u32
                        } else {
                            l.turns_run
                        },
                        ..l
                    },
                ),
                None => None,
            },
            ..a
        }),
        _ => b == a,
    }
}

/// What an event does to the interface.
pub open spec fn event_applied(a: App, ev: UiEvent, b: App) -> bool {
    &&& b.transcript() == shown(a.transcript(), ev, a.pending_latency_ms)
    &&& b.scroll_offset == if jumps_to_end(ev) {
        0
    } else {
        a.scroll_offset
    }
    &&& state_after(a, ev, App { blocks: a.blocks, scroll_offset: a.scroll_offset, ..b })
}

impl App {
    /// Applies an event of the agent worker.
    pub fn handle_ui_event(&mut self, event: UiEvent)
        requires
            old(self).wf(),
        ensures
            event_applied(*old(self), event, *final(self)),
            final(self).wf(),
    {
        match event {
            UiEvent::AssistantPartial { text } => {
                self.append_streaming_assistant(text.as_str());
            },
            UiEvent::ReasoningPartial { text } => {
                self.append_streaming_reasoning(text.as_str());
            },
            UiEvent::Reasoning { content } => {
                self.finalise_streaming_reasoning(content);
            },
            UiEvent::AssistantMessage { content } => {
                self.finalise_streaming_assistant(content);
            },
            UiEvent::ToolCall { id, name, arguments } => {
                let args_preview: String = preview_args(arguments.as_str());
                self.turn.spinner_verb = verb_for_tool(name.as_str());
                self.push_block(TranscriptBlock::ToolCall { id, name, args_preview, result: None });
            },
            UiEvent::ToolResult { id, name, output, success } => {
                return_tool(&mut self.blocks, id, name, output, success);
            },
            UiEvent::Usage {
                input_tokens,
                output_tokens,
                cache_hit_tokens,
                cache_miss_tokens,
            } => {
                self.usage.record_with_cache(
                    input_tokens,
                    output_tokens,
                    cache_hit_tokens,
                    cache_miss_tokens,
                );
            },
            UiEvent::Latency { llm_ms } => {
                self.usage.last_latency_ms = llm_ms;
                self.pending_latency_ms = Some(llm_ms);
                time_answer(&mut self.blocks, llm_ms);
            },
            UiEvent::ContextBreakdown { breakdown } => {
                self.usage.last_breakdown = Some(breakdown);
            },
            other => {
                self.apply_turn_event(other);
            },
        }
    }

    /// Applies an event on the worker or on a turn, or one of those that follow.
    fn apply_turn_event(&mut self, event: UiEvent)
        requires
            old(self).wf(),
            !(event is AssistantPartial),
            !(event is ReasoningPartial),
            !(event is Reasoning),
            !(event is AssistantMessage),
            !(event is ToolCall),
            !(event is ToolResult),
            !(event is Usage),
            !(event is Latency),
            !(event is ContextBreakdown),
        ensures
            event_applied(*old(self), event, *final(self)),
            final(self).wf(),
    {
        match event {
            UiEvent::RuntimeReady => {
                self.connected = true;
            },
            UiEvent::RuntimeOffline { reason } => {
                self.push_system(reason.as_str());
                self.connected = false;
                self.offline_reason = Some(reason);
            },
            UiEvent::ModelSwitched { preset_id, model } => {
                self.active_preset = Some(preset_id);
                self.model_name = model;
            },
            UiEvent::Compacted { removed, kept } => {
                self.push_block(TranscriptBlock::Compacted { removed, kept });
            },
            UiEvent::TurnStarted => {
                self.turn.start();
                self.usage.begin_turn();
            },
            UiEvent::TurnFinished => {
                close_answer(&mut self.blocks);
                self.turn.finish();
                self.usage.snapshot_turn_cache_pct();
                self.pending_latency_ms = None;
            },
            UiEvent::Error { message } => {
                let text: String = concat2("Error: ", message.as_str());
                self.push_error(text.as_str());
            },
            UiEvent::Interrupted => {
                self.push_system("[Interrupted]");
                self.turn.finish();
                self.pending_latency_ms = None;
                self.plan_awaiting_approval = false;
            },
            other => {
                self.apply_plan_event(other);
            },
        }
    }

    /// Applies an event on a plan, or one of those that follow.
    fn apply_plan_event(&mut self, event: UiEvent)
        requires
            old(self).wf(),
            !(event is AssistantPartial),
            !(event is ReasoningPartial),
            !(event is Reasoning),
            !(event is AssistantMessage),
            !(event is ToolCall),
            !(event is ToolResult),
            !(event is Usage),
            !(event is Latency),
            !(event is ContextBreakdown),
            !(event is RuntimeReady),
            !(event is RuntimeOffline),
            !(event is ModelSwitched),
            !(event is Compacted),
            !(event is TurnStarted),
            !(event is TurnFinished),
            !(event is Error),
            !(event is Interrupted),
        ensures
            event_applied(*old(self), event, *final(self)),
            final(self).wf(),
    {
        match event {
            UiEvent::PlanProposed { plan_text, tool_calls } => {
                self.push_block(TranscriptBlock::PlanProposal { plan_text, tool_calls });
                self.plan_awaiting_approval = true;
            },
            UiEvent::PlanConfirmed => {
                self.close_plan_review_modal();
                self.push_system("Plan approved");
                self.plan_awaiting_approval = false;
            },
            UiEvent::PlanRejected { reason } => {
                self.close_plan_review_modal();
                let text: String = concat2("Plan rejected: ", reason.as_str());
                self.push_system(text.as_str());
                self.plan_awaiting_approval = false;
            },
            UiEvent::PlanModeRequested { reason } => {
                self.push_block(TranscriptBlock::PlanModeRequest { reason, approved: None });
                self.plan_mode_request_pending = true;
            },
            UiEvent::PlanModeApproved => {
                answer_plan_request(&mut self.blocks, true);
                self.plan_mode_request_pending = false;
            },
            UiEvent::PlanModeRejected { reason: _ } => {
                answer_plan_request(&mut self.blocks, false);
                self.plan_mode_request_pending = false;
            },
            UiEvent::TodoUpdated { todos } => {
                self.current_todos = todos;
            },
            other => {
                self.apply_goal_event(other);
            },
        }
    }

    /// Applies an event on a goal, a loop or a session, or one of those that follow.
    fn apply_goal_event(&mut self, event: UiEvent)
        requires
            old(self).wf(),
            !(event is AssistantPartial),
            !(event is ReasoningPartial),
            !(event is Reasoning),
            !(event is AssistantMessage),
            !(event is ToolCall),
            !(event is ToolResult),
            !(event is Usage),
            !(event is Latency),
            !(event is ContextBreakdown),
            !(event is RuntimeReady),
            !(event is RuntimeOffline),
            !(event is ModelSwitched),
            !(event is Compacted),
            !(event is TurnStarted),
            !(event is TurnFinished),
            !(event is Error),
            !(event is Interrupted),
            !(event is PlanProposed),
            !(event is PlanConfirmed),
            !(event is PlanRejected),
            !(event is PlanModeRequested),
            !(event is PlanModeApproved),
            !(event is PlanModeRejected),
            !(event is TodoUpdated),
        ensures
            event_applied(*old(self), event, *final(self)),
            final(self).wf(),
    {
        match event {
            UiEvent::GoalContinuing { reason, turns } => {
                let n: String = number_text(turns as u64);
                let text: String = concat4(
                    "Goal continuing (turn ",
                    n.as_str(),
                    "): ",
                    reason.as_str(),
                );
                self.push_system(text.as_str());
                if let Some(goal) = &mut self.active_goal {
                    goal.turns = turns;
                    goal.last_reason = Some(reason);
                }
            },
            UiEvent::GoalAchieved { condition, turns } => {
                let n: String = number_text(turns as u64);
                let text: String = concat5(
                    "Goal achieved after ",
                    n.as_str(),
                    " turns: \"",
                    condition.as_str(),
                    "\"",
                );
                self.push_system(text.as_str());
                self.active_goal = None;
            },
            UiEvent::GoalCleared => {
                self.push_system("Goal cleared.");
                self.active_goal = None;
            },
            UiEvent::McpServersLoaded { entries } => {
                self.push_modal(Modal::McpServers { entries, selected: 0 });
            },
            UiEvent::SessionResumed { session_id, turn_count, blocks } => {
                self.blocks = blocks;
                let n: String = number_text(turn_count as u64);
                let text: String = concat5(
                    "▶ Resumed session ",
                    session_id.as_str(),
                    " (",
                    n.as_str(),
                    " messages)",
                );
                self.push_system(text.as_str());
                self.turn.finish();
                self.scroll_to_bottom();
            },
            UiEvent::LoopStopped => {
                self.loop_state = None;
            },
            UiEvent::LoopTurnScheduled { source: _, delay_secs: _ } => {
                if let Some(l) = &mut self.loop_state {
                    if l.turns_run < u32::MAX {
                        l.turns_run = l.turns_run + 1;
                    }
                }
            },
            other => {
                self.apply_hook_event(other);
            },
        }
    }

    /// Applies an event on a hook, or one of those that are left.
    fn apply_hook_event(&mut self, event: UiEvent)
        requires
            old(self).wf(),
            !(event is AssistantPartial),
            !(event is ReasoningPartial),
            !(event is Reasoning),
            !(event is AssistantMessage),
            !(event is ToolCall),
            !(event is ToolResult),
            !(event is Usage),
            !(event is Latency),
            !(event is ContextBreakdown),
            !(event is RuntimeReady),
            !(event is RuntimeOffline),
            !(event is ModelSwitched),
            !(event is Compacted),
            !(event is TurnStarted),
            !(event is TurnFinished),
            !(event is Error),
            !(event is Interrupted),
            !(event is PlanProposed),
            !(event is PlanConfirmed),
            !(event is PlanRejected),
            !(event is PlanModeRequested),
            !(event is PlanModeApproved),
            !(event is PlanModeRejected),
            !(event is TodoUpdated),
            !(event is GoalContinuing),
            !(event is GoalAchieved),
            !(event is GoalCleared),
            !(event is McpServersLoaded),
            !(event is SessionResumed),
            !(event is LoopStopped),
            !(event is LoopTurnScheduled),
        ensures
            event_applied(*old(self), event, *final(self)),
            final(self).wf(),
    {
        match event {
            UiEvent::HookStarted { hook_event, hook_name, status_message: _ } => {
                let text: String = concat5(
                    "⚡ hook [",
                    hook_event.as_str(),
                    "] ",
                    hook_name.as_str(),
                    " started",
                );
                self.push_system(text.as_str());
                self.scroll_to_bottom();
            },
            UiEvent::HookProgress { hook_event: _, hook_name, last_line } => {
                let text: String = concat4(
                    "⚡ hook ",
                    hook_name.as_str(),
                    ": ",
                    last_line.as_str(),
                );
                report_hook(&mut self.blocks, text);
                self.scroll_to_bottom();
            },
            UiEvent::HookFinished { hook_event, hook_name, outcome, duration_ms } => {
                let head: String = concat4(
                    "✓ hook [",
                    hook_event.as_str(),
                    "] ",
                    hook_name.as_str(),
                );
                let n: String = number_text(duration_ms);
                let body: String = concat5(
                    head.as_str(),
                    " → ",
                    outcome.as_str(),
                    " (",
                    n.as_str(),
                );
                let text: String = concat2(body.as_str(), "ms)");
                self.push_system(text.as_str());
                self.scroll_to_bottom();
            },
            UiEvent::HookSystemMessage { text } => {
                self.push_block(TranscriptBlock::System { text });
                self.scroll_to_bottom();
            },
            UiEvent::WeixinMessage { user_id, text } => {
                self.push_block(TranscriptBlock::WeixinMessage { user_id, text });
                self.scroll_to_bottom();
            },
            _ => {},
        }
    }

    /// Closes a plan review that is on top; any other dialog stays.
    pub fn close_plan_review_modal(&mut self)
        ensures
            *final(self) == (App { modals: final(self).modals, ..*old(self) }),
            final(self).modals@ == review_closed(old(self).modals@),
    {
        let n: usize = self.modals.len();
        if n > 0 {
            let is_review: bool = match &self.modals[n - 1] {
                Modal::PlanReview { .. } => true,
                _ => false,
            };
            if is_review {
                let _ = self.modals.pop();
            }
        }
    }

    /// Adds a piece of the answer.
    pub fn append_streaming_assistant(&mut self, chunk: &str)
        ensures
            *final(self) == (App { blocks: final(self).blocks, ..*old(self) }),
            final(self).transcript() == answer_streamed(
                old(self).transcript(),
                chunk@,
                old(self).pending_latency_ms,
            ),
    {
        stream_answer(&mut self.blocks, chunk, self.pending_latency_ms);
    }

    /// Adds a piece of the reasoning.
    pub fn append_streaming_reasoning(&mut self, chunk: &str)
        ensures
            *final(self) == (App { blocks: final(self).blocks, ..*old(self) }),
            final(self).transcript() == reasoning_streamed(old(self).transcript(), chunk@),
    {
        stream_reasoning(&mut self.blocks, chunk);
    }

    /// Puts the whole reasoning in its place.
    pub fn finalise_streaming_reasoning(&mut self, content: String)
        ensures
            *final(self) == (App { blocks: final(self).blocks, ..*old(self) }),
            final(self).transcript() == reasoning_finished(old(self).transcript(), content@),
    {
        finish_reasoning(&mut self.blocks, content);
    }

    /// Puts the whole answer in its place.
    pub fn finalise_streaming_assistant(&mut self, content: String)
        ensures
            *final(self) == (App { blocks: final(self).blocks, ..*old(self) }),
            final(self).transcript() == answer_finished(
                old(self).transcript(),
                content@,
                old(self).pending_latency_ms,
            ),
    {
        finish_answer(&mut self.blocks, content, self.pending_latency_ms);
    }

    /// Expands or folds the latest finished tool call.
    pub fn toggle_last_expandable(&mut self)
        ensures
            *final(self) == (App { blocks: final(self).blocks, ..*old(self) }),
            final(self).transcript() == expansion_toggled(old(self).transcript()),
    {
        toggle_expansion(&mut self.blocks);
    }
}

} // verus!
