//! The agent worker as a state machine.
//!
//! [`Worker`] decides what the worker does next; the task that owns the agent
//! runtime carries the decisions out and reports back what came of them.
//!
//! [`Worker`]: worker::Worker
pub mod worker;

use serde_json::Value;
use vstd::prelude::*;
#[allow(unused_imports)]
use vstd::string::*;

use crate::events::{TodoItem, UiEvent};
use crate::message::Message;
use crate::modal::McpEntry;
use crate::model::block_models;
use crate::render::{blocks_from_messages, conversation};
use crate::text::{chars_of, concat2, text_between};

verus! {

// ---------------------------------------------------------------------------
// Events of the agent
// ---------------------------------------------------------------------------

/// What the agent runtime reports while it works.
#[derive(Clone, Debug)]
pub enum AgentEvent {
    PartialToken { text: String, step: usize },
    PartialReasoning { text: String, step: usize },
    Reasoning { text: String, step: usize },
    AssistantText { text: String, step: usize },
    ToolCall { name: String, id: String, arguments: String, step: usize },
    ToolResult { id: String, name: String, output: String, step: usize, is_error: bool },
    Usage {
        input_tokens: u64,
        output_tokens: u64,
        cache_hit_tokens: u64,
        cache_miss_tokens: u64,
        step: usize,
    },
    /// What fills the context window, as JSON text.
    ContextBreakdown { breakdown: String, step: usize },
    Latency { step: usize, llm_ms: u64 },
    LlmRetry { step: usize, attempt: usize, wait_ms: u64, reason: String },
    Compacted { removed: usize, kept: usize, summary_chars: usize, step: usize },
    TurnFinished { reason: String, steps: usize },
    PlanProposed { plan_text: String, tool_calls: Vec<Value> },
    PlanConfirmed,
    PlanRejected { reason: String },
    PlanModeRequested { reason: String },
    PlanModeApproved,
    PlanModeRejected { reason: String },
    TodoUpdated { todos: Vec<TodoItem> },
    GoalContinuing { reason: String, turns: u32 },
    GoalAchieved { condition: String, turns: u32 },
    GoalCleared,
    HookStarted { hook_event: String, hook_name: String, status_message: Option<String> },
    HookProgress { hook_event: String, hook_name: String, last_line: String },
    HookFinished { hook_event: String, hook_name: String, outcome: String, duration_ms: u64 },
    HookSystemMessage { text: String },
    /// An event that the interface has no use for.
    Other,
}

/// What the interface is told of an event of the agent, if anything.
pub open spec fn told(event: AgentEvent) -> Option<UiEvent> {
    match event {
        AgentEvent::PartialToken { text, .. } => Some(UiEvent::AssistantPartial { text }),
        AgentEvent::PartialReasoning { text, .. } => Some(UiEvent::ReasoningPartial { text }),
        AgentEvent::Reasoning { text, .. } => Some(UiEvent::Reasoning { content: text }),
        AgentEvent::AssistantText { text, .. } => Some(UiEvent::AssistantMessage { content: text }),
        AgentEvent::ToolCall { name, id, arguments, .. } => Some(
            UiEvent::ToolCall { id, name, arguments },
        ),
        AgentEvent::ToolResult { id, name, output, is_error, .. } => Some(
            UiEvent::ToolResult { id, name, output, success: !is_error },
        ),
        AgentEvent::Usage {
            input_tokens,
            output_tokens,
            cache_hit_tokens,
            cache_miss_tokens,
            ..
        } => Some(
            UiEvent::Usage { input_tokens, output_tokens, cache_hit_tokens, cache_miss_tokens },
        ),
        AgentEvent::ContextBreakdown { breakdown, .. } => Some(
            UiEvent::ContextBreakdown { breakdown },
        ),
        AgentEvent::Latency { llm_ms, .. } => Some(UiEvent::Latency { llm_ms }),
        AgentEvent::LlmRetry { .. } => None,
        AgentEvent::Compacted { removed, kept, .. } => Some(UiEvent::Compacted { removed, kept }),
        AgentEvent::TurnFinished { .. } => Some(UiEvent::TurnFinished),
        AgentEvent::PlanProposed { plan_text, tool_calls } => Some(
            UiEvent::PlanProposed { plan_text, tool_calls },
        ),
        AgentEvent::PlanConfirmed => Some(UiEvent::PlanConfirmed),
        AgentEvent::PlanRejected { reason } => Some(UiEvent::PlanRejected { reason }),
        AgentEvent::PlanModeRequested { reason } => Some(UiEvent::PlanModeRequested { reason }),
        AgentEvent::PlanModeApproved => Some(UiEvent::PlanModeApproved),
        AgentEvent::PlanModeRejected { reason } => Some(UiEvent::PlanModeRejected { reason }),
        AgentEvent::TodoUpdated { todos } => Some(UiEvent::TodoUpdated { todos }),
        AgentEvent::GoalContinuing { reason, turns } => Some(
            UiEvent::GoalContinuing { reason, turns },
        ),
        AgentEvent::GoalAchieved { condition, turns } => Some(
            UiEvent::GoalAchieved { condition, turns },
        ),
        AgentEvent::GoalCleared => Some(UiEvent::GoalCleared),
        AgentEvent::HookStarted { hook_event, hook_name, status_message } => Some(
            UiEvent::HookStarted { hook_event, hook_name, status_message },
        ),
        AgentEvent::HookProgress { hook_event, hook_name, last_line } => Some(
            UiEvent::HookProgress { hook_event, hook_name, last_line },
        ),
        AgentEvent::HookFinished { hook_event, hook_name, outcome, duration_ms } => Some(
            UiEvent::HookFinished { hook_event, hook_name, outcome, duration_ms },
        ),
        AgentEvent::HookSystemMessage { text } => Some(UiEvent::HookSystemMessage { text }),
        AgentEvent::Other => None,
    }
}

/// Turns an event of the agent into what the interface is told of it.
pub fn map_agent_event(event: AgentEvent) -> (r: Option<UiEvent>)
    ensures
        r == told(event),
{
    match event {
        AgentEvent::PartialToken { text, .. } => Some(UiEvent::AssistantPartial { text }),
        AgentEvent::PartialReasoning { text, .. } => Some(UiEvent::ReasoningPartial { text }),
        AgentEvent::Reasoning { text, .. } => Some(UiEvent::Reasoning { content: text }),
        AgentEvent::AssistantText { text, .. } => Some(UiEvent::AssistantMessage { content: text }),
        AgentEvent::ToolCall { name, id, arguments, .. } => Some(
            UiEvent::ToolCall { id, name, arguments },
        ),
        AgentEvent::ToolResult { id, name, output, is_error, .. } => Some(
            UiEvent::ToolResult { id, name, output, success: !is_error },
        ),
        AgentEvent::Usage {
            input_tokens,
            output_tokens,
            cache_hit_tokens,
            cache_miss_tokens,
            ..
        } => Some(
            UiEvent::Usage { input_tokens, output_tokens, cache_hit_tokens, cache_miss_tokens },
        ),
        AgentEvent::ContextBreakdown { breakdown, .. } => Some(
            UiEvent::ContextBreakdown { breakdown },
        ),
        AgentEvent::Latency { llm_ms, .. } => Some(UiEvent::Latency { llm_ms }),
        AgentEvent::LlmRetry { .. } => None,
        AgentEvent::Compacted { removed, kept, .. } => Some(UiEvent::Compacted { removed, kept }),
        AgentEvent::TurnFinished { .. } => Some(UiEvent::TurnFinished),
        AgentEvent::PlanProposed { plan_text, tool_calls } => Some(
            UiEvent::PlanProposed { plan_text, tool_calls },
        ),
        AgentEvent::PlanConfirmed => Some(UiEvent::PlanConfirmed),
        AgentEvent::PlanRejected { reason } => Some(UiEvent::PlanRejected { reason }),
        AgentEvent::PlanModeRequested { reason } => Some(UiEvent::PlanModeRequested { reason }),
        AgentEvent::PlanModeApproved => Some(UiEvent::PlanModeApproved),
        AgentEvent::PlanModeRejected { reason } => Some(UiEvent::PlanModeRejected { reason }),
        AgentEvent::TodoUpdated { todos } => Some(UiEvent::TodoUpdated { todos }),
        AgentEvent::GoalContinuing { reason, turns } => Some(
            UiEvent::GoalContinuing { reason, turns },
        ),
        AgentEvent::GoalAchieved { condition, turns } => Some(
            UiEvent::GoalAchieved { condition, turns },
        ),
        AgentEvent::GoalCleared => Some(UiEvent::GoalCleared),
        AgentEvent::HookStarted { hook_event, hook_name, status_message } => Some(
            UiEvent::HookStarted { hook_event, hook_name, status_message },
        ),
        AgentEvent::HookProgress { hook_event, hook_name, last_line } => Some(
            UiEvent::HookProgress { hook_event, hook_name, last_line },
        ),
        AgentEvent::HookFinished { hook_event, hook_name, outcome, duration_ms } => Some(
            UiEvent::HookFinished { hook_event, hook_name, outcome, duration_ms },
        ),
        AgentEvent::HookSystemMessage { text } => Some(UiEvent::HookSystemMessage { text }),
        AgentEvent::Other => None,
    }
}

// ---------------------------------------------------------------------------
// Permissions, servers, replies
// ---------------------------------------------------------------------------

/// Whether a tool may run.
#[derive(Clone, Debug, PartialEq, Eq)]
pub enum PermissionDecision {
    Allow,
    Deny(String),
}

/// What is decided on a tool call.
pub open spec fn decided_on(
    enabled: bool,
    delivered: bool,
    answer: Option<bool>,
    r: PermissionDecision,
) -> bool {
    if !enabled || !delivered || answer == Some(true) {
        r is Allow
    } else {
        r matches PermissionDecision::Deny(t) && t@ == "denied by user"@
    }
}

/// Decides on a tool call: everything is allowed while the hook is off or once
/// the interface is gone, and else the user's answer counts. No answer means no.
pub fn permission_decision(enabled: bool, delivered: bool, answer: Option<bool>) -> (r:
    PermissionDecision)
    ensures
        decided_on(enabled, delivered, answer, r),
{
    if !enabled || !delivered {
        return PermissionDecision::Allow;
    }
    match answer {
        Some(true) => PermissionDecision::Allow,
        _ => PermissionDecision::Deny("denied by user".to_owned()),
    }
}

/// A configured MCP server.
#[derive(Clone, Debug)]
pub struct McpServer {
    pub name: String,
    pub command: String,
    pub args: Vec<String>,
    pub url: Option<String>,
    /// The variables that its process is given.
    pub env: Option<Vec<(String, String)>>,
}

/// How an MCP server is reached.
pub open spec fn transport_of(s: McpServer) -> Seq<char> {
    if s.url is Some {
        "http"@
    } else if s.command@.len() > 0 {
        "stdio"@
    } else {
        "unknown"@
    }
}

/// How an MCP server is reached: by its address, by its command, or nobody
/// knows.
pub fn mcp_server_transport(s: &McpServer) -> (r: String)
    ensures
        r@ == transport_of(*s),
{
    if s.url.is_some() {
        "http".to_owned()
    } else if s.command.as_str().unicode_len() > 0 {
        "stdio".to_owned()
    } else {
        "unknown".to_owned()
    }
}

/// Whether an entry of the server list stands for a server.
pub open spec fn is_entry_of(e: McpEntry, s: McpServer) -> bool {
    e.name == s.name && e.transport@ == transport_of(s) && e.enabled
}

/// What is told of the servers that were found: all of them, in their order.
pub open spec fn servers_told(servers: Seq<McpServer>, r: UiEvent) -> bool {
    r matches UiEvent::McpServersLoaded { entries } && entries@.len() == servers.len()
        && forall|i: int|
        0 <= i < entries@.len() ==> is_entry_of(#[trigger] entries@[i], servers[i])
}

/// What the interface is told of the servers that were found.
pub fn mcp_reply(servers: &Vec<McpServer>) -> (r: UiEvent)
    ensures
        servers_told(servers@, r),
{
    let mut entries: Vec<McpEntry> = Vec::new();
    let mut i: usize = 0;
    while i < servers.len()
        invariant
            i <= servers@.len(),
            entries@.len() == i,
            forall|j: int| 0 <= j < i ==> is_entry_of(#[trigger] entries@[j], servers@[j]),
        decreases servers@.len() - i,
    {
        entries.push(
            McpEntry {
                name: servers[i].name.clone(),
                transport: mcp_server_transport(&servers[i]),
                enabled: true,
            },
        );
        i += 1;
    }
    UiEvent::McpServersLoaded { entries }
}

/// What a finished turn hands over.
#[derive(Clone, Debug)]
pub struct RuntimeOutcome {
    pub final_text: Option<String>,
}

/// What the agent said last in a turn, where it said anything.
pub open spec fn last_words(
    result: Result<Result<Option<RuntimeOutcome>, String>, String>,
) -> Option<String> {
    match result {
        Ok(Ok(Some(outcome))) => outcome.final_text,
        _ => None,
    }
}

/// The answer of a turn for a WeChat user: what the agent said last, where the
/// task was joined, went well and had an outcome.
pub fn weixin_final_text(result: Result<Result<Option<RuntimeOutcome>, String>, String>) -> (r:
    Option<String>)
    ensures
        r == last_words(result),
{
    match result {
        Ok(Ok(Some(outcome))) => outcome.final_text,
        _ => None,
    }
}

/// What is told of a compaction.
pub open spec fn compaction_told(outcome: Result<(), String>, r: Option<UiEvent>) -> bool {
    match outcome {
        Ok(_) => r is None,
        Err(e) => r matches Some(UiEvent::Error { message }) && message@ == "compact failed: "@
            + e@,
    }
}

/// What the interface is told once compaction is over: only a failure.
pub fn compact_reply(outcome: Result<(), String>) -> (r: Option<UiEvent>)
    ensures
        compaction_told(outcome, r),
{
    match outcome {
        Ok(_) => None,
        Err(e) => Some(UiEvent::Error { message: concat2("compact failed: ", e.as_str()) }),
    }
}

/// What is told of a saved session.
pub open spec fn session_told(
    name: Option<&str>,
    loaded: Result<&Vec<Message>, String>,
    r: UiEvent,
) -> bool {
    match loaded {
        Ok(messages) => r matches UiEvent::SessionResumed { session_id, turn_count, blocks }
            && session_id@ == match name {
            Some(n) => n@,
            None => "unknown"@,
        } && turn_count == messages@.len() && block_models(blocks@) == conversation(
            messages@,
            messages@.len() as int,
        ),
        Err(e) => r matches UiEvent::Error { message } && message@
            == "Failed to load session: "@ + e@,
    }
}

/// What the interface is told once a saved session was read. `name` is the last
/// part of its directory.
pub fn resume_reply(name: Option<&str>, loaded: Result<&Vec<Message>, String>) -> (r: UiEvent)
    ensures
        session_told(name, loaded, r),
{
    match loaded {
        Ok(messages) => {
            let session_id: String = match name {
                Some(n) => n.to_owned(),
                None => "unknown".to_owned(),
            };
            UiEvent::SessionResumed {
                session_id,
                turn_count: messages.len(),
                blocks: blocks_from_messages(messages.as_slice()),
            }
        },
        Err(e) => UiEvent::Error { message: concat2("Failed to load session: ", e.as_str()) },
    }
}

/// What is told of a model switch.
pub open spec fn switch_told(
    preset_id: String,
    model: String,
    outcome: Result<(), String>,
    r: UiEvent,
) -> bool {
    match outcome {
        Ok(_) => r == (UiEvent::ModelSwitched { preset_id, model }),
        Err(e) => r matches UiEvent::Error { message } && message@ == "switch model failed: "@
            + e@,
    }
}

/// What the interface is told once a model was switched to.
pub fn switch_reply(preset_id: String, model: String, outcome: Result<(), String>) -> (r: UiEvent)
    ensures
        switch_told(preset_id, model, outcome, r),
{
    match outcome {
        Ok(_) => UiEvent::ModelSwitched { preset_id, model },
        Err(e) => UiEvent::Error { message: concat2("switch model failed: ", e.as_str()) },
    }
}

/// The most characters of a message that name a session.
pub const SESSION_NAME_CHARS: usize = 200;

/// The name of the session that starts with a message.
pub open spec fn session_name(text: Seq<char>) -> Seq<char> {
    if text.len() <= SESSION_NAME_CHARS {
        text
    } else {
        text.take(SESSION_NAME_CHARS as int)
    }
}

/// The name of the session that starts with a message.
pub fn session_slug(text: &str) -> (r: String)
    ensures
        r@ == session_name(text@),
{
    let v: Vec<char> = chars_of(text);
    let n: usize = if v.len() <= SESSION_NAME_CHARS {
        v.len()
    } else {
        SESSION_NAME_CHARS
    };
    proof {
        assert(v@.subrange(0, n as int) =~= session_name(text@));
    }
    text_between(&v, 0, n)
}

} // verus!
