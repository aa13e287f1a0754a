//! The values that pass between the interface and the agent worker.
use serde_json::Value;
use vstd::prelude::*;

use crate::modal::McpEntry;
use crate::model::TranscriptBlock;

verus! {

/// How far along a task is.
#[derive(Clone, Copy, Debug, PartialEq, Eq, Structural)]
pub enum TodoStatus {
    Pending,
    InProgress,
    Completed,
}

/// One entry of the agent's task list.
#[derive(Clone, Debug, PartialEq, Eq)]
pub struct TodoItem {
    pub content: String,
    pub status: TodoStatus,
}

/// What the agent worker tells the interface.
#[derive(Clone, Debug, PartialEq, Eq)]
pub enum UiEvent {
    /// A piece of the assistant message in flight.
    AssistantPartial { text: String },
    /// A piece of the reasoning in flight.
    ReasoningPartial { text: String },
    /// A complete assistant message.
    AssistantMessage { content: String },
    /// The model asks for a tool; `id` pairs the call with its result.
    ToolCall { id: String, name: String, arguments: String },
    /// A tool finished.
    ToolResult { id: String, name: String, output: String, success: bool },
    /// Token usage of the latest call.
    Usage {
        input_tokens: u64,
        output_tokens: u64,
        cache_hit_tokens: u64,
        cache_miss_tokens: u64,
    },
    /// The complete reasoning of the current step.
    Reasoning { content: String },
    /// Round-trip time of the latest call.
    Latency { llm_ms: u64 },
    /// What fills the context window, as JSON text.
    ContextBreakdown { breakdown: String },
    /// The transcript was compacted.
    Compacted { removed: usize, kept: usize },
    /// The worker can take messages.
    RuntimeReady,
    /// The worker has no usable runtime, for the given reason.
    RuntimeOffline { reason: String },
    /// The model was switched.
    ModelSwitched { preset_id: String, model: String },
    /// A turn starts.
    TurnStarted,
    /// A turn is over.
    TurnFinished,
    /// Something went wrong that the user should see.
    Error { message: String },
    /// The agent proposes a plan.
    PlanProposed { plan_text: String, tool_calls: Vec<Value> },
    /// The plan was accepted.
    PlanConfirmed,
    /// The plan was rejected.
    PlanRejected { reason: String },
    /// The agent asks to enter plan mode.
    PlanModeRequested { reason: String },
    /// The request to enter plan mode was granted.
    PlanModeApproved,
    /// The request to enter plan mode was turned down.
    PlanModeRejected { reason: String },
    /// The agent replaced its task list.
    TodoUpdated { todos: Vec<TodoItem> },
    /// The goal is not reached yet.
    GoalContinuing { reason: String, turns: u32 },
    /// The goal is reached.
    GoalAchieved { condition: String, turns: u32 },
    /// The goal was dropped.
    GoalCleared,
    /// The turn was aborted by the user.
    Interrupted,
    /// A saved session was loaded; `blocks` is its conversation.
    SessionResumed { session_id: String, turn_count: usize, blocks: Vec<TranscriptBlock> },
    /// The configured MCP servers.
    McpServersLoaded { entries: Vec<McpEntry> },
    /// A hook started.
    HookStarted { hook_event: String, hook_name: String, status_message: Option<String> },
    /// A hook printed a line.
    HookProgress { hook_event: String, hook_name: String, last_line: String },
    /// A hook finished.
    HookFinished { hook_event: String, hook_name: String, outcome: String, duration_ms: u64 },
    /// A hook has something to say to the user.
    HookSystemMessage { text: String },
    /// A message came in from a WeChat user.
    WeixinMessage { user_id: String, text: String },
    /// A loop was started.
    LoopStarted { goal: String },
    /// The loop stopped.
    LoopStopped,
    /// The loop scheduled a turn.
    LoopTurnScheduled { source: String, delay_secs: Option<u64> },
    /// The loop waits for a trigger.
    LoopIdle,
}

/// A tool waits for the user's permission. The answer goes back through the
/// channel that the request came with.
#[derive(Clone, Debug, PartialEq, Eq)]
pub struct PermissionRequest {
    pub tool_name: String,
    pub args_preview: String,
}

/// What the interface asks of the agent worker.
#[derive(Clone, Debug, PartialEq, Eq)]
pub enum UserAction {
    /// Send a message and run one turn.
    SendMessage(String),
    /// Run a shell command outside the dialogue.
    RunShell(String),
    /// Accept the pending plan.
    ConfirmPlan,
    /// Reject the pending plan for the given reason.
    RejectPlan(String),
    /// Grant the request to enter plan mode.
    ApprovePlanMode,
    /// Turn the request to enter plan mode down.
    RejectPlanMode(String),
    /// Compact the transcript.
    Compact,
    /// Switch planning mode.
    SetPlanningMode(bool),
    /// Abort the turn in flight.
    Interrupt,
    /// End the worker.
    Shutdown,
    /// Work towards a condition for at most `max_turns` turns.
    SetGoal { condition: String, max_turns: u32 },
    /// Drop the goal.
    ClearGoal,
    /// Run a prompt made from a skill.
    RunSkillPrompt { prompt: String },
    /// Load the session saved in a directory.
    ResumeSession { session_dir: String },
    /// List the configured MCP servers.
    ListMcpServers,
    /// Switch to another model.
    SwitchModel { preset_id: String, model: String },
    /// Start a loop; `max_turns` of 0 means no limit.
    StartLoop { goal: String, max_turns: u32 },
    /// Stop the loop.
    StopLoop,
    /// Hand the loop a prompt.
    LoopTrigger { source: String, prompt: String },
}

/// One hit of a skill search.
#[derive(Clone, Debug, PartialEq, Eq)]
pub struct SkillSearchResult {
    pub slug: String,
    pub name: String,
    pub description: String,
    pub downloads: u64,
    pub stars: u64,
    pub version: String,
}

/// One file of a skill archive.
#[derive(Clone, Debug, PartialEq, Eq)]
pub struct SkillZipFile {
    pub path: String,
    pub content: String,
    pub size: u64,
}

/// What the skill installer asks the user.
#[derive(Clone, Debug, PartialEq, Eq)]
pub enum SkillInstallEvent {
    /// Which of these skills?
    Search { query: String, results: Vec<SkillSearchResult> },
    /// Install these files?
    Files { slug: String, files: Vec<SkillZipFile> },
}

} // verus!
