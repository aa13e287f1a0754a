//! The events of the agent in the interface.
use vstd::prelude::*;
#[allow(unused_imports)]
use vstd::string::*;

use crate::app::event_loop::event_applied;
use crate::app::{App, GoalState, LoopUiState};
use crate::backend::{told, AgentEvent};
use crate::events::UiEvent;
use crate::modal::Modal;
use crate::model::{hunk_models, BlockModel, TranscriptBlock};
use crate::transcript::{is_plan_request, is_streaming_reasoning, last_block, last_block_is_last};

verus! {

// ---------------------------------------------------------------------------
// Blocks
// ---------------------------------------------------------------------------

/// The model of a block tells all that the block shows: two blocks with one model
/// are alike in every text and every mark.
pub proof fn model_tells_all(x: TranscriptBlock, y: TranscriptBlock)
    requires
        x@ == y@,
    ensures
        match (x, y) {
            (TranscriptBlock::User { text: s }, TranscriptBlock::User { text: t }) => s@ == t@,
            (
                TranscriptBlock::Assistant { text: s, streaming: f, latency_ms: l },
                TranscriptBlock::Assistant { text: t, streaming: g, latency_ms: m },
            ) => s@ == t@ && f == g && l == m,
            (
                TranscriptBlock::Reasoning { text: s, streaming: f },
                TranscriptBlock::Reasoning { text: t, streaming: g },
            ) => s@ == t@ && f == g,
            (
                TranscriptBlock::ToolCall { id: i, name: n, args_preview: p, result: r },
                TranscriptBlock::ToolCall { id: j, name: m, args_preview: q, result: s },
            ) => i@ == j@ && n@ == m@ && p@ == q@ && match (r, s) {
                (Some(c), Some(d)) => c.success == d.success && c.output@ == d.output@
                    && c.expanded == d.expanded,
                (None, None) => true,
                _ => false,
            },
            (
                TranscriptBlock::Diff { path: p, hunks: h },
                TranscriptBlock::Diff { path: q, hunks: k },
            ) => p@ == q@ && h@.len() == k@.len() && forall|i: int, j: int|
                0 <= i < h@.len() && 0 <= j < h@[i].lines@.len() ==> h@[i].lines@.len()
                    == k@[i].lines@.len() && (#[trigger] h@[i].lines@[j]).kind
                    == k@[i].lines@[j].kind && h@[i].lines@[j].text@ == k@[i].lines@[j].text@,
            (TranscriptBlock::System { text: s }, TranscriptBlock::System { text: t }) => s@
                == t@,
            (TranscriptBlock::Error { text: s }, TranscriptBlock::Error { text: t }) => s@ == t@,
            (
                TranscriptBlock::Compacted { removed: r, kept: k },
                TranscriptBlock::Compacted { removed: s, kept: l },
            ) => r == s && k == l,
            (
                TranscriptBlock::PlanProposal { plan_text: s, tool_calls: c },
                TranscriptBlock::PlanProposal { plan_text: t, tool_calls: d },
            ) => s@ == t@ && c@ == d@,
            (
                TranscriptBlock::PlanModeRequest { reason: s, approved: f },
                TranscriptBlock::PlanModeRequest { reason: t, approved: g },
            ) => s@ == t@ && f == g,
            (
                TranscriptBlock::WeixinMessage { user_id: i, text: s },
                TranscriptBlock::WeixinMessage { user_id: j, text: t },
            ) => i@ == j@ && s@ == t@,
            _ => false,
        },
{
    match (x, y) {
        (
            TranscriptBlock::Diff { path: p, hunks: h },
            TranscriptBlock::Diff { path: q, hunks: k },
        ) => {
            assert(hunk_models(h@).len() == h@.len());
            assert(hunk_models(k@).len() == k@.len());
            assert forall|i: int, j: int|
                0 <= i < h@.len() && 0 <= j < h@[i].lines@.len() implies h@[i].lines@.len()
                == k@[i].lines@.len() && (#[trigger] h@[i].lines@[j]).kind
                == k@[i].lines@[j].kind && h@[i].lines@[j].text@ == k@[i].lines@[j].text@ by {
                assert(hunk_models(h@)[i] == h@[i]@);
                assert(hunk_models(k@)[i] == k@[i]@);
                assert(h@[i]@.len() == h@[i].lines@.len());
                assert(k@[i]@.len() == k@[i].lines@.len());
                assert(h@[i]@[j] == h@[i].lines@[j]@);
                assert(k@[i]@[j] == k@[i].lines@[j]@);
            }
        },
        _ => {},
    }
}

/// Whether `b` shows the first `n` blocks of `a`.
pub open spec fn keeps_first(a: App, b: App, n: int) -> bool {
    forall|j: int| 0 <= j < n ==> (#[trigger] b.blocks@[j])@ == a.blocks@[j]@
}

/// Whether `b` shows what `a` shows, and one block more.
pub open spec fn adds_one(a: App, b: App) -> bool {
    b.blocks@.len() == a.blocks@.len() + 1 && keeps_first(a, b, a.blocks@.len() as int)
}

/// Whether `b` shows what `a` shows.
pub open spec fn shows_the_same(a: App, b: App) -> bool {
    b.blocks@.len() == a.blocks@.len() && keeps_first(a, b, a.blocks@.len() as int)
}

/// The blocks of the transcript and those of its model, one by one.
pub proof fn models_follow(a: App)
    ensures
        a.transcript().len() == a.blocks@.len(),
        forall|j: int| 0 <= j < a.blocks@.len() ==> #[trigger] a.transcript()[j] == a.blocks@[j]@,
        forall|j: int| 0 <= j < a.blocks@.len() ==> (#[trigger] a.blocks@[j])@ == a.transcript()[j],
{
}

// ---------------------------------------------------------------------------
// Answers and reasoning
// ---------------------------------------------------------------------------

/// Whether a block is an answer in flight.
pub open spec fn answers_in_flight(b: TranscriptBlock) -> bool {
    b matches TranscriptBlock::Assistant { streaming, .. } && streaming
}

/// Whether a block is reasoning in flight.
pub open spec fn thinks_in_flight(b: TranscriptBlock) -> bool {
    b matches TranscriptBlock::Reasoning { streaming, .. } && streaming
}

/// A piece of the answer goes to the end of the answer in flight at the end of
/// the transcript, or starts one there, and nothing else changes.
pub proof fn piece_goes_to_the_answer(a: App, text: String, b: App)
    requires
        event_applied(a, UiEvent::AssistantPartial { text }, b),
    ensures
        a.blocks@.len() > 0 && answers_in_flight(a.blocks@.last()) ==> b.blocks@.len()
            == a.blocks@.len() && keeps_first(a, b, a.blocks@.len() - 1) && answers_in_flight(
            b.blocks@.last(),
        ) && b.blocks@.last()->Assistant_text@ == a.blocks@.last()->Assistant_text@ + text@,
        a.blocks@.len() == 0 || !answers_in_flight(a.blocks@.last()) ==> adds_one(a, b)
            && answers_in_flight(b.blocks@.last()) && b.blocks@.last()->Assistant_text@ == text@
            && b.blocks@.last()->Assistant_latency_ms == a.pending_latency_ms,
        b.prompt == a.prompt,
        b.turn == a.turn,
{
    models_follow(a);
    models_follow(b);
    if a.blocks@.len() > 0 {
        assert(a.transcript().last() == a.blocks@.last()@);
    }
    assert(b.transcript().last() == b.blocks@.last()@);
}

/// The whole answer takes the place of the answer in flight, or stands at the end
/// on its own, and is no longer in flight.
pub proof fn whole_answer_is_shown(a: App, content: String, b: App)
    requires
        event_applied(a, UiEvent::AssistantMessage { content }, b),
    ensures
        a.blocks@.len() > 0 && answers_in_flight(a.blocks@.last()) ==> b.blocks@.len()
            == a.blocks@.len() && keeps_first(a, b, a.blocks@.len() - 1),
        a.blocks@.len() == 0 || !answers_in_flight(a.blocks@.last()) ==> adds_one(a, b),
        b.blocks@.last() matches TranscriptBlock::Assistant { text, streaming, latency_ms } && text@
            == content@ && !streaming && (a.pending_latency_ms is Some ==> latency_ms is Some) && ((
        a.blocks@.len() == 0 || !answers_in_flight(a.blocks@.last())) ==> latency_ms
            == a.pending_latency_ms) && (a.blocks@.len() > 0 && answers_in_flight(a.blocks@.last())
            && a.blocks@.last()->Assistant_latency_ms is Some ==> latency_ms
            == a.blocks@.last()->Assistant_latency_ms),
        b.prompt == a.prompt,
        b.turn == a.turn,
{
    models_follow(a);
    models_follow(b);
    if a.blocks@.len() > 0 {
        assert(a.transcript().last() == a.blocks@.last()@);
    }
    assert(b.transcript().last() == b.blocks@.last()@);
}

/// A piece of the reasoning goes to the end of the reasoning in flight at the end
/// of the transcript, or starts one there.
pub proof fn piece_goes_to_the_reasoning(a: App, text: String, b: App)
    requires
        event_applied(a, UiEvent::ReasoningPartial { text }, b),
    ensures
        a.blocks@.len() > 0 && thinks_in_flight(a.blocks@.last()) ==> b.blocks@.len()
            == a.blocks@.len() && keeps_first(a, b, a.blocks@.len() - 1) && thinks_in_flight(
            b.blocks@.last(),
        ) && b.blocks@.last()->Reasoning_text@ == a.blocks@.last()->Reasoning_text@ + text@,
        a.blocks@.len() == 0 || !thinks_in_flight(a.blocks@.last()) ==> adds_one(a, b)
            && thinks_in_flight(b.blocks@.last()) && b.blocks@.last()->Reasoning_text@ == text@,
{
    models_follow(a);
    models_follow(b);
    if a.blocks@.len() > 0 {
        assert(a.transcript().last() == a.blocks@.last()@);
    }
    assert(b.transcript().last() == b.blocks@.last()@);
}

/// The whole reasoning takes the place of the latest reasoning in flight; where
/// there is none it stands before the answer in flight at the end, or else at
/// the end. It is no longer in flight, and nothing else changes.
pub proof fn whole_reasoning_is_shown(a: App, content: String, b: App, i: int)
    requires
        event_applied(a, UiEvent::Reasoning { content }, b),
        0 <= i < a.blocks@.len() && thinks_in_flight(a.blocks@[i]) || i == -1,
        forall|j: int| i < j < a.blocks@.len() ==> !thinks_in_flight(#[trigger] a.blocks@[j]),
    ensures
        ({
            let n = a.blocks@.len() as int;
            let at = if i >= 0 {
                i
            } else if n > 0 && answers_in_flight(a.blocks@.last()) {
                n - 1
            } else {
                n
            };
            &&& b.blocks@.len() == if i >= 0 {
                n
            } else {
                n + 1
            }
            &&& b.blocks@[at] matches TranscriptBlock::Reasoning { text, streaming } && text@
                == content@ && !streaming
            &&& keeps_first(a, b, at)
            &&& i >= 0 ==> forall|j: int|
                at < j < n ==> (#[trigger] b.blocks@[j])@ == a.blocks@[j]@
            &&& i < 0 && at < n ==> b.blocks@.last()@ == a.blocks@.last()@
        }),
{
    models_follow(a);
    models_follow(b);
    let bs = a.transcript();
    let wanted = |b: BlockModel| is_streaming_reasoning(b);
    last_block_is_last(bs, wanted);
    let found = last_block(bs, wanted);
    if found > i {
        assert(wanted(bs[found]));
        assert(bs[found] == a.blocks@[found]@);
        assert(thinks_in_flight(a.blocks@[found]));
    }
    if i >= 0 {
        assert(bs[i] == a.blocks@[i]@);
        assert(wanted(bs[i]));
        assert(found == i);
    } else {
        assert(found == -1);
        if a.blocks@.len() > 0 {
            assert(bs.last() == a.blocks@.last()@);
        }
    }
    assert(b.transcript().last() == b.blocks@.last()@);
}

/// The round-trip time goes to the answer in flight at the end, if there is one,
/// and is remembered for the next one.
pub proof fn latency_goes_to_the_answer(a: App, llm_ms: u64, b: App)
    requires
        event_applied(a, UiEvent::Latency { llm_ms }, b),
    ensures
        b.blocks@.len() == a.blocks@.len(),
        keeps_first(a, b, a.blocks@.len() - 1),
        a.blocks@.len() > 0 && answers_in_flight(a.blocks@.last()) ==> (
        b.blocks@.last() matches TranscriptBlock::Assistant { text, streaming, latency_ms } && text@
            == a.blocks@.last()->Assistant_text@ && streaming && latency_ms == Some(llm_ms)),
        !(a.blocks@.len() > 0 && answers_in_flight(a.blocks@.last())) ==> shows_the_same(a, b),
        b.pending_latency_ms == Some(llm_ms),
        b.usage.last_latency_ms == llm_ms,
{
    models_follow(a);
    models_follow(b);
    if a.blocks@.len() > 0 {
        assert(a.transcript().last() == a.blocks@.last()@);
        assert(b.transcript().last() == b.blocks@.last()@);
    }
}

/// With the end of the turn the answer at the end is no longer in flight; its
/// text stays, and so does everything before it. The turn no longer runs.
pub proof fn turn_end_closes_the_answer(a: App, b: App)
    requires
        event_applied(a, UiEvent::TurnFinished, b),
    ensures
        b.blocks@.len() == a.blocks@.len(),
        keeps_first(a, b, a.blocks@.len() - 1),
        a.blocks@.len() > 0 ==> !answers_in_flight(b.blocks@.last()),
        a.blocks@.len() > 0 && a.blocks@.last() is Assistant ==> (
        b.blocks@.last() matches TranscriptBlock::Assistant { text, latency_ms, .. } && text@
            == a.blocks@.last()->Assistant_text@ && latency_ms
            == a.blocks@.last()->Assistant_latency_ms),
        a.blocks@.len() > 0 && !(a.blocks@.last() is Assistant) ==> shows_the_same(a, b),
        !b.turn.running,
        b.turn.started_at is None,
        b.pending_latency_ms is None,
        b.prompt == a.prompt,
{
    models_follow(a);
    models_follow(b);
    if a.blocks@.len() > 0 {
        assert(a.transcript().last() == a.blocks@.last()@);
        assert(b.transcript().last() == b.blocks@.last()@);
    }
}

/// An answer that streams in pieces and is then closed by the end of the turn is
/// shown as the pieces in a row.
pub proof fn pieces_make_up_the_answer(
    a: App,
    x: String,
    b: App,
    y: String,
    c: App,
    d: App,
)
    requires
        a.blocks@.len() == 0 || !answers_in_flight(a.blocks@.last()),
        event_applied(a, UiEvent::AssistantPartial { text: x }, b),
        event_applied(b, UiEvent::AssistantPartial { text: y }, c),
        event_applied(c, UiEvent::TurnFinished, d),
    ensures
        d.blocks@.len() == a.blocks@.len() + 1,
        d.blocks@.last() matches TranscriptBlock::Assistant { text, streaming, .. } && text@ == x@
            + y@ && !streaming,
{
    piece_goes_to_the_answer(a, x, b);
    piece_goes_to_the_answer(b, y, c);
    turn_end_closes_the_answer(c, d);
}

// ---------------------------------------------------------------------------
// Notes, errors, plans
// ---------------------------------------------------------------------------

/// An error is shown with its text, as an error.
pub proof fn error_is_shown(a: App, message: String, b: App)
    requires
        event_applied(a, UiEvent::Error { message }, b),
    ensures
        adds_one(a, b),
        b.blocks@.last() matches TranscriptBlock::Error { text } && text@ == "Error: "@ + message@,
        b.turn == a.turn,
        b.prompt == a.prompt,
{
    models_follow(a);
    models_follow(b);
    assert(b.transcript().last() == b.blocks@.last()@);
}

/// What the worker says of a missing runtime is shown and remembered, and once
/// there is a runtime the interface is connected.
pub proof fn connection_is_told(a: App, reason: String, b: App, c: App)
    requires
        event_applied(a, UiEvent::RuntimeOffline { reason }, b),
        event_applied(a, UiEvent::RuntimeReady, c),
    ensures
        !b.connected,
        b.offline_reason == Some(reason),
        adds_one(a, b),
        b.blocks@.last() matches TranscriptBlock::System { text } && text@ == reason@,
        c.connected,
        shows_the_same(a, c),
{
    models_follow(a);
    models_follow(b);
    models_follow(c);
    assert(b.transcript().last() == b.blocks@.last()@);
}

/// A turn that starts runs from then on, and an interrupted one no longer runs,
/// which is shown.
pub proof fn turns_start_and_are_interrupted(a: App, b: App, c: App)
    requires
        event_applied(a, UiEvent::TurnStarted, b),
        event_applied(a, UiEvent::Interrupted, c),
    ensures
        b.turn.running,
        b.turn.started_at is Some,
        shows_the_same(a, b),
        !c.turn.running,
        c.turn.started_at is None,
        !c.plan_awaiting_approval,
        adds_one(a, c),
        c.blocks@.last() matches TranscriptBlock::System { text } && text@ == "[Interrupted]"@,
{
    models_follow(a);
    models_follow(b);
    models_follow(c);
    assert(c.transcript().last() == c.blocks@.last()@);
}

/// A plan is shown with its text and waits for an answer until it is confirmed or
/// rejected; then a review of it on top is closed, and no other dialog.
pub proof fn plan_waits_for_an_answer(
    a: App,
    plan_text: String,
    tool_calls: Vec<serde_json::Value>,
    b: App,
    reason: String,
    c: App,
    d: App,
)
    requires
        event_applied(a, UiEvent::PlanProposed { plan_text, tool_calls }, b),
        event_applied(b, UiEvent::PlanConfirmed, c),
        event_applied(b, UiEvent::PlanRejected { reason }, d),
    ensures
        adds_one(a, b),
        b.blocks@.last() matches TranscriptBlock::PlanProposal { plan_text: t, tool_calls: calls }
            && t@ == plan_text@ && calls@ == tool_calls@,
        b.plan_awaiting_approval,
        !c.plan_awaiting_approval,
        !d.plan_awaiting_approval,
        adds_one(b, c),
        adds_one(b, d),
        c.blocks@.last() matches TranscriptBlock::System { text } && text@ == "Plan approved"@,
        d.blocks@.last() matches TranscriptBlock::System { text } && text@ == "Plan rejected: "@
            + reason@,
        b.modals@.len() > 0 && b.modals@.last() is PlanReview ==> c.modals@
            == b.modals@.drop_last() && d.modals@ == b.modals@.drop_last(),
        b.modals@.len() == 0 || !(b.modals@.last() is PlanReview) ==> c.modals@ == b.modals@
            && d.modals@ == b.modals@,
{
    models_follow(a);
    models_follow(b);
    models_follow(c);
    models_follow(d);
    assert(b.transcript().last() == b.blocks@.last()@);
    assert(c.transcript().last() == c.blocks@.last()@);
    assert(d.transcript().last() == d.blocks@.last()@);
}

/// A request to enter plan mode waits, unanswered, until it is granted or turned
/// down; the answer is noted on it, and nothing else is changed.
pub proof fn plan_mode_request_is_answered(
    a: App,
    reason: String,
    b: App,
    why: String,
    c: App,
    d: App,
)
    requires
        event_applied(a, UiEvent::PlanModeRequested { reason }, b),
        event_applied(b, UiEvent::PlanModeApproved, c),
        event_applied(b, UiEvent::PlanModeRejected { reason: why }, d),
    ensures
        adds_one(a, b),
        b.blocks@.last() matches TranscriptBlock::PlanModeRequest { reason: t, approved } && t@
            == reason@ && approved is None,
        b.plan_mode_request_pending,
        !c.plan_mode_request_pending,
        !d.plan_mode_request_pending,
        c.blocks@.len() == b.blocks@.len(),
        d.blocks@.len() == b.blocks@.len(),
        keeps_first(b, c, b.blocks@.len() - 1),
        keeps_first(b, d, b.blocks@.len() - 1),
        c.blocks@.last() matches TranscriptBlock::PlanModeRequest { reason: t, approved } && t@
            == reason@ && approved == Some(true),
        d.blocks@.last() matches TranscriptBlock::PlanModeRequest { reason: t, approved } && t@
            == reason@ && approved == Some(false),
{
    models_follow(a);
    models_follow(b);
    models_follow(c);
    models_follow(d);
    assert(b.transcript().last() == b.blocks@.last()@);
    let wanted = |b: BlockModel| is_plan_request(b);
    last_block_is_last(b.transcript(), wanted);
    assert(wanted(b.transcript()[b.blocks@.len() - 1]));
    assert(c.transcript().last() == c.blocks@.last()@);
    assert(d.transcript().last() == d.blocks@.last()@);
}

/// The goal's progress is told and kept, and a goal that is reached or dropped is
/// no longer there.
pub proof fn goal_is_followed(
    a: App,
    goal: GoalState,
    reason: String,
    turns: u32,
    b: App,
    condition: String,
    c: App,
    d: App,
)
    requires
        a.active_goal == Some(goal),
        event_applied(a, UiEvent::GoalContinuing { reason, turns }, b),
        event_applied(a, UiEvent::GoalAchieved { condition, turns }, c),
        event_applied(a, UiEvent::GoalCleared, d),
    ensures
        b.active_goal matches Some(g) && g.turns == turns && g.last_reason == Some(reason)
            && g.condition == goal.condition,
        c.active_goal is None,
        d.active_goal is None,
        adds_one(a, b),
        adds_one(a, c),
        adds_one(a, d),
        b.blocks@.last() matches TranscriptBlock::System { text } && text@
            == "Goal continuing (turn "@ + crate::text::decimal(turns as nat) + "): "@ + reason@,
        c.blocks@.last() matches TranscriptBlock::System { text } && text@
            == "Goal achieved after "@ + crate::text::decimal(turns as nat) + " turns: \""@
            + condition@ + "\""@,
        d.blocks@.last() matches TranscriptBlock::System { text } && text@ == "Goal cleared."@,
{
    models_follow(a);
    models_follow(b);
    models_follow(c);
    models_follow(d);
    assert(b.transcript().last() == b.blocks@.last()@);
    assert(c.transcript().last() == c.blocks@.last()@);
    assert(d.transcript().last() == d.blocks@.last()@);
}

/// A turn of the loop is counted, and the loop is gone once it stopped.
pub proof fn loop_is_followed(
    a: App,
    l: LoopUiState,
    source: String,
    delay_secs: Option<u64>,
    b: App,
    c: App,
)
    requires
        a.loop_state == Some(l),
        l.turns_run < u32::MAX,
        event_applied(a, UiEvent::LoopTurnScheduled { source, delay_secs }, b),
        event_applied(a, UiEvent::LoopStopped, c),
    ensures
        b.loop_state == Some(LoopUiState { turns_run: (l.turns_run + 1) as u32, ..l }),
        c.loop_state is None,
        shows_the_same(a, b),
        shows_the_same(a, c),
{
    models_follow(a);
    models_follow(b);
    models_follow(c);
}

/// What is told of the conversation, of a model switch, of the task list and of the
/// servers is kept as it was told.
pub proof fn news_is_kept(
    a: App,
    removed: usize,
    kept: usize,
    b: App,
    preset_id: String,
    model: String,
    c: App,
    todos: Vec<crate::events::TodoItem>,
    d: App,
    entries: Vec<crate::modal::McpEntry>,
    e: App,
    breakdown: String,
    f: App,
)
    requires
        event_applied(a, UiEvent::Compacted { removed, kept }, b),
        event_applied(a, UiEvent::ModelSwitched { preset_id, model }, c),
        event_applied(a, UiEvent::TodoUpdated { todos }, d),
        event_applied(a, UiEvent::McpServersLoaded { entries }, e),
        event_applied(a, UiEvent::ContextBreakdown { breakdown }, f),
    ensures
        adds_one(a, b),
        b.blocks@.last() == (TranscriptBlock::Compacted { removed, kept }),
        c.active_preset == Some(preset_id),
        c.model_name == model,
        shows_the_same(a, c),
        d.current_todos == todos,
        shows_the_same(a, d),
        e.modals@.len() == a.modals@.len() + 1,
        e.modals@.last() == (Modal::McpServers { entries, selected: 0 }),
        e.modals@.drop_last() == a.modals@,
        f.usage.last_breakdown == Some(breakdown),
        f.usage.total_input == a.usage.total_input,
{
    models_follow(a);
    models_follow(b);
    models_follow(c);
    models_follow(d);
    assert(b.transcript().last() == b.blocks@.last()@);
    assert(e.modals@.drop_last() =~= a.modals@);
}

/// The token counts of a call are added to those of the session and of the turn,
/// each to its own, and the counts of the latest call are those of the call.
pub proof fn tokens_are_counted(
    a: App,
    input_tokens: u64,
    output_tokens: u64,
    cache_hit_tokens: u64,
    cache_miss_tokens: u64,
    b: App,
)
    requires
        event_applied(
            a,
            UiEvent::Usage { input_tokens, output_tokens, cache_hit_tokens, cache_miss_tokens },
            b,
        ),
        a.usage.total_input + input_tokens <= u64::MAX,
        a.usage.total_output + output_tokens <= u64::MAX,
        a.usage.total_cache_hit + cache_hit_tokens <= u64::MAX,
        a.usage.total_cache_miss + cache_miss_tokens <= u64::MAX,
        a.usage.turn_cache_hit + cache_hit_tokens <= u64::MAX,
        a.usage.turn_cache_miss + cache_miss_tokens <= u64::MAX,
        cache_hit_tokens + cache_miss_tokens <= u64::MAX,
    ensures
        b.usage.total_input == a.usage.total_input + input_tokens,
        b.usage.total_output == a.usage.total_output + output_tokens,
        b.usage.total_cache_hit == a.usage.total_cache_hit + cache_hit_tokens,
        b.usage.total_cache_miss == a.usage.total_cache_miss + cache_miss_tokens,
        b.usage.turn_cache_hit == a.usage.turn_cache_hit + cache_hit_tokens,
        b.usage.turn_cache_miss == a.usage.turn_cache_miss + cache_miss_tokens,
        b.usage.input_tokens == input_tokens,
        b.usage.output_tokens == output_tokens,
        b.usage.cache_hit_tokens == cache_hit_tokens,
        b.usage.cache_miss_tokens == cache_miss_tokens,
        b.usage.last_prompt_tokens >= input_tokens,
        b.usage.last_prompt_tokens >= cache_hit_tokens + cache_miss_tokens,
        b.usage.last_prompt_tokens == input_tokens || b.usage.last_prompt_tokens
            == cache_hit_tokens + cache_miss_tokens,
        shows_the_same(a, b),
{
    models_follow(a);
    models_follow(b);
}

/// Two calls are counted as one call with the sums would be, over the session.
pub proof fn calls_add_up(
    a: App,
    i: u64,
    o: u64,
    h: u64,
    m: u64,
    b: App,
    i2: u64,
    o2: u64,
    h2: u64,
    m2: u64,
    c: App,
)
    requires
        event_applied(
            a,
            UiEvent::Usage {
                input_tokens: i,
                output_tokens: o,
                cache_hit_tokens: h,
                cache_miss_tokens: m,
            },
            b,
        ),
        event_applied(
            b,
            UiEvent::Usage {
                input_tokens: i2,
                output_tokens: o2,
                cache_hit_tokens: h2,
                cache_miss_tokens: m2,
            },
            c,
        ),
        a.usage.total_input + i + i2 <= u64::MAX,
        a.usage.total_output + o + o2 <= u64::MAX,
    ensures
        c.usage.total_input == a.usage.total_input + i + i2,
        c.usage.total_output == a.usage.total_output + o + o2,
        c.usage.input_tokens == i2,
        c.usage.output_tokens == o2,
{
}

/// The cache figures of a turn start from nothing with the turn and are kept with
/// its end: the hits, and hits and misses together; none where nothing was
/// reported.
pub proof fn cache_figures_are_those_of_the_turn(a: App, b: App, c: App)
    requires
        event_applied(a, UiEvent::TurnStarted, b),
        event_applied(a, UiEvent::TurnFinished, c),
        a.usage.turn_cache_hit + a.usage.turn_cache_miss <= u64::MAX,
    ensures
        b.usage.turn_cache_hit == 0,
        b.usage.turn_cache_miss == 0,
        c.usage.last_turn_cache == if a.usage.turn_cache_hit + a.usage.turn_cache_miss > 0 {
            Some(
                (
                    a.usage.turn_cache_hit,
                    (a.usage.turn_cache_hit + a.usage.turn_cache_miss) as u64,
                ),
            )
        } else {
            None
        },
        c.usage.total_cache_hit == a.usage.total_cache_hit,
        c.usage.total_cache_miss == a.usage.total_cache_miss,
{
}

/// The start and the end of a hook are told, and its latest line takes the place
/// of the one before it.
pub proof fn hooks_are_reported(
    a: App,
    hook_event: String,
    hook_name: String,
    status_message: Option<String>,
    b: App,
    last_line: String,
    c: App,
    outcome: String,
    duration_ms: u64,
    d: App,
)
    requires
        event_applied(a, UiEvent::HookStarted { hook_event, hook_name, status_message }, b),
        event_applied(b, UiEvent::HookProgress { hook_event, hook_name, last_line }, c),
        event_applied(
            c,
            UiEvent::HookFinished { hook_event, hook_name, outcome, duration_ms },
            d,
        ),
    ensures
        adds_one(a, b),
        b.blocks@.last() matches TranscriptBlock::System { text } && text@ == "⚡ hook ["@
            + hook_event@ + "] "@ + hook_name@ + " started"@,
        c.blocks@.len() == b.blocks@.len(),
        keeps_first(b, c, b.blocks@.len() - 1),
        c.blocks@.last() matches TranscriptBlock::System { text } && text@ == "⚡ hook "@
            + hook_name@ + ": "@ + last_line@,
        adds_one(c, d),
        d.blocks@.last() matches TranscriptBlock::System { text } && text@ == "✓ hook ["@
            + hook_event@ + "] "@ + hook_name@ + " → "@ + outcome@ + " ("@ + crate::text::decimal(
            duration_ms as nat,
        ) + "ms)"@,
        b.scroll_offset == 0,
        c.scroll_offset == 0,
        d.scroll_offset == 0,
{
    models_follow(a);
    models_follow(b);
    models_follow(c);
    models_follow(d);
    assert(b.transcript().last() == b.blocks@.last()@);
    let text = b.blocks@.last()->System_text@;
    reveal_strlit("⚡ hook [");
    reveal_strlit("⚡ hook");
    assert(text.subrange(0, 6) =~= "⚡ hook"@);
    assert(crate::text::has_prefix(text, "⚡ hook"@));
    assert(c.transcript().last() == c.blocks@.last()@);
    assert(d.transcript().last() == d.blocks@.last()@);
}

/// What a hook or a WeChat user has to say is shown as it was said, at the end of
/// the transcript.
pub proof fn messages_are_shown(
    a: App,
    text: String,
    b: App,
    user_id: String,
    c: App,
)
    requires
        event_applied(a, UiEvent::HookSystemMessage { text }, b),
        event_applied(a, UiEvent::WeixinMessage { user_id, text }, c),
    ensures
        adds_one(a, b),
        b.blocks@.last() matches TranscriptBlock::System { text: t } && t@ == text@,
        adds_one(a, c),
        c.blocks@.last() matches TranscriptBlock::WeixinMessage { user_id: u, text: t } && u@
            == user_id@ && t@ == text@,
        b.scroll_offset == 0,
        c.scroll_offset == 0,
{
    models_follow(a);
    models_follow(b);
    models_follow(c);
    assert(b.transcript().last() == b.blocks@.last()@);
    assert(c.transcript().last() == c.blocks@.last()@);
}

/// No event takes a block away, or changes one that is not the last, but for a
/// resumed session, a tool result, the whole reasoning and the answer to a
/// request to plan.
pub proof fn what_is_shown_stays(a: App, ev: UiEvent, b: App)
    requires
        event_applied(a, ev, b),
        !(ev is SessionResumed),
        !(ev is ToolResult),
        !(ev is Reasoning),
        !(ev is PlanModeApproved),
        !(ev is PlanModeRejected),
    ensures
        b.blocks@.len() >= a.blocks@.len(),
        b.blocks@.len() <= a.blocks@.len() + 1,
        keeps_first(a, b, a.blocks@.len() - 1),
{
    models_follow(a);
    models_follow(b);
}

/// The user keeps their place unless a session, a hook or a WeChat user calls for
/// attention.
pub proof fn place_in_the_transcript_is_kept(a: App, ev: UiEvent, b: App)
    requires
        event_applied(a, ev, b),
    ensures
        ev is SessionResumed || ev is HookStarted || ev is HookProgress || ev is HookFinished
            || ev is HookSystemMessage || ev is WeixinMessage ==> b.scroll_offset == 0,
        !(ev is SessionResumed || ev is HookStarted || ev is HookProgress || ev is HookFinished
            || ev is HookSystemMessage || ev is WeixinMessage) ==> b.scroll_offset
            == a.scroll_offset,
{
}

/// The spinner says what the tool that was called is about to do.
pub proof fn spinner_follows_the_tool(
    a: App,
    id: String,
    name: String,
    arguments: String,
    b: App,
)
    requires
        event_applied(a, UiEvent::ToolCall { id, name, arguments }, b),
    ensures
        b.turn.running == a.turn.running,
        name@ == "Read"@ || name@ == "Grep"@ || name@ == "Glob"@ ==> b.turn.spinner_verb@
            == "Reading"@,
        name@ == "Bash"@ ==> b.turn.spinner_verb@ == "Running"@,
        name@ == "Edit"@ || name@ == "Write"@ ==> b.turn.spinner_verb@ == "Editing"@,
        !(name@ == "Read"@ || name@ == "Grep"@ || name@ == "Glob"@ || name@ == "Bash"@ || name@
            == "Edit"@ || name@ == "Write"@) ==> b.turn.spinner_verb@ == "Calling tool"@,
{
    reveal_strlit("Read");
    reveal_strlit("Grep");
    reveal_strlit("Glob");
    reveal_strlit("Edit");
    reveal_strlit("Write");
    reveal_strlit("Bash");
    assert("Read"@[0] == 'R' && "Grep"@[0] == 'G' && "Glob"@[0] == 'G' && "Edit"@[0] == 'E'
        && "Write"@[0] == 'W' && "Bash"@[0] == 'B');
}

// ---------------------------------------------------------------------------
// What the agent reports
// ---------------------------------------------------------------------------

/// A tool of the agent that came back with an error is told as a failure, and one
/// without as a success; id, name and output are told as they are.
pub proof fn tool_errors_are_told(
    id: String,
    name: String,
    output: String,
    step: usize,
    is_error: bool,
)
    ensures
        told(AgentEvent::ToolResult { id, name, output, step, is_error }) matches Some(
            UiEvent::ToolResult { id: i, name: n, output: o, success },
        ) && i == id && n == name && o == output && (success <==> !is_error),
{
}

/// Whatever the agent writes is told, piece by piece and as a whole, answers as
/// answers and reasoning as reasoning.
pub proof fn texts_are_told(text: String, step: usize)
    ensures
        told(AgentEvent::PartialToken { text, step }) == Some(UiEvent::AssistantPartial { text }),
        told(AgentEvent::AssistantText { text, step }) == Some(
            UiEvent::AssistantMessage { content: text },
        ),
        told(AgentEvent::PartialReasoning { text, step }) == Some(
            UiEvent::ReasoningPartial { text },
        ),
        told(AgentEvent::Reasoning { text, step }) == Some(UiEvent::Reasoning { content: text }),
{
}

/// Only a retry and what the interface has no use for are kept from it.
pub proof fn nothing_else_is_kept_back(ev: AgentEvent)
    ensures
        told(ev) is None <==> ev is LlmRetry || ev is Other,
{
}

/// Figures, plans, goals and hooks are told as the agent reports them: nothing of them
/// is changed on the way.
pub proof fn reports_are_passed_on(ev: AgentEvent)
    ensures
        ev matches AgentEvent::ToolCall { name, id, arguments, .. } ==> (told(ev) matches Some(
            UiEvent::ToolCall { id: i, name: n, arguments: x },
        ) && i == id && n == name && x == arguments),
        ev matches AgentEvent::Usage {
            input_tokens,
            output_tokens,
            cache_hit_tokens,
            cache_miss_tokens,
            ..
        } ==> (told(ev) matches Some(
            UiEvent::Usage {
                input_tokens: i,
                output_tokens: o,
                cache_hit_tokens: h,
                cache_miss_tokens: m,
            },
        ) && i == input_tokens && o == output_tokens && h == cache_hit_tokens && m
            == cache_miss_tokens),
        ev matches AgentEvent::ContextBreakdown { breakdown, .. } ==> (told(ev) matches Some(
            UiEvent::ContextBreakdown { breakdown: x },
        ) && x == breakdown),
        ev matches AgentEvent::Latency { llm_ms, .. } ==> (told(ev) matches Some(
            UiEvent::Latency { llm_ms: x },
        ) && x == llm_ms),
        ev matches AgentEvent::Compacted { removed, kept, .. } ==> (told(ev) matches Some(
            UiEvent::Compacted { removed: x, kept: y },
        ) && x == removed && y == kept),
        ev is TurnFinished <==> told(ev) is Some && told(ev)->0 is TurnFinished,
        ev matches AgentEvent::PlanProposed { plan_text, tool_calls } ==> (told(ev) matches Some(
            UiEvent::PlanProposed { plan_text: x, tool_calls: y },
        ) && x == plan_text && y == tool_calls),
        ev is PlanConfirmed <==> told(ev) is Some && told(ev)->0 is PlanConfirmed,
        ev is PlanModeApproved <==> told(ev) is Some && told(ev)->0 is PlanModeApproved,
        ev is GoalCleared <==> told(ev) is Some && told(ev)->0 is GoalCleared,
        ev matches AgentEvent::PlanRejected { reason } ==> (told(ev) matches Some(
            UiEvent::PlanRejected { reason: x },
        ) && x == reason),
        ev matches AgentEvent::PlanModeRequested { reason } ==> (told(ev) matches Some(
            UiEvent::PlanModeRequested { reason: x },
        ) && x == reason),
        ev matches AgentEvent::PlanModeRejected { reason } ==> (told(ev) matches Some(
            UiEvent::PlanModeRejected { reason: x },
        ) && x == reason),
        ev matches AgentEvent::TodoUpdated { todos } ==> (told(ev) matches Some(
            UiEvent::TodoUpdated { todos: x },
        ) && x == todos),
        ev matches AgentEvent::GoalContinuing { reason, turns } ==> (told(ev) matches Some(
            UiEvent::GoalContinuing { reason: x, turns: y },
        ) && x == reason && y == turns),
        ev matches AgentEvent::GoalAchieved { condition, turns } ==> (told(ev) matches Some(
            UiEvent::GoalAchieved { condition: x, turns: y },
        ) && x == condition && y == turns),
        ev matches AgentEvent::HookStarted { hook_event, hook_name, status_message } ==> (
        told(ev) matches Some(
            UiEvent::HookStarted { hook_event: x, hook_name: y, status_message: z },
        ) && x == hook_event && y == hook_name && z == status_message),
        ev matches AgentEvent::HookProgress { hook_event, hook_name, last_line } ==> (
        told(ev) matches Some(
            UiEvent::HookProgress { hook_event: x, hook_name: y, last_line: z },
        ) && x == hook_event && y == hook_name && z == last_line),
        ev matches AgentEvent::HookFinished { hook_event, hook_name, outcome, duration_ms } ==> (
        told(ev) matches Some(
            UiEvent::HookFinished { hook_event: x, hook_name: y, outcome: z, duration_ms: d },
        ) && x == hook_event && y == hook_name && z == outcome && d == duration_ms),
        ev matches AgentEvent::HookSystemMessage { text } ==> (told(ev) matches Some(
            UiEvent::HookSystemMessage { text: x },
        ) && x == text),
{
}

/// A tool that fails in the agent is shown as failed in the interface.
pub proof fn failed_tool_is_shown_as_failed(
    a: App,
    id: String,
    name: String,
    output: String,
    step: usize,
    ui: UiEvent,
    b: App,
    i: int,
)
    requires
        told(AgentEvent::ToolResult { id, name, output, step, is_error: true }) == Some(ui),
        event_applied(a, ui, b),
        crate::laws::tools::is_latest_call(a.blocks@, id@, i),
    ensures
        b.blocks@[i] matches TranscriptBlock::ToolCall { result, .. } && (result matches Some(r)
            && !r.success && r.output@ == output@),
{
    crate::laws::tools::failure_is_shown_as_failure(a, id, name, output, b, i);
}

} // verus!
