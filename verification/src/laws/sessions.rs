//! Resumed sessions: what the rebuilt transcript shows of the saved messages.
use vstd::prelude::*;
#[allow(unused_imports)]
use vstd::string::*;

use crate::app::event_loop::event_applied;
use crate::app::App;
use crate::events::UiEvent;
use crate::laws::lists::{
    nothing_picked, picked, picked_alike, picked_from_one, picked_in_a_row,
};
use crate::laws::words::{all_white, blank_is_trimmed_to_nothing};
use crate::message::{Message, Role, ToolCall};
use crate::model::{block_models, BlockModel, TranscriptBlock};
use crate::render::{
    answer_blocks, answered_call, call_block, conversation, is_open_call, last_open_call,
    message_shown, reasoning_blocks,
};
use crate::text::decimal;

verus! {

/// What a block says in the user's name.
pub open spec fn user_text(b: TranscriptBlock) -> Option<Seq<char>> {
    match b {
        TranscriptBlock::User { text } => Some(text@),
        _ => None,
    }
}

/// What a block gives as the assistant's answer.
pub open spec fn answer_text(b: TranscriptBlock) -> Option<Seq<char>> {
    match b {
        TranscriptBlock::Assistant { text, .. } => Some(text@),
        _ => None,
    }
}

/// What a block shows of the assistant's reasoning.
pub open spec fn reasoning_text(b: TranscriptBlock) -> Option<Seq<char>> {
    match b {
        TranscriptBlock::Reasoning { text, .. } => Some(text@),
        _ => None,
    }
}

/// What a message says in the user's name, unless it is blank.
pub open spec fn asked(m: Message) -> Option<Seq<char>> {
    if m.role == Role::User && !all_white(m.content@) {
        Some(m.content@)
    } else {
        None
    }
}

/// What the assistant answered in a message, unless it is blank.
pub open spec fn answered(m: Message) -> Option<Seq<char>> {
    if m.role == Role::Assistant && !all_white(m.content@) {
        Some(m.content@)
    } else {
        None
    }
}

/// What the assistant thought in a message, unless it is blank.
pub open spec fn thought(m: Message) -> Option<Seq<char>> {
    match m.reasoning_content {
        Some(r) => if m.role == Role::Assistant && !all_white(r@) {
            Some(r@)
        } else {
            None
        },
        None => None,
    }
}

spec fn model_user(b: BlockModel) -> Option<Seq<char>> {
    match b {
        BlockModel::User { text } => Some(text),
        _ => None,
    }
}

spec fn model_answer(b: BlockModel) -> Option<Seq<char>> {
    match b {
        BlockModel::Assistant { text, .. } => Some(text),
        _ => None,
    }
}

spec fn model_reasoning(b: BlockModel) -> Option<Seq<char>> {
    match b {
        BlockModel::Reasoning { text, .. } => Some(text),
        _ => None,
    }
}

proof fn open_call_is_found(blocks: Seq<BlockModel>, id: Seq<char>, n: int)
    requires
        0 <= n <= blocks.len(),
    ensures
        ({
            let at = last_open_call(blocks, id, n);
            &&& -1 <= at < n
            &&& at >= 0 ==> is_open_call(blocks[at], id)
            &&& forall|k: int| at < k < n ==> !is_open_call(#[trigger] blocks[k], id)
        }),
    decreases n,
{
    if n > 0 && !is_open_call(blocks[n - 1], id) {
        open_call_is_found(blocks, id, n - 1);
    }
}

/// What one more message adds to what is picked, where tool calls hold nothing of
/// it.
proof fn message_adds(
    blocks: Seq<BlockModel>,
    m: Message,
    pick: spec_fn(BlockModel) -> Option<Seq<char>>,
    added: Option<Seq<char>>,
)
    requires
        pick == (|b: BlockModel| model_user(b)) && added == asked(m) || pick == (
        |b: BlockModel| model_answer(b)) && added == answered(m) || pick == (
        |b: BlockModel| model_reasoning(b)) && added == thought(m),
    ensures
        picked(message_shown(blocks, m), pick) == match added {
            Some(x) => picked(blocks, pick).push(x),
            None => picked(blocks, pick),
        },
{
    let old = picked(blocks, pick);
    blank_is_trimmed_to_nothing(m.content@);
    if m.reasoning_content is Some {
        blank_is_trimmed_to_nothing(m.reasoning_content->Some_0@);
    }
    match m.role {
        Role::System => {},
        Role::User => {
            let b = BlockModel::User { text: m.content@ };
            assert(blocks.push(b).drop_last() =~= blocks);
        },
        Role::Assistant => {
            let calls = m.tool_calls@.map_values(|c: ToolCall| call_block(c));
            nothing_picked(calls, pick);
            let r = reasoning_blocks(m);
            let a = answer_blocks(m);
            picked_in_a_row(blocks + r + a, calls, pick);
            picked_in_a_row(blocks + r, a, pick);
            picked_in_a_row(blocks, r, pick);
            if r.len() > 0 {
                picked_from_one(r[0], pick);
                assert(r =~= seq![r[0]]);
            } else {
                assert(r =~= Seq::<BlockModel>::empty());
            }
            if a.len() > 0 {
                picked_from_one(a[0], pick);
                assert(a =~= seq![a[0]]);
            } else {
                assert(a =~= Seq::<BlockModel>::empty());
            }
            match added {
                Some(x) => {
                    assert(picked(message_shown(blocks, m), pick) =~= old.push(x));
                },
                None => {
                    assert(picked(message_shown(blocks, m), pick) =~= old);
                },
            }
        },
        Role::Tool => {
            let id = answered_call(m);
            let at = last_open_call(blocks, id, blocks.len() as int);
            open_call_is_found(blocks, id, blocks.len() as int);
            let after = message_shown(blocks, m);
            if at >= 0 {
                picked_alike(after, pick, blocks, pick);
            } else {
                assert(after.drop_last() =~= blocks);
            }
        },
    }
}

proof fn conversation_adds_up(
    messages: Seq<Message>,
    n: int,
    pick: spec_fn(BlockModel) -> Option<Seq<char>>,
    said: spec_fn(Message) -> Option<Seq<char>>,
)
    requires
        0 <= n <= messages.len(),
        pick == (|b: BlockModel| model_user(b)) && said == (|m: Message| asked(m)) || pick == (
        |b: BlockModel| model_answer(b)) && said == (|m: Message| answered(m)) || pick == (
        |b: BlockModel| model_reasoning(b)) && said == (|m: Message| thought(m)),
    ensures
        picked(conversation(messages, n), pick) == picked(messages.take(n), said),
    decreases n,
{
    if n > 0 {
        conversation_adds_up(messages, n - 1, pick, said);
        message_adds(
            conversation(messages, n - 1),
            messages[n - 1],
            pick,
            said(messages[n - 1]),
        );
        assert(messages.take(n).drop_last() =~= messages.take(n - 1));
    }
}

/// A resumed session shows all that the user said, in its order, and nothing
/// else in the user's name.
pub proof fn all_questions_are_shown(messages: Seq<Message>, blocks: Seq<TranscriptBlock>)
    requires
        block_models(blocks) == conversation(messages, messages.len() as int),
    ensures
        picked(blocks, |b: TranscriptBlock| user_text(b)) == picked(
            messages,
            |m: Message| asked(m),
        ),
{
    let pick = |b: BlockModel| model_user(b);
    let said = |m: Message| asked(m);
    conversation_adds_up(messages, messages.len() as int, pick, said);
    assert(messages.take(messages.len() as int) =~= messages);
    picked_alike(blocks, |b: TranscriptBlock| user_text(b), block_models(blocks), pick);
}

/// A resumed session shows every answer of the assistant, in its order, whatever
/// the reasoning and the tool calls beside it are, and nothing else as an
/// answer.
pub proof fn all_answers_are_shown(messages: Seq<Message>, blocks: Seq<TranscriptBlock>)
    requires
        block_models(blocks) == conversation(messages, messages.len() as int),
    ensures
        picked(blocks, |b: TranscriptBlock| answer_text(b)) == picked(
            messages,
            |m: Message| answered(m),
        ),
{
    let pick = |b: BlockModel| model_answer(b);
    let said = |m: Message| answered(m);
    conversation_adds_up(messages, messages.len() as int, pick, said);
    assert(messages.take(messages.len() as int) =~= messages);
    picked_alike(blocks, |b: TranscriptBlock| answer_text(b), block_models(blocks), pick);
}

/// A resumed session shows all the reasoning of the assistant, in its order.
pub proof fn all_reasoning_is_shown(messages: Seq<Message>, blocks: Seq<TranscriptBlock>)
    requires
        block_models(blocks) == conversation(messages, messages.len() as int),
    ensures
        picked(blocks, |b: TranscriptBlock| reasoning_text(b)) == picked(
            messages,
            |m: Message| thought(m),
        ),
{
    let pick = |b: BlockModel| model_reasoning(b);
    let said = |m: Message| thought(m);
    conversation_adds_up(messages, messages.len() as int, pick, said);
    assert(messages.take(messages.len() as int) =~= messages);
    picked_alike(blocks, |b: TranscriptBlock| reasoning_text(b), block_models(blocks), pick);
}

proof fn earlier_messages_are_shown_alike(messages: Seq<Message>, m: Message, n: int)
    requires
        0 <= n <= messages.len(),
    ensures
        conversation(messages.push(m), n) == conversation(messages, n),
    decreases n,
{
    if n > 0 {
        earlier_messages_are_shown_alike(messages, m, n - 1);
        assert(messages.push(m)[n - 1] == messages[n - 1]);
    }
}

/// One more message of the assistant adds its reasoning, then its answer, then
/// its tool calls, each of which waits for a result, and leaves the rest as it
/// is.
pub proof fn assistant_message_is_shown_in_order(
    messages: Seq<Message>,
    m: Message,
    before: Seq<TranscriptBlock>,
    after: Seq<TranscriptBlock>,
)
    requires
        m.role == Role::Assistant,
        block_models(before) == conversation(messages, messages.len() as int),
        block_models(after) == conversation(messages.push(m), (messages.len() + 1) as int),
    ensures
        ({
            let n = before.len() as int;
            let thinking: int = if thought(m) is Some {
                1
            } else {
                0
            };
            let answering: int = if answered(m) is Some {
                1
            } else {
                0
            };
            &&& after.len() == n + thinking + answering + m.tool_calls@.len()
            &&& forall|j: int| 0 <= j < n ==> (#[trigger] after[j])@ == before[j]@
            &&& thinking == 1 ==> (after[n] matches TranscriptBlock::Reasoning { text, streaming }
                && Some(text@) == thought(m) && !streaming)
            &&& answering == 1 ==> (after[n + thinking] matches TranscriptBlock::Assistant {
                text,
                streaming,
                latency_ms,
            } && text@ == m.content@ && !streaming && latency_ms is None)
            &&& forall|j: int|
                0 <= j < m.tool_calls@.len() ==> (#[trigger] after[n + thinking + answering
                    + j] matches TranscriptBlock::ToolCall { id, name, result, .. } && id@
                    == m.tool_calls@[j].id@ && name@ == m.tool_calls@[j].name@ && result is None)
        }),
{
    earlier_messages_are_shown_alike(messages, m, messages.len() as int);
    assert(messages.push(m)[messages.len() as int] == m);
    blank_is_trimmed_to_nothing(m.content@);
    if m.reasoning_content is Some {
        blank_is_trimmed_to_nothing(m.reasoning_content->Some_0@);
    }
    let old = block_models(before);
    let new = block_models(after);
    let n = before.len() as int;
    let r = reasoning_blocks(m);
    let a = answer_blocks(m);
    let calls = m.tool_calls@.map_values(|c: ToolCall| call_block(c));
    assert(new == old + r + a + calls);
    assert(new.len() == after.len());
    assert forall|j: int| 0 <= j < n implies (#[trigger] after[j])@ == before[j]@ by {
        assert(new[j] == after[j]@);
        assert(new[j] == old[j]);
    }
    if r.len() > 0 {
        assert(new[n] == r[0]);
        assert(new[n] == after[n]@);
    }
    if a.len() > 0 {
        assert(new[n + r.len()] == a[0]);
        assert(new[n + r.len()] == after[n + r.len()]@);
    }
    assert forall|j: int| 0 <= j < m.tool_calls@.len() implies (#[trigger] after[n + r.len()
        + a.len() + j] matches TranscriptBlock::ToolCall { id, name, result, .. } && id@
        == m.tool_calls@[j].id@ && name@ == m.tool_calls@[j].name@ && result is None) by {
        assert(new[n + r.len() + a.len() + j] == calls[j]);
        assert(new[n + r.len() + a.len() + j] == after[n + r.len() + a.len() + j]@);
    }
}

/// Whether a block is the tool call `id`, still without a result.
pub open spec fn waits(b: TranscriptBlock, id: Seq<char>) -> bool {
    b matches TranscriptBlock::ToolCall { id: own, result, .. } && own@ == id && result is None
}

/// A saved tool result goes to the latest call of its id that has none, with the
/// output that was saved, and leaves the rest as it is.
pub proof fn saved_result_goes_to_its_call(
    messages: Seq<Message>,
    m: Message,
    id: String,
    before: Seq<TranscriptBlock>,
    after: Seq<TranscriptBlock>,
    i: int,
)
    requires
        m.role == Role::Tool,
        m.tool_call_id == Some(id),
        block_models(before) == conversation(messages, messages.len() as int),
        block_models(after) == conversation(messages.push(m), (messages.len() + 1) as int),
        0 <= i < before.len(),
        waits(before[i], id@),
        forall|j: int| i < j < before.len() ==> !waits(#[trigger] before[j], id@),
    ensures
        after.len() == before.len(),
        forall|j: int| 0 <= j < before.len() && j != i ==> (#[trigger] after[j])@ == before[j]@,
        match (before[i], after[i]) {
            (
                TranscriptBlock::ToolCall { name, args_preview, .. },
                TranscriptBlock::ToolCall { id: own, name: name2, args_preview: args2, result },
            ) => own@ == id@ && name2@ == name@ && args2@ == args_preview@ && (result matches Some(
                r,
            ) && r.output@ == m.content@ && r.success && !r.expanded),
            _ => false,
        },
{
    earlier_messages_are_shown_alike(messages, m, messages.len() as int);
    assert(messages.push(m)[messages.len() as int] == m);
    let old = block_models(before);
    let new = block_models(after);
    let at = last_open_call(old, id@, old.len() as int);
    open_call_is_found(old, id@, old.len() as int);
    assert(old[i] == before[i]@);
    assert(is_open_call(old[i], id@));
    if at > i {
        assert(old[at] == before[at]@);
        assert(waits(before[at], id@));
    }
    assert(new.len() == after.len());
    assert(new[i] == after[i]@);
    assert forall|j: int| 0 <= j < before.len() && j != i implies (#[trigger] after[j])@
        == before[j]@ by {
        assert(new[j] == after[j]@);
        assert(old[j] == before[j]@);
    }
}

/// A saved tool result without a waiting call is shown as a call of its own, at
/// the end.
pub proof fn saved_result_without_a_call_stands_alone(
    messages: Seq<Message>,
    m: Message,
    id: String,
    before: Seq<TranscriptBlock>,
    after: Seq<TranscriptBlock>,
)
    requires
        m.role == Role::Tool,
        m.tool_call_id == Some(id),
        block_models(before) == conversation(messages, messages.len() as int),
        block_models(after) == conversation(messages.push(m), (messages.len() + 1) as int),
        forall|j: int| 0 <= j < before.len() ==> !waits(#[trigger] before[j], id@),
    ensures
        after.len() == before.len() + 1,
        forall|j: int| 0 <= j < before.len() ==> (#[trigger] after[j])@ == before[j]@,
        after.last() matches TranscriptBlock::ToolCall { id: own, name, args_preview, result } && own@
            == id@ && name@.len() == 0 && args_preview@.len() == 0 && (result matches Some(r)
            && r.output@ == m.content@),
{
    earlier_messages_are_shown_alike(messages, m, messages.len() as int);
    assert(messages.push(m)[messages.len() as int] == m);
    let old = block_models(before);
    let new = block_models(after);
    let at = last_open_call(old, id@, old.len() as int);
    open_call_is_found(old, id@, old.len() as int);
    if at >= 0 {
        assert(old[at] == before[at]@);
        assert(waits(before[at], id@));
    }
    assert(new.len() == after.len());
    assert(new.last() == after.last()@);
    assert forall|j: int| 0 <= j < before.len() implies (#[trigger] after[j])@ == before[j]@ by {
        assert(new[j] == after[j]@);
        assert(old[j] == before[j]@);
    }
}

/// A resumed session takes the place of what was shown, block by block, with a
/// note behind it, and leaves no turn running.
pub proof fn resumed_session_is_shown(
    a: App,
    session_id: String,
    turn_count: usize,
    blocks: Vec<TranscriptBlock>,
    b: App,
)
    requires
        event_applied(a, UiEvent::SessionResumed { session_id, turn_count, blocks }, b),
    ensures
        b.blocks@.len() == blocks@.len() + 1,
        forall|j: int| 0 <= j < blocks@.len() ==> (#[trigger] b.blocks@[j])@ == blocks@[j]@,
        b.blocks@.last() matches TranscriptBlock::System { text } && text@
            == "▶ Resumed session "@ + session_id@ + " ("@ + decimal(turn_count as nat)
            + " messages)"@,
        !b.turn.running,
        b.scroll_offset == 0,
        b.prompt == a.prompt,
{
    assert(b.transcript().len() == b.blocks@.len());
    assert(b.transcript().last() == b.blocks@.last()@);
    assert forall|j: int| 0 <= j < blocks@.len() implies (#[trigger] b.blocks@[j])@
        == blocks@[j]@ by {
        assert(b.transcript()[j] == b.blocks@[j]@);
    }
}

} // verus!
