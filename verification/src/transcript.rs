//! Changes to the blocks of the transcript.
use vstd::prelude::*;
#[allow(unused_imports)]
use vstd::string::*;

use crate::model::{block_models, BlockModel, ToolResultData, ToolResultModel, TranscriptBlock};
use crate::render::{extract_write_file_path_from_result, written_path};
use crate::text::{has_prefix, same_text, starts_with};

verus! {

/// The last of the first `n` blocks that is wanted, or -1.
pub open spec fn last_where(
    blocks: Seq<BlockModel>,
    wanted: spec_fn(BlockModel) -> bool,
    n: int,
) -> int
    decreases n,
{
    if n <= 0 {
        -1
    } else if wanted(blocks[n - 1]) {
        n - 1
    } else {
        last_where(blocks, wanted, n - 1)
    }
}

/// The last block that is wanted, or -1.
pub open spec fn last_block(blocks: Seq<BlockModel>, wanted: spec_fn(BlockModel) -> bool) -> int {
    last_where(blocks, wanted, blocks.len() as int)
}

/// What `last_block` finds is in range, is wanted, and has nothing wanted
/// behind it.
pub proof fn last_block_is_last(blocks: Seq<BlockModel>, wanted: spec_fn(BlockModel) -> bool)
    ensures
        ({
            let at = last_block(blocks, wanted);
            &&& -1 <= at < blocks.len()
            &&& at >= 0 ==> wanted(blocks[at])
            &&& forall|i: int| at < i < blocks.len() ==> !wanted(#[trigger] blocks[i])
        }),
{
    lemma_last_where(blocks, wanted, blocks.len() as int);
}

proof fn lemma_last_where(blocks: Seq<BlockModel>, wanted: spec_fn(BlockModel) -> bool, n: int)
    requires
        0 <= n <= blocks.len(),
    ensures
        ({
            let at = last_where(blocks, wanted, n);
            &&& -1 <= at < n
            &&& at >= 0 ==> wanted(blocks[at])
            &&& forall|i: int| at < i < n ==> !wanted(#[trigger] blocks[i])
        }),
    decreases n,
{
    if n > 0 && !wanted(blocks[n - 1]) {
        lemma_last_where(blocks, wanted, n - 1);
    }
}

// ---------------------------------------------------------------------------
// Streaming
// ---------------------------------------------------------------------------

/// Whether a block is an answer in flight.
pub open spec fn is_streaming_answer(b: BlockModel) -> bool {
    b matches BlockModel::Assistant { streaming, .. } && streaming
}

/// Whether a block is reasoning in flight.
pub open spec fn is_streaming_reasoning(b: BlockModel) -> bool {
    b matches BlockModel::Reasoning { streaming, .. } && streaming
}

/// The transcript once a piece of the answer arrived: it goes to the answer in
/// flight at the end, or starts one.
pub open spec fn answer_streamed(
    blocks: Seq<BlockModel>,
    chunk: Seq<char>,
    latency: Option<u64>,
) -> Seq<BlockModel> {
    if blocks.len() > 0 && is_streaming_answer(blocks.last()) {
        blocks.update(
            blocks.len() - 1,
            match blocks.last() {
                BlockModel::Assistant { text, streaming, latency_ms } => BlockModel::Assistant {
                    text: text + chunk,
                    streaming,
                    latency_ms,
                },
                other => other,
            },
        )
    } else {
        blocks.push(BlockModel::Assistant { text: chunk, streaming: true, latency_ms: latency })
    }
}

/// The transcript once the whole answer arrived: it replaces the answer in
/// flight at the end, or stands on its own.
pub open spec fn answer_finished(
    blocks: Seq<BlockModel>,
    content: Seq<char>,
    latency: Option<u64>,
) -> Seq<BlockModel> {
    if blocks.len() > 0 && is_streaming_answer(blocks.last()) {
        blocks.update(
            blocks.len() - 1,
            match blocks.last() {
                BlockModel::Assistant { text, streaming, latency_ms } => BlockModel::Assistant {
                    text: content,
                    streaming: false,
                    latency_ms: if latency_ms is Some {
                        latency_ms
                    } else {
                        latency
                    },
                },
                other => other,
            },
        )
    } else {
        blocks.push(
            BlockModel::Assistant { text: content, streaming: false, latency_ms: latency },
        )
    }
}

/// The transcript once a piece of the reasoning arrived.
pub open spec fn reasoning_streamed(blocks: Seq<BlockModel>, chunk: Seq<char>) -> Seq<BlockModel> {
    if blocks.len() > 0 && is_streaming_reasoning(blocks.last()) {
        blocks.update(
            blocks.len() - 1,
            match blocks.last() {
                BlockModel::Reasoning { text, streaming } => BlockModel::Reasoning {
                    text: text + chunk,
                    streaming,
                },
                other => other,
            },
        )
    } else {
        blocks.push(BlockModel::Reasoning { text: chunk, streaming: true })
    }
}

/// The transcript once the whole reasoning arrived: it replaces the reasoning
/// in flight. Where there is none, it stands before the answer in flight, or
/// else at the end.
pub open spec fn reasoning_finished(
    blocks: Seq<BlockModel>,
    content: Seq<char>,
) -> Seq<BlockModel> {
    let at = last_block(blocks, |b: BlockModel| is_streaming_reasoning(b));
    let done = BlockModel::Reasoning { text: content, streaming: false };
    if at >= 0 {
        blocks.update(at, done)
    } else if blocks.len() > 0 && is_streaming_answer(blocks.last()) {
        blocks.insert(blocks.len() - 1, done)
    } else {
        blocks.push(done)
    }
}

/// The transcript once the answer at the end is no longer in flight.
pub open spec fn answer_closed(blocks: Seq<BlockModel>) -> Seq<BlockModel> {
    if blocks.len() > 0 {
        match blocks.last() {
            BlockModel::Assistant { text, streaming, latency_ms } => blocks.update(
                blocks.len() - 1,
                BlockModel::Assistant { text, streaming: false, latency_ms },
            ),
            _ => blocks,
        }
    } else {
        blocks
    }
}

/// The transcript once the answer in flight at the end has its latency.
pub open spec fn answer_timed(blocks: Seq<BlockModel>, llm_ms: u64) -> Seq<BlockModel> {
    if blocks.len() > 0 && is_streaming_answer(blocks.last()) {
        blocks.update(
            blocks.len() - 1,
            match blocks.last() {
                BlockModel::Assistant { text, streaming, latency_ms } => BlockModel::Assistant {
                    text,
                    streaming,
                    latency_ms: Some(llm_ms),
                },
                other => other,
            },
        )
    } else {
        blocks
    }
}

pub(crate) fn stream_answer(
    blocks: &mut Vec<TranscriptBlock>,
    chunk: &str,
    latency: Option<u64>,
)
    ensures
        block_models(final(blocks)@) == answer_streamed(
            block_models(old(blocks)@),
            chunk@,
            latency,
        ),
{
    let n: usize = blocks.len();
    if n > 0 {
        if let TranscriptBlock::Assistant { text, streaming, .. } = &mut blocks[n - 1] {
            if *streaming {
                text.append(chunk);
                proof {
                    assert(block_models(blocks@) =~= answer_streamed(
                        block_models(old(blocks)@),
                        chunk@,
                        latency,
                    ));
                }
                return ;
            }
        }
    }
    proof {
        assert(block_models(blocks@) =~= block_models(old(blocks)@));
    }
    blocks.push(
        TranscriptBlock::Assistant {
            text: chunk.to_owned(),
            streaming: true,
            latency_ms: latency,
        },
    );
    proof {
        assert(block_models(blocks@) =~= answer_streamed(
            block_models(old(blocks)@),
            chunk@,
            latency,
        ));
    }
}

pub(crate) fn finish_answer(
    blocks: &mut Vec<TranscriptBlock>,
    content: String,
    latency: Option<u64>,
)
    ensures
        block_models(final(blocks)@) == answer_finished(
            block_models(old(blocks)@),
            content@,
            latency,
        ),
{
    let n: usize = blocks.len();
    if n > 0 {
        if let TranscriptBlock::Assistant { text, streaming, latency_ms } = &mut blocks[n - 1] {
            if *streaming {
                *text = content;
                *streaming = false;
                if latency_ms.is_none() {
                    *latency_ms = latency;
                }
                proof {
                    assert(block_models(blocks@) =~= answer_finished(
                        block_models(old(blocks)@),
                        content@,
                        latency,
                    ));
                }
                return ;
            }
        }
    }
    proof {
        assert(block_models(blocks@) =~= block_models(old(blocks)@));
    }
    blocks.push(
        TranscriptBlock::Assistant { text: content, streaming: false, latency_ms: latency },
    );
    proof {
        assert(block_models(blocks@) =~= answer_finished(
            block_models(old(blocks)@),
            content@,
            latency,
        ));
    }
}

pub(crate) fn stream_reasoning(blocks: &mut Vec<TranscriptBlock>, chunk: &str)
    ensures
        block_models(final(blocks)@) == reasoning_streamed(block_models(old(blocks)@), chunk@),
{
    let n: usize = blocks.len();
    if n > 0 {
        if let TranscriptBlock::Reasoning { text, streaming } = &mut blocks[n - 1] {
            if *streaming {
                text.append(chunk);
                proof {
                    assert(block_models(blocks@) =~= reasoning_streamed(
                        block_models(old(blocks)@),
                        chunk@,
                    ));
                }
                return ;
            }
        }
    }
    proof {
        assert(block_models(blocks@) =~= block_models(old(blocks)@));
    }
    blocks.push(TranscriptBlock::Reasoning { text: chunk.to_owned(), streaming: true });
    proof {
        assert(block_models(blocks@) =~= reasoning_streamed(block_models(old(blocks)@), chunk@));
    }
}

fn find_streaming_reasoning(blocks: &Vec<TranscriptBlock>) -> (r: Option<usize>)
    ensures
        match r {
            Some(i) => i < blocks@.len() && i == last_block(
                block_models(blocks@),
                |b: BlockModel| is_streaming_reasoning(b),
            ),
            None => last_block(block_models(blocks@), |b: BlockModel| is_streaming_reasoning(b))
                == -1,
        },
{
    let ghost bs = block_models(blocks@);
    let ghost wanted = |b: BlockModel| is_streaming_reasoning(b);
    let mut i: usize = blocks.len();
    while i > 0
        invariant
            i <= blocks@.len(),
            bs == block_models(blocks@),
            wanted == (|b: BlockModel| is_streaming_reasoning(b)),
            last_where(bs, wanted, i as int) == last_block(bs, wanted),
        decreases i,
    {
        i -= 1;
        proof {
            assert(bs[i as int] == blocks@[i as int]@);
        }
        if let TranscriptBlock::Reasoning { streaming, .. } = &blocks[i] {
            if *streaming {
                return Some(i);
            }
        }
    }
    None
}

pub(crate) fn finish_reasoning(blocks: &mut Vec<TranscriptBlock>, content: String)
    ensures
        block_models(final(blocks)@) == reasoning_finished(block_models(old(blocks)@), content@),
{
    let ghost bs = block_models(blocks@);
    let done: TranscriptBlock = TranscriptBlock::Reasoning { text: content, streaming: false };
    let n: usize = blocks.len();
    match find_streaming_reasoning(blocks) {
        Some(i) => {
            blocks.set(i, done);
        },
        None => {
            let before_last: bool = n > 0 && match &blocks[n - 1] {
                TranscriptBlock::Assistant { streaming, .. } => *streaming,
                _ => false,
            };
            proof {
                if n > 0 {
                    assert(bs.last() == blocks@[n - 1]@);
                }
            }
            if before_last {
                blocks.insert(n - 1, done);
            } else {
                blocks.push(done);
            }
        },
    }
    proof {
        assert(block_models(blocks@) =~= reasoning_finished(bs, content@));
    }
}

pub(crate) fn close_answer(blocks: &mut Vec<TranscriptBlock>)
    ensures
        block_models(final(blocks)@) == answer_closed(block_models(old(blocks)@)),
{
    let n: usize = blocks.len();
    if n > 0 {
        if let TranscriptBlock::Assistant { streaming, .. } = &mut blocks[n - 1] {
            *streaming = false;
        }
    }
    proof {
        assert(block_models(blocks@) =~= answer_closed(block_models(old(blocks)@)));
    }
}

pub(crate) fn time_answer(blocks: &mut Vec<TranscriptBlock>, llm_ms: u64)
    ensures
        block_models(final(blocks)@) == answer_timed(block_models(old(blocks)@), llm_ms),
{
    let n: usize = blocks.len();
    if n > 0 {
        if let TranscriptBlock::Assistant { streaming, latency_ms, .. } = &mut blocks[n - 1] {
            if *streaming {
                *latency_ms = Some(llm_ms);
            }
        }
    }
    proof {
        assert(block_models(blocks@) =~= answer_timed(block_models(old(blocks)@), llm_ms));
    }
}

// ---------------------------------------------------------------------------
// Tool results
// ---------------------------------------------------------------------------

/// Whether a block is the tool call `id`.
pub open spec fn is_call(b: BlockModel, id: Seq<char>) -> bool {
    b matches BlockModel::ToolCall { id: cid, .. } && cid == id
}

/// The last block that is the tool call `id`, or -1.
pub open spec fn last_call(blocks: Seq<BlockModel>, id: Seq<char>) -> int {
    last_block(blocks, |b: BlockModel| is_call(b, id))
}

/// A tool call with a result, and with the name of the tool where it had none.
pub open spec fn completed_call(
    b: BlockModel,
    tool: Seq<char>,
    r: ToolResultModel,
) -> BlockModel {
    match b {
        BlockModel::ToolCall { id, name, args_preview, result } => BlockModel::ToolCall {
            id,
            name: if name.len() == 0 {
                tool
            } else {
                name
            },
            args_preview,
            result: Some(r),
        },
        other => other,
    }
}

/// The transcript once a tool finished: the latest call of that id gets the
/// result, and a result without a call makes one.
pub open spec fn call_completed(
    blocks: Seq<BlockModel>,
    id: Seq<char>,
    name: Seq<char>,
    output: Seq<char>,
    success: bool,
) -> Seq<BlockModel> {
    let at = last_call(blocks, id);
    let r = ToolResultModel { success, output, expanded: false };
    if at >= 0 {
        blocks.update(at, completed_call(blocks[at], name, r))
    } else {
        blocks.push(
            BlockModel::ToolCall { id, name, args_preview: seq![], result: Some(r) },
        )
    }
}

/// The transcript once a file was written: a diff for the file, and the call
/// marked as a success without output of its own.
pub open spec fn write_completed(
    blocks: Seq<BlockModel>,
    id: Seq<char>,
    path: Seq<char>,
) -> Seq<BlockModel> {
    let with_diff = blocks.push(BlockModel::Diff { path, hunks: seq![] });
    let at = last_call(with_diff, id);
    if at >= 0 {
        with_diff.update(
            at,
            crate::render::with_result(
                with_diff[at],
                Some(ToolResultModel { success: true, output: seq![], expanded: false }),
            ),
        )
    } else {
        with_diff
    }
}

/// The transcript once a tool came back.
pub open spec fn tool_returned(
    blocks: Seq<BlockModel>,
    id: Seq<char>,
    name: Seq<char>,
    output: Seq<char>,
    success: bool,
) -> Seq<BlockModel> {
    if name == "Write"@ && success && written_path(output) is Some {
        write_completed(blocks, id, written_path(output)->Some_0)
    } else {
        call_completed(blocks, id, name, output, success)
    }
}

fn find_call(blocks: &Vec<TranscriptBlock>, id: &str) -> (r: Option<usize>)
    ensures
        match r {
            Some(i) => i < blocks@.len() && i == last_call(block_models(blocks@), id@) && is_call(
                block_models(blocks@)[i as int],
                id@,
            ),
            None => last_call(block_models(blocks@), id@) == -1,
        },
{
    let ghost bs = block_models(blocks@);
    let ghost wanted = |b: BlockModel| is_call(b, id@);
    let mut i: usize = blocks.len();
    while i > 0
        invariant
            i <= blocks@.len(),
            bs == block_models(blocks@),
            wanted == (|b: BlockModel| is_call(b, id@)),
            last_where(bs, wanted, i as int) == last_block(bs, wanted),
        decreases i,
    {
        i -= 1;
        proof {
            assert(bs[i as int] == blocks@[i as int]@);
        }
        if let TranscriptBlock::ToolCall { id: cid, .. } = &blocks[i] {
            if same_text(cid.as_str(), id) {
                return Some(i);
            }
        }
    }
    None
}

fn complete_call(
    blocks: &mut Vec<TranscriptBlock>,
    id: String,
    tool: String,
    output: String,
    success: bool,
)
    ensures
        block_models(final(blocks)@) == call_completed(
            block_models(old(blocks)@),
            id@,
            tool@,
            output@,
            success,
        ),
{
    let ghost bs = block_models(blocks@);
    let data: ToolResultData = ToolResultData { success, output, expanded: false };
    match find_call(blocks, id.as_str()) {
        Some(i) => {
            if let TranscriptBlock::ToolCall { name, result, .. } = &mut blocks[i] {
                *result = Some(data);
                if name.as_str().is_empty() {
                    *name = tool;
                }
            }
            proof {
                assert(bs[i as int] == old(blocks)@[i as int]@);
                assert(block_models(blocks@) =~= call_completed(bs, id@, tool@, output@, success));
            }
        },
        None => {
            blocks.push(
                TranscriptBlock::ToolCall {
                    id,
                    name: tool,
                    args_preview: String::new(),
                    result: Some(data),
                },
            );
            proof {
                assert(block_models(blocks@) =~= call_completed(bs, id@, tool@, output@, success));
            }
        },
    }
}

pub(crate) fn return_tool(
    blocks: &mut Vec<TranscriptBlock>,
    id: String,
    name: String,
    output: String,
    success: bool,
)
    ensures
        block_models(final(blocks)@) == tool_returned(
            block_models(old(blocks)@),
            id@,
            name@,
            output@,
            success,
        ),
{
    if success && same_text(name.as_str(), "Write") {
        if let Some(path) = extract_write_file_path_from_result(output.as_str()) {
            let ghost bs = block_models(blocks@);
            let diff: TranscriptBlock = TranscriptBlock::Diff { path, hunks: Vec::new() };
            blocks.push(diff);
            let ghost with_diff = bs.push(
                BlockModel::Diff { path: written_path(output@)->Some_0, hunks: seq![] },
            );
            proof {
                assert(diff@->hunks =~= seq![]);
                assert(block_models(blocks@) =~= with_diff);
            }
            if let Some(i) = find_call(blocks, id.as_str()) {
                let ghost before = blocks@;
                if let TranscriptBlock::ToolCall { result, .. } = &mut blocks[i] {
                    *result = Some(
                        ToolResultData { success: true, output: String::new(), expanded: false },
                    );
                }
                proof {
                    assert(with_diff[i as int] == before[i as int]@);
                    assert(block_models(blocks@) =~= write_completed(
                        bs,
                        id@,
                        written_path(output@)->Some_0,
                    ));
                }
            }
            return ;
        }
    }
    complete_call(blocks, id, name, output, success);
}

/// A result joins the call that it belongs to: where the call is the latest of
/// its id, the result is filled in there and nothing else changes.
pub proof fn result_joins_its_call(
    blocks: Seq<BlockModel>,
    id: Seq<char>,
    name: Seq<char>,
    args_preview: Seq<char>,
    output: Seq<char>,
    success: bool,
)
    requires
        name.len() > 0,
    ensures
        call_completed(
            blocks.push(BlockModel::ToolCall { id, name, args_preview, result: None }),
            id,
            name,
            output,
            success,
        ) == blocks.push(
            BlockModel::ToolCall {
                id,
                name,
                args_preview,
                result: Some(ToolResultModel { success, output, expanded: false }),
            },
        ),
{
    let call = BlockModel::ToolCall { id, name, args_preview, result: None };
    let bs = blocks.push(call);
    let wanted = |b: BlockModel| is_call(b, id);
    assert(wanted(bs[bs.len() - 1]));
    assert(last_call(bs, id) == bs.len() - 1);
    assert(call_completed(bs, id, name, output, success) =~= blocks.push(
        BlockModel::ToolCall {
            id,
            name,
            args_preview,
            result: Some(ToolResultModel { success, output, expanded: false }),
        },
    ));
}

// ---------------------------------------------------------------------------
// Plan-mode requests, expansion, hooks
// ---------------------------------------------------------------------------

/// Whether a block is a request to enter plan mode.
pub open spec fn is_plan_request(b: BlockModel) -> bool {
    b is PlanModeRequest
}

/// The transcript once the latest request to enter plan mode is answered.
pub open spec fn plan_request_answered(blocks: Seq<BlockModel>, granted: bool) -> Seq<BlockModel> {
    let at = last_block(blocks, |b: BlockModel| is_plan_request(b));
    if at >= 0 {
        blocks.update(
            at,
            match blocks[at] {
                BlockModel::PlanModeRequest { reason, approved } => BlockModel::PlanModeRequest {
                    reason,
                    approved: Some(granted),
                },
                other => other,
            },
        )
    } else {
        blocks
    }
}

pub(crate) fn answer_plan_request(blocks: &mut Vec<TranscriptBlock>, granted: bool)
    ensures
        block_models(final(blocks)@) == plan_request_answered(block_models(old(blocks)@), granted),
{
    let ghost bs = block_models(blocks@);
    let ghost wanted = |b: BlockModel| is_plan_request(b);
    let mut i: usize = blocks.len();
    while i > 0
        invariant
            i <= blocks@.len(),
            blocks@ == old(blocks)@,
            bs == block_models(blocks@),
            wanted == (|b: BlockModel| is_plan_request(b)),
            last_where(bs, wanted, i as int) == last_block(bs, wanted),
        decreases i,
    {
        i -= 1;
        proof {
            assert(bs[i as int] == blocks@[i as int]@);
        }
        if let TranscriptBlock::PlanModeRequest { approved, .. } = &mut blocks[i] {
            *approved = Some(granted);
            proof {
                assert(block_models(blocks@) =~= plan_request_answered(bs, granted));
            }
            return ;
        }
        proof {
            assert(blocks@ =~= old(blocks)@);
        }
    }
}

/// Whether a block is a tool call with a result.
pub open spec fn is_expandable(b: BlockModel) -> bool {
    b matches BlockModel::ToolCall { result, .. } && result is Some
}

/// The block with its result shown in full, or no longer so.
pub open spec fn toggled(b: BlockModel) -> BlockModel {
    match b {
        BlockModel::ToolCall { id, name, args_preview, result: Some(r) } => BlockModel::ToolCall {
            id,
            name,
            args_preview,
            result: Some(ToolResultModel { expanded: !r.expanded, ..r }),
        },
        other => other,
    }
}

/// The transcript once the latest finished tool call is expanded, or folded.
pub open spec fn expansion_toggled(blocks: Seq<BlockModel>) -> Seq<BlockModel> {
    let at = last_block(blocks, |b: BlockModel| is_expandable(b));
    if at >= 0 {
        blocks.update(at, toggled(blocks[at]))
    } else {
        blocks
    }
}

pub(crate) fn toggle_expansion(blocks: &mut Vec<TranscriptBlock>)
    ensures
        block_models(final(blocks)@) == expansion_toggled(block_models(old(blocks)@)),
{
    let ghost bs = block_models(blocks@);
    let ghost wanted = |b: BlockModel| is_expandable(b);
    let mut i: usize = blocks.len();
    while i > 0
        invariant
            i <= blocks@.len(),
            blocks@ == old(blocks)@,
            bs == block_models(blocks@),
            wanted == (|b: BlockModel| is_expandable(b)),
            last_where(bs, wanted, i as int) == last_block(bs, wanted),
        decreases i,
    {
        i -= 1;
        proof {
            assert(bs[i as int] == blocks@[i as int]@);
        }
        if let TranscriptBlock::ToolCall { result: Some(r), .. } = &mut blocks[i] {
            r.expanded = !r.expanded;
            proof {
                assert(block_models(blocks@) =~= expansion_toggled(bs));
            }
            return ;
        }
        proof {
            assert(blocks@ =~= old(blocks)@);
        }
    }
}

/// Whether a block is a note on a hook.
pub open spec fn is_hook_note(b: BlockModel) -> bool {
    b matches BlockModel::System { text } && has_prefix(text, "⚡ hook"@)
}

/// The transcript once a hook reported: its latest report replaces a note on a
/// hook at the end.
pub open spec fn hook_reported(blocks: Seq<BlockModel>, text: Seq<char>) -> Seq<BlockModel> {
    if blocks.len() > 0 && is_hook_note(blocks.last()) {
        blocks.update(blocks.len() - 1, BlockModel::System { text })
    } else {
        blocks.push(BlockModel::System { text })
    }
}

pub(crate) fn report_hook(blocks: &mut Vec<TranscriptBlock>, text: String)
    ensures
        block_models(final(blocks)@) == hook_reported(block_models(old(blocks)@), text@),
{
    let ghost bs = block_models(blocks@);
    let n: usize = blocks.len();
    let replaces: bool = n > 0 && match &blocks[n - 1] {
        TranscriptBlock::System { text: t } => starts_with(t.as_str(), "⚡ hook"),
        _ => false,
    };
    proof {
        if n > 0 {
            assert(bs.last() == blocks@[n - 1]@);
        }
    }
    if replaces {
        blocks.set(n - 1, TranscriptBlock::System { text });
    } else {
        blocks.push(TranscriptBlock::System { text });
    }
    proof {
        assert(block_models(blocks@) =~= hook_reported(bs, text@));
    }
}

/// Toggling the expansion twice gives the transcript back.
pub proof fn toggling_twice_restores(blocks: Seq<BlockModel>)
    ensures
        expansion_toggled(expansion_toggled(blocks)) == blocks,
{
    let wanted = |b: BlockModel| is_expandable(b);
    let at = last_block(blocks, wanted);
    last_block_is_last(blocks, wanted);
    if at >= 0 {
        let once = expansion_toggled(blocks);
        last_block_is_last(once, wanted);
        let again = last_block(once, wanted);
        assert(wanted(once[at]));
        if again > at {
            assert(once[again] == blocks[again]);
        }
        assert(again == at);
        assert(expansion_toggled(once) =~= blocks);
    }
}

} // verus!
