//! Tool calls and their results in the transcript.
use vstd::prelude::*;
#[allow(unused_imports)]
use vstd::string::*;

use crate::app::event_loop::event_applied;
use crate::app::App;
use crate::events::UiEvent;
use crate::model::{block_models, hunk_models, BlockModel, TranscriptBlock};
use crate::render::{preview, written_path};
use crate::text::{is_last_at, is_white, last_at, occurs_at, trim, trim_start};
use crate::transcript::{is_call, last_block_is_last, last_call};

verus! {

/// Whether a block is the tool call `id`.
pub open spec fn calls(b: TranscriptBlock, id: Seq<char>) -> bool {
    b matches TranscriptBlock::ToolCall { id: own, .. } && own@ == id
}

/// Whether block `i` is the latest call of that id.
pub open spec fn is_latest_call(blocks: Seq<TranscriptBlock>, id: Seq<char>, i: int) -> bool {
    &&& 0 <= i < blocks.len()
    &&& calls(blocks[i], id)
    &&& forall|j: int| i < j < blocks.len() ==> !calls(#[trigger] blocks[j], id)
}

/// Whether a block is the tool call `before` with a result.
pub open spec fn came_back(
    before: TranscriptBlock,
    after: TranscriptBlock,
    tool: Seq<char>,
    output: Seq<char>,
    success: bool,
) -> bool {
    match (before, after) {
        (
            TranscriptBlock::ToolCall { id, name, args_preview, .. },
            TranscriptBlock::ToolCall { id: id2, name: name2, args_preview: args2, result },
        ) => {
            &&& id2@ == id@
            &&& args2@ == args_preview@
            &&& name2@ == if name@.len() > 0 {
                name@
            } else {
                tool
            }
            &&& result matches Some(r) && r.success == success && r.output@ == output
                && !r.expanded
        },
        _ => false,
    }
}

/// The latest call of an id in the transcript and in its model.
proof fn latest_call_is_found(blocks: Seq<TranscriptBlock>, id: Seq<char>, i: int)
    requires
        is_latest_call(blocks, id, i),
    ensures
        last_call(block_models(blocks), id) == i,
{
    let bs = block_models(blocks);
    let wanted = |b: BlockModel| is_call(b, id);
    last_block_is_last(bs, wanted);
    let at = last_call(bs, id);
    assert(bs[i] == blocks[i]@);
    assert(wanted(bs[i]));
    if at > i {
        assert(bs[at] == blocks[at]@);
        assert(wanted(bs[at]));
        assert(calls(blocks[at], id));
    }
}

proof fn no_call_is_found(blocks: Seq<TranscriptBlock>, id: Seq<char>)
    requires
        forall|j: int| 0 <= j < blocks.len() ==> !calls(#[trigger] blocks[j], id),
    ensures
        last_call(block_models(blocks), id) == -1,
{
    let bs = block_models(blocks);
    let wanted = |b: BlockModel| is_call(b, id);
    last_block_is_last(bs, wanted);
    let at = last_call(bs, id);
    if at >= 0 {
        assert(bs[at] == blocks[at]@);
        assert(wanted(bs[at]));
        assert(calls(blocks[at], id));
    }
}

/// A result goes to the latest call of its id, with the output and the success
/// that the tool reported, and no other block changes. The one exception is a
/// file that was written, which is shown as a diff.
pub proof fn result_goes_to_its_call(
    a: App,
    id: String,
    name: String,
    output: String,
    success: bool,
    b: App,
    i: int,
)
    requires
        event_applied(a, UiEvent::ToolResult { id, name, output, success }, b),
        is_latest_call(a.blocks@, id@, i),
        !(success && name@ == "Write"@),
    ensures
        b.blocks@.len() == a.blocks@.len(),
        came_back(a.blocks@[i], b.blocks@[i], name@, output@, success),
        forall|j: int|
            0 <= j < a.blocks@.len() && j != i ==> (#[trigger] b.blocks@[j])@ == a.blocks@[j]@,
{
    latest_call_is_found(a.blocks@, id@, i);
    assert(b.transcript().len() == b.blocks@.len());
    assert(b.transcript()[i] == b.blocks@[i]@);
    assert(a.transcript()[i] == a.blocks@[i]@);
    assert forall|j: int| 0 <= j < a.blocks@.len() && j != i implies (#[trigger] b.blocks@[j])@
        == a.blocks@[j]@ by {
        assert(b.transcript()[j] == b.blocks@[j]@);
        assert(a.transcript()[j] == a.blocks@[j]@);
    }
}

/// A tool that failed is never shown as a success, whatever the tool was and
/// whatever it printed.
pub proof fn failure_is_shown_as_failure(
    a: App,
    id: String,
    name: String,
    output: String,
    b: App,
    i: int,
)
    requires
        event_applied(a, UiEvent::ToolResult { id, name, output, success: false }, b),
        is_latest_call(a.blocks@, id@, i),
    ensures
        b.blocks@[i] matches TranscriptBlock::ToolCall { result, .. } && (result matches Some(r)
            && !r.success && r.output@ == output@),
{
    result_goes_to_its_call(a, id, name, output, false, b, i);
}

/// A result without a call is shown as a call of its own, at the end.
pub proof fn result_without_a_call_stands_alone(
    a: App,
    id: String,
    name: String,
    output: String,
    success: bool,
    b: App,
)
    requires
        event_applied(a, UiEvent::ToolResult { id, name, output, success }, b),
        forall|j: int| 0 <= j < a.blocks@.len() ==> !calls(#[trigger] a.blocks@[j], id@),
        !(success && name@ == "Write"@),
    ensures
        b.blocks@.len() == a.blocks@.len() + 1,
        forall|j: int| 0 <= j < a.blocks@.len() ==> (#[trigger] b.blocks@[j])@ == a.blocks@[j]@,
        b.blocks@.last() matches TranscriptBlock::ToolCall { id: own, name: tool, result, .. }
            && own@ == id@ && tool@ == name@ && (result matches Some(r) && r.success == success
            && r.output@ == output@ && !r.expanded),
{
    no_call_is_found(a.blocks@, id@);
    assert(b.transcript().len() == b.blocks@.len());
    assert(b.transcript().last() == b.blocks@.last()@);
    assert forall|j: int| 0 <= j < a.blocks@.len() implies (#[trigger] b.blocks@[j])@
        == a.blocks@[j]@ by {
        assert(b.transcript()[j] == b.blocks@[j]@);
        assert(a.transcript()[j] == a.blocks@[j]@);
    }
}

/// A call is shown without a result until one comes in, under the id and the
/// name that the agent gave it, behind everything that was shown before.
pub proof fn call_waits_for_its_result(
    a: App,
    id: String,
    name: String,
    arguments: String,
    b: App,
)
    requires
        event_applied(a, UiEvent::ToolCall { id, name, arguments }, b),
    ensures
        b.blocks@.len() == a.blocks@.len() + 1,
        forall|j: int| 0 <= j < a.blocks@.len() ==> (#[trigger] b.blocks@[j])@ == a.blocks@[j]@,
        b.blocks@.last() matches TranscriptBlock::ToolCall {
            id: own,
            name: tool,
            result,
            args_preview,
        } && own@ == id@ && tool@ == name@ && result is None && args_preview@ == preview(
            arguments@,
        ),
        is_latest_call(b.blocks@, id@, a.blocks@.len() as int),
{
    assert(b.transcript().len() == b.blocks@.len());
    assert(b.transcript().last() == b.blocks@.last()@);
    assert forall|j: int| 0 <= j < a.blocks@.len() implies (#[trigger] b.blocks@[j])@
        == a.blocks@[j]@ by {
        assert(b.transcript()[j] == b.blocks@[j]@);
        assert(a.transcript()[j] == a.blocks@[j]@);
    }
}

/// Every call gets its own result: a result for one id leaves the call of
/// another as it was.
pub proof fn results_are_not_mixed_up(
    a: App,
    id: String,
    name: String,
    output: String,
    success: bool,
    b: App,
    other: int,
)
    requires
        event_applied(a, UiEvent::ToolResult { id, name, output, success }, b),
        0 <= other < a.blocks@.len(),
        !calls(a.blocks@[other], id@),
    ensures
        other < b.blocks@.len(),
        b.blocks@[other]@ == a.blocks@[other]@,
{
    let bs = a.transcript();
    let with_diff = bs.push(
        BlockModel::Diff {
            path: written_path(output@)->Some_0,
            hunks: seq![],
        },
    );
    let wanted = |b: BlockModel| is_call(b, id@);
    last_block_is_last(bs, wanted);
    last_block_is_last(with_diff, wanted);
    assert(bs[other] == a.blocks@[other]@);
    assert(with_diff[other] == bs[other]);
    assert(!wanted(bs[other]));
    assert(last_call(bs, id@) != other);
    assert(last_call(with_diff, id@) != other);
    assert(b.transcript().len() == b.blocks@.len());
    assert(b.transcript()[other] == b.blocks@[other]@);
}

/// A file that was written is shown as a diff at the end, and its call as a
/// success without output of its own; the rest stays.
pub proof fn written_file_is_shown(
    a: App,
    id: String,
    name: String,
    output: String,
    head: Seq<char>,
    path: Seq<char>,
    b: App,
    i: int,
)
    requires
        event_applied(a, UiEvent::ToolResult { id, name, output, success: true }, b),
        name@ == "Write"@,
        is_latest_call(a.blocks@, id@, i),
        output@ == head + " to "@ + path,
        head.len() > 0,
        !is_white(head[0]),
        path.len() > 0,
        forall|k: int| 0 <= k < path.len() ==> !is_white(#[trigger] path[k]),
    ensures
        b.blocks@.len() == a.blocks@.len() + 1,
        b.blocks@.last() matches TranscriptBlock::Diff { path: shown, hunks } && shown@ == path
            && hunks@.len() == 0,
        b.blocks@[i] matches TranscriptBlock::ToolCall { id: own, result, .. } && own@ == id@ && (
        result matches Some(r) && r.success),
        forall|j: int|
            0 <= j < a.blocks@.len() && j != i ==> (#[trigger] b.blocks@[j])@ == a.blocks@[j]@,
{
    path_behind_the_last_to(head, path);
    let with_diff = a.transcript().push(BlockModel::Diff { path, hunks: seq![] });
    let wanted = |b: BlockModel| is_call(b, id@);
    last_block_is_last(with_diff, wanted);
    assert(with_diff[i] == a.blocks@[i]@);
    assert(wanted(with_diff[i]));
    let at = last_call(with_diff, id@);
    if at > i {
        assert(at < a.blocks@.len());
        assert(with_diff[at] == a.blocks@[at]@);
        assert(wanted(with_diff[at]));
        assert(calls(a.blocks@[at], id@));
    }
    assert(b.transcript().len() == b.blocks@.len());
    assert(b.transcript().last() == b.blocks@.last()@);
    assert(b.blocks@.last() matches TranscriptBlock::Diff { hunks, .. } && hunks@.len()
        == hunk_models(hunks@).len());
    assert(b.transcript()[i] == b.blocks@[i]@);
    assert forall|j: int| 0 <= j < a.blocks@.len() && j != i implies (#[trigger] b.blocks@[j])@
        == a.blocks@[j]@ by {
        assert(b.transcript()[j] == b.blocks@[j]@);
        assert(a.transcript()[j] == a.blocks@[j]@);
    }
}

/// The path that a written file is reported under is what stands behind the last
/// ` to ` of the report.
pub proof fn path_behind_the_last_to(head: Seq<char>, path: Seq<char>)
    requires
        head.len() > 0,
        path.len() > 0,
        !is_white(head[0]),
        forall|k: int| 0 <= k < path.len() ==> !is_white(#[trigger] path[k]),
    ensures
        written_path(head + " to "@ + path) == Some(path),
{
    reveal_strlit(" to ");
    let s = head + " to "@ + path;
    assert(!is_white(s[0]));
    assert(!is_white(path[path.len() - 1]));
    assert(s.last() == path[path.len() - 1]);
    assert(trim_start(s) == s);
    assert(trim(s) == s);
    let at = head.len() as int;
    assert(s.subrange(at, at + 4) =~= " to "@);
    assert(occurs_at(s, " to "@, at));
    assert forall|j: int| at < j implies !occurs_at(s, " to "@, j) by {
        if occurs_at(s, " to "@, j) {
            assert(s.subrange(j, j + 4)[0] == s[j]);
            assert(s.subrange(j, j + 4)[3] == s[j + 3]);
            assert(j + 3 >= at + 4);
            assert(s[j + 3] == path[j + 3 - at - 4]);
            assert(!is_white(path[j + 3 - at - 4]));
        }
    }
    assert(is_last_at(s, " to "@, at));
    let found = last_at(s, " to "@);
    assert(is_last_at(s, " to "@, found));
    assert(occurs_at(s, " to "@, found));
    assert(found == at);
    assert(s.skip(at + 4) =~= path);
}

} // verus!
