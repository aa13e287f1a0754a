//! Previews, patches and the conversation of a resumed session.
use vstd::prelude::*;
#[allow(unused_imports)]
use vstd::string::*;

use crate::json::{parse_text, text_document, Json, JsonModel};
use crate::message::{Message, Role, ToolCall};
use crate::model::{
    block_models, hunk_models, BlockModel, DiffHunk, DiffLine, DiffLineKind, DiffLineModel,
    ToolResultData, ToolResultModel, TranscriptBlock,
};
use crate::text::{
    chars_of, concat2, concat3, has_part, has_prefix, is_blank, join, joined, last_at, lines,
    lines_of, matches_at, rfind_text, same_text, text_between, trim, trim_start, trimmed,
    trimmed_start, views,
};

verus! {

// ---------------------------------------------------------------------------
// Clamping
// ---------------------------------------------------------------------------

/// A text cut to `max` characters, the last of which is then an ellipsis.
pub open spec fn clamped(s: Seq<char>, max: int) -> Seq<char> {
    if s.len() <= max {
        s
    } else {
        s.take(if max > 0 { max - 1 } else { 0 }) + "…"@
    }
}

/// Cuts the text to `max` characters, the last of which is then an ellipsis.
pub fn clamp(s: &str, max: usize) -> (r: String)
    ensures
        r@ == clamped(s@, max as int),
{
    let v: Vec<char> = chars_of(s);
    if v.len() <= max {
        s.to_owned()
    } else {
        let head: String = text_between(&v, 0, max.saturating_sub(1));
        concat2(head.as_str(), "…")
    }
}

/// A clamped text has at most `max` characters, and is a prefix of the text up
/// to the ellipsis.
pub proof fn clamped_fits(s: Seq<char>, max: int)
    requires
        max > 0,
    ensures
        clamped(s, max).len() <= max,
        s.len() > max ==> clamped(s, max).len() == max && clamped(s, max).drop_last() == s.take(
            max - 1,
        ),
{
    reveal_strlit("…");
    if s.len() > max {
        assert(clamped(s, max).drop_last() =~= s.take(max - 1));
    }
}

// ---------------------------------------------------------------------------
// Argument previews
// ---------------------------------------------------------------------------

/// The value of a tool argument.
#[derive(Clone, Debug)]
pub enum ArgValue {
    /// A string.
    Text(String),
    /// Any other value, as JSON text.
    Json(String),
}

/// The model of a tool argument's value.
pub enum ArgValueModel {
    Text(Seq<char>),
    Json(Seq<char>),
}

impl View for ArgValue {
    type V = ArgValueModel;

    open spec fn view(&self) -> ArgValueModel {
        match *self {
            ArgValue::Text(s) => ArgValueModel::Text(s@),
            ArgValue::Json(s) => ArgValueModel::Json(s@),
        }
    }
}

/// The argument value that a JSON text holds.
pub open spec fn arg_value(json: Seq<char>) -> ArgValueModel {
    match text_document(json) {
        Some(JsonModel::Text(s)) => ArgValueModel::Text(s),
        _ => ArgValueModel::Json(json),
    }
}

/// How one argument is shown: a string in quotes, every value cut to 30
/// characters.
pub open spec fn arg_preview(key: Seq<char>, value: ArgValueModel) -> Seq<char> {
    key + "="@ + match value {
        ArgValueModel::Text(s) => "\""@ + clamped(s, 30) + "\""@,
        ArgValueModel::Json(s) => clamped(s, 30),
    }
}

/// How a list of arguments is shown.
pub open spec fn args_preview(args: Seq<(Seq<char>, ArgValueModel)>) -> Seq<char> {
    clamped(
        joined(
            args.map_values(|a: (Seq<char>, ArgValueModel)| arg_preview(a.0, a.1)),
            " "@,
        ),
        60,
    )
}

/// The views of a list of arguments.
pub open spec fn arg_views(args: Seq<(String, ArgValue)>) -> Seq<(Seq<char>, ArgValueModel)> {
    args.map_values(|a: (String, ArgValue)| (a.0@, a.1@))
}

/// The first members of an object, at most two, as arguments.
pub open spec fn shown_args(members: Seq<(Seq<char>, Seq<char>)>) -> Seq<
    (Seq<char>, ArgValueModel),
> {
    members.take(if members.len() <= 2 { members.len() as int } else { 2 }).map_values(
        |m: (Seq<char>, Seq<char>)| (m.0, arg_value(m.1)),
    )
}

/// How the arguments of a tool call are shown: up to two members of a JSON
/// object, and any other text as it is, cut to 60 characters.
pub open spec fn preview(arguments: Seq<char>) -> Seq<char> {
    match text_document(arguments) {
        Some(JsonModel::Object(members)) => args_preview(shown_args(members)),
        _ => clamped(arguments, 60),
    }
}

/// Shows a list of arguments.
pub fn preview_fields(args: &Vec<(String, ArgValue)>) -> (r: String)
    ensures
        r@ == args_preview(arg_views(args@)),
{
    let mut parts: Vec<String> = Vec::new();
    let mut i: usize = 0;
    while i < args.len()
        invariant
            i <= args@.len(),
            parts@.len() == i,
            forall|j: int|
                0 <= j < i ==> (#[trigger] parts@[j])@ == arg_preview(args@[j].0@, args@[j].1@),
        decreases args@.len() - i,
    {
        let shown: String = match &args[i].1 {
            ArgValue::Text(s) => {
                let c: String = clamp(s.as_str(), 30);
                concat3("\"", c.as_str(), "\"")
            },
            ArgValue::Json(s) => clamp(s.as_str(), 30),
        };
        parts.push(concat3(args[i].0.as_str(), "=", shown.as_str()));
        i += 1;
    }
    let all: String = join(&parts, " ");
    proof {
        let want = arg_views(args@).map_values(
            |a: (Seq<char>, ArgValueModel)| arg_preview(a.0, a.1),
        );
        assert(views(parts@) =~= want);
    }
    clamp(all.as_str(), 60)
}

/// Shows the arguments of a tool call.
pub fn preview_args(arguments: &str) -> (r: String)
    ensures
        r@ == preview(arguments@),
{
    match parse_text(arguments) {
        Some(Json::Object(members)) => {
            let mut args: Vec<(String, ArgValue)> = Vec::new();
            let mut i: usize = 0;
            while i < members.len() && i < 2
                invariant
                    i <= members@.len(),
                    i <= 2,
                    args@.len() == i,
                    forall|j: int|
                        0 <= j < i ==> (#[trigger] args@[j]).0@ == members@[j].0@ && args@[j].1@
                            == arg_value(members@[j].1@),
                decreases members@.len() - i,
            {
                let value: ArgValue = match parse_text(members[i].1.as_str()) {
                    Some(Json::Text(s)) => ArgValue::Text(s),
                    _ => ArgValue::Json(members[i].1.clone()),
                };
                args.push((members[i].0.clone(), value));
                i += 1;
            }
            proof {
                let m = crate::json::member_views(members@);
                assert(text_document(arguments@) == Some(JsonModel::Object(m)));
                assert(arg_views(args@) =~= shown_args(m));
            }
            preview_fields(&args)
        },
        _ => clamp(arguments, 60),
    }
}

// ---------------------------------------------------------------------------
// Spinner verb
// ---------------------------------------------------------------------------

/// The verb that the spinner shows while a tool runs.
pub open spec fn tool_verb(name: Seq<char>) -> Seq<char> {
    if name == "Read"@ || name == "Grep"@ || name == "Glob"@ {
        "Reading"@
    } else if name == "Edit"@ || name == "Write"@ {
        "Editing"@
    } else if name == "Bash"@ {
        "Running"@
    } else {
        "Calling tool"@
    }
}

/// The verb that the spinner shows while the tool `name` runs.
pub fn verb_for_tool(name: &str) -> (r: &'static str)
    ensures
        r@ == tool_verb(name@),
{
    if same_text(name, "Read") || same_text(name, "Grep") || same_text(name, "Glob") {
        "Reading"
    } else if same_text(name, "Edit") || same_text(name, "Write") {
        "Editing"
    } else if same_text(name, "Bash") {
        "Running"
    } else {
        "Calling tool"
    }
}

// ---------------------------------------------------------------------------
// File path of a write
// ---------------------------------------------------------------------------

/// The path that a message like `Wrote 42 bytes to a/b.rs` names: what stands
/// behind the last ` to ` of the trimmed message.
pub open spec fn written_path(output: Seq<char>) -> Option<Seq<char>> {
    let t = trim(output);
    if has_part(t, " to "@) {
        let at = last_at(t, " to "@);
        if at + 4 < t.len() {
            Some(t.skip(at + 4))
        } else {
            None
        }
    } else {
        None
    }
}

/// Finds the path in the output of a write.
pub fn extract_write_file_path_from_result(output: &str) -> (r: Option<String>)
    ensures
        match (r, written_path(output@)) {
            (Some(p), Some(q)) => p@ == q,
            (None, None) => true,
            _ => false,
        },
{
    let v: Vec<char> = chars_of(output);
    let t: String = trimmed(&v);
    let tv: Vec<char> = chars_of(t.as_str());
    let to: Vec<char> = chars_of(" to ");
    proof {
        reveal_strlit(" to ");
    }
    match rfind_text(&tv, &to) {
        Some(i) => {
            if tv.len() - i > 4 {
                proof {
                    assert(tv@.subrange(i + 4, tv@.len() as int) == tv@.skip(i + 4));
                }
                Some(text_between(&tv, i + 4, tv.len()))
            } else {
                None
            }
        },
        None => None,
    }
}

// ---------------------------------------------------------------------------
// Patches
// ---------------------------------------------------------------------------

/// What has been read of a patch.
pub struct PatchModel {
    /// The file that the patch is for.
    pub path: Option<Seq<char>>,
    /// The lines of the hunk that is being read.
    pub current: Seq<DiffLineModel>,
    /// The hunks that are complete.
    pub hunks: Seq<Seq<DiffLineModel>>,
    /// Whether a second file section has begun, which is not read.
    pub closed: bool,
}

/// Whether a line names the file of a section, and which.
pub open spec fn section_path(line: Seq<char>) -> Option<Seq<char>> {
    if has_prefix(line, "*** Update File: "@) {
        Some(trim(line.skip("*** Update File: "@.len() as int)))
    } else if has_prefix(line, "*** Add File: "@) {
        Some(trim(line.skip("*** Add File: "@.len() as int)))
    } else {
        None
    }
}

/// Whether a line only frames the patch.
pub open spec fn is_frame(line: Seq<char>) -> bool {
    ||| has_prefix(line, "*** Begin Patch"@)
    ||| has_prefix(line, "*** End Patch"@)
    ||| has_prefix(line, "*** End of File"@)
}

/// The diff line that a line of a section stands for.
pub open spec fn diff_line(line: Seq<char>) -> Option<DiffLineModel> {
    if line.len() > 0 && line[0] == '+' {
        Some(DiffLineModel { kind: DiffLineKind::Add, text: line.skip(1) })
    } else if line.len() > 0 && line[0] == '-' {
        Some(DiffLineModel { kind: DiffLineKind::Remove, text: line.skip(1) })
    } else if line.len() > 0 && line[0] == ' ' {
        Some(DiffLineModel { kind: DiffLineKind::Context, text: line.skip(1) })
    } else {
        None
    }
}

/// The hunks once the hunk in progress, if it has lines, is complete.
pub open spec fn with_hunk(hunks: Seq<Seq<DiffLineModel>>, current: Seq<DiffLineModel>) -> Seq<
    Seq<DiffLineModel>,
> {
    if current.len() > 0 {
        hunks.push(current)
    } else {
        hunks
    }
}

/// The first lines of the hunk that an anchor opens: the anchor's own text as
/// context, unless it is blank.
pub open spec fn anchor_lines(line: Seq<char>) -> Seq<DiffLineModel> {
    let text = trim_start(line.skip(2));
    if text.len() == 0 {
        seq![]
    } else {
        seq![DiffLineModel { kind: DiffLineKind::Context, text }]
    }
}

/// What has been read once one more line is.
pub open spec fn patch_step(p: PatchModel, line: Seq<char>) -> PatchModel {
    if p.closed {
        p
    } else if section_path(line) is Some {
        if p.path is Some {
            PatchModel { closed: true, ..p }
        } else {
            PatchModel { path: section_path(line), ..p }
        }
    } else if is_frame(line) || p.path is None {
        p
    } else if has_prefix(line, "@@"@) {
        PatchModel { hunks: with_hunk(p.hunks, p.current), current: anchor_lines(line), ..p }
    } else {
        match diff_line(line) {
            Some(d) => PatchModel { current: p.current.push(d), ..p },
            None => p,
        }
    }
}

/// What has been read after the first `n` lines.
pub open spec fn patch_after(ls: Seq<Seq<char>>, n: int) -> PatchModel
    decreases n,
{
    if n <= 0 {
        PatchModel { path: None, current: seq![], hunks: seq![], closed: false }
    } else {
        patch_step(patch_after(ls, n - 1), ls[n - 1])
    }
}

/// The file and the hunks of a patch; `None` without a file or without hunks.
pub open spec fn patch_of(input: Seq<char>) -> Option<(Seq<char>, Seq<Seq<DiffLineModel>>)> {
    let p = patch_after(lines(input), lines(input).len() as int);
    let hunks = with_hunk(p.hunks, p.current);
    match p.path {
        Some(path) => if hunks.len() > 0 {
            Some((path, hunks))
        } else {
            None
        },
        None => None,
    }
}

struct PatchReader {
    path: Option<String>,
    current: Vec<DiffLine>,
    hunks: Vec<DiffHunk>,
    closed: bool,
}

impl View for PatchReader {
    type V = PatchModel;

    closed spec fn view(&self) -> PatchModel {
        PatchModel {
            path: match self.path {
                Some(p) => Some(p@),
                None => None,
            },
            current: self.current@.map_values(|l: DiffLine| l@),
            hunks: hunk_models(self.hunks@),
            closed: self.closed,
        }
    }
}

impl PatchReader {
    fn new() -> (r: PatchReader)
        ensures
            r@ == patch_after(seq![], 0),
    {
        let r: PatchReader = PatchReader {
            path: None,
            current: Vec::new(),
            hunks: Vec::new(),
            closed: false,
        };
        proof {
            assert(r@.current =~= seq![]);
            assert(r@.hunks =~= seq![]);
        }
        r
    }

    fn add_line(&mut self, kind: DiffLineKind, text: String)
        ensures
            final(self)@ == (PatchModel {
                current: old(self)@.current.push(DiffLineModel { kind, text: text@ }),
                ..old(self)@
            }),
    {
        self.current.push(DiffLine { kind, text });
        proof {
            assert(self@.current =~= old(self)@.current.push(DiffLineModel { kind, text: text@ }));
        }
    }

    fn end_hunk(&mut self)
        ensures
            final(self)@ == (PatchModel {
                hunks: with_hunk(old(self)@.hunks, old(self)@.current),
                current: seq![],
                ..old(self)@
            }),
    {
        if self.current.len() > 0 {
            let mut lines: Vec<DiffLine> = Vec::new();
            std::mem::swap(&mut lines, &mut self.current);
            let hunk: DiffHunk = DiffHunk { lines };
            self.hunks.push(hunk);
            proof {
                assert(hunk@ =~= old(self)@.current);
                assert(self@.hunks =~= old(self)@.hunks.push(hunk@));
            }
        }
        proof {
            assert(self@.current =~= seq![]);
        }
    }

    fn read(&mut self, line: &str)
        ensures
            final(self)@ == patch_step(old(self)@, line@),
    {
        if self.closed {
            return ;
        }
        let v: Vec<char> = chars_of(line);
        let n: usize = v.len();
        let update: Vec<char> = chars_of("*** Update File: ");
        let added: Vec<char> = chars_of("*** Add File: ");
        let is_update: bool = matches_at(&v, &update, 0);
        if is_update || matches_at(&v, &added, 0) {
            if self.path.is_some() {
                self.closed = true;
                return ;
            }
            let from: usize = if is_update {
                update.len()
            } else {
                added.len()
            };
            let rest: Vec<char> = chars_of(text_between(&v, from, n).as_str());
            proof {
                assert(v@.subrange(from as int, n as int) == v@.skip(from as int));
            }
            self.path = Some(trimmed(&rest));
            return ;
        }
        if matches_at(&v, &chars_of("*** Begin Patch"), 0) || matches_at(
            &v,
            &chars_of("*** End Patch"),
            0,
        ) || matches_at(&v, &chars_of("*** End of File"), 0) {
            return ;
        }
        if self.path.is_none() {
            return ;
        }
        if matches_at(&v, &chars_of("@@"), 0) {
            proof {
                reveal_strlit("@@");
                assert(v@.subrange(2, n as int) == v@.skip(2));
            }
            self.end_hunk();
            let rest: Vec<char> = chars_of(text_between(&v, 2, n).as_str());
            let text: String = trimmed_start(&rest);
            if !text.as_str().is_empty() {
                self.add_line(DiffLineKind::Context, text);
            }
            proof {
                assert(self@.current =~= anchor_lines(line@));
            }
            return ;
        }
        if n > 0 {
            proof {
                assert(v@.subrange(1, n as int) == v@.skip(1));
            }
            if v[0] == '+' {
                self.add_line(DiffLineKind::Add, text_between(&v, 1, n));
            } else if v[0] == '-' {
                self.add_line(DiffLineKind::Remove, text_between(&v, 1, n));
            } else if v[0] == ' ' {
                self.add_line(DiffLineKind::Context, text_between(&v, 1, n));
            }
        }
    }
}

/// Reads a patch in the V4A format: the file that its first section is for,
/// and the hunks of that section.
pub fn parse_v4a_patch(input: &str) -> (r: Option<(String, Vec<DiffHunk>)>)
    ensures
        match (r, patch_of(input@)) {
            (Some((path, hunks)), Some((p, h))) => path@ == p && hunk_models(hunks@) == h,
            (None, None) => true,
            _ => false,
        },
{
    let ls: Vec<String> = lines_of(input);
    let mut reader: PatchReader = PatchReader::new();
    let mut i: usize = 0;
    while i < ls.len()
        invariant
            i <= ls@.len(),
            views(ls@) == lines(input@),
            reader@ == patch_after(lines(input@), i as int),
        decreases ls@.len() - i,
    {
        proof {
            assert(lines(input@)[i as int] == ls@[i as int]@);
        }
        reader.read(ls[i].as_str());
        i += 1;
    }
    proof {
        assert(ls@.len() == lines(input@).len());
    }
    reader.end_hunk();
    if reader.hunks.len() == 0 {
        return None;
    }
    match reader.path {
        Some(path) => Some((path, reader.hunks)),
        None => None,
    }
}

// ---------------------------------------------------------------------------
// Resumed conversations
// ---------------------------------------------------------------------------

/// The block of a tool call whose result is not there yet.
pub open spec fn call_block(call: ToolCall) -> BlockModel {
    BlockModel::ToolCall {
        id: call.id@,
        name: call.name@,
        args_preview: preview(call.arguments@),
        result: None,
    }
}

/// A saved result. Saved messages do not say whether the tool succeeded, so it
/// is shown as a success.
pub open spec fn saved_result(output: Seq<char>) -> Option<ToolResultModel> {
    Some(ToolResultModel { success: true, output, expanded: false })
}

/// Whether a block is the call `id`, still without a result.
pub open spec fn is_open_call(b: BlockModel, id: Seq<char>) -> bool {
    b matches BlockModel::ToolCall { id: cid, result, .. } && cid == id && result is None
}

/// The last of the first `n` blocks that is the call `id` without a result,
/// or -1.
pub open spec fn last_open_call(blocks: Seq<BlockModel>, id: Seq<char>, n: int) -> int
    decreases n,
{
    if n <= 0 {
        -1
    } else if is_open_call(blocks[n - 1], id) {
        n - 1
    } else {
        last_open_call(blocks, id, n - 1)
    }
}

/// A tool call with its result filled in.
pub open spec fn with_result(b: BlockModel, r: Option<ToolResultModel>) -> BlockModel {
    match b {
        BlockModel::ToolCall { id, name, args_preview, result } => BlockModel::ToolCall {
            id,
            name,
            args_preview,
            result: r,
        },
        other => other,
    }
}

/// The call that a tool message answers.
pub open spec fn answered_call(m: Message) -> Seq<char> {
    match m.tool_call_id {
        Some(id) => id@,
        None => seq![],
    }
}

/// The reasoning of an assistant message, unless it is blank.
pub open spec fn reasoning_blocks(m: Message) -> Seq<BlockModel> {
    match m.reasoning_content {
        Some(r) => if trim(r@).len() > 0 {
            seq![BlockModel::Reasoning { text: r@, streaming: false }]
        } else {
            seq![]
        },
        None => seq![],
    }
}

/// The text of an assistant message, unless it is blank.
pub open spec fn answer_blocks(m: Message) -> Seq<BlockModel> {
    if trim(m.content@).len() > 0 {
        seq![BlockModel::Assistant { text: m.content@, streaming: false, latency_ms: None }]
    } else {
        seq![]
    }
}

/// The transcript once one more message of the session is shown.
///
/// System messages are not shown; user and assistant texts are, unless they
/// are blank; an assistant's reasoning comes before its text and its tool
/// calls after it; a tool message fills the latest call that it answers, and
/// stands on its own where there is none.
pub open spec fn message_shown(blocks: Seq<BlockModel>, m: Message) -> Seq<BlockModel> {
    match m.role {
        Role::System => blocks,
        Role::User => if trim(m.content@).len() > 0 {
            blocks.push(BlockModel::User { text: m.content@ })
        } else {
            blocks
        },
        Role::Assistant => blocks + reasoning_blocks(m) + answer_blocks(m)
            + m.tool_calls@.map_values(|c: ToolCall| call_block(c)),
        Role::Tool => {
            let id = answered_call(m);
            let at = last_open_call(blocks, id, blocks.len() as int);
            if at >= 0 {
                blocks.update(at, with_result(blocks[at], saved_result(m.content@)))
            } else {
                blocks.push(
                    BlockModel::ToolCall {
                        id,
                        name: seq![],
                        args_preview: seq![],
                        result: saved_result(m.content@),
                    },
                )
            }
        },
    }
}

/// The transcript of the first `n` messages of a session.
pub open spec fn conversation(messages: Seq<Message>, n: int) -> Seq<BlockModel>
    decreases n,
{
    if n <= 0 {
        seq![]
    } else {
        message_shown(conversation(messages, n - 1), messages[n - 1])
    }
}

/// The position of the last block that is the call `id` without a result.
fn find_open_call(blocks: &Vec<TranscriptBlock>, id: &str) -> (r: Option<usize>)
    ensures
        match r {
            Some(i) => i < blocks@.len() && i == last_open_call(
                block_models(blocks@),
                id@,
                blocks@.len() as int,
            ) && is_open_call(block_models(blocks@)[i as int], id@),
            None => last_open_call(block_models(blocks@), id@, blocks@.len() as int) < 0,
        },
{
    let mut i: usize = blocks.len();
    while i > 0
        invariant
            i <= blocks@.len(),
            last_open_call(block_models(blocks@), id@, i as int) == last_open_call(
                block_models(blocks@),
                id@,
                blocks@.len() as int,
            ),
        decreases i,
    {
        i -= 1;
        proof {
            assert(block_models(blocks@)[i as int] == blocks@[i as int]@);
        }
        if let TranscriptBlock::ToolCall { id: cid, result, .. } = &blocks[i] {
            if result.is_none() && same_text(cid.as_str(), id) {
                return Some(i);
            }
        }
    }
    None
}

fn show_message(blocks: &mut Vec<TranscriptBlock>, m: &Message)
    ensures
        block_models(final(blocks)@) == message_shown(block_models(old(blocks)@), *m),
{
    match m.role {
        Role::System => {},
        Role::User => {
            if !is_blank(m.content.as_str()) {
                blocks.push(TranscriptBlock::User { text: m.content.clone() });
                proof {
                    assert(block_models(blocks@) =~= message_shown(block_models(old(blocks)@), *m));
                }
            }
        },
        Role::Assistant => show_answer(blocks, m),
        Role::Tool => {
            let id: String = match &m.tool_call_id {
                Some(id) => id.clone(),
                None => String::new(),
            };
            let data: ToolResultData = ToolResultData {
                success: true,
                output: m.content.clone(),
                expanded: false,
            };
            match find_open_call(blocks, id.as_str()) {
                Some(i) => {
                    fill_result(blocks, i, data);
                },
                None => {
                    blocks.push(
                        TranscriptBlock::ToolCall {
                            id,
                            name: String::new(),
                            args_preview: String::new(),
                            result: Some(data),
                        },
                    );
                    proof {
                        assert(block_models(blocks@) =~= message_shown(
                            block_models(old(blocks)@),
                            *m,
                        ));
                    }
                },
            }
        },
    }
}

/// Fills in the result of the call at position `i`.
fn fill_result(blocks: &mut Vec<TranscriptBlock>, i: usize, data: ToolResultData)
    requires
        i < old(blocks)@.len(),
    ensures
        block_models(final(blocks)@) == block_models(old(blocks)@).update(
            i as int,
            with_result(block_models(old(blocks)@)[i as int], Some(data@)),
        ),
{
    if let TranscriptBlock::ToolCall { result, .. } = &mut blocks[i] {
        *result = Some(data);
    }
    proof {
        assert(block_models(blocks@) =~= block_models(old(blocks)@).update(
            i as int,
            with_result(block_models(old(blocks)@)[i as int], Some(data@)),
        ));
    }
}

fn show_answer(blocks: &mut Vec<TranscriptBlock>, m: &Message)
    ensures
        block_models(final(blocks)@) == block_models(old(blocks)@) + reasoning_blocks(*m)
            + answer_blocks(*m) + m.tool_calls@.map_values(|c: ToolCall| call_block(c)),
{
    let ghost start = block_models(blocks@);
    if let Some(reasoning) = &m.reasoning_content {
        if !is_blank(reasoning.as_str()) {
            blocks.push(TranscriptBlock::Reasoning { text: reasoning.clone(), streaming: false });
        }
    }
    proof {
        assert(block_models(blocks@) =~= start + reasoning_blocks(*m));
    }
    if !is_blank(m.content.as_str()) {
        blocks.push(
            TranscriptBlock::Assistant {
                text: m.content.clone(),
                streaming: false,
                latency_ms: None,
            },
        );
    }
    let ghost texts = start + reasoning_blocks(*m) + answer_blocks(*m);
    proof {
        assert(block_models(blocks@) =~= texts);
    }
    let ghost calls = m.tool_calls@.map_values(|c: ToolCall| call_block(c));
    let mut i: usize = 0;
    proof {
        assert(texts + calls.take(0) =~= texts);
    }
    while i < m.tool_calls.len()
        invariant
            i <= m.tool_calls@.len(),
            calls == m.tool_calls@.map_values(|c: ToolCall| call_block(c)),
            block_models(blocks@) == texts + calls.take(i as int),
        decreases m.tool_calls@.len() - i,
    {
        let call: &ToolCall = &m.tool_calls[i];
        let ghost before = block_models(blocks@);
        blocks.push(
            TranscriptBlock::ToolCall {
                id: call.id.clone(),
                name: call.name.clone(),
                args_preview: preview_args(call.arguments.as_str()),
                result: None,
            },
        );
        proof {
            assert(block_models(blocks@) =~= before.push(call_block(*call)));
            assert(texts + calls.take(i + 1) =~= (texts + calls.take(i as int)).push(
                calls[i as int],
            ));
        }
        i += 1;
    }
    proof {
        assert(calls.take(i as int) =~= calls);
    }
}

/// Rebuilds the transcript of a saved session from its messages.
pub fn blocks_from_messages(messages: &[Message]) -> (r: Vec<TranscriptBlock>)
    ensures
        block_models(r@) == conversation(messages@, messages@.len() as int),
{
    let mut blocks: Vec<TranscriptBlock> = Vec::new();
    let mut i: usize = 0;
    proof {
        assert(block_models(blocks@) =~= seq![]);
    }
    while i < messages.len()
        invariant
            i <= messages@.len(),
            block_models(blocks@) == conversation(messages@, i as int),
        decreases messages@.len() - i,
    {
        show_message(&mut blocks, &messages[i]);
        i += 1;
    }
    blocks
}

/// Whether nothing of a message is shown: it is a system message, or a blank
/// message of the user.
pub open spec fn is_unseen(m: Message) -> bool {
    m.role == Role::System || (m.role == Role::User && trim(m.content@).len() == 0)
}

proof fn conversation_goes_on(messages: Seq<Message>, k: int, n: int)
    requires
        0 <= k < messages.len(),
        n <= messages.len(),
        is_unseen(messages[k]),
    ensures
        conversation(messages, n) == conversation(
            messages.remove(k),
            if n <= k {
                n
            } else {
                n - 1
            },
        ),
    decreases n,
{
    if n > 0 {
        conversation_goes_on(messages, k, n - 1);
        if n - 1 < k {
            assert(messages.remove(k)[n - 1] == messages[n - 1]);
        } else if n - 1 > k {
            assert(messages.remove(k)[n - 2] == messages[n - 1]);
        }
    }
}

/// System messages and blank messages of the user do not matter: a session is
/// shown as it is without them.
pub proof fn unseen_messages_do_not_matter(messages: Seq<Message>, k: int)
    requires
        0 <= k < messages.len(),
        is_unseen(messages[k]),
    ensures
        conversation(messages, messages.len() as int) == conversation(
            messages.remove(k),
            messages.len() - 1,
        ),
{
    conversation_goes_on(messages, k, messages.len() as int);
}

} // verus!
