//! The visible transcript.
use serde_json::Value;
use vstd::prelude::*;

verus! {

/// The screen that is shown.
#[derive(Clone, Debug, PartialEq, Eq)]
pub enum AppScreen {
    Splash,
    Chat,
    PlanReview { plan_text: String },
}

/// What a line of a diff does.
#[derive(Clone, Copy, Debug, PartialEq, Eq, Structural)]
pub enum DiffLineKind {
    Add,
    Remove,
    Context,
}

/// One line of a diff, without its marker.
#[derive(Clone, Debug, PartialEq, Eq)]
pub struct DiffLine {
    pub kind: DiffLineKind,
    pub text: String,
}

/// A run of diff lines.
#[derive(Clone, Debug, PartialEq, Eq)]
pub struct DiffHunk {
    pub lines: Vec<DiffLine>,
}

/// What a tool call came back with.
#[derive(Clone, Debug, PartialEq, Eq)]
pub struct ToolResultData {
    pub success: bool,
    pub output: String,
    pub expanded: bool,
}

/// One block of the transcript.
#[derive(Clone, Debug, PartialEq, Eq)]
pub enum TranscriptBlock {
    User { text: String },
    Assistant { text: String, streaming: bool, latency_ms: Option<u64> },
    Reasoning { text: String, streaming: bool },
    ToolCall {
        id: String,
        name: String,
        args_preview: String,
        /// `None` while the tool is still running.
        result: Option<ToolResultData>,
    },
    Diff { path: String, hunks: Vec<DiffHunk> },
    System { text: String },
    Error { text: String },
    Compacted { removed: usize, kept: usize },
    PlanProposal { plan_text: String, tool_calls: Vec<Value> },
    PlanModeRequest {
        reason: String,
        /// `None` until the request is answered.
        approved: Option<bool>,
    },
    WeixinMessage { user_id: String, text: String },
}

/// The model of a diff line.
pub struct DiffLineModel {
    pub kind: DiffLineKind,
    pub text: Seq<char>,
}

/// The model of a tool result.
pub struct ToolResultModel {
    pub success: bool,
    pub output: Seq<char>,
    pub expanded: bool,
}

/// The model of a block.
pub enum BlockModel {
    User { text: Seq<char> },
    Assistant { text: Seq<char>, streaming: bool, latency_ms: Option<u64> },
    Reasoning { text: Seq<char>, streaming: bool },
    ToolCall {
        id: Seq<char>,
        name: Seq<char>,
        args_preview: Seq<char>,
        result: Option<ToolResultModel>,
    },
    Diff { path: Seq<char>, hunks: Seq<Seq<DiffLineModel>> },
    System { text: Seq<char> },
    Error { text: Seq<char> },
    Compacted { removed: usize, kept: usize },
    PlanProposal { plan_text: Seq<char>, tool_calls: Seq<Value> },
    PlanModeRequest { reason: Seq<char>, approved: Option<bool> },
    WeixinMessage { user_id: Seq<char>, text: Seq<char> },
}

impl View for DiffLine {
    type V = DiffLineModel;

    open spec fn view(&self) -> DiffLineModel {
        DiffLineModel { kind: self.kind, text: self.text@ }
    }
}

impl View for DiffHunk {
    type V = Seq<DiffLineModel>;

    open spec fn view(&self) -> Seq<DiffLineModel> {
        self.lines@.map_values(|l: DiffLine| l@)
    }
}

impl View for ToolResultData {
    type V = ToolResultModel;

    open spec fn view(&self) -> ToolResultModel {
        ToolResultModel { success: self.success, output: self.output@, expanded: self.expanded }
    }
}

/// The models of a list of hunks.
pub open spec fn hunk_models(h: Seq<DiffHunk>) -> Seq<Seq<DiffLineModel>> {
    h.map_values(|x: DiffHunk| x@)
}

/// The model of a result that may be missing.
pub open spec fn result_model(r: Option<ToolResultData>) -> Option<ToolResultModel> {
    match r {
        Some(d) => Some(d@),
        None => None,
    }
}

impl View for TranscriptBlock {
    type V = BlockModel;

    open spec fn view(&self) -> BlockModel {
        match *self {
            TranscriptBlock::User { text } => BlockModel::User { text: text@ },
            TranscriptBlock::Assistant { text, streaming, latency_ms } => BlockModel::Assistant {
                text: text@,
                streaming,
                latency_ms,
            },
            TranscriptBlock::Reasoning { text, streaming } => BlockModel::Reasoning {
                text: text@,
                streaming,
            },
            TranscriptBlock::ToolCall { id, name, args_preview, result } => BlockModel::ToolCall {
                id: id@,
                name: name@,
                args_preview: args_preview@,
                result: result_model(result),
            },
            TranscriptBlock::Diff { path, hunks } => BlockModel::Diff {
                path: path@,
                hunks: hunk_models(hunks@),
            },
            TranscriptBlock::System { text } => BlockModel::System { text: text@ },
            TranscriptBlock::Error { text } => BlockModel::Error { text: text@ },
            TranscriptBlock::Compacted { removed, kept } => BlockModel::Compacted { removed, kept },
            TranscriptBlock::PlanProposal { plan_text, tool_calls } => BlockModel::PlanProposal {
                plan_text: plan_text@,
                tool_calls: tool_calls@,
            },
            TranscriptBlock::PlanModeRequest { reason, approved } => BlockModel::PlanModeRequest {
                reason: reason@,
                approved,
            },
            TranscriptBlock::WeixinMessage { user_id, text } => BlockModel::WeixinMessage {
                user_id: user_id@,
                text: text@,
            },
        }
    }
}

/// The models of a list of blocks.
pub open spec fn block_models(b: Seq<TranscriptBlock>) -> Seq<BlockModel> {
    b.map_values(|x: TranscriptBlock| x@)
}

} // verus!
