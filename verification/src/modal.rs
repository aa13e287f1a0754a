//! The dialogs that can lie on top of the conversation.
use serde_json::Value;
use vstd::prelude::*;

use crate::events::{SkillSearchResult, SkillZipFile};

verus! {

/// What a confirmation dialog does on yes.
#[derive(Clone, Copy, Debug, PartialEq, Eq, Structural)]
pub enum ConfirmAction {
    Exit,
    Clear,
}

/// One journal file.
#[derive(Clone, Debug, PartialEq, Eq)]
pub struct JournalEntry {
    pub name: String,
    pub preview: String,
}

/// One saved session.
#[derive(Clone, Debug, PartialEq, Eq)]
pub struct ResumeEntry {
    pub session_dir: String,
    pub slug: String,
    pub updated_at: String,
    pub turn_count: usize,
}

/// One configured MCP server.
#[derive(Clone, Debug, PartialEq, Eq)]
pub struct McpEntry {
    pub name: String,
    pub transport: String,
    pub enabled: bool,
}

/// The page that the skill installer shows.
#[derive(Clone, Copy, Debug, PartialEq, Eq, Structural)]
pub enum SkillInstallPage {
    Results { selected: usize },
    Files { selected: usize },
    Preview { file_idx: usize, scroll: u16 },
}

/// The state of the skill installer.
#[derive(Clone, Debug, PartialEq, Eq)]
pub struct SkillInstallState {
    pub query: String,
    pub results: Vec<SkillSearchResult>,
    pub slug: Option<String>,
    pub files: Vec<SkillZipFile>,
    pub page: SkillInstallPage,
}

/// A dialog.
#[allow(inconsistent_fields)]
#[derive(Clone, Debug, PartialEq, Eq)]
pub enum Modal {
    Help,
    ContextUsage,
    PlanReview { plan_text: String, tool_calls: Vec<Value>, edited_text: Option<String> },
    Confirm { prompt: String, on_yes: ConfirmAction },
    Journal { entries: Vec<JournalEntry>, selected: usize },
    ResumePicker { entries: Vec<ResumeEntry>, selected: usize },
    McpServers { entries: Vec<McpEntry>, selected: usize },
    SkillInstall(SkillInstallState),
}

} // verus!
