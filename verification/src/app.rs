//! The state of the interface.
//!
//! [`App`] holds everything that the user sees. Key presses go through
//! [`App::handle_key`] and worker events through [`App::handle_ui_event`];
//! what has to be done outside the interface is left in the state for the
//! terminal loop to pick up.
pub mod dialogs;
pub mod dispatch;
pub mod event_loop;
pub mod handlers;
pub mod keyboard;
pub mod laws;
pub mod panels;
pub mod popups;

use std::time::Instant;

use vstd::prelude::*;
#[allow(unused_imports)]
use vstd::string::*;

use crate::commands::{builtin_commands, CommandRegistry, CommandSpec};
use crate::completion::{default_offline_tool_catalog, offline_tools, FileNode};
use crate::cost::{idle, no_usage, underway, TurnState, UsageStats};
use crate::events::{PermissionRequest, SkillInstallEvent, TodoItem};
use crate::input_state::{refilled, InputMode, PromptInputState};
use crate::modal::{JournalEntry, Modal, ResumeEntry, SkillInstallPage, SkillInstallState};
use crate::model::{block_models, AppScreen, BlockModel, TranscriptBlock};
use crate::model_picker::ProviderPreset;
use crate::ollama_probe::OllamaPickerModels;
use crate::panel::CommandPanelState;
use crate::pickers::CostFigures;
use crate::runtime_builder::AccessTier;
use crate::skill_commands::SkillCommand;
use crate::text::same_text;
use crate::theme::Theme;

verus! {

/// When the keys that can be pressed twice were last pressed.
#[derive(Clone, Debug)]
pub struct DoublePress {
    pub last_esc_at: Option<Instant>,
    pub last_ctrl_c_at: Option<Instant>,
}

/// The goal that the agent works towards, as the interface knows it.
#[derive(Clone, Debug)]
pub struct GoalState {
    pub condition: String,
    pub turns: u32,
    pub max_turns: u32,
    pub last_reason: Option<String>,
}

/// The loop that runs, as the interface knows it.
#[derive(Clone, Debug)]
pub struct LoopUiState {
    pub goal: String,
    pub turns_run: u32,
    /// 0 means no limit.
    pub max_turns: u32,
}

/// Which answer the skill installer waits for.
#[derive(Clone, Copy, Debug, PartialEq, Eq, Structural)]
pub enum PendingSkillInstall {
    Search,
    Files,
}

/// The answer to the skill installer.
#[derive(Clone, Debug)]
pub enum SkillReply {
    /// The skill that was chosen, if one was.
    Chosen(Option<String>),
    /// Whether to install.
    Confirmed(bool),
}

/// A directory that the user wants to grant, to be resolved by the file
/// system.
#[derive(Clone, Debug)]
pub struct DirRequest {
    pub path: String,
    pub read_only: bool,
}

/// What the interface knows of the world around it. The terminal loop fills it
/// in before it hands over a key.
#[derive(Debug)]
pub struct Surroundings {
    /// The files of the workspace.
    pub files: Vec<FileNode>,
    /// The skill commands, where they were loaded anew.
    pub skills: Option<Vec<SkillCommand>>,
    /// The most recent journal files.
    pub journal: Vec<JournalEntry>,
    /// The most recent sessions.
    pub sessions: Vec<ResumeEntry>,
    /// The known providers.
    pub presets: Vec<ProviderPreset>,
    /// The models of the local Ollama instance.
    pub ollama: OllamaPickerModels,
    /// What the session cost, where the model has prices.
    pub costs: Option<CostFigures>,
    /// The latest round-trip time in seconds, as it is shown.
    pub latency_secs: String,
}

/// The state of the interface.
#[derive(Debug)]
pub struct App {
    pub screen: AppScreen,
    pub prompt: PromptInputState,
    pub blocks: Vec<TranscriptBlock>,
    pub should_quit: bool,
    pub connected: bool,
    /// Why there is no runtime, once the worker said so.
    pub offline_reason: Option<String>,
    /// How far the transcript is scrolled up from its end.
    pub scroll_offset: u16,
    pub modals: Vec<Modal>,
    pub modal_scroll: u16,
    pub commands: CommandRegistry,
    pub command_menu_selected: Option<usize>,
    pub atfile_query: String,
    pub atfile_suggestions: Vec<String>,
    pub atfile_selected: Option<usize>,
    pub hsearch_query: String,
    pub hsearch_matches: Vec<usize>,
    pub hsearch_selected: usize,
    pub active_command_panel: Option<CommandPanelState>,
    pub pending_permission: Option<PermissionRequest>,
    /// The answer to the permission request, for the terminal loop to send.
    pub permission_reply: Option<bool>,
    pub permission_hook_enabled: bool,
    /// The tools that need no more permission, each once.
    pub auto_allowed_tools: Vec<String>,
    pub pending_skill_install: Option<PendingSkillInstall>,
    /// The answer to the skill installer, for the terminal loop to send.
    pub skill_reply: Option<SkillReply>,
    pub plan_awaiting_approval: bool,
    pub plan_mode_request_pending: bool,
    pub usage: UsageStats,
    pub turn: TurnState,
    /// How many frames were drawn, for the spinner.
    pub spinner_frame: usize,
    pub turn_count: u64,
    pub pending_latency_ms: Option<u64>,
    pub model_name: String,
    pub active_preset: Option<String>,
    pub current_todos: Vec<TodoItem>,
    pub active_goal: Option<GoalState>,
    pub loop_state: Option<LoopUiState>,
    pub double_press: DoublePress,
    pub start_time: Instant,
    pub theme: Theme,
    pub tool_catalog: Vec<(String, String)>,
    /// The directories that were granted in this session.
    pub session_roots: Vec<(String, AccessTier)>,
    /// The directory to be resolved, for the terminal loop to look up.
    pub pending_dir: Option<DirRequest>,
    /// The selected rows of the visible transcript.
    pub selection: Option<(usize, usize)>,
    pub last_copied: Option<String>,
    pub around: Surroundings,
}

impl App {
    /// Whether no tool is listed twice among those that need no permission.
    pub open spec fn tools_distinct(self) -> bool {
        forall|i: int, j: int|
            0 <= i < j < self.auto_allowed_tools@.len() ==> (
            #[trigger] self.auto_allowed_tools@[i])@ != (#[trigger] self.auto_allowed_tools@[j])@
    }

    /// Whether the state is sound: the cursor stands between two characters, the
    /// selected rows are in order, and no tool is allowed twice.
    pub open spec fn wf(self) -> bool {
        &&& self.prompt.wf()
        &&& self.tools_distinct()
        &&& self.hsearch_selected < usize::MAX
        &&& self.selection matches Some((start, end)) ==> start <= end <= u16::MAX
    }

    /// The model of the transcript.
    pub open spec fn transcript(self) -> Seq<BlockModel> {
        block_models(self.blocks@)
    }

    /// Whether this is the interface at its start.
    pub open spec fn is_fresh(self) -> bool {
        &&& self.screen == AppScreen::Splash
        &&& self.prompt.is_clear()
        &&& self.prompt.history@.len() == 0
        &&& self.blocks@.len() == 0
        &&& !self.should_quit
        &&& !self.connected
        &&& self.offline_reason is None
        &&& self.scroll_offset == 0
        &&& self.modals@.len() == 0
        &&& self.modal_scroll == 0
        &&& self.commands.builtins().map_values(|c: CommandSpec| c@) == builtin_commands()
        &&& self.commands.skills().len() == 0
        &&& self.command_menu_selected is None
        &&& self.atfile_query@.len() == 0
        &&& self.atfile_suggestions@.len() == 0
        &&& self.atfile_selected is None
        &&& self.hsearch_query@.len() == 0
        &&& self.hsearch_matches@.len() == 0
        &&& self.hsearch_selected == 0
        &&& self.active_command_panel is None
        &&& self.pending_permission is None
        &&& self.permission_reply is None
        &&& !self.permission_hook_enabled
        &&& self.auto_allowed_tools@.len() == 0
        &&& self.pending_skill_install is None
        &&& self.skill_reply is None
        &&& !self.plan_awaiting_approval
        &&& !self.plan_mode_request_pending
        &&& idle(self.turn)
        &&& self.spinner_frame == 0
        &&& self.turn_count == 0
        &&& self.pending_latency_ms is None
        &&& self.active_goal is None
        &&& self.loop_state is None
        &&& self.theme.name@ == "dark"@
        &&& self.session_roots@.len() == 0
        &&& self.pending_dir is None
        &&& self.selection is None
        &&& self.last_copied is None
        &&& self.usage == no_usage()
        &&& self.model_name@ == "gpt-4o-mini"@
        &&& self.active_preset is None
        &&& self.current_todos@.len() == 0
        &&& self.double_press.last_esc_at is None
        &&& self.double_press.last_ctrl_c_at is None
        &&& self.tool_catalog@.map_values(|t: (String, String)| (t.0@, t.1@)) == offline_tools()
        &&& self.around.files@.len() == 0
        &&& self.around.skills is None
        &&& self.around.journal@.len() == 0
        &&& self.around.sessions@.len() == 0
        &&& self.around.presets@.len() == 0
        &&& self.around.ollama is Bundled
        &&& self.around.costs is None
        &&& self.around.latency_secs@ == "0.00"@
    }

    /// The interface at its start.
    pub fn new() -> (r: App)
        ensures
            r.wf(),
            r.is_fresh(),
    {
        App {
            screen: AppScreen::Splash,
            prompt: PromptInputState::new(),
            blocks: Vec::new(),
            should_quit: false,
            connected: false,
            offline_reason: None,
            scroll_offset: 0,
            modals: Vec::new(),
            modal_scroll: 0,
            commands: CommandRegistry::default_set(),
            command_menu_selected: None,
            atfile_query: String::new(),
            atfile_suggestions: Vec::new(),
            atfile_selected: None,
            hsearch_query: String::new(),
            hsearch_matches: Vec::new(),
            hsearch_selected: 0,
            active_command_panel: None,
            pending_permission: None,
            permission_reply: None,
            permission_hook_enabled: false,
            auto_allowed_tools: Vec::new(),
            pending_skill_install: None,
            skill_reply: None,
            plan_awaiting_approval: false,
            plan_mode_request_pending: false,
            usage: UsageStats::default(),
            turn: TurnState::default(),
            spinner_frame: 0,
            turn_count: 0,
            pending_latency_ms: None,
            model_name: "gpt-4o-mini".to_owned(),
            active_preset: None,
            current_todos: Vec::new(),
            active_goal: None,
            loop_state: None,
            double_press: DoublePress { last_esc_at: None, last_ctrl_c_at: None },
            start_time: Instant::now(),
            theme: Theme { name: "dark" },
            tool_catalog: default_offline_tool_catalog(),
            session_roots: Vec::new(),
            pending_dir: None,
            selection: None,
            last_copied: None,
            around: Surroundings {
                files: Vec::new(),
                skills: None,
                journal: Vec::new(),
                sessions: Vec::new(),
                presets: Vec::new(),
                ollama: OllamaPickerModels::Bundled,
                costs: None,
                latency_secs: "0.00".to_owned(),
            },
        }
    }

    /// Moves the spinner on by one frame; after the last number it starts again
    /// from zero.
    pub fn advance_spinner(&mut self)
        ensures
            *final(self) == (App {
                spinner_frame: if old(self).spinner_frame == usize::MAX {
                    0
                } else {
                    (old(self).spinner_frame + 1) as usize
                },
                ..*old(self)
            }),
    {
        self.spinner_frame = self.spinner_frame.wrapping_add(1);
    }

    /// Whether `b` is `a` with one more block at the end of its transcript.
    pub open spec fn appended(a: App, block: BlockModel, b: App) -> bool {
        &&& b == (App { blocks: b.blocks, ..a })
        &&& b.transcript() == a.transcript().push(block)
    }

    /// Appends a block to the transcript.
    pub fn push_block(&mut self, block: TranscriptBlock)
        ensures
            App::appended(*old(self), block@, *final(self)),
            final(self).blocks@ == old(self).blocks@.push(block),
    {
        self.blocks.push(block);
        proof {
            assert(self.transcript() =~= old(self).transcript().push(block@));
        }
    }

    /// Appends a note of the interface to the transcript.
    pub fn push_system(&mut self, text: &str)
        ensures
            App::appended(*old(self), BlockModel::System { text: text@ }, *final(self)),
    {
        self.push_block(TranscriptBlock::System { text: text.to_owned() });
    }

    /// Appends an error to the transcript.
    pub fn push_error(&mut self, text: &str)
        ensures
            App::appended(*old(self), BlockModel::Error { text: text@ }, *final(self)),
    {
        self.push_block(TranscriptBlock::Error { text: text.to_owned() });
    }

    /// Shows the end of the transcript.
    pub fn scroll_to_bottom(&mut self)
        ensures
            *final(self) == (App { scroll_offset: 0, ..*old(self) }),
    {
        self.scroll_offset = 0;
    }

    /// Puts a dialog on top.
    pub fn push_modal(&mut self, modal: Modal)
        ensures
            final(self).modals@ == old(self).modals@.push(modal),
            *final(self) == (App { modals: final(self).modals, modal_scroll: 0, ..*old(self) }),
    {
        self.modals.push(modal);
        self.modal_scroll = 0;
    }

    /// Opens an interactive panel, which then has the keyboard.
    pub fn open_command_panel(&mut self, panel: CommandPanelState)
        ensures
            *final(self) == (App {
                active_command_panel: Some(panel),
                prompt: PromptInputState { mode: InputMode::CommandInteract, ..old(self).prompt },
                ..*old(self)
            }),
    {
        self.active_command_panel = Some(panel);
        self.prompt.mode = InputMode::CommandInteract;
    }

    /// Closes the interactive panel and gives the keyboard back to the prompt.
    pub fn close_command_panel(&mut self)
        ensures
            *final(self) == (App {
                active_command_panel: None,
                prompt: PromptInputState { mode: InputMode::Prompt, ..old(self).prompt },
                ..*old(self)
            }),
    {
        self.active_command_panel = None;
        self.prompt.mode = InputMode::Prompt;
    }

    /// Whether `b` is `a` with another text in the prompt, in the ordinary mode.
    pub open spec fn input_set(a: App, text: Seq<char>, b: App) -> bool {
        &&& b == (App { prompt: b.prompt, ..a })
        &&& refilled(
            PromptInputState { mode: InputMode::Prompt, history_idx: None, ..a.prompt },
            text,
            b.prompt,
        )
    }

    /// Replaces what is being typed.
    pub fn set_input(&mut self, text: &str)
        ensures
            App::input_set(*old(self), text@, *final(self)),
    {
        self.prompt.mode = InputMode::Prompt;
        self.prompt.history_idx = None;
        self.prompt.set_buffer(text.to_owned());
    }

    /// What is being typed.
    pub fn input(&self) -> (r: &str)
        ensures
            r@ == self.prompt.buffer@,
    {
        self.prompt.buffer.as_str()
    }

    /// Whether `b` is `a` without its conversation.
    pub open spec fn conversation_dropped(a: App, b: App) -> bool {
        &&& b == (App { blocks: b.blocks, scroll_offset: 0, usage: no_usage(), ..a })
        &&& b.transcript() == seq![BlockModel::System { text: "Conversation cleared."@ }]
    }

    /// Drops the conversation and its token counts, and says so.
    pub fn reset_transcript(&mut self)
        ensures
            App::conversation_dropped(*old(self), *final(self)),
    {
        self.blocks = Vec::new();
        self.scroll_offset = 0;
        self.usage = UsageStats::default();
        self.push_system("Conversation cleared.");
        proof {
            assert(self.transcript() =~= seq![
                BlockModel::System { text: "Conversation cleared."@ },
            ]);
        }
    }

    /// Marks a turn as started and counts it.
    pub fn start_turn(&mut self)
        ensures
            underway(final(self).turn),
            *final(self) == (App {
                turn: final(self).turn,
                turn_count: crate::cost::capped_sum(old(self).turn_count, 1),
                ..*old(self)
            }),
    {
        self.turn.start();
        self.turn_count = self.turn_count.saturating_add(1);
    }

    /// Keeps a text for the clipboard.
    pub fn copy_text(&mut self, text: String)
        ensures
            *final(self) == (App { last_copied: Some(text), ..*old(self) }),
    {
        self.last_copied = Some(text);
    }

    /// Whether `b` is `a` with the skill commands that were loaded anew.
    pub open spec fn skills_reloaded(a: App, b: App) -> bool {
        &&& b.commands.builtins() == a.commands.builtins()
        &&& b.commands.skills() == match a.around.skills {
            Some(skills) => skills@,
            None => a.commands.skills(),
        }
        &&& b == (App {
            commands: b.commands,
            around: Surroundings { skills: None, ..a.around },
            ..a
        })
    }

    /// Takes over the skill commands where they were loaded anew.
    pub fn try_reload_skills(&mut self)
        ensures
            App::skills_reloaded(*old(self), *final(self)),
    {
        if let Some(skills) = self.around.skills.take() {
            self.commands.set_skill_commands(skills);
        }
    }

    /// Whether a tool needs no more permission.
    pub open spec fn is_auto_allowed(self, tool: Seq<char>) -> bool {
        exists|i: int|
            0 <= i < self.auto_allowed_tools@.len() && (#[trigger] self.auto_allowed_tools@[i])@
                == tool
    }

    /// Whether a tool needs no more permission.
    pub fn auto_allows(&self, tool: &str) -> (r: bool)
        ensures
            r == self.is_auto_allowed(tool@),
    {
        let mut i: usize = 0;
        while i < self.auto_allowed_tools.len()
            invariant
                i <= self.auto_allowed_tools@.len(),
                forall|j: int| 0 <= j < i ==> (#[trigger] self.auto_allowed_tools@[j])@ != tool@,
            decreases self.auto_allowed_tools@.len() - i,
        {
            if same_text(self.auto_allowed_tools[i].as_str(), tool) {
                return true;
            }
            i += 1;
        }
        false
    }

    /// Whether `b` is `a` with a permission request taken.
    pub open spec fn permission_asked(a: App, request: PermissionRequest, b: App) -> bool {
        b == if a.is_auto_allowed(request.tool_name@) {
            App { permission_reply: Some(true), ..a }
        } else {
            App { pending_permission: Some(request), ..a }
        }
    }

    /// Takes a permission request: a tool that needs no more permission is
    /// allowed at once, and any other request waits for the user.
    pub fn set_pending_permission(&mut self, request: PermissionRequest)
        ensures
            App::permission_asked(*old(self), request, *final(self)),
    {
        if self.auto_allows(request.tool_name.as_str()) {
            self.permission_reply = Some(true);
        } else {
            self.pending_permission = Some(request);
        }
    }

    /// Whether `b` is `a` with a question of the skill installer taken.
    pub open spec fn installer_asked(a: App, event: SkillInstallEvent, b: App) -> bool {
        match event {
            SkillInstallEvent::Search { query, results } => {
                &&& b.modals@.len() == a.modals@.len() + 1
                &&& b.modals@.drop_last() == a.modals@
                &&& b.modals@.last() matches Modal::SkillInstall(s) && s.query
                    == query && s.results == results && s.slug is None && s.files@.len() == 0
                    && s.page == (SkillInstallPage::Results { selected: 0 })
                &&& b == (App {
                    modals: b.modals,
                    modal_scroll: 0,
                    pending_skill_install: Some(PendingSkillInstall::Search),
                    ..a
                })
            },
            SkillInstallEvent::Files { slug, files } => {
                &&& match a.top_installer() {
                    Some(s) => b.modals@ == a.modals@.update(
                        a.modals@.len() - 1,
                        Modal::SkillInstall(
                            SkillInstallState {
                                slug: Some(slug),
                                files,
                                page: SkillInstallPage::Files { selected: 0 },
                                ..s
                            },
                        ),
                    ),
                    None => b.modals@ == a.modals@,
                }
                &&& b == (App {
                    modals: b.modals,
                    modal_scroll: 0,
                    pending_skill_install: Some(PendingSkillInstall::Files),
                    ..a
                })
            },
        }
    }

    /// Takes a question of the skill installer: the hits of a search open its
    /// dialog, and the files of a skill go into the dialog that is open.
    pub fn handle_skill_install_event(&mut self, event: SkillInstallEvent)
        ensures
            App::installer_asked(*old(self), event, *final(self)),
    {
        match event {
            SkillInstallEvent::Search { query, results } => {
                self.push_modal(
                    Modal::SkillInstall(
                        SkillInstallState {
                            query,
                            results,
                            slug: None,
                            files: Vec::new(),
                            page: SkillInstallPage::Results { selected: 0 },
                        },
                    ),
                );
                self.pending_skill_install = Some(PendingSkillInstall::Search);
                proof {
                    assert(self.modals@.drop_last() =~= old(self).modals@);
                }
            },
            SkillInstallEvent::Files { slug, files } => {
                let n: usize = self.modals.len();
                if n > 0 {
                    if let Modal::SkillInstall(s) = &mut self.modals[n - 1] {
                        s.slug = Some(slug);
                        s.files = files;
                        s.page = SkillInstallPage::Files { selected: 0 };
                    }
                }
                self.modal_scroll = 0;
                self.pending_skill_install = Some(PendingSkillInstall::Files);
                proof {
                    if old(self).top_installer() is None {
                        assert(self.modals@ =~= old(self).modals@);
                    }
                }
            },
        }
    }

    /// The state of the skill installer, where its dialog is on top.
    pub open spec fn top_installer(self) -> Option<SkillInstallState> {
        if self.modals@.len() > 0 {
            match self.modals@.last() {
                Modal::SkillInstall(s) => Some(s),
                _ => None,
            }
        } else {
            None
        }
    }
}

impl Default for App {
    fn default() -> (r: App)
        ensures
            r.wf(),
            r.is_fresh(),
    {
        App::new()
    }
}

} // verus!
