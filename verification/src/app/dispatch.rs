//! Running the slash commands.
use vstd::prelude::*;
#[allow(unused_imports)]
use vstd::string::*;

use crate::app::event_loop::note;
use crate::app::handlers::{
    cmd_add_dir, cmd_clear, cmd_compact, cmd_cost, cmd_exit, cmd_goal, cmd_help, cmd_journal,
    cmd_loop, cmd_mcp, cmd_model, cmd_permissions, cmd_plan, cmd_resume, cmd_status, cmd_theme,
    cmd_tools, cost_panel, dir_requested, goal_command, help_panel, hook_switched, is_model_panel,
    journal_panel, loop_command, opens, plan_notice, resume_panel, status_shown_after, theme_panel,
    theme_switched, tool_panel, wanted_switch,
};
use crate::app::App;
use crate::commands::{
    is_first_command, is_first_skill, AsyncCommand, CommandHandler, CommandOutcome, CommandSpec,
    SyncCommand,
};
use crate::events::UserAction;
use crate::input_state::{InputMode, PromptInputState};
use crate::model::{BlockModel, TranscriptBlock};
use crate::model_picker::ModelPickerEntry;
use crate::skill_commands::SkillCommand;
use crate::text::{
    concat3, concat4, join, joined, lowercase_of, replaced, views, words, words_of,
};

verus! {

/// What a command that only changes the interface does.
pub open spec fn sync_ran(
    a: App,
    cmd: SyncCommand,
    args: Seq<String>,
    b: App,
    r: CommandOutcome,
) -> bool {
    match cmd {
        SyncCommand::Help => b == a && opens(r, help_panel(a)),
        SyncCommand::Clear => r is Done && App::conversation_dropped(a, b),
        SyncCommand::Cost => b == a && opens(r, cost_panel(a)),
        SyncCommand::Model => b == a && (r matches CommandOutcome::OpenPanel(p) && exists|
            rows: Seq<ModelPickerEntry>,
            running: int,
        |
            is_model_panel(p@, a, rows, running)),
        SyncCommand::Status => r is Done && exists|nanos: u64| status_shown_after(a, nanos, b),
        SyncCommand::Tools => b == a && opens(r, tool_panel(a)),
        SyncCommand::Journal => b == a && opens(r, journal_panel(a)),
        SyncCommand::Permissions => r is Done && hook_switched(a, wanted_switch(args), b),
        SyncCommand::AddDir => r is Done && dir_requested(a, args, b),
        SyncCommand::Exit => r is Done && b == (App { should_quit: true, ..a }),
        SyncCommand::Resume => b == a && if a.around.sessions@.len() == 0 {
            r matches CommandOutcome::Error(e) && e@ == "No saved sessions found."@
        } else {
            opens(r, resume_panel(a))
        },
        SyncCommand::Theme => if args.len() == 0 {
            b == a && opens(r, theme_panel(a))
        } else {
            r is Done && theme_switched(a, lowercase_of(args[0]@), b)
        },
    }
}

/// What a command that asks something of the worker does.
pub open spec fn async_ran(
    a: App,
    cmd: AsyncCommand,
    args: Seq<String>,
    b: App,
    r: Seq<UserAction>,
) -> bool {
    match cmd {
        AsyncCommand::Compact => r == seq![UserAction::Compact] && App::appended(
            a,
            note("Compacting transcript…"@),
            b,
        ),
        AsyncCommand::Plan => r.len() == 0 && App::appended(a, note(plan_notice()), b),
        AsyncCommand::Goal => goal_command(a, args, b, r),
        AsyncCommand::Mcp => r == seq![UserAction::ListMcpServers] && b == a,
        AsyncCommand::Loop => loop_command(a, args, b, r),
    }
}

/// Runs a command that only changes the interface.
pub fn run_sync(app: &mut App, cmd: SyncCommand, args: &[String]) -> (r: CommandOutcome)
    requires
        old(app).wf(),
    ensures
        sync_ran(*old(app), cmd, args@, *final(app), r),
        final(app).wf(),
{
    match cmd {
        SyncCommand::Help => cmd_help(app, args),
        SyncCommand::Clear => cmd_clear(app, args),
        SyncCommand::Cost => cmd_cost(app, args),
        SyncCommand::Model => cmd_model(app, args),
        SyncCommand::Status => cmd_status(app, args),
        SyncCommand::Tools => cmd_tools(app, args),
        SyncCommand::Journal => cmd_journal(app, args),
        SyncCommand::Permissions => cmd_permissions(app, args),
        SyncCommand::AddDir => cmd_add_dir(app, args),
        SyncCommand::Exit => cmd_exit(app, args),
        SyncCommand::Resume => cmd_resume(app, args),
        SyncCommand::Theme => cmd_theme(app, args),
    }
}

/// Runs a command that asks something of the worker.
pub fn run_async(app: &mut App, cmd: AsyncCommand, args: &[String]) -> (r: Vec<UserAction>)
    requires
        old(app).wf(),
    ensures
        async_ran(*old(app), cmd, args@, *final(app), r@),
        final(app).wf(),
{
    match cmd {
        AsyncCommand::Compact => cmd_compact(app, args),
        AsyncCommand::Plan => cmd_plan(app, args),
        AsyncCommand::Goal => cmd_goal(app, args),
        AsyncCommand::Mcp => cmd_mcp(app, args),
        AsyncCommand::Loop => cmd_loop(app, args),
    }
}

/// Whether `b` is `a` with the outcome of a command carried out.
pub open spec fn outcome_applied(a: App, outcome: CommandOutcome, b: App) -> bool {
    match outcome {
        CommandOutcome::Done => b == a,
        CommandOutcome::Error(e) => App::appended(a, BlockModel::Error { text: e@ }, b),
        CommandOutcome::OpenModal(m) => {
            &&& b == (App { modals: b.modals, modal_scroll: 0, ..a })
            &&& b.modals@ == a.modals@.push(m)
        },
        CommandOutcome::OpenPanel(p) => b == (App {
            active_command_panel: Some(p),
            prompt: PromptInputState { mode: InputMode::CommandInteract, ..a.prompt },
            ..a
        }),
    }
}

/// Whether `b` is `a` with a turn started on a message of the user.
pub open spec fn message_sent(a: App, text: Seq<char>, b: App) -> bool {
    &&& b == (App {
        blocks: b.blocks,
        scroll_offset: 0,
        turn: b.turn,
        turn_count: crate::cost::capped_sum(a.turn_count, 1),
        ..a
    })
    &&& b.transcript() == a.transcript().push(BlockModel::User { text })
    &&& crate::cost::underway(b.turn)
}

/// Whether the skill was run: the user is told, and a turn is started on its
/// prompt.
pub open spec fn skill_ran(
    a: App,
    skill: SkillCommand,
    args: Seq<Seq<char>>,
    b: App,
    r: Option<UserAction>,
) -> bool {
    let prompt = replaced(skill.prompt_template@, "$ARGUMENTS"@, joined(args, " "@));
    &&& r matches Some(UserAction::RunSkillPrompt { prompt: p }) && p@ == prompt
    &&& exists|mid: App| #[trigger]
        App::appended(
            a,
            note("Running skill /"@ + skill.name@ + ": "@ + skill.description@),
            mid,
        ) && message_sent(mid, prompt, b)
}

/// What a built-in command does, from its arguments to the action it asks for.
pub open spec fn command_ran(
    a: App,
    handler: CommandHandler,
    args: Seq<String>,
    b: App,
    r: Option<UserAction>,
) -> bool {
    match handler {
        CommandHandler::Sync(cmd) => r is None && exists|mid: App, outcome: CommandOutcome| #[trigger]
            sync_ran(a, cmd, args, mid, outcome) && outcome_applied(mid, outcome, b),
        CommandHandler::Async(cmd) => exists|actions: Seq<UserAction>| #[trigger]
            async_ran(a, cmd, args, b, actions) && r == if actions.len() > 0 {
                Some(actions[0])
            } else {
                None
            },
    }
}

/// The name that a command line starts with.
pub open spec fn command_name(body: Seq<char>) -> Seq<char> {
    if words(body).len() > 0 {
        words(body)[0]
    } else {
        ""@
    }
}

/// The words behind the name.
pub open spec fn command_args(body: Seq<char>) -> Seq<Seq<char>> {
    if words(body).len() > 0 {
        words(body).skip(1)
    } else {
        seq![]
    }
}

/// What a command line does: a built-in command of that name is run, else a
/// skill, and else the user is told that there is no such command.
pub open spec fn line_ran(a: App, body: Seq<char>, b: App, r: Option<UserAction>) -> bool {
    let name = command_name(body);
    if a.commands.knows(name) {
        exists|c: CommandSpec, args: Seq<String>|
            is_first_command(a.commands.builtins(), name, c) && views(args) == command_args(body)
                && #[trigger] command_ran(a, c.handler, args, b, r)
    } else if exists|i: int|
        0 <= i < a.commands.skills().len() && (#[trigger] a.commands.skills()[i]).answers_to(
            name,
        ) {
        exists|skill: SkillCommand| #[trigger]
            is_first_skill(a.commands.skills(), name, skill) && skill_ran(
                a,
                skill,
                command_args(body),
                b,
                r,
            )
    } else {
        &&& r is None
        &&& App::appended(
            a,
            BlockModel::Error { text: "Unknown command: /"@ + name + ". Try /help."@ },
            b,
        )
    }
}

impl App {
    /// Carries the outcome of a command out.
    pub fn apply_outcome(&mut self, outcome: CommandOutcome)
        requires
            old(self).wf(),
        ensures
            outcome_applied(*old(self), outcome, *final(self)),
            final(self).wf(),
    {
        match outcome {
            CommandOutcome::Done => {},
            CommandOutcome::Error(msg) => self.push_error(msg.as_str()),
            CommandOutcome::OpenModal(modal) => self.push_modal(modal),
            CommandOutcome::OpenPanel(panel) => self.open_command_panel(panel),
        }
        proof {
            assert(self.prompt.is_at(old(self).prompt.index()));
        }
    }

    /// Shows a message of the user and starts a turn on it.
    pub fn send_message(&mut self, text: String)
        requires
            old(self).wf(),
        ensures
            message_sent(*old(self), text@, *final(self)),
            final(self).wf(),
    {
        self.push_block(TranscriptBlock::User { text });
        self.scroll_to_bottom();
        self.start_turn();
    }

    fn run_skill(&mut self, said: &str, prompt: String, Ghost(skill): Ghost<SkillCommand>, Ghost(
        args,
    ): Ghost<Seq<Seq<char>>>) -> (r: Option<UserAction>)
        requires
            old(self).wf(),
            said@ == "Running skill /"@ + skill.name@ + ": "@ + skill.description@,
            prompt@ == replaced(skill.prompt_template@, "$ARGUMENTS"@, joined(args, " "@)),
        ensures
            skill_ran(*old(self), skill, args, *final(self), r),
            final(self).wf(),
    {
        self.push_system(said);
        self.send_message(prompt.clone());
        Some(UserAction::RunSkillPrompt { prompt })
    }

    fn run_handler(&mut self, handler: CommandHandler, args: &Vec<String>) -> (r: Option<
        UserAction,
    >)
        requires
            old(self).wf(),
        ensures
            command_ran(*old(self), handler, args@, *final(self), r),
            final(self).wf(),
    {
        match handler {
            CommandHandler::Sync(cmd) => {
                let outcome: CommandOutcome = run_sync(self, cmd, args.as_slice());
                self.apply_outcome(outcome);
                None
            },
            CommandHandler::Async(cmd) => {
                let mut actions: Vec<UserAction> = run_async(self, cmd, args.as_slice());
                if actions.len() > 0 {
                    Some(actions.remove(0))
                } else {
                    None
                }
            },
        }
    }

    /// Runs a command line, which comes without its leading slash.
    pub fn dispatch_slash_command(&mut self, body: &str) -> (r: Option<UserAction>)
        requires
            old(self).wf(),
        ensures
            line_ran(*old(self), body@, *final(self), r),
            final(self).wf(),
    {
        let mut parts: Vec<String> = words_of(body);
        let name: String = if parts.len() > 0 {
            parts.remove(0)
        } else {
            String::new()
        };
        proof {
            reveal_strlit("");
            assert(views(parts@) =~= command_args(body@));
            assert(name@ =~= command_name(body@));
        }
        let handler: Option<CommandHandler> = match self.commands.lookup(name.as_str()) {
            Some(c) => Some(c.handler),
            None => None,
        };
        if let Some(h) = handler {
            return self.run_handler(h, &parts);
        }
        let mut found: Option<(String, String)> = None;
        if let Some(skill) = self.commands.lookup_skill(name.as_str()) {
            let joined_args: String = join(&parts, " ");
            let said: String = concat4(
                "Running skill /",
                skill.name.as_str(),
                ": ",
                skill.description.as_str(),
            );
            found = Some((said, skill.expand(joined_args.as_str())));
        }
        if let Some((said, prompt)) = found {
            let ghost skill = choose|skill: SkillCommand|
                is_first_skill(self.commands.skills(), name@, skill) && said@ == "Running skill /"@
                    + skill.name@ + ": "@ + skill.description@ && prompt@ == replaced(
                    skill.prompt_template@,
                    "$ARGUMENTS"@,
                    joined(views(parts@), " "@),
                );
            return self.run_skill(said.as_str(), prompt, Ghost(skill), Ghost(views(parts@)));
        }
        let text: String = concat3("Unknown command: /", name.as_str(), ". Try /help.");
        self.push_error(text.as_str());
        None
    }
}

} // verus!
