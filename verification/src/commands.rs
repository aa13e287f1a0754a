//! The slash commands: their registry and what each of them does.
use vstd::prelude::*;
#[allow(unused_imports)]
use vstd::string::*;

use crate::modal::Modal;
use crate::order::{is_sort_order, sort_order};
use crate::panel::CommandPanelState;
use crate::skill_commands::SkillCommand;
use crate::text::{
    ascii_lower, ascii_lowered, chars_of, concat2, concat4, concat5, debug_form, debug_of, decimal,
    decimal_comes_back, first_word_of_number, has_part, has_prefix, is_digit, is_last_at, is_plain,
    is_white, join, joined, last_at, lower_ascii_chars, occurs_at, parse_u32, quoted, rfind_text,
    same_text, starts_with, text_between, trim, trimmed, u32_value, views, words, words_of,
};

verus! {

/// The commands that only change the interface.
#[derive(Clone, Copy, Debug, PartialEq, Eq, Structural)]
pub enum SyncCommand {
    Help,
    Clear,
    Cost,
    Model,
    Status,
    Tools,
    Journal,
    Permissions,
    AddDir,
    Exit,
    Resume,
    Theme,
}

/// The commands that ask something of the agent worker.
#[derive(Clone, Copy, Debug, PartialEq, Eq, Structural)]
pub enum AsyncCommand {
    Compact,
    Plan,
    Goal,
    Mcp,
    Loop,
}

/// What runs a command.
#[derive(Clone, Copy, Debug, PartialEq, Eq, Structural)]
pub enum CommandHandler {
    Sync(SyncCommand),
    Async(AsyncCommand),
}

/// What the interface does next after a command that only changes it.
#[derive(Clone, Debug)]
pub enum CommandOutcome {
    /// Nothing.
    Done,
    /// Show an error.
    Error(String),
    /// Put a dialog on top.
    OpenModal(Modal),
    /// Open an interactive panel.
    OpenPanel(CommandPanelState),
}

/// One built-in command.
#[derive(Clone, Copy, Debug)]
pub struct CommandSpec {
    pub name: &'static str,
    pub aliases: &'static [&'static str],
    pub summary: &'static str,
    pub usage: &'static str,
    pub handler: CommandHandler,
}

/// Whether one of the aliases is `name`.
pub open spec fn is_alias(aliases: Seq<&'static str>, name: Seq<char>) -> bool {
    exists|i: int| 0 <= i < aliases.len() && (#[trigger] aliases[i])@ == name
}

impl CommandSpec {
    /// Whether the command goes by `name`, as its own name or as an alias.
    pub open spec fn answers_to(self, name: Seq<char>) -> bool {
        self.name@ == name || is_alias(self.aliases@, name)
    }

    /// Whether the name or an alias of the command starts with `prefix`.
    pub open spec fn begins_with(self, prefix: Seq<char>) -> bool {
        ||| has_prefix(self.name@, prefix)
        ||| exists|i: int|
            0 <= i < self.aliases@.len() && has_prefix((#[trigger] self.aliases@[i])@, prefix)
    }

    /// Whether the name or an alias of the command starts with `prefix`.
    pub fn starts(&self, prefix: &str) -> (r: bool)
        ensures
            r == self.begins_with(prefix@),
    {
        if starts_with(self.name, prefix) {
            return true;
        }
        let mut i: usize = 0;
        while i < self.aliases.len()
            invariant
                i <= self.aliases@.len(),
                forall|j: int|
                    0 <= j < i ==> !has_prefix((#[trigger] self.aliases@[j])@, prefix@),
            decreases self.aliases@.len() - i,
        {
            if starts_with(self.aliases[i], prefix) {
                return true;
            }
            i += 1;
        }
        false
    }

    /// Whether the command goes by `name`.
    pub fn matches(&self, name: &str) -> (r: bool)
        ensures
            r == self.answers_to(name@),
    {
        if same_text(self.name, name) {
            return true;
        }
        let mut i: usize = 0;
        while i < self.aliases.len()
            invariant
                i <= self.aliases@.len(),
                forall|j: int| 0 <= j < i ==> (#[trigger] self.aliases@[j])@ != name@,
            decreases self.aliases@.len() - i,
        {
            if same_text(self.aliases[i], name) {
                return true;
            }
            i += 1;
        }
        false
    }
}

/// The text form of a command, given its parts as they are shown. What runs the
/// command is not shown.
pub open spec fn spec_text(
    name: Seq<char>,
    aliases: Seq<Seq<char>>,
    summary: Seq<char>,
    usage: Seq<char>,
) -> Seq<char> {
    ("CommandSpec { name: "@ + name + ", aliases: ["@ + joined(aliases, ", "@))
        + "], summary: "@ + summary + ", usage: "@ + usage + ", handler: \"<fn>\" }"@
}

/// The text form of a command, given its parts as they are shown.
pub fn write_spec(name: &str, aliases: &Vec<String>, summary: &str, usage: &str) -> (r: String)
    ensures
        r@ == spec_text(name@, views(aliases@), summary@, usage@),
{
    let listed: String = join(aliases, ", ");
    let head: String = concat4("CommandSpec { name: ", name, ", aliases: [", listed.as_str());
    let body: String = concat5(head.as_str(), "], summary: ", summary, ", usage: ", usage);
    concat2(body.as_str(), ", handler: \"<fn>\" }")
}

/// Whether every text of a command is made of plain characters only.
pub open spec fn is_plain_command(c: CommandModel) -> bool {
    &&& is_plain(c.name)
    &&& is_plain(c.summary)
    &&& is_plain(c.usage)
    &&& forall|i: int| 0 <= i < c.aliases.len() ==> is_plain(#[trigger] c.aliases[i])
}

impl CommandSpec {
    /// The text form of the command, with each of its texts as the `Debug`
    /// format shows it. What runs the command is not shown.
    pub fn debug_text(&self) -> (r: String)
        ensures
            r@ == spec_text(
                debug_of(self@.name),
                self@.aliases.map_values(|a: Seq<char>| debug_of(a)),
                debug_of(self@.summary),
                debug_of(self@.usage),
            ),
            is_plain_command(self@) ==> r@ == spec_text(
                quoted(self@.name),
                self@.aliases.map_values(|a: Seq<char>| quoted(a)),
                quoted(self@.summary),
                quoted(self@.usage),
            ),
    {
        let mut aliases: Vec<String> = Vec::new();
        let mut i: usize = 0;
        while i < self.aliases.len()
            invariant
                i <= self.aliases@.len(),
                aliases@.len() == i,
                forall|j: int|
                    0 <= j < i ==> (#[trigger] aliases@[j])@ == debug_of(self.aliases@[j]@) && (
                    is_plain(self.aliases@[j]@) ==> aliases@[j]@ == quoted(self.aliases@[j]@)),
            decreases self.aliases@.len() - i,
        {
            aliases.push(debug_form(self.aliases[i]));
            i += 1;
        }
        proof {
            let shown = views(aliases@);
            assert(shown =~= self@.aliases.map_values(|a: Seq<char>| debug_of(a)));
            if is_plain_command(self@) {
                assert forall|j: int| 0 <= j < shown.len() implies #[trigger] shown[j] == quoted(
                    self@.aliases[j],
                ) by {
                    assert(self@.aliases[j] == self.aliases@[j]@);
                    assert(is_plain(self@.aliases[j]));
                }
                assert(shown =~= self@.aliases.map_values(|a: Seq<char>| quoted(a)));
            }
        }
        let name: String = debug_form(self.name);
        let summary: String = debug_form(self.summary);
        let usage: String = debug_form(self.usage);
        write_spec(name.as_str(), &aliases, summary.as_str(), usage.as_str())
    }
}

/// The model of a built-in command.
pub struct CommandModel {
    pub name: Seq<char>,
    pub aliases: Seq<Seq<char>>,
    pub summary: Seq<char>,
    pub usage: Seq<char>,
    pub handler: CommandHandler,
}

impl View for CommandSpec {
    type V = CommandModel;

    open spec fn view(&self) -> CommandModel {
        CommandModel {
            name: self.name@,
            aliases: self.aliases@.map_values(|a: &'static str| a@),
            summary: self.summary@,
            usage: self.usage@,
            handler: self.handler,
        }
    }
}

/// The built-in commands.
pub open spec fn builtin_commands() -> Seq<CommandModel> {
    seq![
        CommandModel {
            name: "help"@,
            aliases: seq!["?"@],
            summary: "Show commands & key bindings"@,
            usage: "/help"@,
            handler: CommandHandler::Sync(SyncCommand::Help),
        },
        CommandModel {
            name: "clear"@,
            aliases: seq!["cls"@],
            summary: "Clear conversation transcript"@,
            usage: "/clear"@,
            handler: CommandHandler::Sync(SyncCommand::Clear),
        },
        CommandModel {
            name: "compact"@,
            aliases: seq![],
            summary: "Compact the transcript"@,
            usage: "/compact"@,
            handler: CommandHandler::Async(AsyncCommand::Compact),
        },
        CommandModel {
            name: "cost"@,
            aliases: seq![],
            summary: "Show token & cost detail"@,
            usage: "/cost"@,
            handler: CommandHandler::Sync(SyncCommand::Cost),
        },
        CommandModel {
            name: "model"@,
            aliases: seq![],
            summary: "Show current model"@,
            usage: "/model"@,
            handler: CommandHandler::Sync(SyncCommand::Model),
        },
        CommandModel {
            name: "status"@,
            aliases: seq![],
            summary: "Print runtime status"@,
            usage: "/status"@,
            handler: CommandHandler::Sync(SyncCommand::Status),
        },
        CommandModel {
            name: "tools"@,
            aliases: seq![],
            summary: "List available tools"@,
            usage: "/tools"@,
            handler: CommandHandler::Sync(SyncCommand::Tools),
        },
        CommandModel {
            name: "plan"@,
            aliases: seq![],
            summary: "Toggle planning mode (/plan on|off)"@,
            usage: "/plan on|off"@,
            handler: CommandHandler::Async(AsyncCommand::Plan),
        },
        CommandModel {
            name: "journal"@,
            aliases: seq![],
            summary: "Show recent .dev/journal entries"@,
            usage: "/journal"@,
            handler: CommandHandler::Sync(SyncCommand::Journal),
        },
        CommandModel {
            name: "permissions"@,
            aliases: seq!["perm"@],
            summary: "Toggle runtime permission hook (/permissions on|off)"@,
            usage: "/permissions on|off"@,
            handler: CommandHandler::Sync(SyncCommand::Permissions),
        },
        CommandModel {
            name: "add-dir"@,
            aliases: seq!["adddir"@],
            summary: "Grant the agent access to an extra directory"@,
            usage: "/add-dir <path> [--ro]"@,
            handler: CommandHandler::Sync(SyncCommand::AddDir),
        },
        CommandModel {
            name: "exit"@,
            aliases: seq!["quit"@, "q"@],
            summary: "Quit the TUI"@,
            usage: "/exit"@,
            handler: CommandHandler::Sync(SyncCommand::Exit),
        },
        CommandModel {
            name: "goal"@,
            aliases: seq![],
            summary: "Autonomous loop until condition met"@,
            usage: "/goal <cond> [or stop after N turns] | /goal | /goal clear"@,
            handler: CommandHandler::Async(AsyncCommand::Goal),
        },
        CommandModel {
            name: "resume"@,
            aliases: seq!["r"@],
            summary: "Pick a previous conversation to continue"@,
            usage: "/resume"@,
            handler: CommandHandler::Sync(SyncCommand::Resume),
        },
        CommandModel {
            name: "mcp"@,
            aliases: seq![],
            summary: "List configured MCP servers"@,
            usage: "/mcp"@,
            handler: CommandHandler::Async(AsyncCommand::Mcp),
        },
        CommandModel {
            name: "theme"@,
            aliases: seq![],
            summary: "Switch colour theme (dark / light / solarized)"@,
            usage: "/theme <name>"@,
            handler: CommandHandler::Sync(SyncCommand::Theme),
        },
        CommandModel {
            name: "loop"@,
            aliases: seq![],
            summary: "Event-driven loop: /loop <goal> | /loop supervise <cmd> | /loop stop"@,
            usage: "/loop <natural-language goal>  (default: start an unlimited loop)\n  /loop start <goal> [max N]   (explicit start with optional turn cap)\n  /loop supervise <command...> (start + inject the monitor SOP)\n  /loop trigger <text>         (inject a one-shot prompt into the active loop)\n  /loop stop                   (stop the active loop)\nThe agent can also stop the loop itself via the `stop_loop` tool, so you can say \"stop\" in plain text."@,
            handler: CommandHandler::Async(AsyncCommand::Loop),
        },
    ]
}

/// The slash commands that the interface knows: the built-in ones and those
/// made from skills.
#[derive(Clone, Debug)]
pub struct CommandRegistry {
    commands: Vec<CommandSpec>,
    skill_commands: Vec<SkillCommand>,
}

impl CommandRegistry {
    /// The built-in commands.
    pub closed spec fn builtins(self) -> Seq<CommandSpec> {
        self.commands@
    }

    /// The commands made from skills.
    pub closed spec fn skills(self) -> Seq<SkillCommand> {
        self.skill_commands@
    }

    /// The registry of the built-in commands.
    pub fn default_set() -> (r: CommandRegistry)
        ensures
            r.builtins().map_values(|c: CommandSpec| c@) == builtin_commands(),
            r.skills().len() == 0,
    {
        let mut commands: Vec<CommandSpec> = Vec::new();
        commands.push(
            CommandSpec {
                name: "help",
                aliases: &["?"],
                summary: "Show commands & key bindings",
                usage: "/help",
                handler: CommandHandler::Sync(SyncCommand::Help),
            },
        );
        commands.push(
            CommandSpec {
                name: "clear",
                aliases: &["cls"],
                summary: "Clear conversation transcript",
                usage: "/clear",
                handler: CommandHandler::Sync(SyncCommand::Clear),
            },
        );
        commands.push(
            CommandSpec {
                name: "compact",
                aliases: &[],
                summary: "Compact the transcript",
                usage: "/compact",
                handler: CommandHandler::Async(AsyncCommand::Compact),
            },
        );
        commands.push(
            CommandSpec {
                name: "cost",
                aliases: &[],
                summary: "Show token & cost detail",
                usage: "/cost",
                handler: CommandHandler::Sync(SyncCommand::Cost),
            },
        );
        commands.push(
            CommandSpec {
                name: "model",
                aliases: &[],
                summary: "Show current model",
                usage: "/model",
                handler: CommandHandler::Sync(SyncCommand::Model),
            },
        );
        commands.push(
            CommandSpec {
                name: "status",
                aliases: &[],
                summary: "Print runtime status",
                usage: "/status",
                handler: CommandHandler::Sync(SyncCommand::Status),
            },
        );
        commands.push(
            CommandSpec {
                name: "tools",
                aliases: &[],
                summary: "List available tools",
                usage: "/tools",
                handler: CommandHandler::Sync(SyncCommand::Tools),
            },
        );
        commands.push(
            CommandSpec {
                name: "plan",
                aliases: &[],
                summary: "Toggle planning mode (/plan on|off)",
                usage: "/plan on|off",
                handler: CommandHandler::Async(AsyncCommand::Plan),
            },
        );
        commands.push(
            CommandSpec {
                name: "journal",
                aliases: &[],
                summary: "Show recent .dev/journal entries",
                usage: "/journal",
                handler: CommandHandler::Sync(SyncCommand::Journal),
            },
        );
        commands.push(
            CommandSpec {
                name: "permissions",
                aliases: &["perm"],
                summary: "Toggle runtime permission hook (/permissions on|off)",
                usage: "/permissions on|off",
                handler: CommandHandler::Sync(SyncCommand::Permissions),
            },
        );
        commands.push(
            CommandSpec {
                name: "add-dir",
                aliases: &["adddir"],
                summary: "Grant the agent access to an extra directory",
                usage: "/add-dir <path> [--ro]",
                handler: CommandHandler::Sync(SyncCommand::AddDir),
            },
        );
        commands.push(
            CommandSpec {
                name: "exit",
                aliases: &["quit", "q"],
                summary: "Quit the TUI",
                usage: "/exit",
                handler: CommandHandler::Sync(SyncCommand::Exit),
            },
        );
        commands.push(
            CommandSpec {
                name: "goal",
                aliases: &[],
                summary: "Autonomous loop until condition met",
                usage: "/goal <cond> [or stop after N turns] | /goal | /goal clear",
                handler: CommandHandler::Async(AsyncCommand::Goal),
            },
        );
        commands.push(
            CommandSpec {
                name: "resume",
                aliases: &["r"],
                summary: "Pick a previous conversation to continue",
                usage: "/resume",
                handler: CommandHandler::Sync(SyncCommand::Resume),
            },
        );
        commands.push(
            CommandSpec {
                name: "mcp",
                aliases: &[],
                summary: "List configured MCP servers",
                usage: "/mcp",
                handler: CommandHandler::Async(AsyncCommand::Mcp),
            },
        );
        commands.push(
            CommandSpec {
                name: "theme",
                aliases: &[],
                summary: "Switch colour theme (dark / light / solarized)",
                usage: "/theme <name>",
                handler: CommandHandler::Sync(SyncCommand::Theme),
            },
        );
        commands.push(
            CommandSpec {
                name: "loop",
                aliases: &[],
                summary: "Event-driven loop: /loop <goal> | /loop supervise <cmd> | /loop stop",
                usage: "/loop <natural-language goal>  (default: start an unlimited loop)\n  /loop start <goal> [max N]   (explicit start with optional turn cap)\n  /loop supervise <command...> (start + inject the monitor SOP)\n  /loop trigger <text>         (inject a one-shot prompt into the active loop)\n  /loop stop                   (stop the active loop)\nThe agent can also stop the loop itself via the `stop_loop` tool, so you can say \"stop\" in plain text.",
                handler: CommandHandler::Async(AsyncCommand::Loop),
            },
        );
        proof {
            let models = commands@.map_values(|c: CommandSpec| c@);
            let table = builtin_commands();
            assert(models.len() == table.len());
            assert forall|i: int| 0 <= i < models.len() implies models[i] == table[i] by {
                assert(models[i].aliases =~= table[i].aliases);
            }
            assert(models =~= table);
        }
        CommandRegistry { commands, skill_commands: Vec::new() }
    }

    /// The registry with these skill commands beside the built-in ones.
    pub fn with_skill_commands(self, skills: Vec<SkillCommand>) -> (r: CommandRegistry)
        ensures
            r.builtins() == self.builtins(),
            r.skills() == skills@,
    {
        CommandRegistry { commands: self.commands, skill_commands: skills }
    }

    /// Replaces the skill commands.
    pub fn set_skill_commands(&mut self, skills: Vec<SkillCommand>)
        ensures
            final(self).builtins() == old(self).builtins(),
            final(self).skills() == skills@,
    {
        self.skill_commands = skills;
    }

    /// The skill commands.
    pub fn skill_commands(&self) -> (r: &[SkillCommand])
        ensures
            r@ == self.skills(),
    {
        self.skill_commands.as_slice()
    }

    /// The built-in commands.
    pub fn commands(&self) -> (r: &[CommandSpec])
        ensures
            r@ == self.builtins(),
    {
        self.commands.as_slice()
    }

    /// Whether some built-in command goes by `name`.
    pub open spec fn knows(self, name: Seq<char>) -> bool {
        exists|i: int| 0 <= i < self.builtins().len() && (#[trigger] self.builtins()[i]).answers_to(
            name,
        )
    }

    /// Looks a built-in command up by its name or by an alias; the name comes
    /// without the leading slash.
    pub fn lookup(&self, name: &str) -> (r: Option<&CommandSpec>)
        ensures
            r is Some <==> self.knows(name@),
            r matches Some(c) ==> is_first_command(self.builtins(), name@, *c),
    {
        let mut i: usize = 0;
        while i < self.commands.len()
            invariant
                i <= self.commands@.len(),
                forall|j: int|
                    0 <= j < i ==> !(#[trigger] self.commands@[j]).answers_to(name@),
            decreases self.commands@.len() - i,
        {
            if self.commands[i].matches(name) {
                proof {
                    assert(self.builtins()[i as int].answers_to(name@));
                }
                return Some(&self.commands[i]);
            }
            i += 1;
        }
        None
    }

    /// Looks a skill command up by its name or by an alias. A name that a
    /// built-in command goes by never leads to a skill.
    pub fn lookup_skill(&self, name: &str) -> (r: Option<&SkillCommand>)
        ensures
            r is Some <==> !self.knows(name@) && exists|i: int|
                0 <= i < self.skills().len() && (#[trigger] self.skills()[i]).answers_to(name@),
            r matches Some(c) ==> is_first_skill(self.skills(), name@, *c),
    {
        if self.lookup(name).is_some() {
            return None;
        }
        let mut i: usize = 0;
        while i < self.skill_commands.len()
            invariant
                i <= self.skill_commands@.len(),
                forall|j: int|
                    0 <= j < i ==> !(#[trigger] self.skill_commands@[j]).answers_to(name@),
                !self.knows(name@),
            decreases self.skill_commands@.len() - i,
        {
            if self.skill_commands[i].matches(name) {
                proof {
                    assert(self.skills()[i as int].answers_to(name@));
                }
                return Some(&self.skill_commands[i]);
            }
            i += 1;
        }
        None
    }

    /// The built-in commands whose name or an alias starts with `prefix`, in
    /// alphabetical order of their names. Leading slashes do not count.
    pub fn search(&self, prefix: &str) -> (r: Vec<&CommandSpec>)
        ensures
            lists_in_order(self.command_hits(prefix@), command_keys(self.command_hits(prefix@)), r@),
    {
        let p: String = without_slashes(prefix);
        let mut hits: Vec<&CommandSpec> = Vec::new();
        let mut keys: Vec<String> = Vec::new();
        let ghost wanted = |c: CommandSpec| c.begins_with(unslashed(prefix@));
        let mut i: usize = 0;
        while i < self.commands.len()
            invariant
                i <= self.commands@.len(),
                p@ == unslashed(prefix@),
                wanted == (|c: CommandSpec| c.begins_with(unslashed(prefix@))),
                hits@.len() == keys@.len(),
                hits@.map_values(|c: &CommandSpec| *c) == self.commands@.take(i as int).filter(
                    wanted,
                ),
                forall|j: int| 0 <= j < hits@.len() ==> (#[trigger] keys@[j])@ == hits@[j].name@,
            decreases self.commands@.len() - i,
        {
            proof {
                let next = self.commands@.take(i + 1);
                assert(next.drop_last() == self.commands@.take(i as int));
                reveal(Seq::filter);
            }
            let ghost before = hits@;
            if self.commands[i].starts(p.as_str()) {
                hits.push(&self.commands[i]);
                keys.push(self.commands[i].name.to_owned());
                proof {
                    assert(hits@.map_values(|c: &CommandSpec| *c) =~= before.map_values(
                        |c: &CommandSpec| *c,
                    ).push(self.commands@[i as int]));
                }
            }
            i += 1;
        }
        let order: Vec<usize> = sort_order(&keys);
        proof {
            assert(self.commands@.take(i as int) == self.commands@);
            assert(views(keys@) =~= command_keys(self.command_hits(prefix@)));
        }
        pick(&hits, &order, Ghost(self.command_hits(prefix@)))
    }

    /// The skill commands whose name or an alias starts with `prefix`, in
    /// alphabetical order of their names. Leading slashes do not count.
    pub fn search_skills(&self, prefix: &str) -> (r: Vec<&SkillCommand>)
        ensures
            lists_in_order(self.skill_hits(prefix@), skill_keys(self.skill_hits(prefix@)), r@),
    {
        let p: String = without_slashes(prefix);
        let mut hits: Vec<&SkillCommand> = Vec::new();
        let mut keys: Vec<String> = Vec::new();
        let ghost wanted = |c: SkillCommand| c.begins_with(unslashed(prefix@));
        let mut i: usize = 0;
        while i < self.skill_commands.len()
            invariant
                i <= self.skill_commands@.len(),
                p@ == unslashed(prefix@),
                wanted == (|c: SkillCommand| c.begins_with(unslashed(prefix@))),
                hits@.len() == keys@.len(),
                hits@.map_values(|c: &SkillCommand| *c) == self.skill_commands@.take(
                    i as int,
                ).filter(wanted),
                forall|j: int| 0 <= j < hits@.len() ==> (#[trigger] keys@[j])@ == hits@[j].name@,
            decreases self.skill_commands@.len() - i,
        {
            proof {
                let next = self.skill_commands@.take(i + 1);
                assert(next.drop_last() == self.skill_commands@.take(i as int));
                reveal(Seq::filter);
            }
            let ghost before = hits@;
            if self.skill_commands[i].starts(p.as_str()) {
                hits.push(&self.skill_commands[i]);
                keys.push(self.skill_commands[i].name.clone());
                proof {
                    assert(hits@.map_values(|c: &SkillCommand| *c) =~= before.map_values(
                        |c: &SkillCommand| *c,
                    ).push(self.skill_commands@[i as int]));
                }
            }
            i += 1;
        }
        let order: Vec<usize> = sort_order(&keys);
        proof {
            assert(self.skill_commands@.take(i as int) == self.skill_commands@);
            assert(views(keys@) =~= skill_keys(self.skill_hits(prefix@)));
        }
        pick(&hits, &order, Ghost(self.skill_hits(prefix@)))
    }

    /// The built-in commands that a search for `prefix` finds.
    pub open spec fn command_hits(self, prefix: Seq<char>) -> Seq<CommandSpec> {
        self.builtins().filter(|c: CommandSpec| c.begins_with(unslashed(prefix)))
    }

    /// The skill commands that a search for `prefix` finds.
    pub open spec fn skill_hits(self, prefix: Seq<char>) -> Seq<SkillCommand> {
        self.skills().filter(|c: SkillCommand| c.begins_with(unslashed(prefix)))
    }
}

impl Default for CommandRegistry {
    fn default() -> (r: CommandRegistry)
        ensures
            r.builtins().map_values(|c: CommandSpec| c@) == builtin_commands(),
            r.skills().len() == 0,
    {
        CommandRegistry::default_set()
    }
}

/// Whether `c` is the first of the commands that goes by `name`.
pub open spec fn is_first_command(cs: Seq<CommandSpec>, name: Seq<char>, c: CommandSpec) -> bool {
    exists|i: int|
        0 <= i < cs.len() && (#[trigger] cs[i]) == c && c.answers_to(name) && forall|j: int|
            0 <= j < i ==> !(#[trigger] cs[j]).answers_to(name)
}

/// Whether `c` is the first of the skills that goes by `name`.
pub open spec fn is_first_skill(cs: Seq<SkillCommand>, name: Seq<char>, c: SkillCommand) -> bool {
    exists|i: int|
        0 <= i < cs.len() && (#[trigger] cs[i]) == c && c.answers_to(name) && forall|j: int|
            0 <= j < i ==> !(#[trigger] cs[j]).answers_to(name)
}

/// The names of the commands.
pub open spec fn command_keys(cs: Seq<CommandSpec>) -> Seq<Seq<char>> {
    cs.map_values(|c: CommandSpec| c.name@)
}

/// The names of the skills.
pub open spec fn skill_keys(cs: Seq<SkillCommand>) -> Seq<Seq<char>> {
    cs.map_values(|c: SkillCommand| c.name@)
}

/// Whether `r` lists the items in the stable alphabetical order of their keys.
pub open spec fn lists_in_order<T>(items: Seq<T>, keys: Seq<Seq<char>>, r: Seq<&T>) -> bool {
    exists|order: Seq<usize>| #[trigger]
        is_sort_order(keys, order) && r.len() == order.len() && forall|i: int|
            0 <= i < r.len() ==> *(#[trigger] r[i]) == items[order[i] as int]
}

/// The items in the given order.
fn pick<'a, T>(hits: &Vec<&'a T>, order: &Vec<usize>, Ghost(items): Ghost<Seq<T>>) -> (r: Vec<&'a T>)
    requires
        hits@.map_values(|c: &T| *c) == items,
        forall|i: int| 0 <= i < order@.len() ==> (#[trigger] order@[i]) < hits@.len(),
    ensures
        r@.len() == order@.len(),
        forall|i: int| 0 <= i < r@.len() ==> *(#[trigger] r@[i]) == items[order@[i] as int],
{
    let mut out: Vec<&'a T> = Vec::new();
    let mut i: usize = 0;
    while i < order.len()
        invariant
            i <= order@.len(),
            out@.len() == i,
            hits@.map_values(|c: &T| *c) == items,
            forall|j: int| 0 <= j < order@.len() ==> (#[trigger] order@[j]) < hits@.len(),
            forall|j: int| 0 <= j < i ==> *(#[trigger] out@[j]) == items[order@[j] as int],
        decreases order@.len() - i,
    {
        let hit: &'a T = hits[order[i]];
        proof {
            assert(hits@.map_values(|c: &T| *c)[order@[i as int] as int] == *hit);
        }
        out.push(hit);
        i += 1;
    }
    out
}

/// A text without the slashes at its start.
pub open spec fn unslashed(s: Seq<char>) -> Seq<char>
    decreases s.len(),
{
    if s.len() > 0 && s[0] == '/' {
        unslashed(s.skip(1))
    } else {
        s
    }
}

fn without_slashes(s: &str) -> (r: String)
    ensures
        r@ == unslashed(s@),
{
    let v: Vec<char> = chars_of(s);
    let mut i: usize = 0;
    proof {
        assert(v@.skip(0) == v@);
    }
    while i < v.len() && v[i] == '/'
        invariant
            i <= v@.len(),
            v@ == s@,
            unslashed(v@.skip(i as int)) == unslashed(s@),
        decreases v@.len() - i,
    {
        proof {
            assert(v@.skip(i as int).skip(1) == v@.skip(i + 1));
        }
        i += 1;
    }
    proof {
        assert(v@.subrange(i as int, v@.len() as int) == v@.skip(i as int));
    }
    text_between(&v, i, v.len())
}

impl SkillCommand {
    /// Whether the skill goes by `name`, as its own name or as an alias.
    pub open spec fn answers_to(self, name: Seq<char>) -> bool {
        self.name@ == name || exists|i: int|
            0 <= i < self.aliases@.len() && (#[trigger] self.aliases@[i])@ == name
    }

    /// Whether the name or an alias of the skill starts with `prefix`.
    pub open spec fn begins_with(self, prefix: Seq<char>) -> bool {
        ||| has_prefix(self.name@, prefix)
        ||| exists|i: int|
            0 <= i < self.aliases@.len() && has_prefix((#[trigger] self.aliases@[i])@, prefix)
    }

    /// Whether the skill goes by `name`.
    pub fn matches(&self, name: &str) -> (r: bool)
        ensures
            r == self.answers_to(name@),
    {
        if same_text(self.name.as_str(), name) {
            return true;
        }
        let mut i: usize = 0;
        while i < self.aliases.len()
            invariant
                i <= self.aliases@.len(),
                forall|j: int| 0 <= j < i ==> (#[trigger] self.aliases@[j])@ != name@,
            decreases self.aliases@.len() - i,
        {
            if same_text(self.aliases[i].as_str(), name) {
                return true;
            }
            i += 1;
        }
        false
    }

    /// Whether the name or an alias of the skill starts with `prefix`.
    pub fn starts(&self, prefix: &str) -> (r: bool)
        ensures
            r == self.begins_with(prefix@),
    {
        if starts_with(self.name.as_str(), prefix) {
            return true;
        }
        let mut i: usize = 0;
        while i < self.aliases.len()
            invariant
                i <= self.aliases@.len(),
                forall|j: int|
                    0 <= j < i ==> !has_prefix((#[trigger] self.aliases@[j])@, prefix@),
            decreases self.aliases@.len() - i,
        {
            if starts_with(self.aliases[i].as_str(), prefix) {
                return true;
            }
            i += 1;
        }
        false
    }
}

/// A search without a prefix finds every built-in command.
pub proof fn empty_prefix_finds_all(r: CommandRegistry)
    ensures
        r.command_hits(seq![]) == r.builtins(),
{
    let wanted = |c: CommandSpec| c.begins_with(unslashed(seq![]));
    assert forall|i: int| 0 <= i < r.builtins().len() implies #[trigger] wanted(
        r.builtins()[i],
    ) by {
        let name = r.builtins()[i].name@;
        assert(name.subrange(0, 0) =~= seq![]);
        assert(has_prefix(name, seq![]));
    }
    filter_keeps_all(r.builtins(), wanted);
}

proof fn filter_keeps_all<T>(s: Seq<T>, keep: spec_fn(T) -> bool)
    requires
        forall|i: int| 0 <= i < s.len() ==> #[trigger] keep(s[i]),
    ensures
        s.filter(keep) == s,
    decreases s.len(),
{
    reveal(Seq::filter);
    if s.len() > 0 {
        let front = s.drop_last();
        assert forall|i: int| 0 <= i < front.len() implies #[trigger] keep(front[i]) by {
            assert(front[i] == s[i]);
        }
        filter_keeps_all(front, keep);
        assert(keep(s[s.len() - 1]));
        assert(front.push(s.last()) =~= s);
    }
}

// ---------------------------------------------------------------------------
// Arguments of `/loop start` and `/goal`
// ---------------------------------------------------------------------------

/// The number that a text starts with, once white space is left out, or else
/// `fallback`.
pub open spec fn leading_number(s: Seq<char>, fallback: u32) -> u32 {
    if words(s).len() > 0 {
        match u32_value(words(s)[0]) {
            Some(n) => n,
            None => fallback,
        }
    } else {
        fallback
    }
}

/// A text split at the last `marker` that it holds in whatever letter case:
/// the trimmed text before the marker, and the number behind it. A text
/// without the marker stands for itself, and the number is `fallback`, as it is
/// where no number stands behind the marker.
pub open spec fn split_at_marker(raw: Seq<char>, marker: Seq<char>, fallback: u32) -> (
    Seq<char>,
    u32,
) {
    let lower = ascii_lowered(raw);
    if has_part(lower, marker) {
        let at = last_at(lower, marker);
        (trim(raw.take(at)), leading_number(raw.skip(at + marker.len()), fallback))
    } else {
        (trim(raw), fallback)
    }
}

fn split_marker(raw: &str, marker: &str, fallback: u32) -> (r: (String, u32))
    ensures
        (r.0@, r.1) == split_at_marker(raw@, marker@, fallback),
{
    let v: Vec<char> = chars_of(raw);
    let n: usize = v.len();
    let lower: Vec<char> = lower_ascii_chars(&v);
    let m: Vec<char> = chars_of(marker);
    match rfind_text(&lower, &m) {
        Some(at) => {
            proof {
                assert(v@.subrange(0, at as int) == v@.take(at as int));
                assert(v@.subrange(at + m@.len(), n as int) == v@.skip(at + m@.len()));
            }
            let head: Vec<char> = chars_of(text_between(&v, 0, at).as_str());
            let tail: String = text_between(&v, at + m.len(), n);
            let ws: Vec<String> = words_of(tail.as_str());
            let mut number: u32 = fallback;
            if ws.len() > 0 {
                proof {
                    assert(words(tail@)[0] == ws@[0]@);
                }
                if let Some(x) = parse_u32(ws[0].as_str()) {
                    number = x;
                }
            }
            proof {
                assert(words(tail@).len() == ws@.len());
            }
            (trimmed(&head), number)
        },
        None => (trimmed(&v), fallback),
    }
}

/// Reads `<goal> [max N]`. Without a limit, or with one that is no number, the
/// limit is 0: none.
pub fn parse_loop_start_args(raw: &str) -> (r: (String, u32))
    ensures
        (r.0@, r.1) == split_at_marker(raw@, " max "@, 0),
{
    split_marker(raw, " max ", 0)
}

/// Reads `<condition> [or stop after N turns]`. Without a limit, or with one
/// that is no number, the limit is 20 turns.
pub fn parse_goal_args(raw: &str) -> (r: (String, u32))
    ensures
        (r.0@, r.1) == split_at_marker(raw@, " or stop after "@, 20),
{
    split_marker(raw, " or stop after ", 20)
}

// ---------------------------------------------------------------------------
// Laws
// ---------------------------------------------------------------------------

/// Whether a command goes by `name`, as its own name or as an alias.
pub open spec fn goes_by(c: CommandModel, name: Seq<char>) -> bool {
    c.name == name || c.aliases.contains(name)
}

/// A number that tells the names of the built-in commands apart: it is made of
/// the length and the first two characters.
spec fn name_code(s: Seq<char>) -> int {
    s.len() * 1_000_000 + s[0] as int * 1_000 + if s.len() > 1 {
        s[1] as int
    } else {
        0
    }
}

/// Which built-in command has a name with this number.
spec fn owner(code: int) -> int {
    if code == 4_104_101 || code == 1_063_000 {
        0
    } else if code == 5_099_108 || code == 3_099_108 {
        1
    } else if code == 7_099_111 {
        2
    } else if code == 4_099_111 {
        3
    } else if code == 5_109_111 {
        4
    } else if code == 6_115_116 {
        5
    } else if code == 5_116_111 {
        6
    } else if code == 4_112_108 {
        7
    } else if code == 7_106_111 {
        8
    } else if code == 11_112_101 || code == 4_112_101 {
        9
    } else if code == 7_097_100 || code == 6_097_100 {
        10
    } else if code == 4_101_120 || code == 4_113_117 || code == 1_113_000 {
        11
    } else if code == 4_103_111 {
        12
    } else if code == 6_114_101 || code == 1_114_000 {
        13
    } else if code == 3_109_099 {
        14
    } else if code == 5_116_104 {
        15
    } else if code == 4_108_111 {
        16
    } else {
        -1
    }
}

proof fn name_leads_to_its_owner(i: int, name: Seq<char>)
    requires
        0 <= i < builtin_commands().len(),
        goes_by(builtin_commands()[i], name),
    ensures
        owner(name_code(name)) == i,
{
    reveal_strlit("help");
    reveal_strlit("?");
    reveal_strlit("clear");
    reveal_strlit("cls");
    reveal_strlit("compact");
    reveal_strlit("cost");
    reveal_strlit("model");
    reveal_strlit("status");
    reveal_strlit("tools");
    reveal_strlit("plan");
    reveal_strlit("journal");
    reveal_strlit("permissions");
    reveal_strlit("perm");
    reveal_strlit("add-dir");
    reveal_strlit("adddir");
    reveal_strlit("exit");
    reveal_strlit("quit");
    reveal_strlit("q");
    reveal_strlit("goal");
    reveal_strlit("resume");
    reveal_strlit("r");
    reveal_strlit("mcp");
    reveal_strlit("theme");
    reveal_strlit("loop");
    let c = builtin_commands()[i];
    if c.name != name {
        let k = choose|k: int| 0 <= k < c.aliases.len() && c.aliases[k] == name;
        assert(c.aliases[k] == name);
    }
}

/// No two built-in commands share a name: whatever is typed, at most one of them
/// goes by it.
pub proof fn builtins_share_no_name(i: int, j: int, name: Seq<char>)
    requires
        0 <= i < builtin_commands().len(),
        0 <= j < builtin_commands().len(),
        goes_by(builtin_commands()[i], name),
        goes_by(builtin_commands()[j], name),
    ensures
        i == j,
{
    name_leads_to_its_owner(i, name);
    name_leads_to_its_owner(j, name);
}

proof fn prefix_without_slashes(p: Seq<char>, q: Seq<char>)
    requires
        has_prefix(q, p),
    ensures
        has_prefix(unslashed(q), unslashed(p)),
    decreases p.len(),
{
    assert(q.subrange(0, p.len() as int) == p);
    if p.len() == 0 {
        assert(unslashed(q).subrange(0, 0) =~= unslashed(p));
    } else {
        assert(q[0] == q.subrange(0, p.len() as int)[0]);
        if p[0] == '/' {
            assert(q.skip(1).subrange(0, p.len() - 1) =~= p.skip(1)) by {
                assert forall|k: int| 0 <= k < p.len() - 1 implies q.skip(1)[k] == p.skip(1)[k] by {
                    assert(q.subrange(0, p.len() as int)[k + 1] == p[k + 1]);
                }
            }
            prefix_without_slashes(p.skip(1), q.skip(1));
        }
    }
}

proof fn prefix_of_prefix(s: Seq<char>, p: Seq<char>, q: Seq<char>)
    requires
        has_prefix(q, p),
        has_prefix(s, q),
    ensures
        has_prefix(s, p),
{
    assert(s.subrange(0, p.len() as int) =~= p) by {
        assert forall|k: int| 0 <= k < p.len() implies s[k] == p[k] by {
            assert(q.subrange(0, p.len() as int)[k] == p[k]);
            assert(s.subrange(0, q.len() as int)[k] == q[k]);
        }
    }
}

proof fn filter_widens<T>(s: Seq<T>, narrow: spec_fn(T) -> bool, wide: spec_fn(T) -> bool, x: T)
    requires
        forall|y: T| #[trigger] narrow(y) ==> wide(y),
        s.filter(narrow).contains(x),
    ensures
        s.filter(wide).contains(x),
{
    s.lemma_filter_contains_rev(narrow, x);
    let f = s.filter(narrow);
    let k = choose|k: int| 0 <= k < f.len() && f[k] == x;
    s.lemma_filter_pred(narrow, k);
    let i = choose|i: int| 0 <= i < s.len() && s[i] == x;
    assert(narrow(x));
    s.lemma_filter_contains(wide, i);
}

/// A search finds no fewer commands when its prefix becomes shorter.
pub proof fn shorter_prefix_finds_more(
    r: CommandRegistry,
    p: Seq<char>,
    q: Seq<char>,
    c: CommandSpec,
    s: SkillCommand,
)
    requires
        has_prefix(q, p),
    ensures
        r.command_hits(q).contains(c) ==> r.command_hits(p).contains(c),
        r.skill_hits(q).contains(s) ==> r.skill_hits(p).contains(s),
{
    let from = unslashed(p);
    let to = unslashed(q);
    prefix_without_slashes(p, q);
    if r.command_hits(q).contains(c) {
        let narrow = |x: CommandSpec| x.begins_with(to);
        let wide = |x: CommandSpec| x.begins_with(from);
        assert forall|x: CommandSpec| #[trigger] narrow(x) implies wide(x) by {
            if has_prefix(x.name@, to) {
                prefix_of_prefix(x.name@, from, to);
            } else {
                let k = choose|k: int|
                    0 <= k < x.aliases@.len() && has_prefix((#[trigger] x.aliases@[k])@, to);
                prefix_of_prefix(x.aliases@[k]@, from, to);
            }
        }
        filter_widens(r.builtins(), narrow, wide, c);
    }
    if r.skill_hits(q).contains(s) {
        let narrow = |x: SkillCommand| x.begins_with(to);
        let wide = |x: SkillCommand| x.begins_with(from);
        assert forall|x: SkillCommand| #[trigger] narrow(x) implies wide(x) by {
            if has_prefix(x.name@, to) {
                prefix_of_prefix(x.name@, from, to);
            } else {
                let k = choose|k: int|
                    0 <= k < x.aliases@.len() && has_prefix((#[trigger] x.aliases@[k])@, to);
                prefix_of_prefix(x.aliases@[k]@, from, to);
            }
        }
        filter_widens(r.skills(), narrow, wide, s);
    }
}

/// A number behind a marker is read back, with what stands before the marker,
/// as long as the marker does not stand further on.
proof fn number_behind_marker(
    head: Seq<char>,
    marker: Seq<char>,
    n: u32,
    rest: Seq<char>,
    fallback: u32,
)
    requires
        ascii_lowered(marker) == marker,
        rest.len() > 0 ==> is_white(rest[0]),
        is_last_at(
            ascii_lowered(head + marker + decimal(n as nat) + rest),
            marker,
            head.len() as int,
        ),
    ensures
        split_at_marker(head + marker + decimal(n as nat) + rest, marker, fallback) == (
            trim(head),
            n,
        ),
{
    let raw = head + marker + decimal(n as nat) + rest;
    let lower = ascii_lowered(raw);
    let at = last_at(lower, marker);
    assert(is_last_at(lower, marker, at));
    assert(occurs_at(lower, marker, at));
    assert(at == head.len());
    assert(raw.take(at) =~= head);
    let tail = decimal(n as nat) + rest;
    assert(raw.skip(at + marker.len()) =~= tail);
    decimal_comes_back(n as nat);
    first_word_of_number(n as nat, rest);
}

/// The limit and the goal that `/loop start` is given are read back, whatever the
/// goal is.
pub proof fn loop_limit_comes_back(goal: Seq<char>, n: u32)
    ensures
        split_at_marker(goal + " max "@ + decimal(n as nat), " max "@, 0) == (trim(goal), n),
{
    reveal_strlit(" max ");
    let marker = " max "@;
    let digits = decimal(n as nat);
    let raw = goal + marker + digits;
    let lower = ascii_lowered(raw);
    let from = goal.len() as int;
    assert(raw + Seq::<char>::empty() =~= raw);
    assert(ascii_lowered(marker) =~= marker);
    assert(lower.subrange(from, from + 5) =~= marker);
    decimal_comes_back(n as nat);
    assert forall|j: int| from < j implies !occurs_at(lower, marker, j) by {
        if occurs_at(lower, marker, j) {
            assert(lower.subrange(j, j + 5)[0] == marker[0]);
            assert(lower.subrange(j, j + 5)[1] == marker[1]);
            if j >= from + 5 {
                assert(lower[j] == ascii_lower(digits[j - from - 5]));
                assert(is_digit(digits[j - from - 5]));
            } else {
                assert(lower[j] == marker[j - from]);
                assert(j == from + 4);
                assert(lower[j + 1] == ascii_lower(digits[0]));
                assert(is_digit(digits[0]));
            }
        }
    }
    number_behind_marker(goal, marker, n, Seq::empty(), 0);
}

proof fn goal_marker_begins_anew_nowhere(k: int)
    requires
        0 < k < 14,
    ensures
        ({
            let marker = " or stop after "@;
            &&& marker.len() == 15
            &&& marker[0] == ' '
            &&& marker[1] == 'o'
            &&& marker[k] != ' ' || marker[k + 1] != 'o'
        }),
{
    reveal_strlit(" or stop after ");
}

proof fn goal_tail_begins_no_marker(n: nat, k: int)
    requires
        0 <= k < decimal(n).len() + 6,
    ensures
        ({
            let tail = decimal(n) + " turns"@;
            &&& tail.len() == decimal(n).len() + 6
            &&& is_digit(tail[0])
            &&& tail[k] == ' ' ==> k + 1 < tail.len() && tail[k + 1] == 't'
        }),
{
    reveal_strlit(" turns");
    decimal_comes_back(n);
    let tail = decimal(n) + " turns"@;
    assert(is_digit(decimal(n)[0]));
    if k < decimal(n).len() {
        assert(is_digit(decimal(n)[k]));
    }
}

proof fn goal_marker_is_the_last(condition: Seq<char>, n: nat, j: int)
    requires
        condition.len() < j,
    ensures
        !occurs_at(
            ascii_lowered(condition + " or stop after "@ + decimal(n) + " turns"@),
            " or stop after "@,
            j,
        ),
{
    let marker = " or stop after "@;
    let tail = decimal(n) + " turns"@;
    let raw = condition + marker + decimal(n) + " turns"@;
    let lower = ascii_lowered(raw);
    let from = condition.len() as int;
    goal_marker_begins_anew_nowhere(1);
    goal_tail_begins_no_marker(n, 0);
    assert(raw =~= condition + marker + tail);
    if occurs_at(lower, marker, j) {
        assert(lower.subrange(j, j + 15)[0] == lower[j]);
        assert(lower.subrange(j, j + 15)[1] == lower[j + 1]);
        assert(lower[j] == ascii_lower(raw[j]));
        assert(lower[j + 1] == ascii_lower(raw[j + 1]));
        let k = j - from;
        if k < 14 {
            assert(raw[j] == marker[k]);
            assert(raw[j + 1] == marker[k + 1]);
            goal_marker_begins_anew_nowhere(k);
            goal_marker_is_lower();
            assert(ascii_lowered(marker)[k] == ascii_lower(marker[k]));
            assert(ascii_lowered(marker)[k + 1] == ascii_lower(marker[k + 1]));
        } else if k == 14 {
            assert(raw[j + 1] == tail[0]);
        } else {
            assert(raw[j] == tail[k - 15]);
            assert(raw[j + 1] == tail[k - 14]);
            goal_tail_begins_no_marker(n, k - 15);
        }
    }
}

proof fn goal_marker_is_lower()
    ensures
        ascii_lowered(" or stop after "@) == " or stop after "@,
{
    reveal_strlit(" or stop after ");
    assert(ascii_lowered(" or stop after "@) =~= " or stop after "@);
}

/// The limit and the condition that `/goal` is given are read back, whatever the
/// condition is.
pub proof fn goal_limit_comes_back(condition: Seq<char>, n: u32)
    ensures
        split_at_marker(
            condition + " or stop after "@ + decimal(n as nat) + " turns"@,
            " or stop after "@,
            20,
        ) == (trim(condition), n),
{
    let marker = " or stop after "@;
    let raw = condition + marker + decimal(n as nat) + " turns"@;
    let lower = ascii_lowered(raw);
    let from = condition.len() as int;
    goal_marker_is_lower();
    assert(lower.subrange(from, from + marker.len()) =~= ascii_lowered(marker));
    assert forall|j: int| from < j implies !occurs_at(lower, marker, j) by {
        goal_marker_is_the_last(condition, n as nat, j);
    }
    reveal_strlit(" turns");
    number_behind_marker(condition, marker, n, " turns"@, 20);
}

} // verus!
