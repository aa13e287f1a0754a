//! What the slash commands do.
use vstd::prelude::*;
#[allow(unused_imports)]
use vstd::string::*;

use crate::app::event_loop::note;
use crate::app::{App, DirRequest, GoalState, LoopUiState};
use crate::clock::{elapsed_nanos, whole_seconds};
use crate::commands::{parse_goal_args, parse_loop_start_args, split_at_marker, CommandOutcome};
use crate::cost::capped_sum;
use crate::events::UserAction;
use crate::modal::JournalEntry;
use crate::model::BlockModel;
use crate::model_picker::{
    build_model_picker_lines, collect_model_picker_entries, context_lines, model_lines,
    model_picker_state, picker_entries, picker_state, serde_model_picker_context, ModelPickerEntry,
};
use crate::panel::{text_panel, CommandPanelState, PanelModel};
use crate::pickers::{
    build_cost_lines, build_help_lines, build_journal_lines, build_resume_lines,
    build_theme_picker_lines, build_tool_lines, cost_lines, help_lines, journal_lines,
    resume_lines, serde_journal_context, serde_resume_context, session_dirs, theme_lines,
    tool_lines,
};
use crate::runtime_builder::AccessTier;
use crate::style::Line;
use crate::text::{
    ascii_lowered, chars_of, concat2, concat3, concat4, concat5, decimal, has_suffix, is_blank,
    join, joined, lowercase, lowercase_of, matches_at, number_text, replace_text, replaced,
    same_ignoring_ascii_case, same_text, text_between, trim, views,
};
use crate::theme::{all_themes, find_theme, theme_names, Theme};

verus! {

/// The arguments from position `from` on, with spaces between them.
pub open spec fn joined_args(args: Seq<String>, from: int) -> Seq<char> {
    joined(views(args).skip(from), " "@)
}

fn join_args(args: &[String], from: usize) -> (r: String)
    requires
        from <= args@.len(),
    ensures
        r@ == joined_args(args@, from as int),
{
    let mut parts: Vec<String> = Vec::new();
    let mut i: usize = from;
    while i < args.len()
        invariant
            from <= i <= args@.len(),
            parts@.len() == i - from,
            forall|j: int| 0 <= j < parts@.len() ==> (#[trigger] parts@[j]) == args@[from + j],
        decreases args@.len() - i,
    {
        parts.push(args[i].clone());
        i += 1;
    }
    proof {
        assert(views(parts@) =~= views(args@).skip(from as int));
    }
    join(&parts, " ")
}

// ---------------------------------------------------------------------------
// Panels and simple commands
// ---------------------------------------------------------------------------

/// Whether a command asks for the given panel to be opened.
pub open spec fn opens(r: CommandOutcome, panel: PanelModel) -> bool {
    r matches CommandOutcome::OpenPanel(p) && p@ == panel
}

/// The help panel.
pub open spec fn help_panel(app: App) -> PanelModel {
    let lines = help_lines(app.commands.builtins(), app.commands.skills());
    PanelModel {
        item_count: lines.len() as usize,
        hint: "↑↓ / PgUp/PgDn scroll  ·  esc close"@,
        ..text_panel("help"@, lines)
    }
}

/// `/help`: the commands and the keys.
pub fn cmd_help(app: &mut App, _args: &[String]) -> (r: CommandOutcome)
    ensures
        *final(app) == *old(app),
        opens(r, help_panel(*old(app))),
{
    let lines: Vec<Line> = build_help_lines(&app.commands);
    let count: usize = lines.len();
    CommandOutcome::OpenPanel(
        CommandPanelState::new("help", lines).with_item_count(count).with_hint(
            "↑↓ / PgUp/PgDn scroll  ·  esc close",
        ),
    )
}

/// `/clear`: drops the conversation.
pub fn cmd_clear(app: &mut App, _args: &[String]) -> (r: CommandOutcome)
    ensures
        r is Done,
        App::conversation_dropped(*old(app), *final(app)),
{
    app.reset_transcript();
    CommandOutcome::Done
}

/// `/compact`: asks the worker to compact the transcript.
pub fn cmd_compact(app: &mut App, _args: &[String]) -> (r: Vec<UserAction>)
    ensures
        r@ == seq![UserAction::Compact],
        App::appended(*old(app), note("Compacting transcript…"@), *final(app)),
{
    app.push_system("Compacting transcript…");
    let mut actions: Vec<UserAction> = Vec::new();
    actions.push(UserAction::Compact);
    proof {
        assert(actions@ =~= seq![UserAction::Compact]);
    }
    actions
}

/// The cost panel.
pub open spec fn cost_panel(app: App) -> PanelModel {
    PanelModel {
        hint: "esc close"@,
        ..text_panel(
            "cost"@,
            cost_lines(
                app.usage,
                app.model_name@,
                app.around.costs,
                app.around.latency_secs@,
            ),
        )
    }
}

/// `/cost`: the token counts and what they cost.
pub fn cmd_cost(app: &mut App, _args: &[String]) -> (r: CommandOutcome)
    ensures
        *final(app) == *old(app),
        opens(r, cost_panel(*old(app))),
{
    let lines: Vec<Line> = build_cost_lines(
        &app.usage,
        app.model_name.as_str(),
        &app.around.costs,
        app.around.latency_secs.as_str(),
    );
    CommandOutcome::OpenPanel(CommandPanelState::new("cost", lines).with_hint("esc close"))
}

/// The view of a string that may be missing.
pub open spec fn opt_text(s: Option<String>) -> Option<Seq<char>> {
    match s {
        Some(t) => Some(t@),
        None => None,
    }
}

/// Whether a panel is the model panel for the given rows, opened with the
/// running model selected.
pub open spec fn is_model_panel(
    p: PanelModel,
    app: App,
    rows: Seq<ModelPickerEntry>,
    running: int,
) -> bool {
    &&& picker_state(
        picker_entries(app.around.presets@, app.around.ollama, opt_text(app.active_preset)),
        opt_text(app.active_preset),
        app.model_name@,
        rows,
        running,
    )
    &&& p == (PanelModel {
        selected: Some(running as usize),
        item_count: rows.len() as usize,
        list_offset: 2,
        hint: "↑↓ / Ctrl+P Ctrl+N select  ·  enter switch  ·  esc cancel"@,
        context: Some(joined(context_lines(rows), "\n"@)),
        ..text_panel("model"@, model_lines(rows, app.model_name@, running, running))
    })
}

/// `/model`: the models that can be switched to.
pub fn cmd_model(app: &mut App, _args: &[String]) -> (r: CommandOutcome)
    ensures
        *final(app) == *old(app),
        r matches CommandOutcome::OpenPanel(p) && exists|
            rows: Seq<ModelPickerEntry>,
            running: int,
        |
            is_model_panel(p@, *old(app), rows, running),
{
    let preset: Option<&str> = match &app.active_preset {
        Some(p) => Some(p.as_str()),
        None => None,
    };
    let entries: Vec<ModelPickerEntry> = collect_model_picker_entries(
        &app.around.presets,
        &app.around.ollama,
        preset,
    );
    let (rows, running) = model_picker_state(entries, preset, app.model_name.as_str());
    let count: usize = rows.len();
    let lines: Vec<Line> = build_model_picker_lines(
        rows.as_slice(),
        app.model_name.as_str(),
        running,
        running,
    );
    let context: String = serde_model_picker_context(rows.as_slice());
    let panel: CommandPanelState = CommandPanelState::new("model", lines).with_selection(
        running,
    ).with_item_count(count).with_list_offset(2).with_hint(
        "↑↓ / Ctrl+P Ctrl+N select  ·  enter switch  ·  esc cancel",
    ).with_context(context);
    proof {
        assert(is_model_panel(panel@, *app, rows@, running as int));
    }
    CommandOutcome::OpenPanel(panel)
}

/// What `/status` says.
pub open spec fn status_text(turns: u64, blocks: nat, tokens: u64, uptime_secs: u64) -> Seq<char> {
    ("Status — turn "@ + decimal(turns as nat) + ", blocks "@ + decimal(blocks)) + ", tokens "@
        + decimal(tokens as nat) + ", uptime "@ + decimal(uptime_secs as nat) + "s"@
}

/// Whether `b` is `a` with a note on how the session is going.
pub open spec fn status_shown(a: App, uptime_secs: u64, b: App) -> bool {
    App::appended(
        a,
        note(
            status_text(
                a.turn_count,
                a.blocks@.len(),
                capped_sum(a.usage.total_input, a.usage.total_output),
                uptime_secs,
            ),
        ),
        b,
    )
}

/// Says how the session is going, with the given uptime.
pub fn show_status(app: &mut App, uptime_secs: u64)
    ensures
        status_shown(*old(app), uptime_secs, *final(app)),
{
    let turns: String = number_text(app.turn_count);
    let blocks: String = number_text(app.blocks.len() as u64);
    let tokens: String = number_text(
        app.usage.total_input.saturating_add(app.usage.total_output),
    );
    let uptime: String = number_text(uptime_secs);
    let head: String = concat4("Status — turn ", turns.as_str(), ", blocks ", blocks.as_str());
    let body: String = concat5(
        head.as_str(),
        ", tokens ",
        tokens.as_str(),
        ", uptime ",
        uptime.as_str(),
    );
    let text: String = concat2(body.as_str(), "s");
    app.push_system(text.as_str());
}

/// Whether `b` is `a` with a note on how the session is going, the given number
/// of nanoseconds after its start.
pub open spec fn status_shown_after(a: App, nanos: u64, b: App) -> bool {
    status_shown(a, nanos / 1_000_000_000, b)
}

/// Says how the session is going, the given number of nanoseconds after its
/// start.
pub fn show_status_after(app: &mut App, nanos: u64)
    ensures
        status_shown_after(*old(app), nanos, *final(app)),
{
    show_status(app, whole_seconds(nanos));
}

/// `/status`: how the session is going. The clock says how long ago it started;
/// what it says is not stated.
pub fn cmd_status(app: &mut App, _args: &[String]) -> (r: CommandOutcome)
    ensures
        r is Done,
        exists|nanos: u64| status_shown_after(*old(app), nanos, *final(app)),
{
    let nanos: u64 = elapsed_nanos(&app.start_time);
    show_status_after(app, nanos);
    CommandOutcome::Done
}

/// The tool panel.
pub open spec fn tool_panel(app: App) -> PanelModel {
    PanelModel {
        hint: "↑↓ / PgUp/PgDn scroll  ·  esc close"@,
        ..text_panel("tools"@, tool_lines(app.tool_catalog@))
    }
}

/// `/tools`: the tools of the agent.
pub fn cmd_tools(app: &mut App, _args: &[String]) -> (r: CommandOutcome)
    ensures
        *final(app) == *old(app),
        opens(r, tool_panel(*old(app))),
{
    let lines: Vec<Line> = build_tool_lines(app.tool_catalog.as_slice());
    CommandOutcome::OpenPanel(
        CommandPanelState::new("tools", lines).with_hint("↑↓ / PgUp/PgDn scroll  ·  esc close"),
    )
}

/// What `/plan` says.
pub open spec fn plan_notice() -> Seq<char> {
    "PlanFirst mode has been removed. Use the agent's plan-mode tools (enter_plan_mode / exit_plan_mode) for human-in-the-loop planning."@
}

/// `/plan`: says what has become of planning mode.
pub fn cmd_plan(app: &mut App, _args: &[String]) -> (r: Vec<UserAction>)
    ensures
        r@.len() == 0,
        App::appended(*old(app), note(plan_notice()), *final(app)),
{
    app.push_system(
        "PlanFirst mode has been removed. Use the agent's plan-mode tools (enter_plan_mode / exit_plan_mode) for human-in-the-loop planning.",
    );
    Vec::new()
}

/// The journal panel.
pub open spec fn journal_panel(app: App) -> PanelModel {
    PanelModel {
        selected: Some(0),
        item_count: app.around.journal@.len() as usize,
        list_offset: 2,
        hint: "↑↓ select entry  ·  esc close"@,
        context: Some(
            joined(app.around.journal@.map_values(|e: JournalEntry| e.name@), "\n"@),
        ),
        ..text_panel("journal"@, journal_lines(app.around.journal@, 0))
    }
}

/// `/journal`: the most recent journal entries.
pub fn cmd_journal(app: &mut App, _args: &[String]) -> (r: CommandOutcome)
    ensures
        *final(app) == *old(app),
        opens(r, journal_panel(*old(app))),
{
    let count: usize = app.around.journal.len();
    let lines: Vec<Line> = build_journal_lines(app.around.journal.as_slice(), 0);
    let context: String = serde_journal_context(app.around.journal.as_slice());
    CommandOutcome::OpenPanel(
        CommandPanelState::new("journal", lines).with_selection(0).with_item_count(
            count,
        ).with_list_offset(2).with_hint("↑↓ select entry  ·  esc close").with_context(context),
    )
}

/// `/exit`: ends the interface.
pub fn cmd_exit(app: &mut App, _args: &[String]) -> (r: CommandOutcome)
    ensures
        r is Done,
        *final(app) == (App { should_quit: true, ..*old(app) }),
{
    app.should_quit = true;
    CommandOutcome::Done
}

/// The panel of the saved sessions.
pub open spec fn resume_panel(app: App) -> PanelModel {
    PanelModel {
        selected: Some(0),
        item_count: app.around.sessions@.len() as usize,
        list_offset: 2,
        hint: "↑↓ select  ·  enter resume  ·  esc cancel"@,
        context: Some(joined(session_dirs(app.around.sessions@), "\n"@)),
        ..text_panel("resume"@, resume_lines(app.around.sessions@, 0))
    }
}

/// `/resume`: the saved sessions.
pub fn cmd_resume(app: &mut App, _args: &[String]) -> (r: CommandOutcome)
    ensures
        *final(app) == *old(app),
        old(app).around.sessions@.len() == 0 ==> (r matches CommandOutcome::Error(e) && e@
            == "No saved sessions found."@),
        old(app).around.sessions@.len() > 0 ==> opens(r, resume_panel(*old(app))),
{
    let count: usize = app.around.sessions.len();
    if count == 0 {
        return CommandOutcome::Error("No saved sessions found.".to_owned());
    }
    let lines: Vec<Line> = build_resume_lines(app.around.sessions.as_slice(), 0);
    let context: String = serde_resume_context(app.around.sessions.as_slice());
    CommandOutcome::OpenPanel(
        CommandPanelState::new("resume", lines).with_selection(0).with_item_count(
            count,
        ).with_list_offset(2).with_hint("↑↓ select  ·  enter resume  ·  esc cancel").with_context(
            context,
        ),
    )
}

/// `/mcp`: asks the worker for the configured servers.
pub fn cmd_mcp(app: &mut App, _args: &[String]) -> (r: Vec<UserAction>)
    ensures
        *final(app) == *old(app),
        r@ == seq![UserAction::ListMcpServers],
{
    let mut actions: Vec<UserAction> = Vec::new();
    actions.push(UserAction::ListMcpServers);
    proof {
        assert(actions@ =~= seq![UserAction::ListMcpServers]);
    }
    actions
}

// ---------------------------------------------------------------------------
// Themes
// ---------------------------------------------------------------------------

/// The first position of a name in a list at or after `from`; 0 where it is
/// not there.
pub open spec fn position_of(names: Seq<Seq<char>>, name: Seq<char>, from: int) -> int
    decreases names.len() - from,
{
    if from < 0 || from >= names.len() {
        0
    } else if names[from] == name {
        from
    } else {
        position_of(names, name, from + 1)
    }
}

/// The theme panel, opened on the current theme.
pub open spec fn theme_panel(app: App) -> PanelModel {
    let selected = position_of(theme_names(), app.theme.name@, 0);
    PanelModel {
        selected: Some(selected as usize),
        item_count: theme_names().len() as usize,
        list_offset: 2,
        hint: "↑↓ select  ·  enter apply  ·  esc cancel"@,
        context: Some(joined(theme_names(), "\n"@)),
        ..text_panel("theme"@, theme_lines(app.theme.name@, selected))
    }
}

fn joined_themes(sep: &str) -> (r: String)
    ensures
        r@ == joined(theme_names(), sep@),
{
    let themes: Vec<Theme> = all_themes();
    let mut names: Vec<String> = Vec::new();
    let mut i: usize = 0;
    while i < themes.len()
        invariant
            i <= themes@.len(),
            names@.len() == i,
            forall|j: int| 0 <= j < i ==> (#[trigger] names@[j])@ == themes@[j].name@,
        decreases themes@.len() - i,
    {
        names.push(themes[i].name.to_owned());
        i += 1;
    }
    proof {
        assert(views(names@) =~= themes@.map_values(|t: Theme| t.name@));
    }
    join(&names, sep)
}

fn theme_position(name: &str) -> (r: usize)
    ensures
        r == position_of(theme_names(), name@, 0),
{
    let themes: Vec<Theme> = all_themes();
    let ghost names = theme_names();
    let mut i: usize = 0;
    while i < themes.len()
        invariant
            i <= themes@.len(),
            names == theme_names(),
            names == themes@.map_values(|t: Theme| t.name@),
            position_of(names, name@, i as int) == position_of(names, name@, 0),
        decreases themes@.len() - i,
    {
        proof {
            assert(names[i as int] == themes@[i as int].name@);
        }
        if same_text(themes[i].name, name) {
            return i;
        }
        i += 1;
    }
    0
}

/// Whether `b` is `a` once the theme was switched: to the wanted one where there
/// is such a theme, and otherwise the user is told which themes there are.
pub open spec fn theme_switched(a: App, wanted: Seq<char>, b: App) -> bool {
    if theme_names().contains(wanted) {
        &&& b.theme.name@ == wanted
        &&& App::appended(
            App { theme: b.theme, ..a },
            note("Theme switched to '"@ + wanted + "'."@),
            b,
        )
    } else {
        App::appended(
            a,
            BlockModel::Error {
                text: "Unknown theme '"@ + wanted + "'. Available: "@ + joined(
                    theme_names(),
                    ", "@,
                ),
            },
            b,
        )
    }
}

/// Switches to the theme of the given name.
pub fn switch_theme(app: &mut App, wanted: &str)
    ensures
        theme_switched(*old(app), wanted@, *final(app)),
{
    let found: Theme = find_theme(wanted);
    proof {
        assert(theme_names()[0] == "dark"@);
    }
    if same_text(found.name, wanted) {
        app.theme = found;
        let text: String = concat3("Theme switched to '", found.name, "'.");
        app.push_system(text.as_str());
    } else {
        let names: String = joined_themes(", ");
        let text: String = concat4("Unknown theme '", wanted, "'. Available: ", names.as_str());
        app.push_error(text.as_str());
    }
}

/// `/theme`: switches to a theme, or offers the themes.
pub fn cmd_theme(app: &mut App, args: &[String]) -> (r: CommandOutcome)
    ensures
        args@.len() == 0 ==> {
            &&& *final(app) == *old(app)
            &&& opens(r, theme_panel(*old(app)))
        },
        args@.len() > 0 ==> {
            &&& r is Done
            &&& theme_switched(*old(app), lowercase_of(args@[0]@), *final(app))
        },
{
    if args.len() == 0 {
        let selected: usize = theme_position(app.theme.name);
        let count: usize = all_themes().len();
        let lines: Vec<Line> = build_theme_picker_lines(app.theme.name, selected);
        let context: String = joined_themes("\n");
        proof {
            assert(theme_names().len() == 3);
        }
        return CommandOutcome::OpenPanel(
            CommandPanelState::new("theme", lines).with_selection(selected).with_item_count(
                count,
            ).with_list_offset(2).with_hint(
                "↑↓ select  ·  enter apply  ·  esc cancel",
            ).with_context(context),
        );
    }
    let wanted: String = lowercase(args[0].as_str());
    switch_theme(app, wanted.as_str());
    CommandOutcome::Done
}

// ---------------------------------------------------------------------------
// Permissions
// ---------------------------------------------------------------------------

/// The position of a switch that a lower-case word stands for.
pub open spec fn switch_position(word: Seq<char>) -> Option<bool> {
    if word == "on"@ || word == "true"@ || word == "1"@ {
        Some(true)
    } else if word == "off"@ || word == "false"@ || word == "0"@ {
        Some(false)
    } else {
        None
    }
}

/// The position of a switch that the first argument stands for, in any letter
/// case.
pub open spec fn wanted_switch(args: Seq<String>) -> Option<bool> {
    if args.len() > 0 {
        switch_position(lowercase_of(args[0]@))
    } else {
        None
    }
}

/// The name of a switch position.
pub open spec fn switch_name(on: bool) -> Seq<char> {
    if on {
        "on"@
    } else {
        "off"@
    }
}

/// Reads the position of a switch from a lower-case word.
pub fn read_switch(word: &str) -> (r: Option<bool>)
    ensures
        r == switch_position(word@),
{
    if same_text(word, "on") || same_text(word, "true") || same_text(word, "1") {
        Some(true)
    } else if same_text(word, "off") || same_text(word, "false") || same_text(word, "0") {
        Some(false)
    } else {
        None
    }
}

fn name_of_switch(on: bool) -> (r: &'static str)
    ensures
        r@ == switch_name(on),
{
    if on {
        "on"
    } else {
        "off"
    }
}

/// Whether `b` is `a` once the permission hook was switched.
pub open spec fn hook_switched(a: App, wanted: Option<bool>, b: App) -> bool {
    match wanted {
        None => App::appended(
            a,
            BlockModel::Error {
                text: "Usage: /permissions on|off  (currently "@ + switch_name(
                    a.permission_hook_enabled,
                ) + ")"@,
            },
            b,
        ),
        Some(true) => App::appended(
            App { permission_hook_enabled: true, ..a },
            note("Permissions hook: "@ + switch_name(true)),
            b,
        ),
        Some(false) => {
            &&& b.auto_allowed_tools@.len() == 0
            &&& App::appended(
                App {
                    permission_hook_enabled: false,
                    auto_allowed_tools: b.auto_allowed_tools,
                    pending_permission: None,
                    permission_reply: if a.pending_permission is Some {
                        Some(false)
                    } else {
                        a.permission_reply
                    },
                    ..a
                },
                note("Permissions hook: "@ + switch_name(false)),
                b,
            )
        },
    }
}

/// Switches the permission hook, or says how it is switched. Switching it off
/// also forgets the tools that need no more permission and denies the request
/// that waits.
pub fn switch_hook(app: &mut App, wanted: Option<bool>)
    ensures
        hook_switched(*old(app), wanted, *final(app)),
{
    match wanted {
        None => {
            let text: String = concat3(
                "Usage: /permissions on|off  (currently ",
                name_of_switch(app.permission_hook_enabled),
                ")",
            );
            app.push_error(text.as_str());
        },
        Some(on) => {
            app.permission_hook_enabled = on;
            if !on {
                app.auto_allowed_tools = Vec::new();
                if app.pending_permission.is_some() {
                    app.pending_permission = None;
                    app.permission_reply = Some(false);
                }
            }
            let text: String = concat2("Permissions hook: ", name_of_switch(on));
            app.push_system(text.as_str());
        },
    }
}

/// `/permissions`: switches the permission hook.
pub fn cmd_permissions(app: &mut App, args: &[String]) -> (r: CommandOutcome)
    ensures
        r is Done,
        hook_switched(*old(app), wanted_switch(args@), *final(app)),
{
    let mut wanted: Option<bool> = None;
    if args.len() > 0 {
        let word: String = lowercase(args[0].as_str());
        wanted = read_switch(word.as_str());
    }
    switch_hook(app, wanted);
    CommandOutcome::Done
}

// ---------------------------------------------------------------------------
// Granted directories
// ---------------------------------------------------------------------------

/// The short name of an access tier.
pub open spec fn tier_name(t: AccessTier) -> Seq<char> {
    match t {
        AccessTier::ReadOnly => "ro"@,
        AccessTier::ReadWrite => "rw"@,
    }
}

/// One granted directory, as it is listed.
pub open spec fn root_line(root: (String, AccessTier)) -> Seq<char> {
    "- "@ + root.0@ + " ("@ + tier_name(root.1) + ")"@
}

/// The granted directories, as they are listed.
pub open spec fn roots_text(roots: Seq<(String, AccessTier)>) -> Seq<char> {
    if roots.len() == 0 {
        "No extra directories granted this session."@
    } else {
        joined(roots.map_values(|r: (String, AccessTier)| root_line(r)), "\n"@)
    }
}

fn list_roots(roots: &Vec<(String, AccessTier)>) -> (r: String)
    ensures
        r@ == roots_text(roots@),
{
    if roots.len() == 0 {
        return "No extra directories granted this session.".to_owned();
    }
    let mut parts: Vec<String> = Vec::new();
    let mut i: usize = 0;
    while i < roots.len()
        invariant
            i <= roots@.len(),
            parts@.len() == i,
            forall|j: int| 0 <= j < i ==> (#[trigger] parts@[j])@ == root_line(roots@[j]),
        decreases roots@.len() - i,
    {
        let tier: &str = match roots[i].1 {
            AccessTier::ReadOnly => "ro",
            AccessTier::ReadWrite => "rw",
        };
        parts.push(concat5("- ", roots[i].0.as_str(), " (", tier, ")"));
        i += 1;
    }
    proof {
        assert(views(parts@) =~= roots@.map_values(|r: (String, AccessTier)| root_line(r)));
    }
    join(&parts, "\n")
}

/// Whether a word is an option.
pub open spec fn is_option(word: Seq<char>) -> bool {
    word.len() > 0 && word[0] == '-'
}

/// Whether an argument asks for read-only access.
pub open spec fn asks_read_only(args: Seq<String>) -> bool {
    exists|i: int|
        0 <= i < args.len() && ((#[trigger] args[i])@ == "--ro"@ || args[i]@ == "-r"@)
}

/// The first argument at or after `from` that is no option, or their number.
pub open spec fn first_word(args: Seq<String>, from: int) -> int
    decreases args.len() - from,
{
    if from < 0 || from >= args.len() {
        args.len() as int
    } else if !is_option(args[from]@) {
        from
    } else {
        first_word(args, from + 1)
    }
}

/// A path without the suffix that asks for read-only access.
pub open spec fn without_ro(path: Seq<char>) -> Seq<char> {
    if has_suffix(path, ":ro"@) {
        path.take(path.len() - 3)
    } else {
        path
    }
}

/// Whether `b` is `a` once the arguments of `/add-dir` were read.
pub open spec fn dir_requested(a: App, args: Seq<String>, b: App) -> bool {
    if args.len() == 0 {
        App::appended(
            a,
            note(
                "Usage: /add-dir <path> [--ro]\n\nGranted this session:\n"@ + roots_text(
                    a.session_roots@,
                ),
            ),
            b,
        )
    } else if first_word(args, 0) >= args.len() {
        App::appended(a, BlockModel::Error { text: "Usage: /add-dir <path> [--ro]"@ }, b)
    } else {
        let word = args[first_word(args, 0)]@;
        &&& b == (App { pending_dir: b.pending_dir, ..a })
        &&& b.pending_dir matches Some(d) && d.path@ == without_ro(word) && d.read_only == (
        asks_read_only(args) || has_suffix(word, ":ro"@))
    }
}

/// `/add-dir`: lists the granted directories, or asks for one to be resolved.
pub fn cmd_add_dir(app: &mut App, args: &[String]) -> (r: CommandOutcome)
    ensures
        r is Done,
        dir_requested(*old(app), args@, *final(app)),
{
    if args.len() == 0 {
        let listed: String = list_roots(&app.session_roots);
        let text: String = concat2(
            "Usage: /add-dir <path> [--ro]\n\nGranted this session:\n",
            listed.as_str(),
        );
        app.push_system(text.as_str());
        return CommandOutcome::Done;
    }
    let mut read_only: bool = false;
    let mut i: usize = 0;
    while i < args.len()
        invariant
            i <= args@.len(),
            read_only == exists|j: int|
                0 <= j < i && ((#[trigger] args@[j])@ == "--ro"@ || args@[j]@ == "-r"@),
        decreases args@.len() - i,
    {
        if same_text(args[i].as_str(), "--ro") || same_text(args[i].as_str(), "-r") {
            read_only = true;
        }
        i += 1;
    }
    let mut k: usize = 0;
    while k < args.len() && starts_with_dash(args[k].as_str())
        invariant
            k <= args@.len(),
            first_word(args@, k as int) == first_word(args@, 0),
        decreases args@.len() - k,
    {
        k += 1;
    }
    if k >= args.len() {
        app.push_error("Usage: /add-dir <path> [--ro]");
        return CommandOutcome::Done;
    }
    let v: Vec<char> = chars_of(args[k].as_str());
    let n: usize = v.len();
    let suffix: Vec<char> = chars_of(":ro");
    proof {
        reveal_strlit(":ro");
    }
    let has_ro: bool = n >= 3 && matches_at(&v, &suffix, n - 3);
    let path: String = if has_ro {
        proof {
            assert(v@.subrange(0, n - 3) == v@.take(n - 3));
        }
        text_between(&v, 0, n - 3)
    } else {
        args[k].clone()
    };
    app.pending_dir = Some(DirRequest { path, read_only: read_only || has_ro });
    CommandOutcome::Done
}

fn starts_with_dash(s: &str) -> (r: bool)
    ensures
        r == is_option(s@),
{
    let n: usize = s.unicode_len();
    n > 0 && s.get_char(0) == '-'
}

/// What the file system says about a directory.
#[derive(Clone, Debug)]
pub enum DirResolution {
    /// The path leads nowhere.
    Missing { error: String },
    /// The path leads to something else.
    NotADirectory { canonical: String },
    /// The path leads to this directory.
    Directory { canonical: String },
}

/// Whether a directory is granted already.
pub open spec fn is_granted(roots: Seq<(String, AccessTier)>, path: Seq<char>) -> bool {
    exists|i: int| 0 <= i < roots.len() && (#[trigger] roots[i]).0@ == path
}

fn grants(roots: &Vec<(String, AccessTier)>, path: &str) -> (r: bool)
    ensures
        r == is_granted(roots@, path@),
{
    let mut i: usize = 0;
    while i < roots.len()
        invariant
            i <= roots@.len(),
            forall|j: int| 0 <= j < i ==> (#[trigger] roots@[j]).0@ != path@,
        decreases roots@.len() - i,
    {
        if same_text(roots[i].0.as_str(), path) {
            return true;
        }
        i += 1;
    }
    false
}

/// The access tier of a request.
pub open spec fn wanted_tier(read_only: bool) -> AccessTier {
    if read_only {
        AccessTier::ReadOnly
    } else {
        AccessTier::ReadWrite
    }
}

/// Whether `b` is `a` once the file system has answered a request of `/add-dir`.
pub open spec fn dir_answered(a: App, request: DirRequest, found: DirResolution, b: App) -> bool {
    match found {
        DirResolution::Missing { error } => App::appended(
            App { pending_dir: None, ..a },
            BlockModel::Error {
                text: "/add-dir: cannot resolve \""@ + request.path@ + "\": "@ + error@,
            },
            b,
        ),
        DirResolution::NotADirectory { canonical } => App::appended(
            App { pending_dir: None, ..a },
            BlockModel::Error {
                text: "/add-dir: \""@ + canonical@ + "\" is not a directory"@,
            },
            b,
        ),
        DirResolution::Directory { canonical } => if is_granted(
            a.session_roots@,
            canonical@,
        ) {
            App::appended(
                App { pending_dir: None, ..a },
                note("Already granted: "@ + canonical@),
                b,
            )
        } else {
            &&& b.session_roots@ == a.session_roots@.push(
                (canonical, wanted_tier(request.read_only)),
            )
            &&& App::appended(
                App {
                    pending_dir: None,
                    session_roots: b.session_roots,
                    ..a
                },
                note(
                    "Granted agent access to "@ + canonical@ + " ("@ + (
                    if request.read_only {
                        "read-only"@
                    } else {
                        "read-write"@
                    }) + ")"@,
                ),
                b,
            )
        },
    }
}

/// Goes on with `/add-dir` once the file system has resolved the path: a
/// directory is granted, unless it is granted already.
pub fn finish_add_dir(app: &mut App, request: DirRequest, found: DirResolution)
    ensures
        dir_answered(*old(app), request, found, *final(app)),
{
    app.pending_dir = None;
    match found {
        DirResolution::Missing { error } => {
            let text: String = concat4(
                "/add-dir: cannot resolve \"",
                request.path.as_str(),
                "\": ",
                error.as_str(),
            );
            app.push_error(text.as_str());
        },
        DirResolution::NotADirectory { canonical } => {
            let text: String = concat3(
                "/add-dir: \"",
                canonical.as_str(),
                "\" is not a directory",
            );
            app.push_error(text.as_str());
        },
        DirResolution::Directory { canonical } => {
            if grants(&app.session_roots, canonical.as_str()) {
                let text: String = concat2("Already granted: ", canonical.as_str());
                app.push_system(text.as_str());
                return ;
            }
            let (tier, label): (AccessTier, &str) = if request.read_only {
                (AccessTier::ReadOnly, "read-only")
            } else {
                (AccessTier::ReadWrite, "read-write")
            };
            let text: String = concat5(
                "Granted agent access to ",
                canonical.as_str(),
                " (",
                label,
                ")",
            );
            app.session_roots.push((canonical, tier));
            app.push_system(text.as_str());
        },
    }
}

/// A directory is granted at most once: the paths of the granted directories
/// stay distinct.
pub proof fn grants_stay_distinct(
    roots: Seq<(String, AccessTier)>,
    path: String,
    tier: AccessTier,
)
    requires
        forall|i: int, j: int|
            0 <= i < j < roots.len() ==> (#[trigger] roots[i]).0@ != (#[trigger] roots[j]).0@,
        !is_granted(roots, path@),
    ensures
        forall|i: int, j: int|
            0 <= i < j < roots.push((path, tier)).len() ==> (#[trigger] roots.push(
                (path, tier),
            )[i]).0@ != (#[trigger] roots.push((path, tier))[j]).0@,
{
    let more = roots.push((path, tier));
    assert forall|i: int, j: int| 0 <= i < j < more.len() implies (#[trigger] more[i]).0@ != (
    #[trigger] more[j]).0@ by {
        assert(more[i] == roots[i]);
        if j < roots.len() {
            assert(more[j] == roots[j]);
        }
    }
}

// ---------------------------------------------------------------------------
// Goals and loops
// ---------------------------------------------------------------------------

/// What `/goal` says about the goal.
pub open spec fn goal_text(goal: Option<GoalState>) -> Seq<char> {
    match goal {
        Some(g) => ("Goal: \""@ + g.condition@ + "\" — turn "@ + decimal(g.turns as nat)) + "/"@
            + decimal(g.max_turns as nat) + " — "@ + match g.last_reason {
            Some(r) => r@,
            None => "pursuing"@,
        },
        None => "No active goal."@,
    }
}

fn describe_goal(goal: &Option<GoalState>) -> (r: String)
    ensures
        r@ == goal_text(*goal),
{
    match goal {
        Some(g) => {
            let turns: String = number_text(g.turns as u64);
            let max: String = number_text(g.max_turns as u64);
            let head: String = concat4(
                "Goal: \"",
                g.condition.as_str(),
                "\" — turn ",
                turns.as_str(),
            );
            let reason: &str = match &g.last_reason {
                Some(r) => r.as_str(),
                None => "pursuing",
            };
            concat5(head.as_str(), "/", max.as_str(), " — ", reason)
        },
        None => "No active goal.".to_owned(),
    }
}

/// Whether the arguments are the single word that drops the goal.
pub open spec fn drops_goal(args: Seq<String>) -> bool {
    args.len() == 1 && ascii_lowered(args[0]@) == ascii_lowered("clear"@)
}

/// What `/goal` does.
pub open spec fn goal_command(a: App, args: Seq<String>, b: App, r: Seq<UserAction>) -> bool {
    if args.len() == 0 {
        &&& r.len() == 0
        &&& App::appended(a, note(goal_text(a.active_goal)), b)
    } else if drops_goal(args) {
        &&& r == seq![UserAction::ClearGoal]
        &&& App::appended(App { active_goal: None, ..a }, note("Goal cleared."@), b)
    } else {
        let (condition, max) = split_at_marker(joined_args(args, 0), " or stop after "@, 20);
        &&& r.len() == 1
        &&& r[0] matches UserAction::SetGoal { condition: c, max_turns } && c@ == condition
            && max_turns == max
        &&& App::appended(
            a,
            note("Goal set: \""@ + condition + "\" (max "@ + decimal(max as nat) + " turns)"@),
            b,
        )
    }
}

/// `/goal`: shows, drops or sets the goal.
pub fn cmd_goal(app: &mut App, args: &[String]) -> (r: Vec<UserAction>)
    ensures
        goal_command(*old(app), args@, *final(app), r@),
{
    let mut actions: Vec<UserAction> = Vec::new();
    if args.len() == 0 {
        let text: String = describe_goal(&app.active_goal);
        app.push_system(text.as_str());
        return actions;
    }
    if args.len() == 1 && same_ignoring_ascii_case(args[0].as_str(), "clear") {
        app.active_goal = None;
        app.push_system("Goal cleared.");
        actions.push(UserAction::ClearGoal);
        proof {
            assert(actions@ =~= seq![UserAction::ClearGoal]);
        }
        return actions;
    }
    let raw: String = join_args(args, 0);
    let (condition, max_turns) = parse_goal_args(raw.as_str());
    let n: String = number_text(max_turns as u64);
    let text: String = concat5(
        "Goal set: \"",
        condition.as_str(),
        "\" (max ",
        n.as_str(),
        " turns)",
    );
    app.push_system(text.as_str());
    actions.push(UserAction::SetGoal { condition, max_turns });
    actions
}

/// How a turn limit is shown.
pub open spec fn limit_text(max_turns: u32) -> Seq<char> {
    if max_turns > 0 {
        decimal(max_turns as nat)
    } else {
        "unlimited"@
    }
}

/// What `/loop` says about the loop.
pub open spec fn loop_text(l: Option<LoopUiState>) -> Seq<char> {
    match l {
        Some(s) => "Loop active — goal: \""@ + s.goal@ + "\", turns: "@ + decimal(
            s.turns_run as nat,
        ) + ("/"@ + limit_text(s.max_turns)),
        None => "No active loop."@,
    }
}

fn show_limit(max_turns: u32) -> (r: String)
    ensures
        r@ == limit_text(max_turns),
{
    if max_turns > 0 {
        number_text(max_turns as u64)
    } else {
        "unlimited".to_owned()
    }
}

fn describe_loop(l: &Option<LoopUiState>) -> (r: String)
    ensures
        r@ == loop_text(*l),
{
    match l {
        Some(s) => {
            let turns: String = number_text(s.turns_run as u64);
            let limit: String = show_limit(s.max_turns);
            let tail: String = concat2("/", limit.as_str());
            concat5(
                "Loop active — goal: \"",
                s.goal.as_str(),
                "\", turns: ",
                turns.as_str(),
                tail.as_str(),
            )
        },
        None => "No active loop.".to_owned(),
    }
}

/// The standing orders for a loop that watches over a command, which takes the
/// place of `$COMMAND`.
pub open spec fn supervise_orders() -> Seq<char> {
    "# Supervise mode\n\nStart this command as a background job, watch it and step in when it needs help:\n\n    $COMMAND\n\n1. Start the command in the background and note its job id.\n2. Schedule a wakeup, and on each wakeup read the job's new output.\n3. While it makes progress, leave it alone and schedule the next wakeup.\n4. When it fails or hangs, find the cause, fix it and start the command again.\n5. When it is done, say how it went and stop the loop with `stop_loop`."@
}

fn supervise_goal(command: &str) -> (r: String)
    ensures
        r@ == replaced(supervise_orders(), "$COMMAND"@, command@),
{
    proof {
        reveal_strlit("$COMMAND");
    }
    replace_text(
        "# Supervise mode\n\nStart this command as a background job, watch it and step in when it needs help:\n\n    $COMMAND\n\n1. Start the command in the background and note its job id.\n2. Schedule a wakeup, and on each wakeup read the job's new output.\n3. While it makes progress, leave it alone and schedule the next wakeup.\n4. When it fails or hangs, find the cause, fix it and start the command again.\n5. When it is done, say how it went and stop the loop with `stop_loop`.",
        "$COMMAND",
        command,
    )
}

/// Whether a loop was started: the note, the state and the action all say so.
pub open spec fn loop_started(
    a: App,
    said: Seq<char>,
    label: Seq<char>,
    goal: Seq<char>,
    max: u32,
    b: App,
    r: Seq<UserAction>,
) -> bool {
    &&& App::appended(App { loop_state: b.loop_state, ..a }, note(said), b)
    &&& b.loop_state matches Some(l) && l.goal@ == label && l.turns_run == 0 && l.max_turns == max
    &&& r.len() == 1
    &&& r[0] matches UserAction::StartLoop { goal: g, max_turns } && g@ == goal && max_turns == max
}

/// Whether the user was told how the command is used, and nothing else
/// happened.
pub open spec fn told_usage(a: App, usage: Seq<char>, b: App, r: Seq<UserAction>) -> bool {
    &&& r.len() == 0
    &&& App::appended(a, BlockModel::Error { text: usage }, b)
}

/// What `/loop start` does.
pub open spec fn loop_start(a: App, args: Seq<String>, b: App, r: Seq<UserAction>) -> bool {
    let raw = joined_args(args, 1);
    let (goal, max) = split_at_marker(raw, " max "@, 0);
    if trim(raw).len() == 0 {
        told_usage(a, "Usage: /loop start <goal> [max N]"@, b, r)
    } else {
        loop_started(
            a,
            "Loop started: \""@ + goal + "\" (max "@ + limit_text(max) + " turns)"@,
            goal,
            goal,
            max,
            b,
            r,
        )
    }
}

/// What `/loop supervise` does.
pub open spec fn loop_supervise(a: App, args: Seq<String>, b: App, r: Seq<UserAction>) -> bool {
    let command = joined_args(args, 1);
    if trim(command).len() == 0 {
        told_usage(a, "Usage: /loop supervise <command...>"@, b, r)
    } else {
        loop_started(
            a,
            "Supervise loop started: "@ + command,
            "supervise: "@ + command,
            replaced(supervise_orders(), "$COMMAND"@, command),
            0,
            b,
            r,
        )
    }
}

/// What `/loop trigger` does.
pub open spec fn loop_trigger(a: App, args: Seq<String>, b: App, r: Seq<UserAction>) -> bool {
    let text = joined_args(args, 1);
    if trim(text).len() == 0 {
        told_usage(a, "Usage: /loop trigger <text>"@, b, r)
    } else {
        &&& App::appended(a, note("Loop trigger: "@ + text), b)
        &&& r.len() == 1
        &&& r[0] matches UserAction::LoopTrigger { source, prompt } && source@ == "manual"@
            && prompt@ == text
    }
}

/// What `/loop` does with a goal in plain words, which is taken as it stands.
pub open spec fn loop_plain(a: App, args: Seq<String>, b: App, r: Seq<UserAction>) -> bool {
    let goal = joined_args(args, 0);
    if trim(goal).len() == 0 {
        told_usage(a, "Usage: /loop <goal>  (or /loop start|stop|trigger|supervise ...)"@, b, r)
    } else {
        loop_started(
            a,
            "Loop started: \""@ + goal + "\" (unlimited turns)"@,
            goal,
            goal,
            0,
            b,
            r,
        )
    }
}

fn start_loop(app: &mut App, said: &str, label: String, goal: String, max_turns: u32) -> (r: Vec<
    UserAction,
>)
    ensures
        loop_started(*old(app), said@, label@, goal@, max_turns, *final(app), r@),
{
    app.loop_state = Some(LoopUiState { goal: label, turns_run: 0, max_turns });
    app.push_system(said);
    let mut actions: Vec<UserAction> = Vec::new();
    actions.push(UserAction::StartLoop { goal, max_turns });
    actions
}

fn cmd_loop_start(app: &mut App, args: &[String]) -> (r: Vec<UserAction>)
    requires
        args@.len() > 0,
    ensures
        loop_start(*old(app), args@, *final(app), r@),
{
    let raw: String = join_args(args, 1);
    if is_blank(raw.as_str()) {
        app.push_error("Usage: /loop start <goal> [max N]");
        return Vec::new();
    }
    let (goal, max_turns) = parse_loop_start_args(raw.as_str());
    let limit: String = show_limit(max_turns);
    let said: String = concat5(
        "Loop started: \"",
        goal.as_str(),
        "\" (max ",
        limit.as_str(),
        " turns)",
    );
    start_loop(app, said.as_str(), goal.clone(), goal, max_turns)
}

fn cmd_loop_supervise(app: &mut App, args: &[String]) -> (r: Vec<UserAction>)
    requires
        args@.len() > 0,
    ensures
        loop_supervise(*old(app), args@, *final(app), r@),
{
    let command: String = join_args(args, 1);
    if is_blank(command.as_str()) {
        app.push_error("Usage: /loop supervise <command...>");
        return Vec::new();
    }
    let goal: String = supervise_goal(command.as_str());
    let label: String = concat2("supervise: ", command.as_str());
    let said: String = concat2("Supervise loop started: ", command.as_str());
    start_loop(app, said.as_str(), label, goal, 0)
}

fn cmd_loop_trigger(app: &mut App, args: &[String]) -> (r: Vec<UserAction>)
    requires
        args@.len() > 0,
    ensures
        loop_trigger(*old(app), args@, *final(app), r@),
{
    let text: String = join_args(args, 1);
    let mut actions: Vec<UserAction> = Vec::new();
    if is_blank(text.as_str()) {
        app.push_error("Usage: /loop trigger <text>");
        return actions;
    }
    let said: String = concat2("Loop trigger: ", text.as_str());
    app.push_system(said.as_str());
    actions.push(UserAction::LoopTrigger { source: "manual".to_owned(), prompt: text });
    actions
}

fn cmd_loop_plain(app: &mut App, args: &[String]) -> (r: Vec<UserAction>)
    ensures
        loop_plain(*old(app), args@, *final(app), r@),
{
    let goal: String = join_args(args, 0);
    if is_blank(goal.as_str()) {
        app.push_error("Usage: /loop <goal>  (or /loop start|stop|trigger|supervise ...)");
        return Vec::new();
    }
    let said: String = concat3("Loop started: \"", goal.as_str(), "\" (unlimited turns)");
    start_loop(app, said.as_str(), goal.clone(), goal, 0)
}

/// What `/loop` does.
pub open spec fn loop_command(a: App, args: Seq<String>, b: App, r: Seq<UserAction>) -> bool {
    if args.len() == 0 {
        &&& r.len() == 0
        &&& App::appended(a, note(loop_text(a.loop_state)), b)
    } else if args[0]@ == "start"@ {
        loop_start(a, args, b, r)
    } else if args[0]@ == "supervise"@ {
        loop_supervise(a, args, b, r)
    } else if args[0]@ == "stop"@ {
        &&& r == seq![UserAction::StopLoop]
        &&& App::appended(App { loop_state: None, ..a }, note("Loop stopped."@), b)
    } else if args[0]@ == "trigger"@ {
        loop_trigger(a, args, b, r)
    } else {
        loop_plain(a, args, b, r)
    }
}

/// `/loop`: shows, starts, stops or triggers the loop.
pub fn cmd_loop(app: &mut App, args: &[String]) -> (r: Vec<UserAction>)
    ensures
        loop_command(*old(app), args@, *final(app), r@),
{
    if args.len() == 0 {
        let text: String = describe_loop(&app.loop_state);
        app.push_system(text.as_str());
        return Vec::new();
    }
    if same_text(args[0].as_str(), "start") {
        cmd_loop_start(app, args)
    } else if same_text(args[0].as_str(), "supervise") {
        cmd_loop_supervise(app, args)
    } else if same_text(args[0].as_str(), "stop") {
        app.loop_state = None;
        app.push_system("Loop stopped.");
        let mut actions: Vec<UserAction> = Vec::new();
        actions.push(UserAction::StopLoop);
        proof {
            assert(actions@ =~= seq![UserAction::StopLoop]);
        }
        actions
    } else if same_text(args[0].as_str(), "trigger") {
        cmd_loop_trigger(app, args)
    } else {
        cmd_loop_plain(app, args)
    }
}

} // verus!
