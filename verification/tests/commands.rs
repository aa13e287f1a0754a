//! The slash commands and their panels.
use recursive_tui::app::{App, LoopUiState};
use recursive_tui::app::dispatch::{run_async, run_sync};
use recursive_tui::app::handlers::{cmd_mcp, finish_add_dir, DirResolution};
use recursive_tui::commands::{parse_goal_args, parse_loop_start_args, write_spec, CommandHandler, CommandOutcome, CommandRegistry, CommandSpec, SyncCommand};
use recursive_tui::cost::UsageStats;
use recursive_tui::events::UserAction;
use recursive_tui::modal::{JournalEntry, ResumeEntry};
use recursive_tui::model::TranscriptBlock;
use recursive_tui::model_picker::{build_model_picker_lines, collect_model_picker_entries, parse_model_picker_context, serde_model_picker_context, ModelPickerEntry, ProviderPreset};
use recursive_tui::ollama_probe::{ModelSpec, OllamaPickerModels};
use recursive_tui::pickers::{build_cost_lines, build_help_lines, build_journal_lines, build_resume_lines, build_theme_picker_lines, build_tool_lines, serde_journal_context, serde_resume_context, CostFigures};
use recursive_tui::runtime_builder::AccessTier;
use recursive_tui::skill_commands::SkillCommand;
use recursive_tui::style::{Color, Line, Style};
use recursive_tui::theme::all_themes;

fn bundled(name: &str) -> ModelSpec {
    ModelSpec { name: name.to_string(), context_window: 32_768, pricing: None }
}

fn preset(id: &str, key_env: &str, key: Option<&str>, models: &[&str]) -> ProviderPreset {
    ProviderPreset {
        id: id.to_string(),
        name: id.to_uppercase(),
        provider_type: "openai".to_string(),
        api_base: "https://example.invalid".to_string(),
        anthropic_api_base: None,
        key_env: key_env.to_string(),
        key: key.map(|k| k.to_string()),
        models: models.iter().map(|m| bundled(m)).collect(),
    }
}

fn presets(anthropic_key: Option<&str>) -> Vec<ProviderPreset> {
    vec![
        preset("ollama", "", None, &["qwen2.5-coder", "llama3.2"]),
        preset("deepseek", "DEEPSEEK_API_KEY", None, &["deepseek-chat"]),
        preset("anthropic", "ANTHROPIC_API_KEY", anthropic_key, &["some-model"]),
    ]
}

fn invoke(app: &mut App, line: &str) -> InvokeResult {
    let mut parts = line.split_whitespace();
    let name = parts.next().unwrap_or("");
    let args: Vec<String> = parts.map(String::from).collect();
    let Some(handler) = app.commands.lookup(name).map(|spec| spec.handler) else {
        app.push_error(&format!("Unknown command: /{name}. Try /help."));
        return InvokeResult::Unknown;
    };
    match handler {
        CommandHandler::Sync(f) => InvokeResult::Sync(run_sync(app, f, &args)),
        CommandHandler::Async(f) => InvokeResult::Async(run_async(app, f, &args)),
    }
}

fn add_dir(app: &mut App, line: &str, found: DirResolution) {
    invoke(app, line);
    let request = app.pending_dir.clone().expect("a directory to look up");
    finish_add_dir(app, request, found);
}

fn directory(path: &str) -> DirResolution {
    DirResolution::Directory { canonical: path.to_string() }
}

#[derive(Debug)]
enum InvokeResult {
    Sync(CommandOutcome),
    Async(Vec<UserAction>),
    Unknown,
}

#[test]
fn cmd_mcp_is_registered() {
    let r = CommandRegistry::default_set();
    assert!(r.lookup("mcp").is_some(), "/mcp should be registered");
    let spec = r.lookup("mcp").unwrap();
    assert!(matches!(spec.handler, CommandHandler::Async(_)));
}

#[test]
fn cmd_add_dir_is_registered() {
    let r = CommandRegistry::default_set();
    assert!(
        r.lookup("add-dir").is_some(),
        "/add-dir should be registered"
    );
    assert!(r.lookup("adddir").is_some(), "/adddir alias should resolve");
}

#[test]
fn cmd_add_dir_grants_readwrite_root() {
    let mut app = App::new();
    assert!(app.session_roots.is_empty());
    add_dir(&mut app, "add-dir work/extra", directory("/srv/work/extra"));
    let roots = app.session_roots.clone();
    assert_eq!(roots.len(), 1, "exactly one root granted: {roots:?}");
    assert_eq!(roots[0].0, "/srv/work/extra");
    assert!(matches!(
        roots[0].1,
        AccessTier::ReadWrite
    ));
}

#[test]
fn cmd_add_dir_ro_suffix_makes_readonly() {
    let mut app = App::new();
    add_dir(&mut app, "add-dir work/extra:ro", directory("/srv/work/extra"));
    let roots = app.session_roots.clone();
    assert_eq!(roots.len(), 1);
    assert!(matches!(roots[0].1, AccessTier::ReadOnly));
}

#[test]
fn cmd_add_dir_dedupes_known_path() {
    let mut app = App::new();
    add_dir(&mut app, "add-dir work/extra", directory("/srv/work/extra"));
    add_dir(&mut app, "add-dir work/extra", directory("/srv/work/extra"));
    let len = app.session_roots.len();
    assert_eq!(len, 1, "re-adding a known path must not duplicate");
}

#[test]
fn cmd_add_dir_rejects_missing_path() {
    let mut app = App::new();
    add_dir(
        &mut app,
        "add-dir /this/path/does/not/exist/recursive-test",
        DirResolution::Missing { error: "No such file or directory (os error 2)".to_string() },
    );
    let len = app.session_roots.len();
    assert_eq!(len, 0, "missing path must not be granted");
    let has_error = app
        .blocks
        .iter()
        .any(|b| matches!(b, TranscriptBlock::Error { text } if text.contains("add-dir")));
    assert!(has_error, "expected an error block mentioning /add-dir");
}

#[test]
fn cmd_theme_switches_to_light() {
    let mut app = App::new();
    assert_eq!(app.theme.name, "dark");
    invoke(&mut app, "theme light");
    assert_eq!(app.theme.name, "light");
}

#[test]
fn cmd_theme_no_args_opens_picker_panel() {
    let mut app = App::new();
    let r = invoke(&mut app, "theme");
    match r {
        InvokeResult::Sync(CommandOutcome::OpenPanel(panel)) => {
            assert_eq!(panel.command_name, "theme");
            assert!(panel.selected.is_some());
        }
        other => panic!("expected OpenPanel for /theme, got {other:?}"),
    }
}

#[test]
fn theme_panel_list_offset_aligns_highlight_with_marker() {
    let mut app = App::new();
    let r = invoke(&mut app, "theme");
    let panel = match r {
        InvokeResult::Sync(CommandOutcome::OpenPanel(panel)) => panel,
        other => panic!("expected OpenPanel for /theme, got {other:?}"),
    };
    let sel = panel.selected.expect("theme panel has a selection");
    let highlight_idx = sel + panel.list_offset;
    let marker_idx = panel
        .lines
        .iter()
        .position(|line| line.spans.iter().any(|s| s.content.contains('▶')))
        .expect("a ▶ marker should be present");
    assert_eq!(
        highlight_idx, marker_idx,
        "highlight bar row must match the ▶ marker row"
    );
}

#[test]
fn cmd_theme_unknown_shows_error() {
    let mut app = App::new();
    invoke(&mut app, "theme neon");
    assert_eq!(app.theme.name, "dark");
}

#[test]
fn registry_finds_help_by_name_and_alias() {
    let r = CommandRegistry::default_set();
    assert!(r.lookup("help").is_some());
    assert!(r.lookup("?").is_some());
    assert!(r.lookup("/help").is_none());
    assert!(r.lookup("nope").is_none());
}

#[test]
fn registry_includes_all_builtin_commands() {
    let r = CommandRegistry::default_set();
    let names: Vec<&str> = r.commands().iter().map(|c| c.name).collect();
    for expected in &[
        "help",
        "clear",
        "compact",
        "cost",
        "model",
        "status",
        "tools",
        "plan",
        "journal",
        "exit",
        "permissions",
        "add-dir",
        "goal",
        "mcp",
        "theme",
    ] {
        assert!(
            names.contains(expected),
            "missing /{expected}: have {names:?}"
        );
    }
    assert_eq!(names.len(), 17);
}

#[test]
fn registry_search_returns_prefix_matches_sorted() {
    let r = CommandRegistry::default_set();
    let hits: Vec<&str> = r.search("c").iter().map(|c| c.name).collect();
    assert_eq!(hits, vec!["clear", "compact", "cost"]);
    let hits: Vec<&str> = r.search("?").iter().map(|c| c.name).collect();
    assert!(hits.contains(&"help"));
    let hits: Vec<&str> = r.search("").iter().map(|c| c.name).collect();
    assert_eq!(hits.len(), 17);
    let mut sorted = hits.clone();
    sorted.sort();
    assert_eq!(hits, sorted);
}

#[test]
fn clear_resets_transcript_and_usage() {
    let mut app = App::new();
    app.usage.total_input = 1000;
    app.usage.total_output = 500;
    app.blocks.push(TranscriptBlock::User {
        text: "hello".into(),
    });
    app.blocks.push(TranscriptBlock::Assistant {
        text: "hi".into(),
        streaming: false,
        latency_ms: None,
    });
    let _ = invoke(&mut app, "clear");
    assert_eq!(app.blocks.len(), 1);
    assert!(matches!(
        &app.blocks[0],
        TranscriptBlock::System { text } if text.contains("cleared")
    ));
    assert_eq!(app.usage.total_input, 0);
    assert_eq!(app.usage.total_output, 0);
}

#[test]
fn exit_sets_should_quit() {
    let mut app = App::new();
    let _ = invoke(&mut app, "exit");
    assert!(app.should_quit);
    let mut app2 = App::new();
    let _ = invoke(&mut app2, "q");
    assert!(app2.should_quit);
    let mut app3 = App::new();
    let _ = invoke(&mut app3, "quit");
    assert!(app3.should_quit);
}

#[test]
fn status_appends_system_block_with_turn_count() {
    let mut app = App::new();
    app.turn_count = 7;
    let _ = invoke(&mut app, "status");
    let last = app.blocks.last().unwrap();
    match last {
        TranscriptBlock::System { text } => {
            assert!(text.contains("turn 7"), "got {text:?}");
        }
        other => panic!("expected System, got {other:?}"),
    }
}

#[test]
fn unknown_command_pushes_error_block() {
    let mut app = App::new();
    let r = invoke(&mut app, "frobnicate");
    assert!(matches!(r, InvokeResult::Unknown));
    match app.blocks.last() {
        Some(TranscriptBlock::Error { text }) => {
            assert!(text.contains("Unknown command"), "got {text:?}");
        }
        other => panic!("expected Error block, got {other:?}"),
    }
}

#[test]
fn plan_command_shows_deprecation_notice() {
    let mut app = App::new();
    let r = invoke(&mut app, "plan on");
    match r {
        InvokeResult::Async(actions) => {
            assert!(actions.is_empty(), "expected no actions after plan removal");
        }
        other => panic!("expected async result, got {other:?}"),
    }
    match app.blocks.last() {
        Some(TranscriptBlock::System { text }) => {
            assert!(text.contains("PlanFirst mode has been removed"))
        }
        other => panic!("expected System block with deprecation notice, got {other:?}"),
    }
}

#[test]
fn help_opens_panel() {
    let mut app = App::new();
    let r = invoke(&mut app, "help");
    match r {
        InvokeResult::Sync(CommandOutcome::OpenPanel(panel)) => {
            assert_eq!(panel.command_name, "help");
            let text: String = panel
                .lines
                .iter()
                .flat_map(|l| l.spans.iter().map(|s| s.content.clone()))
                .collect();
            assert!(text.contains("/help"));
        }
        other => panic!("expected OpenPanel for help, got {other:?}"),
    }
}

#[test]
fn cost_opens_panel() {
    let mut app = App::new();
    let r = invoke(&mut app, "cost");
    match r {
        InvokeResult::Sync(CommandOutcome::OpenPanel(panel)) => {
            assert_eq!(panel.command_name, "cost");
        }
        other => panic!("expected OpenPanel for cost, got {other:?}"),
    }
}

#[test]
fn tools_opens_panel_with_catalog() {
    let mut app = App::new();
    let r = invoke(&mut app, "tools");
    match r {
        InvokeResult::Sync(CommandOutcome::OpenPanel(panel)) => {
            assert_eq!(panel.command_name, "tools");
            let text: String = panel
                .lines
                .iter()
                .flat_map(|l| l.spans.iter().map(|s| s.content.clone()))
                .collect();
            assert!(text.contains("tools"));
        }
        other => panic!("expected OpenPanel for tools, got {other:?}"),
    }
}

#[test]
fn compact_returns_compact_action() {
    let mut app = App::new();
    let r = invoke(&mut app, "compact");
    match r {
        InvokeResult::Async(actions) => {
            assert_eq!(actions, vec![UserAction::Compact]);
        }
        other => panic!("expected Async([Compact]), got {other:?}"),
    }
}

#[test]
fn parse_loop_start_args_no_max_defaults_unlimited() {
    let (goal, max) = parse_loop_start_args("watch the build");
    assert_eq!(goal, "watch the build");
    assert_eq!(max, 0);
}

#[test]
fn parse_loop_start_args_with_max_n() {
    let (goal, max) = parse_loop_start_args("watch the build max 5");
    assert_eq!(goal, "watch the build");
    assert_eq!(max, 5);
}

#[test]
fn parse_loop_start_args_max_case_insensitive() {
    let (goal, max) = parse_loop_start_args("GO MAX 3");
    assert_eq!(goal, "GO");
    assert_eq!(max, 3);
}

#[test]
fn parse_loop_start_args_max_zero_is_explicit() {
    let (goal, max) = parse_loop_start_args("do stuff max 0");
    assert_eq!(goal, "do stuff");
    assert_eq!(max, 0);
}

#[test]
fn parse_loop_start_args_max_non_numeric_defaults_zero() {
    let (goal, max) = parse_loop_start_args("go max abc");
    assert_eq!(goal, "go");
    assert_eq!(max, 0);
}

#[test]
fn parse_loop_start_args_trims_goal() {
    let (goal, _) = parse_loop_start_args("   trim me   ");
    assert_eq!(goal, "trim me");
}

#[test]
fn parse_loop_start_args_max_must_be_delimited_by_spaces() {
    let (goal, max) = parse_loop_start_args("watch max5");
    assert_eq!(goal, "watch max5");
    assert_eq!(max, 0);
}

#[test]
fn parse_goal_args_no_suffix_defaults_twenty() {
    let (cond, max) = parse_goal_args("achieve X");
    assert_eq!(cond, "achieve X");
    assert_eq!(max, 20);
}

#[test]
fn parse_goal_args_with_stop_after_n() {
    let (cond, max) = parse_goal_args("achieve X or stop after 5 turns");
    assert_eq!(cond, "achieve X");
    assert_eq!(max, 5);
}

#[test]
fn parse_goal_args_stop_after_non_numeric_defaults_twenty() {
    let (cond, max) = parse_goal_args("X or stop after abc turns");
    assert_eq!(cond, "X");
    assert_eq!(max, 20);
}

#[test]
fn parse_goal_args_case_insensitive_suffix() {
    let (cond, max) = parse_goal_args("X OR STOP AFTER 7 turns");
    assert_eq!(cond, "X");
    assert_eq!(max, 7);
}

#[test]
fn cmd_loop_no_args_no_active_loop() {
    let mut app = App::new();
    let r = invoke(&mut app, "loop");
    assert!(matches!(r, InvokeResult::Async(a) if a.is_empty()));
    match app.blocks.last() {
        Some(TranscriptBlock::System { text }) => {
            assert!(text.contains("No active loop"), "got {text:?}");
        }
        other => panic!("expected System, got {other:?}"),
    }
}

#[test]
fn cmd_loop_no_args_shows_active_loop_status() {
    let mut app = App::new();
    app.loop_state = Some(LoopUiState {
        goal: "g".into(),
        turns_run: 2,
        max_turns: 5,
    });
    let r = invoke(&mut app, "loop");
    assert!(matches!(r, InvokeResult::Async(a) if a.is_empty()));
    match app.blocks.last() {
        Some(TranscriptBlock::System { text }) => {
            assert!(text.contains("Loop active"), "got {text:?}");
            assert!(text.contains("2/5"));
        }
        other => panic!("expected System, got {other:?}"),
    }
}

#[test]
fn cmd_loop_no_args_unlimited_max_shown() {
    let mut app = App::new();
    app.loop_state = Some(LoopUiState {
        goal: "g".into(),
        turns_run: 3,
        max_turns: 0,
    });
    let r = invoke(&mut app, "loop");
    assert!(matches!(r, InvokeResult::Async(a) if a.is_empty()));
    match app.blocks.last() {
        Some(TranscriptBlock::System { text }) => {
            assert!(text.contains("unlimited"), "got {text:?}");
        }
        other => panic!("expected System, got {other:?}"),
    }
}

#[test]
fn cmd_loop_start_emits_start_action_and_state() {
    let mut app = App::new();
    let r = invoke(&mut app, "loop start watch the build");
    match r {
        InvokeResult::Async(actions) => {
            assert_eq!(actions.len(), 1);
            match &actions[0] {
                UserAction::StartLoop { goal, max_turns } => {
                    assert_eq!(goal, "watch the build");
                    assert_eq!(*max_turns, 0);
                }
                other => panic!("expected StartLoop, got {other:?}"),
            }
        }
        other => panic!("expected Async, got {other:?}"),
    }
    let ls = app.loop_state.as_ref().expect("loop_state set");
    assert_eq!(ls.goal, "watch the build");
    assert_eq!(ls.max_turns, 0);
    assert_eq!(ls.turns_run, 0);
}

#[test]
fn cmd_loop_start_with_max_n() {
    let mut app = App::new();
    let r = invoke(&mut app, "loop start watch max 3");
    match r {
        InvokeResult::Async(actions) => match &actions[0] {
            UserAction::StartLoop { goal, max_turns } => {
                assert_eq!(goal, "watch");
                assert_eq!(*max_turns, 3);
            }
            other => panic!("expected StartLoop, got {other:?}"),
        },
        other => panic!("expected Async, got {other:?}"),
    }
}

#[test]
fn cmd_loop_start_empty_goal_errors() {
    let mut app = App::new();
    let r = invoke(&mut app, "loop start");
    assert!(matches!(r, InvokeResult::Async(a) if a.is_empty()));
    match app.blocks.last() {
        Some(TranscriptBlock::Error { text }) => {
            assert!(text.contains("Usage"), "got {text:?}");
        }
        other => panic!("expected Error, got {other:?}"),
    }
    assert!(app.loop_state.is_none(), "no state on usage error");
}

#[test]
fn cmd_loop_stop_emits_stop_and_clears_state() {
    let mut app = App::new();
    app.loop_state = Some(LoopUiState {
        goal: "g".into(),
        turns_run: 1,
        max_turns: 0,
    });
    let r = invoke(&mut app, "loop stop");
    match r {
        InvokeResult::Async(actions) => {
            assert_eq!(actions, vec![UserAction::StopLoop]);
        }
        other => panic!("expected Async([StopLoop]), got {other:?}"),
    }
    assert!(app.loop_state.is_none());
    match app.blocks.last() {
        Some(TranscriptBlock::System { text }) => {
            assert!(text.contains("Loop stopped"), "got {text:?}");
        }
        other => panic!("expected System, got {other:?}"),
    }
}

#[test]
fn cmd_loop_trigger_emits_manual_trigger() {
    let mut app = App::new();
    let r = invoke(&mut app, "loop trigger check it");
    match r {
        InvokeResult::Async(actions) => match &actions[0] {
            UserAction::LoopTrigger { source, prompt } => {
                assert_eq!(source, "manual");
                assert_eq!(prompt, "check it");
            }
            other => panic!("expected LoopTrigger, got {other:?}"),
        },
        other => panic!("expected Async, got {other:?}"),
    }
}

#[test]
fn cmd_loop_trigger_empty_errors() {
    let mut app = App::new();
    let r = invoke(&mut app, "loop trigger");
    assert!(matches!(r, InvokeResult::Async(a) if a.is_empty()));
    match app.blocks.last() {
        Some(TranscriptBlock::Error { text }) => {
            assert!(text.contains("Usage"), "got {text:?}");
        }
        other => panic!("expected Error, got {other:?}"),
    }
}

#[test]
fn cmd_loop_default_treats_args_as_natural_language_goal() {
    let mut app = App::new();
    let r = invoke(&mut app, "loop find the max value in src");
    match r {
        InvokeResult::Async(actions) => {
            assert_eq!(actions.len(), 1);
            match &actions[0] {
                UserAction::StartLoop { goal, max_turns } => {
                    assert_eq!(goal, "find the max value in src");
                    assert_eq!(*max_turns, 0, "default loop is unlimited");
                }
                other => panic!("expected StartLoop, got {other:?}"),
            }
        }
        other => panic!("expected Async, got {other:?}"),
    }
    let ls = app.loop_state.as_ref().expect("loop_state set");
    assert_eq!(ls.goal, "find the max value in src");
}

#[test]
fn cmd_loop_default_preserves_goal_with_trailing_max_word() {
    let mut app = App::new();
    let r = invoke(&mut app, "loop tune the cache max");
    match r {
        InvokeResult::Async(actions) => match &actions[0] {
            UserAction::StartLoop { goal, max_turns } => {
                assert_eq!(goal, "tune the cache max");
                assert_eq!(*max_turns, 0);
            }
            other => panic!("expected StartLoop, got {other:?}"),
        },
        other => panic!("expected Async, got {other:?}"),
    }
}

#[test]
fn cmd_loop_supervise_emits_start_with_sop_goal() {
    let mut app = App::new();
    let r = invoke(&mut app, "loop supervise node flow.js --goal-file g.md");
    match r {
        InvokeResult::Async(actions) => {
            assert_eq!(actions.len(), 1);
            match &actions[0] {
                UserAction::StartLoop { goal, max_turns } => {
                    assert!(goal.contains("Supervise mode"), "SOP body missing: {goal}");
                    assert!(
                        goal.contains("node flow.js --goal-file g.md"),
                        "command not substituted: {goal}"
                    );
                    assert!(!goal.contains("$COMMAND"), "unsubstituted placeholder");
                    assert_eq!(*max_turns, 0, "supervise is unlimited");
                }
                other => panic!("expected StartLoop, got {other:?}"),
            }
        }
        other => panic!("expected Async, got {other:?}"),
    }
    let ls = app.loop_state.as_ref().expect("loop_state set");
    assert_eq!(ls.goal, "supervise: node flow.js --goal-file g.md");
    assert_eq!(ls.max_turns, 0);
}

#[test]
fn cmd_loop_supervise_empty_errors() {
    let mut app = App::new();
    let r = invoke(&mut app, "loop supervise");
    assert!(matches!(r, InvokeResult::Async(a) if a.is_empty()));
    match app.blocks.last() {
        Some(TranscriptBlock::Error { text }) => {
            assert!(text.contains("Usage"), "got {text:?}");
        }
        other => panic!("expected Error, got {other:?}"),
    }
    assert!(app.loop_state.is_none(), "no state on usage error");
}

#[test]
fn registry_includes_loop_command() {
    let r = CommandRegistry::default_set();
    assert!(r.lookup("loop").is_some(), "/loop should be registered");
    let spec = r.lookup("loop").unwrap();
    assert!(matches!(spec.handler, CommandHandler::Async(_)));
}

#[test]
fn command_spec_debug_includes_all_fields() {
    let spec = CommandSpec {
        name: "frob",
        aliases: &["f", "fb"],
        summary: "frob a thing",
        usage: "/frob <x>",
        handler: CommandHandler::Sync(SyncCommand::Clear),
    };
    let s = spec.debug_text();
    assert!(s.contains("CommandSpec"), "got {s:?}");
    assert!(s.contains("frob"), "name missing: {s:?}");
    assert!(s.contains("frob a thing"), "summary missing: {s:?}");
    assert!(s.contains("/frob <x>"), "usage missing: {s:?}");
    assert!(s.contains("<fn>"), "handler placeholder missing: {s:?}");
}

#[test]
fn command_text_escapes_as_the_debug_format_does() {
    let spec = CommandSpec {
        name: "a\u{1}\u{7f}",
        aliases: &["é…", "\u{200b}"],
        summary: "say \"hi\"\n\\",
        usage: "\0",
        handler: CommandHandler::Sync(SyncCommand::Clear),
    };
    assert_eq!(
        spec.debug_text(),
        "CommandSpec { name: \"a\\u{1}\\u{7f}\", aliases: [\"é…\", \"\\u{200b}\"], summary: \"say \\\"hi\\\"\\n\\\\\", usage: \"\\0\", handler: \"<fn>\" }"
    );
    let parts = vec!["\"f\"".to_string(), "\"g\"".to_string()];
    assert_eq!(
        write_spec("\"n\"", &parts, "\"s\"", "\"u\""),
        "CommandSpec { name: \"n\", aliases: [\"f\", \"g\"], summary: \"s\", usage: \"u\", handler: \"<fn>\" }"
    );
}

#[test]
fn no_two_builtins_share_a_name() {
    let registry = CommandRegistry::default_set();
    let mut seen: Vec<&str> = Vec::new();
    for c in registry.commands() {
        for name in std::iter::once(&c.name).chain(c.aliases.iter()) {
            assert!(!seen.contains(name), "{name} is taken twice");
            seen.push(name);
            assert_eq!(registry.lookup(name).map(|found| found.name), Some(c.name));
        }
    }
    assert_eq!(seen.len(), 24);
}

#[test]
fn search_widens_with_a_shorter_prefix() {
    let registry = CommandRegistry::default_set();
    let narrow: Vec<&str> = registry.search("/co").iter().map(|c| c.name).collect();
    let wide: Vec<&str> = registry.search("/c").iter().map(|c| c.name).collect();
    assert_eq!(narrow, vec!["compact", "cost"]);
    assert_eq!(wide, vec!["clear", "compact", "cost"]);
}

#[test]
fn limits_come_back_as_they_were_written() {
    assert_eq!(parse_loop_start_args("to the max max 7"), ("to the max".into(), 7));
    assert_eq!(parse_loop_start_args(" max  max 4294967295"), ("max".into(), u32::MAX));
    assert_eq!(
        parse_goal_args("stop or stop after 3 turns or stop after 12 turns"),
        ("stop or stop after 3 turns".into(), 12)
    );
}

fn sample_skill(name: &str, aliases: &[&str]) -> SkillCommand {
    SkillCommand {
        name: name.into(),
        description: "desc".into(),
        aliases: aliases.iter().map(|s| s.to_string()).collect(),
        argument_hint: "".into(),
        allowed_tools: None,
        prompt_template: "do $ARGUMENTS".into(),
        source_path: String::new(),
    }
}

#[test]
fn lookup_skill_returns_none_when_builtin_shadows() {
    let r = CommandRegistry::default_set().with_skill_commands(vec![sample_skill("help", &[])]);
    assert!(
        r.lookup_skill("help").is_none(),
        "built-in name shadows skill"
    );
    let r2 = CommandRegistry::default_set()
        .with_skill_commands(vec![sample_skill("help", &["hlpx"])]);
    assert!(
        r2.lookup_skill("hlpx").is_some(),
        "non-built-in alias resolves"
    );
}

#[test]
fn lookup_skill_finds_skill_by_name() {
    let r = CommandRegistry::default_set().with_skill_commands(vec![sample_skill("frob", &[])]);
    let s = r.lookup_skill("frob").expect("skill by name");
    assert_eq!(s.name, "frob");
}

#[test]
fn lookup_skill_finds_skill_by_alias() {
    let r =
        CommandRegistry::default_set().with_skill_commands(vec![sample_skill("frob", &["fb"])]);
    let s = r.lookup_skill("fb").expect("skill by alias");
    assert_eq!(s.name, "frob");
}

#[test]
fn lookup_skill_returns_none_for_unknown() {
    let r = CommandRegistry::default_set().with_skill_commands(vec![sample_skill("frob", &[])]);
    assert!(r.lookup_skill("nope").is_none());
}

#[test]
fn cmd_permissions_on_enables_hook() {
    let mut app = App::new();
    for arg in ["on", "true", "1"] {
        let r = invoke(&mut app, &format!("permissions {arg}"));
        assert!(
            matches!(r, InvokeResult::Sync(CommandOutcome::Done)),
            "arg {arg}"
        );
        assert!(
            app.permission_hook_enabled,
            "arg {arg} should enable"
        );
    }
    match app.blocks.last() {
        Some(TranscriptBlock::System { text }) => assert!(text.contains("on"), "got {text:?}"),
        other => panic!("expected System, got {other:?}"),
    }
}

#[test]
fn cmd_permissions_off_disables_and_clears_auto_allow() {
    let mut app = App::new();
    app.permission_hook_enabled = true;
    app.auto_allowed_tools.push("Bash".into());
    for arg in ["off", "false", "0"] {
        let r = invoke(&mut app, &format!("permissions {arg}"));
        assert!(
            matches!(r, InvokeResult::Sync(CommandOutcome::Done)),
            "arg {arg}"
        );
        assert!(
            !app.permission_hook_enabled,
            "arg {arg} should disable"
        );
        assert!(
            app.auto_allowed_tools.is_empty(),
            "arg {arg} should clear auto-allow"
        );
    }
    match app.blocks.last() {
        Some(TranscriptBlock::System { text }) => assert!(text.contains("off"), "got {text:?}"),
        other => panic!("expected System, got {other:?}"),
    }
}

#[test]
fn cmd_permissions_no_arg_shows_usage_with_current_state() {
    let mut app = App::new();
    app.permission_hook_enabled = false;
    let r = invoke(&mut app, "permissions");
    assert!(matches!(r, InvokeResult::Sync(CommandOutcome::Done)));
    match app.blocks.last() {
        Some(TranscriptBlock::Error { text }) => {
            assert!(text.contains("Usage"), "got {text:?}");
            assert!(text.contains("currently off"), "got {text:?}");
        }
        other => panic!("expected Error, got {other:?}"),
    }
}

#[test]
fn cmd_add_dir_dash_dash_ro_flag_grants_readonly() {
    let mut app = App::new();
    add_dir(&mut app, "add-dir work/extra --ro", directory("/srv/work/extra"));
    let roots = app.session_roots.clone();
    assert_eq!(roots.len(), 1);
    assert!(matches!(roots[0].1, AccessTier::ReadOnly));
}

#[test]
fn cmd_add_dir_short_r_flag_grants_readonly() {
    let mut app = App::new();
    add_dir(&mut app, "add-dir work/extra -r", directory("/srv/work/extra"));
    let roots = app.session_roots.clone();
    assert_eq!(roots.len(), 1);
    assert!(matches!(roots[0].1, AccessTier::ReadOnly));
}

#[test]
fn cmd_goal_no_args_no_active_goal() {
    let mut app = App::new();
    let r = invoke(&mut app, "goal");
    assert!(matches!(r, InvokeResult::Async(a) if a.is_empty()));
    match app.blocks.last() {
        Some(TranscriptBlock::System { text }) => {
            assert!(text.contains("No active goal"), "got {text:?}");
        }
        other => panic!("expected System, got {other:?}"),
    }
}

#[test]
fn cmd_goal_clear_emits_clear_action() {
    let mut app = App::new();
    let r = invoke(&mut app, "goal clear");
    match r {
        InvokeResult::Async(actions) => {
            assert_eq!(actions, vec![UserAction::ClearGoal]);
        }
        other => panic!("expected Async([ClearGoal]), got {other:?}"),
    }
    assert!(app.active_goal.is_none());
    match app.blocks.last() {
        Some(TranscriptBlock::System { text }) => {
            assert!(text.contains("Goal cleared"), "got {text:?}");
        }
        other => panic!("expected System, got {other:?}"),
    }
}

#[test]
fn cmd_goal_clear_is_case_insensitive() {
    let mut app = App::new();
    let r = invoke(&mut app, "goal CLEAR");
    assert_eq!(
        match r {
            InvokeResult::Async(a) => a,
            _ => vec![],
        },
        vec![UserAction::ClearGoal]
    );
}

#[test]
fn cmd_goal_set_emits_set_goal_with_parsed_max() {
    let mut app = App::new();
    let r = invoke(&mut app, "goal achieve X or stop after 5 turns");
    match r {
        InvokeResult::Async(actions) => match &actions[0] {
            UserAction::SetGoal {
                condition,
                max_turns,
            } => {
                assert_eq!(condition, "achieve X");
                assert_eq!(*max_turns, 5);
            }
            other => panic!("expected SetGoal, got {other:?}"),
        },
        other => panic!("expected Async, got {other:?}"),
    }
    match app.blocks.last() {
        Some(TranscriptBlock::System { text }) => {
            assert!(text.contains("Goal set"), "got {text:?}");
        }
        other => panic!("expected System, got {other:?}"),
    }
}

fn text_of(lines: &[Line]) -> String {
    lines
        .iter()
        .flat_map(|l| l.spans.iter())
        .map(|s| s.content.clone())
        .collect::<Vec<_>>()
        .join("")
}

#[test]
fn build_cost_lines_computes_per_token_costs() {
    let usage = UsageStats {
        total_input: 1_000_000,
        total_output: 2_000_000,
        last_latency_ms: 1_500,
        ..Default::default()
    };
    let model = "MiniMax-M3";
    let cost_in = 1_000_000.0 * 0.3 / 1_000_000.0;
    let cost_out = 2_000_000.0 * 1.2 / 1_000_000.0;
    let cost_total = cost_in + cost_out;

    let figures = Some(CostFigures {
        input: format!("{cost_in:.4}"),
        output: format!("{cost_out:.4}"),
        total: format!("{cost_total:.4}"),
    });
    let text = text_of(&build_cost_lines(&usage, model, &figures, "1.50"));
    assert!(
        text.contains(&format!("(${cost_in:.4})")),
        "input cost missing in {text:?}"
    );
    assert!(
        text.contains(&format!("(${cost_out:.4})")),
        "output cost missing in {text:?}"
    );
    assert!(
        text.contains(&format!("(${cost_total:.4})")),
        "total cost missing in {text:?}"
    );
    assert!(text.contains("Provider         : MiniMax-M3"));
}

#[test]
fn cmd_model_opens_interactive_picker_panel() {
    let mut app = App::new();
    let r = invoke(&mut app, "model");
    match r {
        InvokeResult::Sync(CommandOutcome::OpenPanel(panel)) => {
            assert_eq!(panel.command_name, "model");
            assert!(panel.selected.is_some(), "picker should have a cursor");
            assert!(
                panel.item_count > 0,
                "picker should list at least one model"
            );
            let text = text_of(&panel.lines);
            assert!(
                text.contains("Select model"),
                "picker should have a header, got {text:?}"
            );
            assert!(
                text.contains('▶'),
                "picker should mark the selected row, got {text:?}"
            );
            assert!(
                panel.context.is_some(),
                "picker should carry a serialised context for confirm"
            );
        }
        other => panic!("expected OpenPanel for /model, got {other:?}"),
    }
}

#[test]
fn collect_model_picker_entries_is_sorted_and_nonempty() {
    let probe = OllamaPickerModels::Bundled;
    let entries = collect_model_picker_entries(&presets(None), &probe, None);
    assert!(!entries.is_empty(), "bundled catalog should list models");
    let mut sorted = entries.clone();
    sorted.sort_by(|a, b| {
        a.preset_id
            .cmp(&b.preset_id)
            .then_with(|| a.model.cmp(&b.model))
    });
    assert_eq!(
        entries, sorted,
        "entries should be sorted by preset then model"
    );
}

#[test]
fn build_model_picker_lines_marks_active_and_selected_rows() {
    let entries = vec![
        ModelPickerEntry {
            preset_id: "alpha".into(),
            preset_name: "Alpha".into(),
            model: "a-1".into(),
            context_window: 128_000,
            pricing: Some(("1".into(), "5".into())),
        },
        ModelPickerEntry {
            preset_id: "beta".into(),
            preset_name: "Beta".into(),
            model: "b-2".into(),
            context_window: 0,
            pricing: None,
        },
    ];
    let lines = build_model_picker_lines(&entries, "b-2", 1, 0);
    let text = text_of(&lines);
    assert!(
        text.contains("current: b-2"),
        "header should name the active model: {text:?}"
    );
    assert!(
        text.contains('✓'),
        "active row should carry a checkmark: {text:?}"
    );
    assert!(
        text.contains('▶'),
        "selected row should carry the cursor: {text:?}"
    );
    assert!(
        text.contains("$1/$5 per Mtok"),
        "pricing should render for the priced entry: {text:?}"
    );
    assert!(
        text.contains("no pricing"),
        "missing pricing should render a placeholder: {text:?}"
    );
}

#[test]
fn collect_model_picker_entries_filters_unconfigured_presets() {
    let probe = OllamaPickerModels::Bundled;

    let entries = collect_model_picker_entries(&presets(None), &probe, None);
    let has_anthropic = entries.iter().any(|e| e.preset_id == "anthropic");
    assert!(
        !has_anthropic,
        "anthropic must NOT appear without ANTHROPIC_API_KEY, got: {:?}",
        entries
            .iter()
            .map(|e| e.preset_id.as_str())
            .collect::<Vec<_>>()
    );

    let entries = collect_model_picker_entries(
        &presets(Some("sk-anthropic-dummy")),
        &OllamaPickerModels::Bundled,
        None,
    );
    let has_anthropic = entries.iter().any(|e| e.preset_id == "anthropic");
    assert!(
        has_anthropic,
        "anthropic must appear once ANTHROPIC_API_KEY is set"
    );
}

#[test]
fn collect_model_picker_entries_keeps_active_preset_without_key() {
    let probe = OllamaPickerModels::Bundled;

    let entries = collect_model_picker_entries(&presets(None), &probe, Some("anthropic"));
    let preset_ids: Vec<&str> = entries.iter().map(|e| e.preset_id.as_str()).collect();
    assert!(
        preset_ids.contains(&"anthropic"),
        "active preset must stay listed without a key, got: {preset_ids:?}"
    );
}

#[test]
fn ollama_hidden_when_unreachable_and_not_active() {
    let probe = OllamaPickerModels::Unreachable;

    let entries = collect_model_picker_entries(&presets(None), &probe, None);
    assert!(
        !entries.iter().any(|e| e.preset_id == "ollama"),
        "ollama must not appear when unreachable, got: {:?}",
        entries
            .iter()
            .map(|e| e.preset_id.as_str())
            .collect::<Vec<_>>()
    );
}

#[test]
fn ollama_kept_when_unreachable_but_active() {
    let probe = OllamaPickerModels::Unreachable;

    let entries = collect_model_picker_entries(&presets(None), &probe, Some("ollama"));
    let ollama_rows: Vec<&ModelPickerEntry> =
        entries.iter().filter(|e| e.preset_id == "ollama").collect();
    assert!(
        !ollama_rows.is_empty(),
        "active ollama must stay listed when unreachable, got: {:?}",
        entries
            .iter()
            .map(|e| e.preset_id.as_str())
            .collect::<Vec<_>>()
    );
    assert!(
        ollama_rows.iter().any(|e| e.model == "qwen2.5-coder"),
        "should fall back to bundled ollama models"
    );
}

#[test]
fn ollama_lists_real_local_models_when_reachable() {
    let probed = vec![ModelSpec {
        name: "my-local-model:latest".into(),
        context_window: 4096,
        pricing: None,
    }];
    let probe = OllamaPickerModels::Local(probed);

    let entries = collect_model_picker_entries(&presets(None), &probe, Some("ollama"));
    let ollama_rows: Vec<&ModelPickerEntry> =
        entries.iter().filter(|e| e.preset_id == "ollama").collect();
    assert_eq!(
        ollama_rows.len(),
        1,
        "exactly one probed model, got {ollama_rows:?}"
    );
    assert_eq!(ollama_rows[0].model, "my-local-model:latest");
    assert_eq!(ollama_rows[0].context_window, 4096);
}

#[test]
fn ollama_hidden_when_reachable_but_no_models() {
    let probe = OllamaPickerModels::Local(Vec::new());

    let entries = collect_model_picker_entries(&presets(None), &probe, None);
    assert!(
        !entries.iter().any(|e| e.preset_id == "ollama"),
        "empty ollama should be hidden"
    );
}

#[test]
fn serde_and_parse_model_picker_context_round_trip() {
    let entries = vec![
        ModelPickerEntry {
            preset_id: "alpha".into(),
            preset_name: "Alpha".into(),
            model: "a-1".into(),
            context_window: 0,
            pricing: None,
        },
        ModelPickerEntry {
            preset_id: "beta".into(),
            preset_name: "Beta".into(),
            model: "b-2".into(),
            context_window: 0,
            pricing: None,
        },
    ];
    let ctx = serde_model_picker_context(&entries);
    assert_eq!(
        parse_model_picker_context(&ctx, 0),
        Some(("alpha".into(), "a-1".into()))
    );
    assert_eq!(
        parse_model_picker_context(&ctx, 1),
        Some(("beta".into(), "b-2".into()))
    );
    assert!(
        parse_model_picker_context(&ctx, 99).is_none(),
        "out-of-range → None"
    );
    assert!(
        parse_model_picker_context("garbage", 0).is_none(),
        "malformed line → None"
    );
    assert!(
        parse_model_picker_context("", 0).is_none(),
        "empty ctx → None"
    );
}

#[test]
fn build_tool_lines_truncates_long_descriptions_at_60_chars() {
    let long = (0..61).map(|_| 'x').collect::<String>();
    let lines = build_tool_lines(&[("Tool61".to_string(), long.clone())]);
    let text = text_of(&lines);
    assert!(
        text.contains('…'),
        "61-char desc should be ellipsised: {text:?}"
    );
    assert!(text.contains("Available tools (1)"));

    let exact = (0..60).map(|_| 'y').collect::<String>();
    let lines60 = build_tool_lines(&[("Tool60".to_string(), exact.clone())]);
    let text60 = text_of(&lines60);
    assert!(
        !text60.contains('…'),
        "60-char desc should not be ellipsised: {text60:?}"
    );
    assert!(text60.contains(&exact));
}

#[test]
fn build_tool_lines_empty_state_message() {
    let lines = build_tool_lines(&[]);
    let text = text_of(&lines);
    assert!(text.contains("(no tools registered)"), "got {text:?}");
    assert!(text.contains("Available tools (0)"));
}

fn journal(name: &str, preview: &str) -> JournalEntry {
    JournalEntry {
        name: name.to_string(),
        preview: preview.to_string(),
    }
}

#[test]
fn build_journal_lines_marks_and_styles_selected_entry() {
    let entries = vec![journal("alpha", "body"), journal("beta", "body")];
    let lines = build_journal_lines(&entries, 0);
    assert!(lines.len() > 3, "got {} lines", lines.len());
    let text = text_of(&lines);
    assert!(text.contains("Recent journal entries"));
    assert!(text.contains("▶"), "selected marker missing: {text:?}");
    let selected_line = lines
        .iter()
        .find(|l| text_of(std::slice::from_ref(l)).contains("▶"))
        .expect("selected line");
    let name_span = &selected_line.spans[1];
    assert_eq!(
        name_span.style,
        Style::bold_fg(Color::Yellow)
    );
}

#[test]
fn build_journal_lines_truncates_preview_over_12_lines() {
    let long_preview = (0..13)
        .map(|i| format!("line{i}"))
        .collect::<Vec<_>>()
        .join("\n");
    let entries = vec![journal("big", &long_preview)];
    let text = text_of(&build_journal_lines(&entries, 0));
    assert!(
        text.contains("more lines)"),
        "13-line preview should announce truncation: {text:?}"
    );

    let exact_preview = (0..12)
        .map(|i| format!("line{i}"))
        .collect::<Vec<_>>()
        .join("\n");
    let entries12 = vec![journal("exact", &exact_preview)];
    let text12 = text_of(&build_journal_lines(&entries12, 0));
    assert!(
        !text12.contains("more lines)"),
        "12-line preview should not be truncated: {text12:?}"
    );
}

#[test]
fn build_journal_lines_empty_state_message() {
    let lines = build_journal_lines(&[], 0);
    let text = text_of(&lines);
    assert!(text.contains("no entries in .dev/journal/"), "got {text:?}");
}

#[test]
fn serde_journal_context_joins_names_with_newlines() {
    let entries = vec![journal("a", "x"), journal("b", "y")];
    assert_eq!(serde_journal_context(&entries), "a\nb");
    assert_eq!(serde_journal_context(&[]), "");
}

fn resume(slug: &str) -> ResumeEntry {
    ResumeEntry {
        session_dir: format!("/tmp/{slug}"),
        slug: slug.to_string(),
        updated_at: "2026-06-01 14:22".to_string(),
        turn_count: 3,
    }
}

#[test]
fn build_resume_lines_marks_and_styles_selected_session() {
    let entries = vec![resume("first"), resume("second")];
    let lines = build_resume_lines(&entries, 1);
    assert!(lines.len() > 3, "got {} lines", lines.len());
    let text = text_of(&lines);
    assert!(text.contains("Recent sessions"));
    assert!(text.contains("▶"), "selected marker missing: {text:?}");
    assert!(text.contains("turns:  3"));
    let selected_line = lines
        .iter()
        .find(|l| text_of(std::slice::from_ref(l)).contains("▶"))
        .expect("selected line");
    assert_eq!(
        selected_line.spans[0].style,
        Style::bold_fg(Color::Yellow)
    );
}

#[test]
fn serde_resume_context_joins_session_dirs_with_newlines() {
    let entries = vec![resume("first"), resume("second")];
    assert_eq!(serde_resume_context(&entries), "/tmp/first\n/tmp/second");
    assert_eq!(serde_resume_context(&[]), "");
}

#[test]
fn build_theme_picker_lines_marks_selected_theme() {
    let lines = build_theme_picker_lines("default", 0);
    assert!(lines.len() > 2, "got {} lines", lines.len());
    let text = text_of(&lines);
    assert!(text.contains("Choose theme  (current: default)"));
    assert!(
        text.contains("▶"),
        "selected theme marker missing: {text:?}"
    );
    let selected_line = lines
        .iter()
        .find(|l| text_of(std::slice::from_ref(l)).contains('▶'))
        .expect("selected line");
    assert_eq!(
        selected_line.spans[0].style,
        Style::bold_fg(Color::Yellow)
    );
}

#[test]
fn build_help_lines_lists_skill_commands_when_present() {
    let mut registry = CommandRegistry::default_set();
    registry.set_skill_commands(vec![SkillCommand {
        name: "my-skill".to_string(),
        description: "does a thing".to_string(),
        aliases: vec![],
        argument_hint: String::new(),
        allowed_tools: None,
        prompt_template: String::new(),
        source_path: "/tmp/my-skill".to_string(),
    }]);
    let text = text_of(&build_help_lines(&registry));
    assert!(
        text.contains("Skill Commands:"),
        "skill section header missing: {text:?}"
    );
    assert!(text.contains("my-skill"), "skill name missing: {text:?}");
}

#[test]
fn build_help_lines_omits_skill_section_when_empty() {
    let registry = CommandRegistry::default_set();
    let text = text_of(&build_help_lines(&registry));
    assert!(
        !text.contains("Skill Commands:"),
        "empty skill list should not render the section header: {text:?}"
    );
}

#[test]
fn cmd_mcp_emits_list_mcp_servers_action() {
    let mut app = App::new();
    let actions = cmd_mcp(&mut app, &[]);
    assert_eq!(actions, vec![UserAction::ListMcpServers]);
}

#[test]
fn cmd_theme_no_args_selects_current_theme_row() {
    let mut app = App::new();
    let expected = all_themes()
        .iter()
        .position(|t| t.name == app.theme.name)
        .unwrap_or(0);
    let r = invoke(&mut app, "theme");
    match r {
        InvokeResult::Sync(CommandOutcome::OpenPanel(panel)) => {
            assert_eq!(
                panel.selected,
                Some(expected),
                "theme picker should open with the current theme selected"
            );
        }
        other => panic!("expected OpenPanel for /theme, got {other:?}"),
    }
}

#[test]
fn cmd_goal_single_non_clear_arg_sets_goal() {
    let mut app = App::new();
    let r = invoke(&mut app, "goal hello");
    match r {
        InvokeResult::Async(actions) => {
            assert_eq!(actions.len(), 1);
            match &actions[0] {
                UserAction::SetGoal {
                    condition,
                    max_turns,
                } => {
                    assert_eq!(condition, "hello");
                    assert_eq!(*max_turns, 20);
                }
                other => panic!("expected SetGoal, got {other:?}"),
            }
        }
        other => panic!("expected Async (SetGoal), got {other:?}"),
    }
}
