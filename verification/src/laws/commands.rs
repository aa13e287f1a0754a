//! The slash commands.
use vstd::prelude::*;
#[allow(unused_imports)]
use vstd::string::*;

use crate::app::dispatch::{command_ran, line_ran};
use crate::app::handlers::{dir_answered, DirResolution};
use crate::app::{App, DirRequest};
use crate::commands::{
    builtin_commands, builtins_share_no_name, goal_limit_comes_back, goes_by, is_alias,
    is_first_command, is_first_skill, leading_number, loop_limit_comes_back, AsyncCommand,
    CommandHandler, CommandModel, CommandSpec, SyncCommand,
};
use crate::events::UserAction;
use crate::input_state::InputMode;
use crate::laws::events::{adds_one, models_follow};
use crate::model::TranscriptBlock;
use crate::runtime_builder::AccessTier;
use crate::skill_commands::SkillCommand;
use crate::text::{
    ascii_lowered, decimal, has_suffix, is_white, joined, lowercase_of, occurs_at, replaced,
    replaced_from, trim, views, word_end, words, words_from,
};

verus! {

// ---------------------------------------------------------------------------
// Words
// ---------------------------------------------------------------------------

/// Whether a text is a word: something, without white space in it.
pub open spec fn is_word(s: Seq<char>) -> bool {
    s.len() > 0 && forall|k: int| 0 <= k < s.len() ==> !is_white(#[trigger] s[k])
}

/// The parts in a row, with a space between each two of them.
pub open spec fn spaced(parts: Seq<Seq<char>>) -> Seq<char>
    decreases parts.len(),
{
    if parts.len() == 0 {
        seq![]
    } else if parts.len() == 1 {
        parts[0]
    } else {
        parts[0] + seq![' '] + spaced(parts.skip(1))
    }
}

proof fn joined_in_front(parts: Seq<Seq<char>>, sep: Seq<char>)
    requires
        parts.len() >= 2,
    ensures
        joined(parts, sep) == parts[0] + sep + joined(parts.skip(1), sep),
    decreases parts.len(),
{
    if parts.len() == 2 {
        assert(joined(parts.drop_last(), sep) == parts[0]);
        assert(joined(parts.skip(1), sep) == parts[1]);
        assert(joined(parts, sep) =~= parts[0] + sep + joined(parts.skip(1), sep));
    } else {
        joined_in_front(parts.drop_last(), sep);
        assert(parts.drop_last().skip(1) =~= parts.skip(1).drop_last());
        let middle = joined(parts.skip(1).drop_last(), sep);
        assert(joined(parts, sep) == parts[0] + sep + middle + sep + parts.last());
        assert(joined(parts.skip(1), sep) == middle + sep + parts.last());
        assert(joined(parts, sep) =~= parts[0] + sep + joined(parts.skip(1), sep));
    }
}

/// Joining with spaces puts one space between each two parts.
pub proof fn joining_spaces(parts: Seq<Seq<char>>)
    ensures
        joined(parts, " "@) == spaced(parts),
    decreases parts.len(),
{
    reveal_strlit(" ");
    if parts.len() >= 2 {
        joined_in_front(parts, " "@);
        joining_spaces(parts.skip(1));
        assert(" "@ =~= seq![' ']);
    } else {
        assert(joined(parts, " "@) =~= spaced(parts));
    }
}

proof fn word_ends(s: Seq<char>, w: Seq<char>, from: int, at: int)
    requires
        is_word(w),
        0 <= from <= at <= from + w.len() <= s.len(),
        s.subrange(from, from + w.len()) == w,
        from + w.len() == s.len() || is_white(s[(from + w.len()) as int]),
    ensures
        word_end(s, at) == from + w.len(),
    decreases from + w.len() - at,
{
    if at < from + w.len() {
        assert(s[at] == s.subrange(from, from + w.len())[at - from]);
        word_ends(s, w, from, at + 1);
    }
}

proof fn words_are_split_from(s: Seq<char>, parts: Seq<Seq<char>>, from: int)
    requires
        0 <= from <= s.len(),
        s.skip(from) == spaced(parts),
        forall|i: int| 0 <= i < parts.len() ==> is_word(#[trigger] parts[i]),
    ensures
        words_from(s, from) == parts,
    decreases parts.len(),
{
    let rest = s.skip(from);
    if parts.len() == 0 {
        assert(rest.len() == s.len() - from);
        assert(words_from(s, from) =~= parts);
    } else {
        let w = parts[0];
        assert(is_word(w));
        assert(rest.len() == s.len() - from);
        assert(s[from] == rest[0]);
        assert(rest[0] == w[0]);
        assert(s.subrange(from, from + w.len()) =~= w) by {
            assert forall|k: int| 0 <= k < w.len() implies s[from + k] == w[k] by {
                assert(s[from + k] == rest[k]);
            }
        }
        let end = from + w.len();
        if parts.len() >= 2 {
            assert(s[end as int] == rest[w.len() as int]);
            assert(rest[w.len() as int] == ' ');
        }
        word_ends(s, w, from, from);
        if parts.len() >= 2 {
            assert(words_from(s, end as int) == words_from(s, (end + 1) as int));
            assert(s.skip((end + 1) as int) =~= spaced(parts.skip(1))) by {
                let tail = spaced(parts.skip(1));
                assert(rest == w + seq![' '] + tail);
                assert forall|k: int| 0 <= k < tail.len() implies s[end + 1 + k] == tail[k] by {
                    assert(s[end + 1 + k] == rest[w.len() + 1 + k]);
                }
            }
            words_are_split_from(s, parts.skip(1), (end + 1) as int);
            assert(seq![w] + parts.skip(1) =~= parts);
        } else {
            assert(words_from(s, end as int) =~= Seq::<Seq<char>>::empty());
            assert(seq![w] + Seq::<Seq<char>>::empty() =~= parts);
        }
    }
}

/// A line is split into its words: words with a space between each two of them
/// come back, all of them and in their order.
pub proof fn words_come_back(parts: Seq<Seq<char>>)
    requires
        forall|i: int| 0 <= i < parts.len() ==> is_word(#[trigger] parts[i]),
    ensures
        words(spaced(parts)) == parts,
{
    assert(spaced(parts).skip(0) =~= spaced(parts));
    words_are_split_from(spaced(parts), parts, 0);
}

// ---------------------------------------------------------------------------
// Which command is run
// ---------------------------------------------------------------------------

/// Whether the built-in commands are those that the interface starts with.
pub open spec fn has_the_builtins(a: App) -> bool {
    a.commands.builtins().map_values(|c: CommandSpec| c@) == builtin_commands()
}

proof fn names_agree(c: CommandSpec, name: Seq<char>)
    ensures
        c.answers_to(name) == goes_by(c@, name),
{
    if is_alias(c.aliases@, name) {
        let i = choose|i: int| 0 <= i < c.aliases@.len() && (#[trigger] c.aliases@[i])@ == name;
        assert(c@.aliases[i] == name);
    }
    if c@.aliases.contains(name) {
        let i = choose|i: int| 0 <= i < c@.aliases.len() && c@.aliases[i] == name;
        assert(c.aliases@[i]@ == name);
    }
}

/// A line runs the command that its first word names, by its name or by an alias,
/// with the words behind it.
pub proof fn line_runs_its_command(
    a: App,
    parts: Seq<Seq<char>>,
    i: int,
    b: App,
    r: Option<UserAction>,
) -> (args: Seq<String>)
    requires
        has_the_builtins(a),
        parts.len() > 0,
        forall|k: int| 0 <= k < parts.len() ==> is_word(#[trigger] parts[k]),
        0 <= i < builtin_commands().len(),
        goes_by(builtin_commands()[i], parts[0]),
        line_ran(a, spaced(parts), b, r),
    ensures
        views(args) == parts.skip(1),
        command_ran(a, builtin_commands()[i].handler, args, b, r),
{
    words_come_back(parts);
    let cs = a.commands.builtins();
    let models = cs.map_values(|c: CommandSpec| c@);
    assert(models[i] == cs[i]@);
    names_agree(cs[i], parts[0]);
    assert(a.commands.knows(parts[0]));
    let (c, args) = choose|c: CommandSpec, args: Seq<String>|
        is_first_command(cs, parts[0], c) && views(args) == crate::app::dispatch::command_args(
            spaced(parts),
        ) && #[trigger] command_ran(a, c.handler, args, b, r);
    let k = choose|k: int|
        0 <= k < cs.len() && (#[trigger] cs[k]) == c && c.answers_to(parts[0]) && forall|j: int|
            0 <= j < k ==> !(#[trigger] cs[j]).answers_to(parts[0]);
    names_agree(c, parts[0]);
    assert(models[k] == cs[k]@);
    builtins_share_no_name(i, k, parts[0]);
    args
}

/// Each built-in command does what it is called for.
pub proof fn commands_are_called_for_what_they_do(c: CommandModel)
    requires
        builtin_commands().contains(c),
    ensures
        c.name == "help"@ <==> c.handler == CommandHandler::Sync(SyncCommand::Help),
        c.name == "clear"@ <==> c.handler == CommandHandler::Sync(SyncCommand::Clear),
        c.name == "cost"@ <==> c.handler == CommandHandler::Sync(SyncCommand::Cost),
        c.name == "model"@ <==> c.handler == CommandHandler::Sync(SyncCommand::Model),
        c.name == "status"@ <==> c.handler == CommandHandler::Sync(SyncCommand::Status),
        c.name == "tools"@ <==> c.handler == CommandHandler::Sync(SyncCommand::Tools),
        c.name == "journal"@ <==> c.handler == CommandHandler::Sync(SyncCommand::Journal),
        c.name == "permissions"@ <==> c.handler == CommandHandler::Sync(SyncCommand::Permissions),
        c.name == "add-dir"@ <==> c.handler == CommandHandler::Sync(SyncCommand::AddDir),
        c.name == "exit"@ <==> c.handler == CommandHandler::Sync(SyncCommand::Exit),
        c.name == "resume"@ <==> c.handler == CommandHandler::Sync(SyncCommand::Resume),
        c.name == "theme"@ <==> c.handler == CommandHandler::Sync(SyncCommand::Theme),
        c.name == "compact"@ <==> c.handler == CommandHandler::Async(AsyncCommand::Compact),
        c.name == "plan"@ <==> c.handler == CommandHandler::Async(AsyncCommand::Plan),
        c.name == "goal"@ <==> c.handler == CommandHandler::Async(AsyncCommand::Goal),
        c.name == "mcp"@ <==> c.handler == CommandHandler::Async(AsyncCommand::Mcp),
        c.name == "loop"@ <==> c.handler == CommandHandler::Async(AsyncCommand::Loop),
        c.name == "exit"@ ==> c.aliases == seq!["quit"@, "q"@],
        c.name == "help"@ ==> c.aliases == seq!["?"@],
        c.name == "clear"@ ==> c.aliases == seq!["cls"@],
        c.name == "permissions"@ ==> c.aliases == seq!["perm"@],
        c.name == "add-dir"@ ==> c.aliases == seq!["adddir"@],
        c.name == "resume"@ ==> c.aliases == seq!["r"@],
{
    let i = choose|i: int| 0 <= i < builtin_commands().len() && builtin_commands()[i] == c;
    assert forall|j: int, k: int|
        0 <= j < builtin_commands().len() && 0 <= k < builtin_commands().len() && (
        #[trigger] builtin_commands()[j]).name == (#[trigger] builtin_commands()[k]).name implies j
        == k by {
        builtins_share_no_name(j, k, builtin_commands()[j].name);
    }
    let t = builtin_commands();
    assert(t[0].name == "help"@ && t[1].name == "clear"@ && t[2].name == "compact"@ && t[3].name
        == "cost"@ && t[4].name == "model"@ && t[5].name == "status"@ && t[6].name == "tools"@
        && t[7].name == "plan"@ && t[8].name == "journal"@ && t[9].name == "permissions"@
        && t[10].name == "add-dir"@ && t[11].name == "exit"@ && t[12].name == "goal"@
        && t[13].name == "resume"@ && t[14].name == "mcp"@ && t[15].name == "theme"@
        && t[16].name == "loop"@);
}

/// A line whose first word no command goes by, built in or made from a skill,
/// changes nothing: the user is told so.
pub proof fn unknown_command_is_reported(
    a: App,
    parts: Seq<Seq<char>>,
    b: App,
    r: Option<UserAction>,
)
    requires
        parts.len() > 0,
        forall|k: int| 0 <= k < parts.len() ==> is_word(#[trigger] parts[k]),
        forall|k: int|
            0 <= k < a.commands.builtins().len() ==> !(
            #[trigger] a.commands.builtins()[k]).answers_to(parts[0]),
        forall|k: int|
            0 <= k < a.commands.skills().len() ==> !(#[trigger] a.commands.skills()[k]).answers_to(
                parts[0],
            ),
        line_ran(a, spaced(parts), b, r),
    ensures
        r is None,
        adds_one(a, b),
        b.blocks@.last() matches TranscriptBlock::Error { text } && text@ == "Unknown command: /"@
            + parts[0] + ". Try /help."@,
        b == (App { blocks: b.blocks, ..a }),
{
    words_come_back(parts);
    models_follow(a);
    models_follow(b);
    assert(b.transcript().last() == b.blocks@.last()@);
}

// ---------------------------------------------------------------------------
// Skills
// ---------------------------------------------------------------------------

proof fn one_place_is_replaced(
    s: Seq<char>,
    pat: Seq<char>,
    with: Seq<char>,
    at: int,
    from: int,
)
    requires
        pat.len() > 0,
        0 <= from <= at,
        occurs_at(s, pat, at),
        forall|j: int| j != at ==> !occurs_at(s, pat, j),
    ensures
        replaced_from(s, pat, with, from) == s.subrange(from, at) + with + s.skip(at + pat.len()),
    decreases at - from,
{
    if from == at {
        nothing_is_replaced(s, pat, with, at + pat.len() as int, at);
        assert(s.subrange(from, at) =~= Seq::<char>::empty());
        assert(replaced_from(s, pat, with, from) =~= s.subrange(from, at) + with + s.skip(
            at + pat.len(),
        ));
    } else {
        one_place_is_replaced(s, pat, with, at, from + 1);
        assert(seq![s[from]] + s.subrange(from + 1, at) =~= s.subrange(from, at));
        assert(replaced_from(s, pat, with, from) =~= s.subrange(from, at) + with + s.skip(
            at + pat.len(),
        ));
    }
}

proof fn nothing_is_replaced(s: Seq<char>, pat: Seq<char>, with: Seq<char>, from: int, at: int)
    requires
        at < from,
        0 <= from <= s.len(),
        forall|j: int| j > at ==> !occurs_at(s, pat, j),
    ensures
        replaced_from(s, pat, with, from) == s.skip(from),
    decreases s.len() - from,
{
    if from < s.len() {
        nothing_is_replaced(s, pat, with, from + 1, at);
        assert(seq![s[from]] + s.skip(from + 1) =~= s.skip(from));
    } else {
        assert(s.skip(from) =~= Seq::<char>::empty());
    }
}

/// The arguments take the place that the template holds for them, and the rest of
/// the template stays; a template without such a place stays as it is.
pub proof fn arguments_take_their_place(
    head: Seq<char>,
    tail: Seq<char>,
    plain: Seq<char>,
    args: Seq<char>,
)
    requires
        forall|j: int|
            j != head.len() ==> !occurs_at(head + "$ARGUMENTS"@ + tail, "$ARGUMENTS"@, j),
        forall|j: int| !occurs_at(plain, "$ARGUMENTS"@, j),
    ensures
        replaced(head + "$ARGUMENTS"@ + tail, "$ARGUMENTS"@, args) == head + args + tail,
        replaced(plain, "$ARGUMENTS"@, args) == plain,
{
    reveal_strlit("$ARGUMENTS");
    let pat = "$ARGUMENTS"@;
    let s = head + pat + tail;
    let at = head.len() as int;
    assert(s.subrange(at, at + pat.len()) =~= pat);
    one_place_is_replaced(s, pat, args, at, 0);
    assert(s.subrange(0, at) =~= head);
    assert(s.skip(at + pat.len()) =~= tail);
    nothing_is_replaced(plain, pat, args, 0, -1);
    assert(plain.skip(0) =~= plain);
}

/// A line whose first word names a skill, and no built-in command, runs the skill:
/// its template goes to the worker with the words behind the name in their
/// place, it is shown as what the user said, and a turn runs.
pub proof fn skill_is_run(
    a: App,
    parts: Seq<Seq<char>>,
    skill: SkillCommand,
    head: Seq<char>,
    tail: Seq<char>,
    b: App,
    r: Option<UserAction>,
)
    requires
        parts.len() > 0,
        forall|k: int| 0 <= k < parts.len() ==> is_word(#[trigger] parts[k]),
        forall|k: int|
            0 <= k < a.commands.builtins().len() ==> !(
            #[trigger] a.commands.builtins()[k]).answers_to(parts[0]),
        a.commands.skills().len() > 0,
        a.commands.skills()[0] == skill,
        skill.name@ == parts[0],
        skill.prompt_template@ == head + "$ARGUMENTS"@ + tail,
        forall|j: int|
            j != head.len() ==> !occurs_at(head + "$ARGUMENTS"@ + tail, "$ARGUMENTS"@, j),
        line_ran(a, spaced(parts), b, r),
    ensures
        r matches Some(UserAction::RunSkillPrompt { prompt }) && prompt@ == head + spaced(
            parts.skip(1),
        ) + tail,
        b.blocks@.len() == a.blocks@.len() + 2,
        b.blocks@[a.blocks@.len() as int] matches TranscriptBlock::System { text } && text@
            == "Running skill /"@ + skill.name@ + ": "@ + skill.description@,
        b.blocks@.last() matches TranscriptBlock::User { text } && text@ == head + spaced(
            parts.skip(1),
        ) + tail,
        b.turn.running,
        a.turn_count < u64::MAX ==> b.turn_count == a.turn_count + 1,
        b.prompt == a.prompt,
{
    words_come_back(parts);
    joining_spaces(parts.skip(1));
    reveal_strlit("$ARGUMENTS");
    let plain = Seq::<char>::empty();
    assert forall|j: int| !occurs_at(plain, "$ARGUMENTS"@, j) by {}
    arguments_take_their_place(head, tail, plain, spaced(parts.skip(1)));
    assert(a.commands.skills()[0].answers_to(parts[0]));
    let s = choose|s: SkillCommand| #[trigger]
        is_first_skill(a.commands.skills(), parts[0], s) && crate::app::dispatch::skill_ran(
            a,
            s,
            parts.skip(1),
            b,
            r,
        );
    assert(s == skill) by {
        let k = choose|k: int|
            0 <= k < a.commands.skills().len() && (#[trigger] a.commands.skills()[k]) == s
                && s.answers_to(parts[0]) && forall|j: int|
                0 <= j < k ==> !(#[trigger] a.commands.skills()[j]).answers_to(parts[0]);
        if k > 0 {
            assert(a.commands.skills()[0].answers_to(parts[0]));
        }
    }
    models_follow(a);
    models_follow(b);
    assert(b.transcript().last() == b.blocks@.last()@);
    assert(b.transcript()[a.blocks@.len() as int] == b.blocks@[a.blocks@.len() as int]@);
}

// ---------------------------------------------------------------------------
// What the commands do
// ---------------------------------------------------------------------------

/// `/exit` quits, and `/clear` drops the conversation and its token counts; both
/// leave the rest.
pub proof fn exit_and_clear(
    a: App,
    args: Seq<String>,
    b: App,
    r: Option<UserAction>,
    c: App,
    s: Option<UserAction>,
)
    requires
        command_ran(a, CommandHandler::Sync(SyncCommand::Exit), args, b, r),
        command_ran(a, CommandHandler::Sync(SyncCommand::Clear), args, c, s),
    ensures
        r is None,
        b.should_quit,
        b == (App { should_quit: true, ..a }),
        s is None,
        c.should_quit == a.should_quit,
        c.blocks@.len() == 1,
        c.blocks@[0] matches TranscriptBlock::System { text } && text@ == "Conversation cleared."@,
        c.usage.total_input == 0,
        c.usage.total_output == 0,
        c.usage.input_tokens == 0 && c.usage.output_tokens == 0,
        c.usage.cache_hit_tokens == 0 && c.usage.cache_miss_tokens == 0,
        c.usage.total_cache_hit == 0 && c.usage.total_cache_miss == 0,
        c.usage.turn_cache_hit == 0 && c.usage.turn_cache_miss == 0,
        c.usage.last_turn_cache is None,
        c.usage.last_latency_ms == 0,
        c.usage.last_prompt_tokens == 0,
        c.usage.last_breakdown is None,
        c.scroll_offset == 0,
        c.prompt == a.prompt,
        c.model_name == a.model_name,
{
    models_follow(c);
    assert(c.transcript()[0] == c.blocks@[0]@);
}

/// `/compact` and `/mcp` ask the worker for what they are called, and for nothing
/// else.
pub proof fn compact_and_mcp(
    a: App,
    args: Seq<String>,
    b: App,
    r: Option<UserAction>,
    c: App,
    s: Option<UserAction>,
)
    requires
        command_ran(a, CommandHandler::Async(AsyncCommand::Compact), args, b, r),
        command_ran(a, CommandHandler::Async(AsyncCommand::Mcp), args, c, s),
    ensures
        r == Some(UserAction::Compact),
        adds_one(a, b),
        b.blocks@.last() matches TranscriptBlock::System { text } && text@
            == "Compacting transcript…"@,
        s == Some(UserAction::ListMcpServers),
        c == a,
{
    models_follow(a);
    models_follow(b);
    assert(b.transcript().last() == b.blocks@.last()@);
}

/// Whether a word switches on, in whatever letter case.
pub open spec fn is_on(word: Seq<char>) -> bool {
    lowercase_of(word) == "on"@ || lowercase_of(word) == "true"@ || lowercase_of(word) == "1"@
}

/// Whether a word switches off, in whatever letter case.
pub open spec fn is_off(word: Seq<char>) -> bool {
    lowercase_of(word) == "off"@ || lowercase_of(word) == "false"@ || lowercase_of(word) == "0"@
}

/// `/permissions on` asks before tools run, and `/permissions off` no longer does:
/// it forgets the tools that were allowed, and denies the request that waits.
/// Anything else changes nothing and says how the command is used.
pub proof fn permissions_are_switched(
    a: App,
    args: Seq<String>,
    b: App,
    r: Option<UserAction>,
)
    requires
        command_ran(a, CommandHandler::Sync(SyncCommand::Permissions), args, b, r),
    ensures
        r is None,
        adds_one(a, b),
        args.len() > 0 && is_on(args[0]@) ==> b.permission_hook_enabled && b.auto_allowed_tools
            == a.auto_allowed_tools && b.pending_permission == a.pending_permission,
        args.len() > 0 && is_off(args[0]@) ==> !b.permission_hook_enabled
            && b.auto_allowed_tools@.len() == 0 && b.pending_permission is None && (
        a.pending_permission is Some ==> b.permission_reply == Some(false)),
        args.len() == 0 || !is_on(args[0]@) && !is_off(args[0]@) ==> b.permission_hook_enabled
            == a.permission_hook_enabled && b.auto_allowed_tools == a.auto_allowed_tools
            && b.pending_permission == a.pending_permission && (
        b.blocks@.last() matches TranscriptBlock::Error { text } && text@
            == "Usage: /permissions on|off  (currently "@ + (if a.permission_hook_enabled {
            "on"@
        } else {
            "off"@
        }) + ")"@),
        b.blocks@.last() matches TranscriptBlock::System { text } ==> text@ == "Permissions hook: "@
            + (if b.permission_hook_enabled {
            "on"@
        } else {
            "off"@
        }),
{
    models_follow(a);
    models_follow(b);
    assert(b.transcript().last() == b.blocks@.last()@);
    reveal_strlit("on");
    reveal_strlit("off");
    reveal_strlit("true");
    reveal_strlit("false");
    reveal_strlit("1");
    reveal_strlit("0");
    assert("on"@.len() == 2 && "off"@.len() == 3 && "true"@.len() == 4 && "false"@.len() == 5
        && "1"@[0] == '1' && "0"@[0] == '0');
}

/// `/add-dir` asks for the directory that it was given, read-only where an option
/// or a suffix says so, and grants nothing by itself.
pub proof fn directory_is_asked_for(
    a: App,
    path: Seq<char>,
    args: Seq<String>,
    b: App,
    r: Option<UserAction>,
)
    requires
        command_ran(a, CommandHandler::Sync(SyncCommand::AddDir), args, b, r),
        path.len() > 0,
        path[0] != '-',
        !has_suffix(path, ":ro"@),
        args.len() == 1 && (args[0]@ == path || args[0]@ == path + ":ro"@) || args.len() == 2
            && args[0]@ == path && (args[1]@ == "--ro"@ || args[1]@ == "-r"@) || args.len() == 2
            && args[1]@ == path && (args[0]@ == "--ro"@ || args[0]@ == "-r"@),
    ensures
        r is None,
        b.pending_dir matches Some(d) && d.path@ == path && d.read_only == !(args.len() == 1
            && args[0]@ == path),
        b.session_roots == a.session_roots,
        b.blocks == a.blocks,
{
    reveal_strlit(":ro");
    reveal_strlit("--ro");
    reveal_strlit("-r");
    assert("--ro"@[0] == '-' && "-r"@[0] == '-');
    assert("--ro"@.len() == 4 && "-r"@.len() == 2);
    if args.len() == 1 {
        assert(crate::app::handlers::first_word(args, 0) == 0);
        let w = args[0]@;
        assert(w[0] == path[0]);
        assert(w != "--ro"@ && w != "-r"@);
        if w == path + ":ro"@ {
            assert(w.subrange(w.len() - 3, w.len() as int) =~= ":ro"@);
            assert(has_suffix(w, ":ro"@));
            assert(w.take(w.len() - 3) =~= path);
            if path == w {
                assert(false);
            }
        }
    } else if args[0]@ == path {
        assert(crate::app::handlers::first_word(args, 0) == 0);
        assert(crate::app::handlers::asks_read_only(args));
    } else {
        assert(crate::app::handlers::first_word(args, 1) == 1);
        assert(crate::app::handlers::first_word(args, 0) == 1);
        assert(crate::app::handlers::asks_read_only(args));
    }
}

/// A directory is granted once the file system knows it, with the access that was
/// asked for, behind those that were granted before. One that was granted
/// already is not granted again, and what is no directory is not granted at all.
pub proof fn directory_is_granted(a: App, request: DirRequest, found: DirResolution, b: App)
    requires
        dir_answered(a, request, found, b),
    ensures
        b.pending_dir is None,
        adds_one(a, b),
        found matches DirResolution::Directory { canonical } ==> {
            let known = exists|i: int|
                0 <= i < a.session_roots@.len() && (#[trigger] a.session_roots@[i]).0@
                    == canonical@;
            &&& known ==> b.session_roots == a.session_roots
            &&& !known ==> b.session_roots@.len() == a.session_roots@.len() + 1
                && b.session_roots@.drop_last() == a.session_roots@ && b.session_roots@.last().0@
                == canonical@ && b.session_roots@.last().1 == if request.read_only {
                AccessTier::ReadOnly
            } else {
                AccessTier::ReadWrite
            }
        },
        !(found is Directory) ==> b.session_roots == a.session_roots && b.blocks@.last() is Error,
        found matches DirResolution::Directory { canonical } ==> (b.blocks@.last() matches
            TranscriptBlock::System { text } && (b.session_roots == a.session_roots || text@
            == "Granted agent access to "@ + canonical@ + " ("@ + (if request.read_only {
            "read-only"@
        } else {
            "read-write"@
        }) + ")"@)),
        found matches DirResolution::Directory { canonical } ==> b.session_roots == a.session_roots
            ==> (b.blocks@.last() matches TranscriptBlock::System { text } && text@
            == "Already granted: "@ + canonical@),
        found matches DirResolution::NotADirectory { canonical } ==> (b.blocks@.last() matches
            TranscriptBlock::Error { text } && text@ == "/add-dir: \""@ + canonical@
            + "\" is not a directory"@),
        found matches DirResolution::Missing { error } ==> (b.blocks@.last() matches
            TranscriptBlock::Error { text } && text@ == "/add-dir: cannot resolve \""@
            + request.path@ + "\": "@ + error@),
        b.prompt == a.prompt,
{
    models_follow(a);
    models_follow(b);
    assert(b.transcript().last() == b.blocks@.last()@);
    if let DirResolution::Directory { canonical } = found {
        if !crate::app::handlers::is_granted(a.session_roots@, canonical@) {
            assert(b.session_roots@.drop_last() =~= a.session_roots@);
            assert(b.session_roots@.len() != a.session_roots@.len());
        }
    }
}

/// `/add-dir` alone lists the directories that were granted, each on a line of its own
/// with its path and its access, and grants nothing.
pub proof fn granted_directories_are_listed(a: App, args: Seq<String>, b: App, r: Option<UserAction>)
    requires
        command_ran(a, CommandHandler::Sync(SyncCommand::AddDir), args, b, r),
        args.len() == 0,
    ensures
        r is None,
        adds_one(a, b),
        b.session_roots == a.session_roots,
        b.pending_dir == a.pending_dir,
        a.session_roots@.len() > 0 ==> (b.blocks@.last() matches TranscriptBlock::System { text }
            && text@ == "Usage: /add-dir <path> [--ro]\n\nGranted this session:\n"@ + joined(
            Seq::new(
                a.session_roots@.len(),
                |i: int|
                    "- "@ + a.session_roots@[i].0@ + (if a.session_roots@[i].1
                        == AccessTier::ReadOnly {
                        " (ro)"@
                    } else {
                        " (rw)"@
                    }),
            ),
            "\n"@,
        )),
{
    models_follow(a);
    models_follow(b);
    assert(b.transcript().last() == b.blocks@.last()@);
    reveal_strlit(" (");
    reveal_strlit(")");
    reveal_strlit("ro");
    reveal_strlit("rw");
    reveal_strlit(" (ro)");
    reveal_strlit(" (rw)");
    let roots = a.session_roots@;
    let listed = roots.map_values(
        |x: (String, AccessTier)| crate::app::handlers::root_line(x),
    );
    let wanted = Seq::new(
        roots.len(),
        |i: int|
            "- "@ + roots[i].0@ + (if roots[i].1 == AccessTier::ReadOnly {
                " (ro)"@
            } else {
                " (rw)"@
            }),
    );
    assert forall|i: int| 0 <= i < roots.len() implies listed[i] == wanted[i] by {
        assert(listed[i] =~= wanted[i]);
    }
    assert(listed =~= wanted);
}

proof fn themes_are_listed(name: Seq<char>)
    ensures
        "Unknown theme '"@ + name + "'. Available: "@ + joined(
            crate::theme::theme_names(),
            ", "@,
        ) == "Unknown theme '"@ + name + "'. Available: dark, light, solarized"@,
{
    let names = crate::theme::theme_names();
    joined_in_front(names, ", "@);
    let rest = names.skip(1);
    joined_in_front(rest, ", "@);
    let last = rest.skip(1);
    assert(rest[0] == "light"@ && last[0] == "solarized"@ && last.len() == 1);
    assert(joined(last, ", "@) == "solarized"@);
    assert(joined(names, ", "@) == "dark"@ + ", "@ + ("light"@ + ", "@ + "solarized"@));
    reveal_strlit("dark");
    reveal_strlit("light");
    reveal_strlit("solarized");
    reveal_strlit(", ");
    reveal_strlit("'. Available: ");
    reveal_strlit("'. Available: dark, light, solarized");
    assert("'. Available: "@ + joined(names, ", "@) =~= "'. Available: dark, light, solarized"@);
    assert("Unknown theme '"@ + name + "'. Available: "@ + joined(names, ", "@)
        =~= "Unknown theme '"@ + name + ("'. Available: "@ + joined(names, ", "@)));
}

/// `/theme` with the name of a theme, in whatever letter case, switches to it; with
/// any other name the theme stays.
pub proof fn theme_is_switched(a: App, args: Seq<String>, b: App, r: Option<UserAction>)
    requires
        command_ran(a, CommandHandler::Sync(SyncCommand::Theme), args, b, r),
        args.len() > 0,
    ensures
        r is None,
        adds_one(a, b),
        ({
            let name = lowercase_of(args[0]@);
            &&& name == "dark"@ || name == "light"@ || name == "solarized"@ ==> b.theme.name@
                == name && (b.blocks@.last() matches TranscriptBlock::System { text } && text@
                == "Theme switched to '"@ + name + "'."@)
            &&& !(name == "dark"@ || name == "light"@ || name == "solarized"@) ==> b.theme
                == a.theme && (b.blocks@.last() matches TranscriptBlock::Error { text } && text@
                == "Unknown theme '"@ + name + "'. Available: dark, light, solarized"@)
        }),
{
    models_follow(a);
    models_follow(b);
    assert(b.transcript().last() == b.blocks@.last()@);
    let names = crate::theme::theme_names();
    assert(names[0] == "dark"@ && names[1] == "light"@ && names[2] == "solarized"@);
    themes_are_listed(lowercase_of(args[0]@));
}

/// Whether a text holds another one in whatever letter case.
pub open spec fn mentions(s: Seq<char>, part: Seq<char>) -> bool {
    exists|i: int|
        0 <= i && i + part.len() <= s.len() && #[trigger] ascii_lowered(s).subrange(
            i,
            i + part.len(),
        ) == part
}

/// A goal that names no limit may take twenty turns, and a loop that names none as
/// many as it likes; the words are those of the user.
pub proof fn limits_may_be_left_out(
    a: App,
    args: Seq<String>,
    b: App,
    r: Option<UserAction>,
    c: App,
    s: Option<UserAction>,
)
    requires
        command_ran(a, CommandHandler::Async(AsyncCommand::Goal), args, b, r),
        command_ran(a, CommandHandler::Async(AsyncCommand::Loop), args, c, s),
        args.len() > 1,
        args[0]@ == "start"@,
        !mentions(spaced(views(args)), " or stop after "@),
        !mentions(spaced(views(args).skip(1)), " max "@),
        !crate::laws::words::all_white(spaced(views(args).skip(1))),
    ensures
        r matches Some(UserAction::SetGoal { condition, max_turns }) && condition@ == trim(
            spaced(views(args)),
        ) && max_turns == 20,
        s matches Some(UserAction::StartLoop { goal, max_turns }) && goal@ == trim(
            spaced(views(args).skip(1)),
        ) && max_turns == 0,
        c.loop_state matches Some(l) && l.max_turns == 0 && l.turns_run == 0,
{
    joining_spaces(views(args));
    joining_spaces(views(args).skip(1));
    assert(views(args).skip(0) =~= views(args));
    let raw = spaced(views(args));
    let rest = spaced(views(args).skip(1));
    crate::laws::words::blank_is_trimmed_to_nothing(rest);
    reveal_strlit(" max ");
    reveal_strlit(" or stop after ");
    if crate::text::has_part(ascii_lowered(raw), " or stop after "@) {
        let i = choose|i: int| occurs_at(ascii_lowered(raw), " or stop after "@, i);
        assert(ascii_lowered(raw).subrange(i, i + " or stop after "@.len()) == " or stop after "@);
    }
    if crate::text::has_part(ascii_lowered(rest), " max "@) {
        let i = choose|i: int| occurs_at(ascii_lowered(rest), " max "@, i);
        assert(ascii_lowered(rest).subrange(i, i + " max "@.len()) == " max "@);
    }
}

/// A limit that is no number, or too large a one, counts as none.
pub proof fn odd_limit_counts_as_none(word: Seq<char>, fallback: u32)
    requires
        is_word(word),
        (exists|i: int| 1 <= i < word.len() && !('0' <= #[trigger] word[i] <= '9')) || !('0'
            <= word[0] <= '9') && word[0] != '+' || word.len() == 1 && word[0] == '+',
    ensures
        leading_number(word, fallback) == fallback,
{
    assert(spaced(seq![word]) =~= word);
    words_come_back(seq![word]);
    let d = crate::text::unsigned_digits(word);
    if exists|i: int| 1 <= i < word.len() && !('0' <= #[trigger] word[i] <= '9') {
        let i = choose|i: int| 1 <= i < word.len() && !('0' <= #[trigger] word[i] <= '9');
        if word[0] == '+' {
            assert(d[i - 1] == word[i]);
        } else {
            assert(d[i] == word[i]);
        }
    } else if !('0' <= word[0] <= '9') && word[0] != '+' {
        assert(d[0] == word[0]);
    }
}

/// `/goal` with a condition and a limit hands both to the worker.
pub proof fn goal_is_set(
    a: App,
    args: Seq<String>,
    b: App,
    r: Option<UserAction>,
    condition: Seq<char>,
    n: u32,
)
    requires
        command_ran(a, CommandHandler::Async(AsyncCommand::Goal), args, b, r),
        args.len() > 1,
        spaced(views(args)) == condition + " or stop after "@ + decimal(n as nat) + " turns"@,
    ensures
        r matches Some(UserAction::SetGoal { condition: c, max_turns }) && c@ == trim(condition)
            && max_turns == n,
        adds_one(a, b),
        b.blocks@.last() matches TranscriptBlock::System { text } && text@ == "Goal set: \""@ + trim(
            condition,
        ) + "\" (max "@ + decimal(n as nat) + " turns)"@,
        b.active_goal == a.active_goal,
{
    joining_spaces(views(args));
    assert(views(args).skip(0) =~= views(args));
    goal_limit_comes_back(condition, n);
    models_follow(a);
    models_follow(b);
    assert(b.transcript().last() == b.blocks@.last()@);
}

/// `/goal clear` drops the goal, here and in the worker, and `/goal` alone only
/// says how it stands.
pub proof fn goal_is_dropped(a: App, args: Seq<String>, b: App, r: Option<UserAction>)
    requires
        command_ran(a, CommandHandler::Async(AsyncCommand::Goal), args, b, r),
        args.len() == 0 || args.len() == 1 && args[0]@ == "clear"@,
    ensures
        adds_one(a, b),
        args.len() == 1 ==> r == Some(UserAction::ClearGoal) && b.active_goal is None,
        args.len() == 0 ==> r is None && b.active_goal == a.active_goal,
{
    models_follow(a);
    models_follow(b);
}

/// `/goal` and `/loop` alone say how the goal and the loop stand: what they are after,
/// how many turns were taken, and how many there may be.
pub proof fn standing_is_told(
    a: App,
    args: Seq<String>,
    b: App,
    r: Option<UserAction>,
    c: App,
    s: Option<UserAction>,
)
    requires
        command_ran(a, CommandHandler::Async(AsyncCommand::Goal), args, b, r),
        command_ran(a, CommandHandler::Async(AsyncCommand::Loop), args, c, s),
        args.len() == 0,
    ensures
        r is None && s is None,
        adds_one(a, b) && adds_one(a, c),
        c.loop_state == a.loop_state,
        b.blocks@.last() matches TranscriptBlock::System { text } && (a.active_goal matches Some(g)
            ==> text@ == "Goal: \""@ + g.condition@ + "\" — turn "@ + decimal(g.turns as nat) + "/"@
            + decimal(g.max_turns as nat) + " — "@ + (if g.last_reason is Some {
            g.last_reason->0@
        } else {
            "pursuing"@
        })) && (a.active_goal is None ==> text@ == "No active goal."@),
        c.blocks@.last() matches TranscriptBlock::System { text } && (a.loop_state matches Some(l)
            ==> text@ == "Loop active — goal: \""@ + l.goal@ + "\", turns: "@ + decimal(
            l.turns_run as nat,
        ) + ("/"@ + (if l.max_turns > 0 {
            decimal(l.max_turns as nat)
        } else {
            "unlimited"@
        }))) && (a.loop_state is None ==> text@ == "No active loop."@),
{
    models_follow(a);
    models_follow(b);
    models_follow(c);
    assert(b.transcript().last() == b.blocks@.last()@);
    assert(c.transcript().last() == c.blocks@.last()@);
}

/// `/loop start` with a goal and a limit starts a loop with both, here and in the
/// worker.
pub proof fn loop_is_started_with_a_limit(
    a: App,
    args: Seq<String>,
    b: App,
    r: Option<UserAction>,
    goal: Seq<char>,
    n: u32,
)
    requires
        command_ran(a, CommandHandler::Async(AsyncCommand::Loop), args, b, r),
        args.len() > 1,
        args[0]@ == "start"@,
        spaced(views(args).skip(1)) == goal + " max "@ + decimal(n as nat),
    ensures
        r matches Some(UserAction::StartLoop { goal: g, max_turns }) && g@ == trim(goal)
            && max_turns == n,
        b.loop_state matches Some(l) && l.goal@ == trim(goal) && l.max_turns == n && l.turns_run
            == 0,
        adds_one(a, b),
        b.blocks@.last() matches TranscriptBlock::System { text } && text@ == "Loop started: \""@
            + trim(goal) + "\" (max "@ + (if n > 0 {
            decimal(n as nat)
        } else {
            "unlimited"@
        }) + " turns)"@,
{
    joining_spaces(views(args).skip(1));
    loop_limit_comes_back(goal, n);
    models_follow(a);
    models_follow(b);
    assert(b.transcript().last() == b.blocks@.last()@);
    let raw = goal + " max "@ + decimal(n as nat);
    crate::laws::words::blank_is_trimmed_to_nothing(raw);
    reveal_strlit(" max ");
    assert(raw[goal.len() as int + 1] == 'm');
    if crate::laws::words::all_white(raw) {
        assert(is_white(raw[goal.len() as int + 1]));
    }
}

/// A goal in plain words starts a loop without a limit on just those words, and
/// `/loop stop` stops the loop, here and in the worker.
pub proof fn loop_is_started_and_stopped(
    a: App,
    args: Seq<String>,
    b: App,
    r: Option<UserAction>,
)
    requires
        command_ran(a, CommandHandler::Async(AsyncCommand::Loop), args, b, r),
        args.len() > 0,
        forall|i: int| 0 <= i < args.len() ==> is_word((#[trigger] args[i])@),
    ensures
        adds_one(a, b),
        args[0]@ == "stop"@ ==> r == Some(UserAction::StopLoop) && b.loop_state is None,
        args[0]@ != "stop"@ && args[0]@ != "start"@ && args[0]@ != "trigger"@ && args[0]@
            != "supervise"@ ==> (r matches Some(UserAction::StartLoop { goal, max_turns }) && goal@
            == spaced(views(args)) && max_turns == 0) && (b.loop_state matches Some(l) && l.goal@
            == spaced(views(args)) && l.max_turns == 0 && l.turns_run == 0) && (
        b.blocks@.last() matches TranscriptBlock::System { text } && text@ == "Loop started: \""@
            + spaced(views(args)) + "\" (unlimited turns)"@),
        args[0]@ == "trigger"@ && args.len() > 1 ==> (r matches Some(
            UserAction::LoopTrigger { source, prompt },
        ) && source@ == "manual"@ && prompt@ == spaced(views(args).skip(1))) && b.loop_state
            == a.loop_state && (b.blocks@.last() matches TranscriptBlock::System { text } && text@
            == "Loop trigger: "@ + spaced(views(args).skip(1))),
        (args[0]@ == "start"@ || args[0]@ == "trigger"@ || args[0]@ == "supervise"@) && args.len()
            == 1 ==> r is None && b.loop_state == a.loop_state && (
        b.blocks@.last() matches TranscriptBlock::Error { text } && text@ == if args[0]@
            == "start"@ {
            "Usage: /loop start <goal> [max N]"@
        } else if args[0]@ == "trigger"@ {
            "Usage: /loop trigger <text>"@
        } else {
            "Usage: /loop supervise <command...>"@
        }),
{
    models_follow(a);
    models_follow(b);
    assert(b.transcript().last() == b.blocks@.last()@);
    joining_spaces(views(args));
    joining_spaces(views(args).skip(1));
    assert(views(args).skip(0) =~= views(args));
    let all = spaced(views(args));
    crate::laws::words::blank_is_trimmed_to_nothing(all);
    assert(views(args)[0] == args[0]@);
    assert(is_word(args[0]@));
    assert(all[0] == args[0]@[0]);
    let rest = spaced(views(args).skip(1));
    crate::laws::words::blank_is_trimmed_to_nothing(rest);
    if args.len() > 1 {
        assert(views(args).skip(1)[0] == args[1]@);
        assert(is_word(args[1]@));
        assert(rest[0] == args[1]@[0]);
    }
    reveal_strlit("stop");
    reveal_strlit("start");
    reveal_strlit("trigger");
    reveal_strlit("supervise");
    assert("stop"@.len() == 4 && "start"@.len() == 5 && "trigger"@.len() == 7
        && "supervise"@.len() == 9);
}

/// `/loop supervise` starts a loop without a limit whose orders hold the command
/// that is to be watched.
pub proof fn loop_supervises_its_command(
    a: App,
    args: Seq<String>,
    b: App,
    r: Option<UserAction>,
)
    requires
        command_ran(a, CommandHandler::Async(AsyncCommand::Loop), args, b, r),
        args.len() > 1,
        args[0]@ == "supervise"@,
        forall|i: int| 0 <= i < args.len() ==> is_word((#[trigger] args[i])@),
    ensures
        r matches Some(UserAction::StartLoop { goal, max_turns }) && max_turns == 0 && goal@
            == replaced(
            crate::app::handlers::supervise_orders(),
            "$COMMAND"@,
            spaced(views(args).skip(1)),
        ),
        b.loop_state matches Some(l) && l.max_turns == 0 && l.goal@ == "supervise: "@ + spaced(
            views(args).skip(1),
        ),
{
    joining_spaces(views(args).skip(1));
    let rest = spaced(views(args).skip(1));
    crate::laws::words::blank_is_trimmed_to_nothing(rest);
    assert(views(args).skip(1)[0] == args[1]@);
    assert(is_word(args[1]@));
    assert(rest[0] == args[1]@[0]);
    reveal_strlit("start");
    reveal_strlit("supervise");
    assert("start"@.len() == 5 && "supervise"@.len() == 9);
}

/// `/status` tells the turns, the blocks, the tokens of the session and the uptime
/// in whole seconds.
pub proof fn status_is_told(a: App, nanos: u64, b: App)
    requires
        crate::app::handlers::status_shown_after(a, nanos, b),
        a.usage.total_input + a.usage.total_output <= u64::MAX,
    ensures
        adds_one(a, b),
        b.blocks@.last() matches TranscriptBlock::System { text } && text@ == "Status — turn "@
            + decimal(a.turn_count as nat) + ", blocks "@ + decimal(a.blocks@.len()) + ", tokens "@
            + decimal((a.usage.total_input + a.usage.total_output) as nat) + ", uptime "@
            + decimal((nanos / 1_000_000_000) as nat) + "s"@,
{
    models_follow(a);
    models_follow(b);
    assert(b.transcript().last() == b.blocks@.last()@);
}

/// A command that opens a panel gives it the keyboard, and leaves the conversation
/// alone.
pub proof fn panels_are_opened(
    a: App,
    cmd: SyncCommand,
    args: Seq<String>,
    b: App,
    r: Option<UserAction>,
)
    requires
        command_ran(a, CommandHandler::Sync(cmd), args, b, r),
        cmd == SyncCommand::Help || cmd == SyncCommand::Cost || cmd == SyncCommand::Model || cmd
            == SyncCommand::Tools || cmd == SyncCommand::Journal || cmd == SyncCommand::Resume
            && a.around.sessions@.len() > 0 || cmd == SyncCommand::Theme && args.len() == 0,
    ensures
        r is None,
        b.prompt.mode == InputMode::CommandInteract,
        b.blocks == a.blocks,
        b.active_command_panel matches Some(p) && p.command_name@ == match cmd {
            SyncCommand::Help => "help"@,
            SyncCommand::Cost => "cost"@,
            SyncCommand::Model => "model"@,
            SyncCommand::Tools => "tools"@,
            SyncCommand::Journal => "journal"@,
            SyncCommand::Resume => "resume"@,
            _ => "theme"@,
        },
{
}

} // verus!
