//! What the agent starts with, and what the interface is told of it.
use vstd::prelude::*;
#[allow(unused_imports)]
use vstd::string::*;

use crate::app::App;
use crate::backend::{
    compaction_told, decided_on, last_words, servers_told, session_name, session_told, switch_told,
    McpServer, PermissionDecision, RuntimeOutcome,
};
use crate::cost::{held, is_model_name, window_of};
use crate::events::UiEvent;
use crate::input_state::InputMode;
use crate::message::Message;
use crate::runtime_builder::{
    are_search_paths, extra_roots, key_chosen, kind_of, runtime_built, usable_key, AccessTier,
    BuildFailure, ProviderKind, RuntimeBuild,
};
use crate::terminal::panic_entry;
use crate::text::{decimal, views};

verus! {

/// The agent starts with the configured key, as it is, and with nothing but a key:
/// where there is none, or an empty one, it is offline for want of a provider, and
/// where the configuration cannot be loaded, that is what is said.
pub proof fn agent_starts_with_its_key(
    config: Result<Option<String>, String>,
    key: Result<String, BuildFailure>,
    built: Result<(), BuildFailure>,
    r: RuntimeBuild,
)
    requires
        key_chosen(config, key),
        key matches Err(f) ==> built == Err::<(), BuildFailure>(f),
        runtime_built(built, r),
    ensures
        key matches Ok(k) ==> config == Ok::<Option<String>, String>(Some(k)) && k@.len() > 0,
        config matches Ok(Some(k)) ==> k@.len() > 0 ==> key == Ok::<String, BuildFailure>(k),
        r is Ready <==> built is Ok,
        config matches Err(e) ==> (r matches RuntimeBuild::Offline { reason } && reason@
            == "failed to load configuration: "@ + e@),
        config is Ok && key is Err ==> (r matches RuntimeBuild::Offline { reason } && reason@
            == crate::runtime_builder::no_provider_reason()),
        built matches Err(BuildFailure::Provider(e)) ==> (r matches RuntimeBuild::Offline {
            reason,
        } && reason@ == "failed to build HTTP client: "@ + e@),
        built matches Err(BuildFailure::Runtime(e)) ==> (r matches RuntimeBuild::Offline {
            reason,
        } && reason@ == "failed to build agent runtime: "@ + e@),
{
}

/// The agent may use the directories that were granted to it, each with the access
/// that it was granted with, and no others.
pub proof fn directories_keep_their_access(
    writable: Seq<String>,
    read_only: Seq<String>,
    root: (String, AccessTier),
)
    ensures
        extra_roots(writable, read_only).len() == writable.len() + read_only.len(),
        forall|i: int|
            0 <= i < writable.len() ==> #[trigger] extra_roots(writable, read_only)[i] == (
                writable[i],
                AccessTier::ReadWrite,
            ),
        extra_roots(writable, read_only).contains(root) <==> (root.1 == AccessTier::ReadWrite
            && writable.contains(root.0) || root.1 == AccessTier::ReadOnly && read_only.contains(
            root.0,
        )),
{
    let all = extra_roots(writable, read_only);
    if root.1 == AccessTier::ReadWrite && writable.contains(root.0) {
        let i = choose|i: int| 0 <= i < writable.len() && writable[i] == root.0;
        assert(all[i] == root);
    }
    if root.1 == AccessTier::ReadOnly && read_only.contains(root.0) {
        let i = choose|i: int| 0 <= i < read_only.len() && read_only[i] == root.0;
        assert(all[writable.len() + i] == root);
    }
    if all.contains(root) {
        let i = choose|i: int| 0 <= i < all.len() && all[i] == root;
        if i < writable.len() {
            assert(writable[i] == root.0);
        } else {
            assert(read_only[i - writable.len()] == root.0);
        }
    }
}

/// Skills are looked for where the configuration says, and only there. Without a
/// word on that they are looked for in the usual directories, those of the
/// workspace before those of the home directory.
pub proof fn skills_are_looked_for(
    configured: Option<Vec<String>>,
    usual: Seq<String>,
    workspace: Seq<char>,
    home: Option<&str>,
    r: Vec<String>,
)
    requires
        are_search_paths(configured, usual, workspace, home, r),
    ensures
        configured matches Some(paths) ==> r == paths,
        configured is None ==> r@.len() == if home is Some {
            2 * usual.len()
        } else {
            usual.len()
        },
        configured is None ==> forall|i: int|
            0 <= i < usual.len() ==> (#[trigger] r@[i])@ == workspace + "/"@ + usual[i]@,
        configured is None && home is Some ==> forall|i: int|
            0 <= i < usual.len() ==> (#[trigger] r@[usual.len() + i])@ == home->0@ + "/"@
                + usual[i]@,
{
    if configured is None {
        let v = views(r@);
        assert(v.len() == r@.len());
        assert forall|i: int| 0 <= i < usual.len() implies (#[trigger] r@[i])@ == workspace + "/"@
            + usual[i]@ by {
            assert(v[i] == r@[i]@);
        }
        if home is Some {
            assert forall|i: int| 0 <= i < usual.len() implies (#[trigger] r@[usual.len()
                + i])@ == home->0@ + "/"@ + usual[i]@ by {
                assert(v[usual.len() + i] == r@[usual.len() + i]@);
            }
        }
    }
}

/// A tool runs only where nobody asks, nobody can be asked, or the user said yes.
pub proof fn tool_runs_with_leave(
    enabled: bool,
    delivered: bool,
    answer: Option<bool>,
    r: PermissionDecision,
)
    requires
        decided_on(enabled, delivered, answer, r),
    ensures
        enabled && delivered ==> (r is Allow <==> answer == Some(true)),
        !enabled || !delivered ==> r is Allow,
{
}

/// The last words of a turn are those of its outcome, and a turn that failed has
/// none.
pub proof fn last_words_are_the_outcome(
    result: Result<Result<Option<RuntimeOutcome>, String>, String>,
)
    ensures
        last_words(result) is Some ==> result is Ok && result->Ok_0 is Ok && result->Ok_0->Ok_0
            is Some,
        result matches Ok(Ok(Some(outcome))) ==> last_words(result) == outcome.final_text,
{
}

/// A compaction, a resumed session and a switch of the model are reported as what
/// they came to: a failure is an error that says what failed and why, and a
/// success is never one.
pub proof fn outcomes_are_reported(
    compacted: Result<(), String>,
    c: Option<UiEvent>,
    name: Option<&str>,
    loaded: Result<&Vec<Message>, String>,
    s: UiEvent,
    preset_id: String,
    model: String,
    switched: Result<(), String>,
    m: UiEvent,
)
    requires
        compaction_told(compacted, c),
        session_told(name, loaded, s),
        switch_told(preset_id, model, switched, m),
    ensures
        compacted is Ok <==> c is None,
        compacted matches Err(e) ==> (c matches Some(UiEvent::Error { message }) && message@
            == "compact failed: "@ + e@),
        loaded matches Err(e) ==> (s matches UiEvent::Error { message } && message@
            == "Failed to load session: "@ + e@),
        loaded matches Ok(messages) ==> (s matches UiEvent::SessionResumed {
            session_id,
            turn_count,
            ..
        } && turn_count == messages@.len() && (name matches Some(n) ==> session_id@ == n@) && (name is None ==> session_id@
            == "unknown"@)),
        switched is Ok ==> (m matches UiEvent::ModelSwitched { preset_id: p, model: n } && p
            == preset_id && n == model),
        switched matches Err(e) ==> (m matches UiEvent::Error { message } && message@
            == "switch model failed: "@ + e@),
{
}

/// The interface is told of every server that was found, in their order, each by
/// its name and by how it is reached: by its address where it has one, and else
/// by its command.
pub proof fn every_server_is_listed(servers: Seq<McpServer>, r: UiEvent)
    requires
        servers_told(servers, r),
    ensures
        r matches UiEvent::McpServersLoaded { entries } && entries@.len() == servers.len()
            && forall|i: int|
            0 <= i < servers.len() ==> (#[trigger] entries@[i]).name@ == servers[i].name@
                && entries@[i].enabled && (servers[i].url is Some ==> entries@[i].transport@
                == "http"@) && (servers[i].url is None && servers[i].command@.len() > 0
                ==> entries@[i].transport@ == "stdio"@) && (servers[i].url is None
                && servers[i].command@.len() == 0 ==> entries@[i].transport@ == "unknown"@),
{
}

/// A session goes by the message that it starts with: by all of a short one, and
/// else by its first two hundred characters.
pub proof fn session_goes_by_its_first_message(head: Seq<char>, tail: Seq<char>)
    requires
        head.len() == 200,
    ensures
        session_name(head + tail) == head,
        forall|text: Seq<char>| text.len() <= 200 ==> #[trigger] session_name(text) == text,
{
    assert((head + tail).take(200) =~= head);
    if tail.len() == 0 {
        assert(head + tail =~= head);
    }
}

/// The model that is shown and its context window are those of the configuration,
/// whatever the catalog says; the catalog counts only without a configuration.
pub proof fn configured_model_counts(
    name: String,
    r: String,
    other: String,
    window: u64,
    catalog: u64,
    catalog2: u64,
)
    requires
        is_model_name(Some(name), r),
        is_model_name(None, other),
    ensures
        r@ == name@,
        other@ == "gpt-4o-mini"@,
        window_of(Some(window), catalog) == window,
        window_of(Some(window), catalog) == window_of(Some(window), catalog2),
        window_of(None, catalog) == catalog,
{
}

/// Only `anthropic` speaks the protocol of Anthropic, and an empty key counts as none.
pub proof fn protocols_and_keys(provider_type: Seq<char>, key: &str)
    ensures
        kind_of(provider_type) == ProviderKind::Anthropic <==> provider_type == "anthropic"@,
        usable_key(Some(key)) is Some <==> key@.len() > 0,
        key@.len() > 0 ==> usable_key(Some(key)) == Some(key),
        usable_key(None) is None,
{
}

/// A count is kept as it is while it fits, and never shrinks as the count grows.
pub proof fn counts_are_held(v: u64, w: u64)
    ensures
        0 <= held(v) <= 4294967295,
        v <= 4294967295 ==> held(v) == v,
        v > 4294967295 ==> held(v) == 4294967295,
        v <= w ==> held(v) <= held(w),
{
}

/// The log of a panic says when and in which thread it came, where, and why.
pub proof fn panic_is_logged(secs: u64, thread: Seq<char>, location: Seq<char>, msg: Seq<char>)
    ensures
        panic_entry(secs, thread, location, msg) == "[unix_ts="@ + decimal(secs as nat)
            + "] thread '"@ + thread + "' panicked at "@ + location + ":\n"@ + msg + "\n\n"@,
{
}

/// The interface starts with nothing said, nothing typed and nothing allowed: the
/// prompt has the keyboard, no turn runs, and all commands are there.
pub proof fn interface_starts_empty(a: App)
    requires
        a.is_fresh(),
    ensures
        a.blocks@.len() == 0,
        a.prompt.buffer@.len() == 0 && a.prompt.cursor == 0 && a.prompt.mode == InputMode::Prompt,
        a.prompt.history@.len() == 0 && a.prompt.history_idx is None,
        crate::laws::interrupt::prompt_has_the_keyboard(a),
        !a.should_quit && !a.turn.running && !a.connected,
        !a.permission_hook_enabled && a.auto_allowed_tools@.len() == 0 && a.session_roots@.len()
            == 0,
        crate::laws::commands::has_the_builtins(a) && a.commands.skills().len() == 0,
        a.active_goal is None && a.loop_state is None && a.turn_count == 0,
        a.theme.name@ == "dark"@,
        a.usage.total_input == 0 && a.usage.total_output == 0,
{
}

/// The plain front end starts with its welcome alone.
pub proof fn chat_starts_with_its_welcome(a: crate::chat::App)
    requires
        a.is_fresh(),
    ensures
        a.input@.len() == 0 && a.messages@.len() == 1 && !a.should_quit && !a.connected
            && a.session_id is None && a.scroll_offset == 0,
        a.messages@[0] is System,
        !(a.screen is PlanReview),
{
}

} // verus!
