//! What is decided before an agent runtime is built.
use vstd::prelude::*;
#[allow(unused_imports)]
use vstd::string::*;

use crate::model_picker::ProviderPreset;
use crate::text::{concat2, concat3, concat5, same_text, views};

verus! {

/// How far the agent may go into a directory.
#[derive(Clone, Copy, Debug, PartialEq, Eq, Structural)]
pub enum AccessTier {
    ReadOnly,
    ReadWrite,
}

/// Whether there is a runtime, and if not, why.
#[derive(Clone, Debug)]
pub enum RuntimeBuild {
    Ready,
    Offline { reason: String },
}

/// The key, unless it is empty.
pub open spec fn usable_key(api_key: Option<&str>) -> Option<&str> {
    match api_key {
        Some(k) => if k@.len() > 0 {
            Some(k)
        } else {
            None
        },
        None => None,
    }
}

/// The key, unless it is empty.
pub fn effective_api_key(api_key: Option<&str>) -> (r: Option<&str>)
    ensures
        r == usable_key(api_key),
{
    match api_key {
        Some(k) => if k.is_empty() {
            None
        } else {
            Some(k)
        },
        None => None,
    }
}

/// What the user is told while no provider is configured.
pub open spec fn no_provider_reason() -> Seq<char> {
    "No LLM provider configured. Run `recursive init` (outside the TUI) to set one up, then restart. Or set provider.preset + API key manually: `recursive config set provider.preset <id>` and `recursive config set-secret <KEY_ENV> <KEY>`."@
}

/// What the user is told while no provider is configured.
pub fn offline_no_provider_reason() -> (r: String)
    ensures
        r@ == no_provider_reason(),
{
    "No LLM provider configured. Run `recursive init` (outside the TUI) to set one up, then restart. Or set provider.preset + API key manually: `recursive config set provider.preset <id>` and `recursive config set-secret <KEY_ENV> <KEY>`.".to_owned()
}

/// Why no runtime could be built.
#[derive(Clone, Debug)]
pub enum BuildFailure {
    /// The configuration could not be loaded.
    Config(String),
    /// No provider is configured.
    NoProvider,
    /// The provider's client could not be built.
    Provider(String),
    /// The runtime itself could not be built.
    Runtime(String),
}

/// What the user is told about a failure.
pub open spec fn failure_reason(f: BuildFailure) -> Seq<char> {
    match f {
        BuildFailure::Config(e) => "failed to load configuration: "@ + e@,
        BuildFailure::NoProvider => no_provider_reason(),
        BuildFailure::Provider(e) => "failed to build HTTP client: "@ + e@,
        BuildFailure::Runtime(e) => "failed to build agent runtime: "@ + e@,
    }
}

/// Whether there is a runtime after its construction, or why there is none.
pub open spec fn runtime_built(outcome: Result<(), BuildFailure>, r: RuntimeBuild) -> bool {
    &&& outcome is Ok <==> r is Ready
    &&& outcome matches Err(f) ==> (r matches RuntimeBuild::Offline { reason } && reason@
        == failure_reason(f))
}

/// The state of the runtime after its construction.
pub fn build_runtime(outcome: Result<(), BuildFailure>) -> (r: RuntimeBuild)
    ensures
        runtime_built(outcome, r),
{
    match outcome {
        Ok(_) => RuntimeBuild::Ready,
        Err(BuildFailure::Config(e)) => RuntimeBuild::Offline {
            reason: concat2("failed to load configuration: ", e.as_str()),
        },
        Err(BuildFailure::NoProvider) => RuntimeBuild::Offline {
            reason: offline_no_provider_reason(),
        },
        Err(BuildFailure::Provider(e)) => RuntimeBuild::Offline {
            reason: concat2("failed to build HTTP client: ", e.as_str()),
        },
        Err(BuildFailure::Runtime(e)) => RuntimeBuild::Offline {
            reason: concat2("failed to build agent runtime: ", e.as_str()),
        },
    }
}

/// What the runtime is built with, or why it is not built.
pub open spec fn key_chosen(
    config: Result<Option<String>, String>,
    r: Result<String, BuildFailure>,
) -> bool {
    match config {
        Err(e) => r == Err::<String, BuildFailure>(BuildFailure::Config(e)),
        Ok(None) => r == Err::<String, BuildFailure>(BuildFailure::NoProvider),
        Ok(Some(k)) => if k@.len() == 0 {
            r == Err::<String, BuildFailure>(BuildFailure::NoProvider)
        } else {
            r == Ok::<String, BuildFailure>(k)
        },
    }
}

/// The key that the runtime is built with, or the failure that stands in its
/// place: the configuration could not be loaded, or holds no key.
pub fn startup_key(config: Result<Option<String>, String>) -> (r: Result<String, BuildFailure>)
    ensures
        key_chosen(config, r),
{
    match config {
        Err(e) => Err(BuildFailure::Config(e)),
        Ok(Some(k)) => if k.as_str().is_empty() {
            Err(BuildFailure::NoProvider)
        } else {
            Ok(k)
        },
        Ok(None) => Err(BuildFailure::NoProvider),
    }
}

/// The protocol that a provider speaks.
#[derive(Clone, Copy, Debug, PartialEq, Eq, Structural)]
pub enum ProviderKind {
    Anthropic,
    OpenAi,
}

/// The protocol of a provider type.
pub open spec fn kind_of(provider_type: Seq<char>) -> ProviderKind {
    if provider_type == "anthropic"@ {
        ProviderKind::Anthropic
    } else {
        ProviderKind::OpenAi
    }
}

/// The protocol of a provider type: everything but `anthropic` speaks the
/// OpenAI protocol.
pub fn provider_kind(provider_type: &str) -> (r: ProviderKind)
    ensures
        r == kind_of(provider_type@),
{
    if same_text(provider_type, "anthropic") {
        ProviderKind::Anthropic
    } else {
        ProviderKind::OpenAi
    }
}

/// What a provider's client is built from.
#[derive(Clone, Debug)]
pub struct ProviderConfig {
    pub provider_type: String,
    pub api_base: String,
    pub model: String,
    pub api_key: String,
}

/// Why no provider could be chosen.
#[derive(Clone, Debug)]
pub enum ProviderError {
    UnknownPreset { preset_id: String },
    Config { error: String },
    NoKey { preset_id: String, key_env: String },
}

/// What the user is told about it.
pub open spec fn provider_error_text(e: ProviderError) -> Seq<char> {
    match e {
        ProviderError::UnknownPreset { preset_id } => "unknown provider preset '"@ + preset_id@
            + "'"@,
        ProviderError::Config { error } => "failed to load configuration: "@ + error@,
        ProviderError::NoKey { preset_id, key_env } => "no API key for preset '"@ + preset_id@
            + "' — set $"@ + key_env@ + " (or RECURSIVE_API_KEY) and retry"@,
    }
}

impl ProviderError {
    /// What the user is told.
    pub fn message(&self) -> (r: String)
        ensures
            r@ == provider_error_text(*self),
    {
        match self {
            ProviderError::UnknownPreset { preset_id } => concat3(
                "unknown provider preset '",
                preset_id.as_str(),
                "'",
            ),
            ProviderError::Config { error } => concat2(
                "failed to load configuration: ",
                error.as_str(),
            ),
            ProviderError::NoKey { preset_id, key_env } => concat5(
                "no API key for preset '",
                preset_id.as_str(),
                "' — set $",
                key_env.as_str(),
                " (or RECURSIVE_API_KEY) and retry",
            ),
        }
    }
}

/// The first preset with that id, as a position, or the number of presets.
pub open spec fn preset_at(presets: Seq<ProviderPreset>, id: Seq<char>, from: int) -> int
    decreases presets.len() - from,
{
    if from < 0 || from >= presets.len() {
        presets.len() as int
    } else if presets[from].id@ == id {
        from
    } else {
        preset_at(presets, id, from + 1)
    }
}

/// The address of a preset: one of its own for the Anthropic protocol, where
/// it has one.
pub open spec fn preset_base(p: ProviderPreset) -> String {
    if p.provider_type@ == "anthropic"@ && p.anthropic_api_base is Some {
        p.anthropic_api_base->Some_0
    } else {
        p.api_base
    }
}

/// The key for a preset: its own one where that is set, or else the configured
/// one.
pub open spec fn preset_key(p: ProviderPreset, configured: Option<String>) -> Option<String> {
    if p.key_env@.len() > 0 && (p.key matches Some(k) && k@.len() > 0) {
        p.key
    } else {
        configured
    }
}

/// What is chosen for a preset and a model, or why nothing is.
pub open spec fn provider_chosen(
    presets: Seq<ProviderPreset>,
    config: Result<Option<String>, String>,
    preset_id: Seq<char>,
    model: Seq<char>,
    r: Result<ProviderConfig, ProviderError>,
) -> bool {
    let at = preset_at(presets, preset_id, 0);
    if at >= presets.len() {
        r matches Err(ProviderError::UnknownPreset { preset_id: id }) && id@ == preset_id
    } else {
        let p = presets[at];
        match config {
            Err(e) => r matches Err(ProviderError::Config { error }) && error == e,
            Ok(configured) => match preset_key(p, configured) {
                Some(k) => if k@.len() > 0 {
                    r matches Ok(c) && c.provider_type == p.provider_type && c.api_base
                        == preset_base(p) && c.model@ == model && c.api_key == k
                } else {
                    r matches Err(ProviderError::NoKey { preset_id: id, key_env }) && id
                        == p.id && key_env == p.key_env
                },
                None => r matches Err(ProviderError::NoKey { preset_id: id, key_env })
                    && id == p.id && key_env == p.key_env,
            },
        }
    }
}

/// Chooses what the client for a preset and a model is built from. `config` is
/// the key of the current configuration, or the error that loading it gave.
pub fn build_provider_for_model(
    presets: &Vec<ProviderPreset>,
    config: Result<Option<String>, String>,
    preset_id: &str,
    model: &str,
) -> (r: Result<ProviderConfig, ProviderError>)
    ensures
        provider_chosen(presets@, config, preset_id@, model@, r),
{
    let mut i: usize = 0;
    while i < presets.len() && !same_text(presets[i].id.as_str(), preset_id)
        invariant
            i <= presets@.len(),
            preset_at(presets@, preset_id@, i as int) == preset_at(presets@, preset_id@, 0),
        decreases presets@.len() - i,
    {
        i += 1;
    }
    if i >= presets.len() {
        return Err(ProviderError::UnknownPreset { preset_id: preset_id.to_owned() });
    }
    let preset: &ProviderPreset = &presets[i];
    let configured: Option<String> = match config {
        Err(error) => {
            return Err(ProviderError::Config { error });
        },
        Ok(k) => k,
    };
    let api_base: String = if same_text(preset.provider_type.as_str(), "anthropic") {
        match &preset.anthropic_api_base {
            Some(base) => base.clone(),
            None => preset.api_base.clone(),
        }
    } else {
        preset.api_base.clone()
    };
    let mut key: Option<String> = configured;
    if !preset.key_env.as_str().is_empty() {
        if let Some(k) = &preset.key {
            if !k.as_str().is_empty() {
                key = Some(k.clone());
            }
        }
    }
    match key {
        Some(k) => {
            if !k.as_str().is_empty() {
                return Ok(
                    ProviderConfig {
                        provider_type: preset.provider_type.clone(),
                        api_base,
                        model: model.to_owned(),
                        api_key: k,
                    },
                );
            }
        },
        None => {},
    }
    Err(ProviderError::NoKey { preset_id: preset.id.clone(), key_env: preset.key_env.clone() })
}

/// The directories beside the workspace that the agent may use.
pub open spec fn extra_roots(writable: Seq<String>, read_only: Seq<String>) -> Seq<
    (String, AccessTier),
> {
    writable.map_values(|d: String| (d, AccessTier::ReadWrite)) + read_only.map_values(
        |d: String| (d, AccessTier::ReadOnly),
    )
}

/// The directories beside the workspace that the agent may use: the writable
/// ones first.
pub fn sandbox_extra_roots(extra_dirs: &Vec<String>, extra_readonly_dirs: &Vec<String>) -> (r: Vec<
    (String, AccessTier),
>)
    ensures
        r@ == extra_roots(extra_dirs@, extra_readonly_dirs@),
{
    let mut out: Vec<(String, AccessTier)> = Vec::new();
    let ghost rw = extra_dirs@.map_values(|d: String| (d, AccessTier::ReadWrite));
    let ghost ro = extra_readonly_dirs@.map_values(|d: String| (d, AccessTier::ReadOnly));
    let mut i: usize = 0;
    while i < extra_dirs.len()
        invariant
            i <= extra_dirs@.len(),
            rw == extra_dirs@.map_values(|d: String| (d, AccessTier::ReadWrite)),
            out@ == rw.take(i as int),
        decreases extra_dirs@.len() - i,
    {
        out.push((extra_dirs[i].clone(), AccessTier::ReadWrite));
        i += 1;
        proof {
            assert(rw.take(i as int) =~= rw.take(i - 1).push(rw[i - 1]));
        }
    }
    proof {
        assert(rw.take(i as int) =~= rw);
        assert(rw + ro.take(0) =~= rw);
    }
    let mut j: usize = 0;
    while j < extra_readonly_dirs.len()
        invariant
            j <= extra_readonly_dirs@.len(),
            ro == extra_readonly_dirs@.map_values(|d: String| (d, AccessTier::ReadOnly)),
            out@ == rw + ro.take(j as int),
        decreases extra_readonly_dirs@.len() - j,
    {
        out.push((extra_readonly_dirs[j].clone(), AccessTier::ReadOnly));
        j += 1;
        proof {
            assert(rw + ro.take(j as int) =~= (rw + ro.take(j - 1)).push(ro[j - 1]));
        }
    }
    proof {
        assert(ro.take(j as int) =~= ro);
    }
    out
}

/// The given directories below a root.
pub open spec fn below(root: Seq<char>, dirs: Seq<String>) -> Seq<Seq<char>> {
    dirs.map_values(|d: String| root + "/"@ + d@)
}

fn push_below(out: &mut Vec<String>, root: &str, dirs: &Vec<String>)
    ensures
        views(final(out)@) == views(old(out)@) + below(root@, dirs@),
{
    let ghost start = views(out@);
    let ghost all = below(root@, dirs@);
    let mut i: usize = 0;
    proof {
        assert(start + all.take(0) =~= start);
    }
    while i < dirs.len()
        invariant
            i <= dirs@.len(),
            all == below(root@, dirs@),
            views(out@) == start + all.take(i as int),
        decreases dirs@.len() - i,
    {
        let path: String = concat3(root, "/", dirs[i].as_str());
        let ghost before = out@;
        out.push(path);
        proof {
            assert(views(out@) =~= views(before).push(path@));
            assert(start + all.take(i + 1) =~= (start + all.take(i as int)).push(all[i as int]));
        }
        i += 1;
    }
    proof {
        assert(all.take(i as int) =~= all);
    }
}

/// Whether `r` are the directories in which skills are looked for.
pub open spec fn are_search_paths(
    configured: Option<Vec<String>>,
    usual: Seq<String>,
    workspace: Seq<char>,
    home: Option<&str>,
    r: Vec<String>,
) -> bool {
    match configured {
        Some(paths) => r == paths,
        None => views(r@) == match home {
            Some(h) => below(workspace, usual) + below(h@, usual),
            None => below(workspace, usual),
        },
    }
}

/// The directories in which skills are looked for: the configured ones, or else
/// the usual ones in the workspace and then in the home directory, where there
/// is one.
pub fn skill_search_paths(
    configured: Option<Vec<String>>,
    usual: &Vec<String>,
    workspace: &str,
    home: Option<&str>,
) -> (r: Vec<String>)
    ensures
        are_search_paths(configured, usual@, workspace@, home, r),
{
    match configured {
        Some(paths) => paths,
        None => {
            let mut out: Vec<String> = Vec::new();
            proof {
                assert(views(out@) + below(workspace@, usual@) =~= below(workspace@, usual@));
            }
            push_below(&mut out, workspace, usual);
            if let Some(h) = home {
                push_below(&mut out, h, usual);
            }
            out
        },
    }
}

} // verus!
