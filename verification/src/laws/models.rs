//! The provider that a model is switched to.
use vstd::prelude::*;
#[allow(unused_imports)]
use vstd::string::*;

use crate::model_picker::ProviderPreset;
use crate::runtime_builder::{
    preset_at, provider_chosen, provider_error_text, ProviderConfig, ProviderError,
};

verus! {

/// Whether `p` is the preset that goes by that id: the first one, where several
/// do.
pub open spec fn goes_by_id(
    presets: Seq<ProviderPreset>,
    id: Seq<char>,
    p: ProviderPreset,
    i: int,
) -> bool {
    &&& 0 <= i < presets.len()
    &&& presets[i] == p
    &&& p.id@ == id
    &&& forall|j: int| 0 <= j < i ==> (#[trigger] presets[j]).id@ != id
}

proof fn preset_is_found(presets: Seq<ProviderPreset>, id: Seq<char>, i: int, from: int)
    requires
        0 <= from <= i < presets.len(),
        presets[i].id@ == id,
        forall|j: int| 0 <= j < i ==> (#[trigger] presets[j]).id@ != id,
    ensures
        preset_at(presets, id, from) == i,
    decreases i - from,
{
    if from < i {
        assert(presets[from].id@ != id);
        preset_is_found(presets, id, i, from + 1);
    }
}

proof fn no_preset_is_found(presets: Seq<ProviderPreset>, id: Seq<char>, from: int)
    requires
        0 <= from <= presets.len(),
        forall|j: int| 0 <= j < presets.len() ==> (#[trigger] presets[j]).id@ != id,
    ensures
        preset_at(presets, id, from) == presets.len(),
    decreases presets.len() - from,
{
    if from < presets.len() {
        no_preset_is_found(presets, id, from + 1);
    }
}

/// A key of the preset's own wins, whatever the configuration holds: the provider
/// is built with it, and for two configurations alike.
pub proof fn own_key_wins(
    presets: Seq<ProviderPreset>,
    id: Seq<char>,
    p: ProviderPreset,
    i: int,
    key: String,
    model: Seq<char>,
    one: Option<String>,
    other: Option<String>,
    r: Result<ProviderConfig, ProviderError>,
    s: Result<ProviderConfig, ProviderError>,
)
    requires
        goes_by_id(presets, id, p, i),
        p.key_env@.len() > 0,
        p.key == Some(key),
        key@.len() > 0,
        provider_chosen(presets, Ok(one), id, model, r),
        provider_chosen(presets, Ok(other), id, model, s),
    ensures
        r matches Ok(c) && c.api_key@ == key@,
        s matches Ok(c) && c.api_key@ == key@,
        r->Ok_0.provider_type == s->Ok_0.provider_type,
        r->Ok_0.api_base == s->Ok_0.api_base,
        r->Ok_0.model@ == s->Ok_0.model@,
{
    preset_is_found(presets, id, i, 0);
}

/// Without a key of the preset's own, the configured one is used, and where that
/// is missing or empty too, the user is told which variable to set.
pub proof fn configured_key_fills_in(
    presets: Seq<ProviderPreset>,
    id: Seq<char>,
    p: ProviderPreset,
    i: int,
    configured: Option<String>,
    model: Seq<char>,
    r: Result<ProviderConfig, ProviderError>,
)
    requires
        goes_by_id(presets, id, p, i),
        p.key_env@.len() == 0 || p.key is None || p.key->Some_0@.len() == 0,
        provider_chosen(presets, Ok(configured), id, model, r),
    ensures
        configured matches Some(k) && k@.len() > 0 ==> (r matches Ok(c) && c.api_key@
            == configured->Some_0@),
        configured is None || configured->Some_0@.len() == 0 ==> (r matches Err(
            ProviderError::NoKey { preset_id, key_env },
        ) && preset_id@ == id && key_env@ == p.key_env@),
{
    preset_is_found(presets, id, i, 0);
}

/// The provider that is built is that of the preset and of the model that were
/// asked for: it has the preset's type and address, the address for the
/// Anthropic protocol where the preset speaks that and has one, and never an
/// empty key.
pub proof fn provider_is_that_of_the_preset(
    presets: Seq<ProviderPreset>,
    id: Seq<char>,
    p: ProviderPreset,
    i: int,
    config: Result<Option<String>, String>,
    model: Seq<char>,
    c: ProviderConfig,
)
    requires
        goes_by_id(presets, id, p, i),
        provider_chosen(presets, config, id, model, Ok(c)),
    ensures
        c.model@ == model,
        c.provider_type@ == p.provider_type@,
        p.provider_type@ == "anthropic"@ && p.anthropic_api_base is Some ==> c.api_base@
            == p.anthropic_api_base->Some_0@,
        p.provider_type@ != "anthropic"@ || p.anthropic_api_base is None ==> c.api_base@
            == p.api_base@,
        c.api_key@.len() > 0,
        config is Ok,
{
    preset_is_found(presets, id, i, 0);
}

/// No provider is built for a preset that does not exist, nor without a
/// configuration, and the user is told why.
pub proof fn nothing_is_built_without_a_preset(
    presets: Seq<ProviderPreset>,
    id: Seq<char>,
    config: Result<Option<String>, String>,
    model: Seq<char>,
    r: Result<ProviderConfig, ProviderError>,
)
    requires
        provider_chosen(presets, config, id, model, r),
    ensures
        (forall|j: int| 0 <= j < presets.len() ==> (#[trigger] presets[j]).id@ != id) ==> (
        r matches Err(ProviderError::UnknownPreset { preset_id }) && preset_id@ == id),
        config is Err ==> r is Err,
{
    if forall|j: int| 0 <= j < presets.len() ==> (#[trigger] presets[j]).id@ != id {
        no_preset_is_found(presets, id, 0);
    }
}

/// Why nothing is built is said in words: which preset is unknown, what is wrong with
/// the configuration, and which key of which preset is missing.
pub proof fn reasons_are_said(preset_id: String, error: String, key_env: String)
    ensures
        provider_error_text(ProviderError::UnknownPreset { preset_id })
            == "unknown provider preset '"@ + preset_id@ + "'"@,
        provider_error_text(ProviderError::Config { error }) == "failed to load configuration: "@
            + error@,
        provider_error_text(ProviderError::NoKey { preset_id, key_env })
            == "no API key for preset '"@ + preset_id@ + "' — set $"@ + key_env@
            + " (or RECURSIVE_API_KEY) and retry"@,
{
}

} // verus!
