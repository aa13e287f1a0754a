//! What a local Ollama instance says about its models.
use std::time::Instant;

use vstd::prelude::*;
#[allow(unused_imports)]
use vstd::slice::*;
#[allow(unused_imports)]
use vstd::string::*;

use crate::clock::elapsed_nanos;
use crate::json::{bytes_document, parse_bytes, parse_text, text_document, Json, JsonModel};
use crate::order::{is_sorted_set, sorted_unique};
use crate::text::{
    ascii_lowered, chars_of, find_char, next_char, same_ignoring_ascii_case, same_text, views,
};

verus! {

/// The context window of a model that the bundled list does not know.
pub const DEFAULT_CONTEXT_WINDOW: usize = 32768;

/// How long an answer stays fresh, in nanoseconds.
pub const PROBE_TTL_NANOS: u64 = 30_000_000_000;

/// A model that a provider offers.
#[derive(Clone, Debug, PartialEq, Eq)]
pub struct ModelSpec {
    pub name: String,
    pub context_window: usize,
    /// The prices per million input and output tokens in US dollars, as they
    /// are shown.
    pub pricing: Option<(String, String)>,
}

/// What the model picker shows for Ollama.
#[derive(Clone, Debug)]
pub enum OllamaPickerModels {
    /// No instance answers.
    Unreachable,
    /// The models that are installed.
    Local(Vec<ModelSpec>),
    /// Probing is switched off: the bundled list.
    Bundled,
}

// ---------------------------------------------------------------------------
// The answer
// ---------------------------------------------------------------------------

/// Whether the blank line that ends the headers stands at `i`.
pub open spec fn header_end(raw: Seq<u8>, i: int) -> bool {
    &&& 0 <= i
    &&& i + 4 <= raw.len()
    &&& raw[i] == 13
    &&& raw[i + 1] == 10
    &&& raw[i + 2] == 13
    &&& raw[i + 3] == 10
}

/// Whether the first blank line stands at `i`.
pub open spec fn is_header_end(raw: Seq<u8>, i: int) -> bool {
    header_end(raw, i) && forall|j: int| 0 <= j < i ==> !header_end(raw, j)
}

/// Whether `r` is the body of an HTTP response, where it has one.
pub open spec fn body_found(raw: Seq<u8>, r: Option<Seq<u8>>) -> bool {
    &&& r is Some <==> exists|i: int| header_end(raw, i)
    &&& r matches Some(body) ==> exists|i: int| is_header_end(raw, i) && body == raw.skip(i + 4)
}

/// The body of an HTTP response: what follows the first blank line.
pub fn http_body(raw: &[u8]) -> (r: Option<&[u8]>)
    ensures
        body_found(
            raw@,
            match r {
                Some(body) => Some(body@),
                None => None,
            },
        ),
{
    let n: usize = raw.len();
    let mut i: usize = 0;
    while i < n && n - i >= 4
        invariant
            n == raw@.len(),
            i <= n,
            forall|j: int| 0 <= j < i ==> !header_end(raw@, j),
        decreases n - i,
    {
        if raw[i] == 13 && raw[i + 1] == 10 && raw[i + 2] == 13 && raw[i + 3] == 10 {
            proof {
                assert(is_header_end(raw@, i as int));
                assert(raw@.subrange(i + 4, n as int) == raw@.skip(i + 4));
            }
            return Some(slice_subrange(raw, i + 4, n));
        }
        i += 1;
    }
    None
}

/// The name of a model without its tag: what stands before the first colon.
pub fn base_name(full: &str) -> (r: &str)
    ensures
        r@ == full@.take(next_char(full@, ':', 0)),
{
    let v: Vec<char> = chars_of(full);
    let end: usize = find_char(&v, ':', 0);
    proof {
        assert(full@.subrange(0, end as int) == full@.take(end as int));
    }
    full.substring_char(0, end)
}

/// The member of an object that goes by `key`, as JSON text.
pub open spec fn member(members: Seq<(Seq<char>, Seq<char>)>, key: Seq<char>) -> Option<Seq<char>>
    decreases members.len(),
{
    if members.len() == 0 {
        None
    } else if members[0].0 == key {
        Some(members[0].1)
    } else {
        member(members.skip(1), key)
    }
}

/// The string that a member of an object holds.
pub open spec fn string_member(d: Option<JsonModel>, key: Seq<char>) -> Option<Seq<char>> {
    match d {
        Some(JsonModel::Object(members)) => match member(members, key) {
            Some(json) => match text_document(json) {
                Some(JsonModel::Text(s)) => Some(s),
                _ => None,
            },
            None => None,
        },
        _ => None,
    }
}

/// The name of one listed model: its `name`, or else its `model`.
pub open spec fn listed_name(d: Option<JsonModel>) -> Option<Seq<char>> {
    match string_member(d, "name"@) {
        Some(s) => Some(s),
        None => string_member(d, "model"@),
    }
}

/// The elements of the `models` list of a document.
pub open spec fn listed_models(d: Option<JsonModel>) -> Seq<Seq<char>> {
    match d {
        Some(JsonModel::Object(members)) => match member(members, "models"@) {
            Some(json) => match text_document(json) {
                Some(JsonModel::Array(items)) => items,
                _ => seq![],
            },
            None => seq![],
        },
        _ => seq![],
    }
}

/// The names of the listed models, in their order, without empty ones.
pub open spec fn listed_names(items: Seq<Seq<char>>) -> Seq<Seq<char>>
    decreases items.len(),
{
    if items.len() == 0 {
        seq![]
    } else {
        let front = listed_names(items.drop_last());
        match listed_name(text_document(items.last())) {
            Some(s) => if s.len() > 0 {
                front.push(s)
            } else {
                front
            },
            None => front,
        }
    }
}

fn find_member<'a>(d: &'a Option<Json>, key: &str) -> (r: Option<&'a String>)
    ensures
        match *d {
            Some(Json::Object(members)) => match (
                r,
                member(crate::json::member_views(members@), key@),
            ) {
                (Some(s), Some(t)) => s@ == t,
                (None, None) => true,
                _ => false,
            },
            _ => r is None,
        },
{
    if let Some(Json::Object(members)) = d {
        let ghost all = crate::json::member_views(members@);
        let mut i: usize = 0;
        proof {
            assert(all.skip(0) == all);
        }
        while i < members.len()
            invariant
                i <= members@.len(),
                *d == Some(Json::Object(*members)),
                all == crate::json::member_views(members@),
                member(all.skip(i as int), key@) == member(all, key@),
            decreases members@.len() - i,
        {
            proof {
                assert(all.skip(i as int)[0] == all[i as int]);
                assert(all[i as int] == (members@[i as int].0@, members@[i as int].1@));
            }
            if same_text(members[i].0.as_str(), key) {
                return Some(&members[i].1);
            }
            proof {
                assert(all.skip(i as int).skip(1) == all.skip(i + 1));
            }
            i += 1;
        }
        return None;
    }
    None
}

fn find_string(d: &Option<Json>, key: &str) -> (r: Option<String>)
    ensures
        match (r, string_member(crate::json::document_model(*d), key@)) {
            (Some(s), Some(t)) => s@ == t,
            (None, None) => true,
            _ => false,
        },
{
    match find_member(d, key) {
        Some(json) => match parse_text(json.as_str()) {
            Some(Json::Text(s)) => Some(s),
            _ => None,
        },
        None => None,
    }
}

fn names_in(items: &Vec<String>) -> (r: Vec<String>)
    ensures
        views(r@) == listed_names(views(items@)),
{
    let mut out: Vec<String> = Vec::new();
    let ghost all = views(items@);
    let mut i: usize = 0;
    proof {
        assert(views(out@) =~= seq![]);
    }
    while i < items.len()
        invariant
            i <= items@.len(),
            all == views(items@),
            views(out@) == listed_names(all.take(i as int)),
        decreases items@.len() - i,
    {
        let ghost before = views(out@);
        proof {
            assert(all.take(i + 1).drop_last() == all.take(i as int));
            assert(all.take(i + 1).last() == items@[i as int]@);
        }
        let d: Option<Json> = parse_text(items[i].as_str());
        let name: Option<String> = match find_string(&d, "name") {
            Some(s) => Some(s),
            None => find_string(&d, "model"),
        };
        if let Some(s) = name {
            if !s.as_str().is_empty() {
                out.push(s);
                proof {
                    assert(views(out@) =~= before.push(s@));
                }
            }
        }
        i += 1;
    }
    proof {
        assert(all.take(i as int) == all);
    }
    out
}

/// The bundled context window of a model, found by its name without the tag.
pub open spec fn known_window(bundled: Seq<ModelSpec>, name: Seq<char>) -> usize
    decreases bundled.len(),
{
    if bundled.len() == 0 {
        DEFAULT_CONTEXT_WINDOW
    } else if bundled[0].name@ == name.take(next_char(name, ':', 0)) {
        bundled[0].context_window
    } else {
        known_window(bundled.skip(1), name)
    }
}

fn window_for(bundled: &Vec<ModelSpec>, name: &str) -> (r: usize)
    ensures
        r == known_window(bundled@, name@),
{
    let base: &str = base_name(name);
    let mut i: usize = 0;
    proof {
        assert(bundled@.skip(0) == bundled@);
    }
    while i < bundled.len()
        invariant
            i <= bundled@.len(),
            base@ == name@.take(next_char(name@, ':', 0)),
            known_window(bundled@.skip(i as int), name@) == known_window(bundled@, name@),
        decreases bundled@.len() - i,
    {
        proof {
            assert(bundled@.skip(i as int)[0] == bundled@[i as int]);
        }
        if same_text(bundled[i].name.as_str(), base) {
            return bundled[i].context_window;
        }
        proof {
            assert(bundled@.skip(i as int).skip(1) == bundled@.skip(i + 1));
        }
        i += 1;
    }
    DEFAULT_CONTEXT_WINDOW
}

/// The names of the models.
pub open spec fn model_names(m: Seq<ModelSpec>) -> Seq<Seq<char>> {
    m.map_values(|x: ModelSpec| x.name@)
}

/// Whether `r` holds each of the names once, in alphabetical order, with the
/// context window that the bundled list has for it and without prices.
pub open spec fn picks(names: Seq<Seq<char>>, bundled: Seq<ModelSpec>, r: Seq<ModelSpec>) -> bool {
    &&& is_sorted_set(names, model_names(r))
    &&& forall|i: int|
        0 <= i < r.len() ==> (#[trigger] r[i]).pricing is None && r[i].context_window
            == known_window(bundled, r[i].name@)
}

/// Turns the names of installed models into picker models: each name once, in
/// alphabetical order, with the context window that the bundled list has for
/// it.
pub fn models_of_names(names: &Vec<String>, bundled: &Vec<ModelSpec>) -> (r: Vec<ModelSpec>)
    ensures
        picks(views(names@), bundled@, r@),
{
    let sorted: Vec<String> = sorted_unique(names);
    let mut out: Vec<ModelSpec> = Vec::new();
    let mut i: usize = 0;
    while i < sorted.len()
        invariant
            i <= sorted@.len(),
            out@.len() == i,
            forall|j: int|
                0 <= j < i ==> (#[trigger] out@[j]).name == sorted@[j] && out@[j].pricing is None
                    && out@[j].context_window == known_window(bundled@, out@[j].name@),
        decreases sorted@.len() - i,
    {
        let window: usize = window_for(bundled, sorted[i].as_str());
        out.push(
            ModelSpec { name: sorted[i].clone(), context_window: window, pricing: None },
        );
        i += 1;
    }
    proof {
        assert(model_names(out@) =~= views(sorted@));
    }
    out
}

/// Reads the answer of `/api/tags`: the installed models, each once, in
/// alphabetical order. A body that is no such answer lists none.
pub fn parse_tags(body: &[u8], bundled: &Vec<ModelSpec>) -> (r: Vec<ModelSpec>)
    ensures
        picks(listed_names(listed_models(bytes_document(body@))), bundled@, r@),
{
    let d: Option<Json> = parse_bytes(body);
    let mut items: Vec<String> = Vec::new();
    proof {
        assert(views(items@) =~= seq![]);
    }
    if let Some(json) = find_member(&d, "models") {
        if let Some(Json::Array(found)) = parse_text(json.as_str()) {
            items = found;
        }
    }
    proof {
        assert(views(items@) == listed_models(bytes_document(body@)));
    }
    let names: Vec<String> = names_in(&items);
    models_of_names(&names, bundled)
}

/// Whether `r` is what the picker shows after a probe.
pub open spec fn probed(
    raw: Option<Seq<u8>>,
    bundled: Seq<ModelSpec>,
    r: OllamaPickerModels,
) -> bool {
    &&& r is Unreachable <==> raw is None || !exists|i: int| header_end(raw->Some_0, i)
    &&& r matches OllamaPickerModels::Local(models) ==> exists|i: int|
        is_header_end(raw->Some_0, i) && picks(
            listed_names(listed_models(bytes_document(raw->Some_0.skip(i + 4)))),
            bundled,
            models@,
        )
    &&& !(r is Bundled)
}

/// What the picker shows after a probe: nothing where no instance answered, or
/// where the answer has no body, and else the models of the answer.
pub fn probe_outcome(raw: Option<&[u8]>, bundled: &Vec<ModelSpec>) -> (r: OllamaPickerModels)
    ensures
        probed(
            match raw {
                Some(bytes) => Some(bytes@),
                None => None,
            },
            bundled@,
            r,
        ),
{
    match raw {
        Some(bytes) => match http_body(bytes) {
            Some(body) => OllamaPickerModels::Local(parse_tags(body, bundled)),
            None => OllamaPickerModels::Unreachable,
        },
        None => OllamaPickerModels::Unreachable,
    }
}

// ---------------------------------------------------------------------------
// Switching off and caching
// ---------------------------------------------------------------------------

/// Whether the value of the switch turns probing off.
pub open spec fn switches_off(value: Option<Seq<char>>) -> bool {
    match value {
        Some(v) => ascii_lowered(v) == ascii_lowered("off"@) || ascii_lowered(v) == ascii_lowered(
            "0"@,
        ) || ascii_lowered(v) == ascii_lowered("false"@),
        None => false,
    }
}

/// Whether the value of the switch turns probing off: `off`, `0` or `false` in
/// any letter case. Without a value probing stays on.
pub fn env_probe_disabled(value: Option<&str>) -> (r: bool)
    ensures
        r == switches_off(
            match value {
                Some(v) => Some(v@),
                None => None,
            },
        ),
{
    match value {
        Some(v) => same_ignoring_ascii_case(v, "off") || same_ignoring_ascii_case(v, "0")
            || same_ignoring_ascii_case(v, "false"),
        None => false,
    }
}

/// The latest answer, and when it was given.
#[derive(Clone, Debug)]
pub struct ProbeCache {
    pub entry: Option<(Instant, OllamaPickerModels)>,
}

/// Where the models for the picker come from.
#[derive(Clone, Copy, Debug, PartialEq, Eq, Structural)]
pub enum ProbePlan {
    /// The bundled list.
    Bundled,
    /// The answer in the cache.
    Cached,
    /// A new probe.
    Probe,
}

/// Where the models come from.
pub open spec fn planned(disabled: bool, age_nanos: Option<u64>) -> ProbePlan {
    if disabled {
        ProbePlan::Bundled
    } else if age_nanos is Some && age_nanos->Some_0 < PROBE_TTL_NANOS {
        ProbePlan::Cached
    } else {
        ProbePlan::Probe
    }
}

/// Where the models come from, given whether probing is off and how old the
/// answer in the cache is.
pub fn plan_probe(disabled: bool, age_nanos: Option<u64>) -> (r: ProbePlan)
    ensures
        r == planned(disabled, age_nanos),
{
    if disabled {
        return ProbePlan::Bundled;
    }
    match age_nanos {
        Some(age) => if age < PROBE_TTL_NANOS {
            ProbePlan::Cached
        } else {
            ProbePlan::Probe
        },
        None => ProbePlan::Probe,
    }
}

impl ProbeCache {
    /// The cache without an answer.
    pub fn new() -> (r: ProbeCache)
        ensures
            r.entry is None,
    {
        ProbeCache { entry: None }
    }

    /// Where the models for the picker come from now.
    pub fn plan(&self, disabled: bool) -> (r: ProbePlan)
        ensures
            disabled ==> r == ProbePlan::Bundled,
            !disabled ==> r != ProbePlan::Bundled,
            !disabled && self.entry is None ==> r == ProbePlan::Probe,
    {
        let age: Option<u64> = match &self.entry {
            Some(e) => Some(elapsed_nanos(&e.0)),
            None => None,
        };
        plan_probe(disabled, age)
    }

    /// Keeps an answer as of now.
    pub fn store(&mut self, models: OllamaPickerModels)
        ensures
            final(self).entry matches Some(e) && e.1 == models,
    {
        self.entry = Some((Instant::now(), models));
    }

    /// Drops the answer, so that the next call probes.
    pub fn invalidate_cache(&mut self)
        ensures
            final(self).entry is None,
    {
        self.entry = None;
    }
}

} // verus!
