//! The panel in which a model is chosen.
use vstd::prelude::*;
#[allow(unused_imports)]
use vstd::string::*;

use crate::ollama_probe::{model_names, ModelSpec, OllamaPickerModels};
use crate::order::{sort_order, sorted_by, sorted_positions};
use crate::pickers::{heading, item_marker, item_style, marker_of, start_panel, style_of};
use crate::style::{
    bold, colored, line, line_models, push_line, push_span, raw, span, span_models, Color, Line,
    LineModel, Span, Style,
};
use crate::text::{
    chars_of, concat2, concat3, concat5, decimal, find_char, join, joined, joined_lines_come_back,
    lines, lines_of, next_char, number_text, same_text, text_between, views,
};

verus! {

/// A provider that the interface knows.
#[derive(Clone, Debug)]
pub struct ProviderPreset {
    pub id: String,
    pub name: String,
    pub provider_type: String,
    pub api_base: String,
    pub anthropic_api_base: Option<String>,
    /// The environment variable that holds the provider's key; empty for a
    /// provider that needs none.
    pub key_env: String,
    /// What that variable holds.
    pub key: Option<String>,
    pub models: Vec<ModelSpec>,
}

/// Whether the preset's own key is there, or none is needed.
pub open spec fn has_own_key(p: ProviderPreset) -> bool {
    p.key_env@.len() == 0 || (p.key matches Some(k) && k@.len() > 0)
}

/// Whether the preset's own key is there, or none is needed.
pub fn preset_key_available(preset: &ProviderPreset) -> (r: bool)
    ensures
        r == has_own_key(*preset),
{
    if preset.key_env.as_str().is_empty() {
        return true;
    }
    match &preset.key {
        Some(k) => !k.as_str().is_empty(),
        None => false,
    }
}

/// One row of the picker.
#[derive(Clone, Debug, PartialEq, Eq)]
pub struct ModelPickerEntry {
    pub preset_id: String,
    pub preset_name: String,
    pub model: String,
    pub context_window: usize,
    /// The prices per million input and output tokens, as they are shown.
    pub pricing: Option<(String, String)>,
}

/// Whether the preset is the active one.
pub open spec fn is_active(p: ProviderPreset, active: Option<Seq<char>>) -> bool {
    active == Some(p.id@)
}

/// The models of a preset that the picker offers: none of a preset without a
/// key unless it is the active one, and for Ollama what the local instance
/// has.
pub open spec fn offered(
    p: ProviderPreset,
    ollama: OllamaPickerModels,
    active: Option<Seq<char>>,
) -> Seq<ModelSpec> {
    if !is_active(p, active) && !has_own_key(p) {
        seq![]
    } else if p.id@ == "ollama"@ {
        match ollama {
            OllamaPickerModels::Local(models) => models@,
            OllamaPickerModels::Unreachable => if is_active(p, active) {
                p.models@
            } else {
                seq![]
            },
            OllamaPickerModels::Bundled => p.models@,
        }
    } else {
        p.models@
    }
}

/// The row of a model.
pub open spec fn entry_of(p: ProviderPreset, m: ModelSpec) -> ModelPickerEntry {
    ModelPickerEntry {
        preset_id: p.id,
        preset_name: p.name,
        model: m.name,
        context_window: m.context_window,
        pricing: m.pricing,
    }
}

/// The rows of a preset, in alphabetical order of the models.
pub open spec fn preset_entries(
    p: ProviderPreset,
    ollama: OllamaPickerModels,
    active: Option<Seq<char>>,
) -> Seq<ModelPickerEntry> {
    let models = offered(p, ollama, active);
    sorted_by(models, model_names(models)).map_values(|m: ModelSpec| entry_of(p, m))
}

/// The rows of the first `n` presets.
pub open spec fn entries_of(
    presets: Seq<ProviderPreset>,
    ollama: OllamaPickerModels,
    active: Option<Seq<char>>,
    n: int,
) -> Seq<ModelPickerEntry>
    decreases n,
{
    if n <= 0 {
        seq![]
    } else {
        entries_of(presets, ollama, active, n - 1) + preset_entries(presets[n - 1], ollama, active)
    }
}

/// The ids of the presets.
pub open spec fn preset_ids(ps: Seq<ProviderPreset>) -> Seq<Seq<char>> {
    ps.map_values(|p: ProviderPreset| p.id@)
}

/// The rows of the picker: the presets in alphabetical order of their ids.
pub open spec fn picker_entries(
    presets: Seq<ProviderPreset>,
    ollama: OllamaPickerModels,
    active: Option<Seq<char>>,
) -> Seq<ModelPickerEntry> {
    entries_of(sorted_by(presets, preset_ids(presets)), ollama, active, presets.len() as int)
}

/// The view of a text that may be missing.
pub open spec fn opt_view(s: Option<&str>) -> Option<Seq<char>> {
    match s {
        Some(t) => Some(t@),
        None => None,
    }
}

fn entry_for(p: &ProviderPreset, m: &ModelSpec) -> (r: ModelPickerEntry)
    ensures
        r == entry_of(*p, *m),
{
    let pricing: Option<(String, String)> = match &m.pricing {
        Some(prices) => Some((prices.0.clone(), prices.1.clone())),
        None => None,
    };
    ModelPickerEntry {
        preset_id: p.id.clone(),
        preset_name: p.name.clone(),
        model: m.name.clone(),
        context_window: m.context_window,
        pricing,
    }
}

fn offered_models<'a>(
    p: &'a ProviderPreset,
    ollama: &'a OllamaPickerModels,
    active: Option<&str>,
) -> (r: Option<&'a Vec<ModelSpec>>)
    ensures
        match r {
            Some(v) => v@ == offered(*p, *ollama, opt_view(active)),
            None => offered(*p, *ollama, opt_view(active)).len() == 0,
        },
{
    let is_active: bool = match active {
        Some(a) => same_text(a, p.id.as_str()),
        None => false,
    };
    if !is_active && !preset_key_available(p) {
        return None;
    }
    if same_text(p.id.as_str(), "ollama") {
        match ollama {
            OllamaPickerModels::Local(models) => Some(models),
            OllamaPickerModels::Unreachable => if is_active {
                Some(&p.models)
            } else {
                None
            },
            OllamaPickerModels::Bundled => Some(&p.models),
        }
    } else {
        Some(&p.models)
    }
}

fn push_entries(out: &mut Vec<ModelPickerEntry>, p: &ProviderPreset, models: &Vec<ModelSpec>)
    ensures
        final(out)@ == old(out)@ + sorted_by(models@, model_names(models@)).map_values(
            |m: ModelSpec| entry_of(*p, m),
        ),
{
    let mut keys: Vec<String> = Vec::new();
    let mut i: usize = 0;
    while i < models.len()
        invariant
            i <= models@.len(),
            keys@.len() == i,
            forall|j: int| 0 <= j < i ==> (#[trigger] keys@[j])@ == models@[j].name@,
        decreases models@.len() - i,
    {
        keys.push(models[i].name.clone());
        i += 1;
    }
    proof {
        assert(views(keys@) =~= model_names(models@));
    }
    let order: Vec<usize> = sort_order(&keys);
    let ghost start = out@;
    let ghost all = sorted_by(models@, model_names(models@)).map_values(
        |m: ModelSpec| entry_of(*p, m),
    );
    let mut k: usize = 0;
    proof {
        assert(start + all.take(0) =~= start);
    }
    while k < order.len()
        invariant
            k <= order@.len(),
            order@ == sorted_positions(model_names(models@)),
            forall|j: int| 0 <= j < order@.len() ==> (#[trigger] order@[j]) < models@.len(),
            all == sorted_by(models@, model_names(models@)).map_values(
                |m: ModelSpec| entry_of(*p, m),
            ),
            out@ == start + all.take(k as int),
        decreases order@.len() - k,
    {
        out.push(entry_for(p, &models[order[k]]));
        proof {
            assert(start + all.take(k + 1) =~= (start + all.take(k as int)).push(all[k as int]));
        }
        k += 1;
    }
    proof {
        assert(all.take(k as int) =~= all);
    }
}

/// The rows of the picker.
pub fn collect_model_picker_entries(
    presets: &Vec<ProviderPreset>,
    ollama: &OllamaPickerModels,
    active_preset: Option<&str>,
) -> (r: Vec<ModelPickerEntry>)
    ensures
        r@ == picker_entries(presets@, *ollama, opt_view(active_preset)),
{
    let mut keys: Vec<String> = Vec::new();
    let mut i: usize = 0;
    while i < presets.len()
        invariant
            i <= presets@.len(),
            keys@.len() == i,
            forall|j: int| 0 <= j < i ==> (#[trigger] keys@[j])@ == presets@[j].id@,
        decreases presets@.len() - i,
    {
        keys.push(presets[i].id.clone());
        i += 1;
    }
    proof {
        assert(views(keys@) =~= preset_ids(presets@));
    }
    let order: Vec<usize> = sort_order(&keys);
    let ghost sorted = sorted_by(presets@, preset_ids(presets@));
    let mut out: Vec<ModelPickerEntry> = Vec::new();
    let mut k: usize = 0;
    while k < order.len()
        invariant
            k <= order@.len(),
            order@.len() == presets@.len(),
            order@ == sorted_positions(preset_ids(presets@)),
            forall|j: int| 0 <= j < order@.len() ==> (#[trigger] order@[j]) < presets@.len(),
            sorted == sorted_by(presets@, preset_ids(presets@)),
            out@ == entries_of(sorted, *ollama, opt_view(active_preset), k as int),
        decreases order@.len() - k,
    {
        let p: &ProviderPreset = &presets[order[k]];
        let ghost before = out@;
        proof {
            assert(sorted[k as int] == *p);
        }
        match offered_models(p, ollama, active_preset) {
            Some(models) => {
                push_entries(&mut out, p, models);
            },
            None => {
                proof {
                    let none = offered(*p, *ollama, opt_view(active_preset));
                    assert(none =~= seq![]);
                    assert(model_names(none) =~= seq![]);
                    assert(crate::order::is_sort_order(seq![], seq![]));
                    assert(crate::order::is_sort_order(
                        model_names(none),
                        sorted_positions(model_names(none)),
                    ));
                    assert(preset_entries(*p, *ollama, opt_view(active_preset)) =~= seq![]);
                    assert(before + preset_entries(*p, *ollama, opt_view(active_preset))
                        =~= before);
                }
            },
        }
        k += 1;
    }
    out
}

/// Whether a row is the model that is running.
pub open spec fn is_running(e: ModelPickerEntry, preset: Option<Seq<char>>, model: Seq<char>) -> bool {
    preset == Some(e.preset_id@) && e.model@ == model
}

/// Whether no row is the model that is running.
pub open spec fn none_running(
    entries: Seq<ModelPickerEntry>,
    preset: Option<Seq<char>>,
    model: Seq<char>,
) -> bool {
    forall|i: int| 0 <= i < entries.len() ==> !is_running(#[trigger] entries[i], preset, model)
}

/// Whether a row stands for a running model that no preset offers.
pub open spec fn is_custom_row(e: ModelPickerEntry, model: Seq<char>) -> bool {
    &&& e.preset_id@.len() == 0
    &&& e.preset_name@ == "Current (custom provider)"@
    &&& e.model@ == model
    &&& e.context_window == 0
    &&& e.pricing is None
}

/// The rows and the running row: the first that is the running model, or else
/// a row of its own in front.
pub open spec fn picker_state(
    entries: Seq<ModelPickerEntry>,
    preset: Option<Seq<char>>,
    model: Seq<char>,
    rows: Seq<ModelPickerEntry>,
    running: int,
) -> bool {
    if none_running(entries, preset, model) {
        &&& rows.len() == entries.len() + 1
        &&& is_custom_row(rows[0], model)
        &&& rows.skip(1) == entries
        &&& running == 0
    } else {
        &&& rows == entries
        &&& 0 <= running < entries.len()
        &&& is_running(entries[running], preset, model)
        &&& forall|i: int| 0 <= i < running ==> !is_running(#[trigger] entries[i], preset, model)
    }
}

/// The rows of the picker and the row of the running model.
pub fn model_picker_state(
    entries: Vec<ModelPickerEntry>,
    active_preset: Option<&str>,
    active_model: &str,
) -> (r: (Vec<ModelPickerEntry>, usize))
    ensures
        picker_state(entries@, opt_view(active_preset), active_model@, r.0@, r.1 as int),
        r.0@.len() > 0,
{
    let mut rows: Vec<ModelPickerEntry> = entries;
    let mut i: usize = 0;
    while i < rows.len()
        invariant
            i <= rows@.len(),
            rows@ == entries@,
            forall|j: int|
                0 <= j < i ==> !is_running(
                    #[trigger] rows@[j],
                    opt_view(active_preset),
                    active_model@,
                ),
        decreases rows@.len() - i,
    {
        let same_preset: bool = match active_preset {
            Some(p) => same_text(p, rows[i].preset_id.as_str()),
            None => false,
        };
        if same_preset && same_text(rows[i].model.as_str(), active_model) {
            proof {
                assert(is_running(entries@[i as int], opt_view(active_preset), active_model@));
            }
            return (rows, i);
        }
        i += 1;
    }
    let custom: ModelPickerEntry = ModelPickerEntry {
        preset_id: String::new(),
        preset_name: "Current (custom provider)".to_owned(),
        model: active_model.to_owned(),
        context_window: 0,
        pricing: None,
    };
    rows.insert(0, custom);
    proof {
        assert(rows@.skip(1) =~= entries@);
    }
    (rows, 0)
}

// ---------------------------------------------------------------------------
// Lines
// ---------------------------------------------------------------------------

/// How large the context window is, in thousands of tokens.
pub open spec fn window_label(window: usize) -> Seq<char> {
    if window > 0 {
        decimal((window / 1000) as nat) + "K ctx"@
    } else {
        "—"@
    }
}

/// What a model costs.
pub open spec fn price_label(pricing: Option<(String, String)>) -> Seq<char> {
    match pricing {
        Some((input, output)) => "$"@ + input@ + "/$"@ + output@ + " per Mtok"@,
        None => "no pricing"@,
    }
}

/// A row of the picker.
pub open spec fn model_row(e: ModelPickerEntry, i: int, running: int, selected: int) -> LineModel {
    let spans = seq![
        raw(" "@ + item_marker(i, selected) + " "@),
        span(e.model@, item_style(i, selected)),
        raw("  ·  "@),
        span(e.preset_name@, colored(Color::DarkGray)),
        raw("  ·  "@),
        raw(window_label(e.context_window)),
        raw("  ·  "@),
        raw(price_label(e.pricing)),
    ];
    line(
        if i == running {
            spans + seq![raw("  "@), span("✓"@, bold(Color::Green))]
        } else {
            spans
        },
    )
}

/// The model panel.
pub open spec fn model_lines(
    entries: Seq<ModelPickerEntry>,
    current: Seq<char>,
    running: int,
    selected: int,
) -> Seq<LineModel> {
    heading("Select model  (current: "@ + current + ")"@) + Seq::new(
        entries.len(),
        |i: int| model_row(entries[i], i, running, selected),
    )
}

fn model_row_line(e: &ModelPickerEntry, i: usize, running: usize, selected: usize) -> (r: Line)
    ensures
        r@ == model_row(*e, i as int, running as int, selected as int),
{
    let window: String = if e.context_window > 0 {
        let n: String = number_text((e.context_window / 1000) as u64);
        concat2(n.as_str(), "K ctx")
    } else {
        "—".to_owned()
    };
    let price: String = match &e.pricing {
        Some(p) => concat5("$", p.0.as_str(), "/$", p.1.as_str(), " per Mtok"),
        None => "no pricing".to_owned(),
    };
    let mut spans: Vec<Span> = Vec::new();
    push_span(&mut spans, Span::raw(concat3(" ", marker_of(i, selected), " ")));
    push_span(&mut spans, Span::styled(e.model.clone(), style_of(i, selected)));
    push_span(&mut spans, Span::raw("  ·  ".to_owned()));
    push_span(&mut spans, Span::styled(e.preset_name.clone(), Style::fg(Color::DarkGray)));
    push_span(&mut spans, Span::raw("  ·  ".to_owned()));
    push_span(&mut spans, Span::raw(window));
    push_span(&mut spans, Span::raw("  ·  ".to_owned()));
    push_span(&mut spans, Span::raw(price));
    if i == running {
        push_span(&mut spans, Span::raw("  ".to_owned()));
        push_span(&mut spans, Span::styled("✓".to_owned(), Style::bold_fg(Color::Green)));
    }
    proof {
        assert(span_models(spans@) =~= model_row(
            *e,
            i as int,
            running as int,
            selected as int,
        ).spans);
    }
    Line::of(spans)
}

/// The model panel: one row for each model, a mark on the running one and a
/// marker on the selected one.
pub fn build_model_picker_lines(
    entries: &[ModelPickerEntry],
    current: &str,
    active_idx: usize,
    selected: usize,
) -> (r: Vec<Line>)
    ensures
        line_models(r@) == model_lines(
            entries@,
            current@,
            active_idx as int,
            selected as int,
        ),
{
    let mut out: Vec<Line> = start_panel(concat3("Select model  (current: ", current, ")"));
    let ghost start = line_models(out@);
    let ghost all = Seq::new(
        entries@.len(),
        |i: int| model_row(entries@[i], i, active_idx as int, selected as int),
    );
    let mut i: usize = 0;
    proof {
        assert(start + all.take(0) =~= start);
    }
    while i < entries.len()
        invariant
            i <= entries@.len(),
            all == Seq::new(
                entries@.len(),
                |i: int| model_row(entries@[i], i, active_idx as int, selected as int),
            ),
            line_models(out@) == start + all.take(i as int),
        decreases entries@.len() - i,
    {
        push_line(&mut out, model_row_line(&entries[i], i, active_idx, selected));
        proof {
            assert(start + all.take(i + 1) =~= (start + all.take(i as int)).push(all[i as int]));
        }
        i += 1;
    }
    proof {
        assert(all.take(i as int) =~= all);
    }
    out
}

/// The model panel for the presets and the running model.
pub fn rebuild_model_picker_lines(
    presets: &Vec<ProviderPreset>,
    ollama: &OllamaPickerModels,
    active_preset: Option<&str>,
    active_model: &str,
    selected: usize,
) -> (r: Vec<Line>)
    ensures
        exists|rows: Seq<ModelPickerEntry>, running: int| #[trigger]
            picker_state(
                picker_entries(presets@, *ollama, opt_view(active_preset)),
                opt_view(active_preset),
                active_model@,
                rows,
                running,
            ) && line_models(r@) == model_lines(rows, active_model@, running, selected as int),
{
    let entries: Vec<ModelPickerEntry> = collect_model_picker_entries(
        presets,
        ollama,
        active_preset,
    );
    let (rows, running) = model_picker_state(entries, active_preset, active_model);
    build_model_picker_lines(rows.as_slice(), active_model, running, selected)
}

// ---------------------------------------------------------------------------
// The panel's context
// ---------------------------------------------------------------------------

/// One line of the context: the preset and the model, with a unit separator
/// between them.
pub open spec fn context_line(e: ModelPickerEntry) -> Seq<char> {
    e.preset_id@ + "\u{1f}"@ + e.model@
}

/// The lines of the context.
pub open spec fn context_lines(entries: Seq<ModelPickerEntry>) -> Seq<Seq<char>> {
    entries.map_values(|e: ModelPickerEntry| context_line(e))
}

/// The context of the panel: one line for each row.
pub fn serde_model_picker_context(entries: &[ModelPickerEntry]) -> (r: String)
    ensures
        r@ == joined(context_lines(entries@), "\n"@),
{
    let mut parts: Vec<String> = Vec::new();
    let mut i: usize = 0;
    while i < entries.len()
        invariant
            i <= entries@.len(),
            parts@.len() == i,
            forall|j: int| 0 <= j < i ==> (#[trigger] parts@[j])@ == context_line(entries@[j]),
        decreases entries@.len() - i,
    {
        parts.push(
            concat3(entries[i].preset_id.as_str(), "\u{1f}", entries[i].model.as_str()),
        );
        i += 1;
    }
    proof {
        assert(views(parts@) =~= context_lines(entries@));
    }
    join(&parts, "\n")
}

/// The preset and the model that a line of the context holds: what stands
/// before and behind its first unit separator. A line without a separator, or
/// without a model, holds none.
pub open spec fn context_choice(l: Seq<char>) -> Option<(Seq<char>, Seq<char>)> {
    let at = next_char(l, '\u{1f}', 0);
    if at + 1 < l.len() {
        Some((l.take(at), l.skip(at + 1)))
    } else {
        None
    }
}

/// The preset and the model that the context holds for a row.
pub open spec fn context_row(ctx: Seq<char>, idx: int) -> Option<(Seq<char>, Seq<char>)> {
    if 0 <= idx < lines(ctx).len() {
        context_choice(lines(ctx)[idx])
    } else {
        None
    }
}

/// Reads the preset and the model of a row from the panel's context.
pub fn parse_model_picker_context(ctx: &str, idx: usize) -> (r: Option<(String, String)>)
    ensures
        match (r, context_row(ctx@, idx as int)) {
            (Some((p, m)), Some((q, n))) => p@ == q && m@ == n,
            (None, None) => true,
            _ => false,
        },
{
    let ls: Vec<String> = lines_of(ctx);
    proof {
        assert(ls@.len() == lines(ctx@).len());
    }
    if idx >= ls.len() {
        return None;
    }
    proof {
        assert(lines(ctx@)[idx as int] == ls@[idx as int]@);
    }
    let v: Vec<char> = chars_of(ls[idx].as_str());
    let at: usize = find_char(&v, '\u{1f}', 0);
    if at < v.len() && v.len() - at > 1 {
        proof {
            assert(v@.subrange(0, at as int) == v@.take(at as int));
            assert(v@.subrange(at + 1, v@.len() as int) == v@.skip(at + 1));
        }
        Some((text_between(&v, 0, at), text_between(&v, at + 1, v.len())))
    } else {
        None
    }
}

proof fn lemma_first_separator(a: Seq<char>, b: Seq<char>, i: int)
    requires
        !a.contains('\u{1f}'),
        0 <= i <= a.len(),
    ensures
        next_char(a + "\u{1f}"@ + b, '\u{1f}', i) == a.len(),
    decreases a.len() - i,
{
    reveal_strlit("\u{1f}");
    let s = a + "\u{1f}"@ + b;
    if i < a.len() {
        assert(s[i] == a[i]);
        assert(a.contains(a[i]));
        lemma_first_separator(a, b, i + 1);
    } else {
        assert(s[i] == '\u{1f}');
    }
}

/// What the context was written for can be read back: row `i` gives the preset
/// and the model of entry `i`. The texts of the entries up to it hold no line
/// feed, its preset id holds no separator, and its model is not empty and does
/// not end in a carriage return, which the line ending of any row but the last
/// would swallow.
pub proof fn picker_context_comes_back(entries: Seq<ModelPickerEntry>, i: int)
    requires
        0 <= i < entries.len(),
        forall|j: int|
            0 <= j <= i ==> !(#[trigger] entries[j]).preset_id@.contains('\n')
                && !entries[j].model@.contains('\n'),
        !entries[i].preset_id@.contains('\u{1f}'),
        entries[i].model@.len() > 0,
        i + 1 < entries.len() ==> entries[i].model@.last() != '\r',
    ensures
        context_row(joined(context_lines(entries), "\n"@), i) == Some(
            (entries[i].preset_id@, entries[i].model@),
        ),
{
    reveal_strlit("\u{1f}");
    let parts = context_lines(entries);
    assert forall|j: int| 0 <= j <= i implies !(#[trigger] parts[j]).contains('\n') by {
        let e = entries[j];
        if parts[j].contains('\n') {
            let k = choose|k: int| 0 <= k < parts[j].len() && parts[j][k] == '\n';
            if k < e.preset_id@.len() {
                assert(e.preset_id@[k] == '\n');
            } else if k > e.preset_id@.len() {
                assert(e.model@[k - e.preset_id@.len() - 1] == '\n');
            }
        }
    }
    let l = parts[i];
    assert(l.last() == entries[i].model@.last());
    joined_lines_come_back(parts, i);
    lemma_first_separator(entries[i].preset_id@, entries[i].model@, 0);
    assert(l.take(entries[i].preset_id@.len() as int) =~= entries[i].preset_id@);
    assert(l.skip((entries[i].preset_id@.len() + 1) as int) =~= entries[i].model@);
}

} // verus!
