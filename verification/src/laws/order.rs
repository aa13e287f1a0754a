//! Alphabetical order.
use vstd::prelude::*;

use crate::app::App;
use crate::command_menu::{entry_name, is_menu, is_menu_of, MenuEntry};
use crate::commands::{command_keys, lists_in_order, skill_keys, CommandSpec};
use crate::laws::panels::sorting_keeps_the_items;
use crate::model_picker::{
    entries_of, picker_entries, preset_entries, preset_ids, ModelPickerEntry, ProviderPreset,
};
use crate::ollama_probe::{model_names, ModelSpec, OllamaPickerModels};
use crate::order::{
    before, before_is_irreflexive, before_is_transitive, goes_before, is_sort_order, sorted_by,
    sorted_positions,
};
use crate::skill_commands::SkillCommand;

verus! {

/// Whether `x` does not come behind `y`.
pub open spec fn not_behind(x: Seq<char>, y: Seq<char>) -> bool {
    !before(y, x)
}

/// A text comes before the texts that go on from it, and where two texts part, the
/// smaller character comes first.
pub proof fn first_difference_decides(
    common: Seq<char>,
    c: char,
    x: Seq<char>,
    d: char,
    y: Seq<char>,
)
    requires
        c < d,
    ensures
        before(common + seq![c] + x, common + seq![d] + y),
        !before(common + seq![d] + y, common + seq![c] + x),
        before(common, common + seq![c] + x),
        !before(common + seq![c] + x, common),
        !before(common, common),
    decreases common.len(),
{
    let a = common + seq![c] + x;
    let b = common + seq![d] + y;
    if common.len() > 0 {
        let rest = common.skip(1);
        first_difference_decides(rest, c, x, d, y);
        assert(a.skip(1) =~= rest + seq![c] + x);
        assert(b.skip(1) =~= rest + seq![d] + y);
        assert(a[0] == common[0] && b[0] == common[0]);
    } else {
        assert(a[0] == c && b[0] == d);
    }
}

proof fn order_is_kept(keys: Seq<Seq<char>>, i: int, j: int)
    requires
        goes_before(keys, i, j),
    ensures
        not_behind(keys[i], keys[j]),
{
    if before(keys[j], keys[i]) {
        if before(keys[i], keys[j]) {
            before_is_transitive(keys[i], keys[j], keys[i]);
        }
        before_is_irreflexive(keys[i]);
    }
}

/// Sorting brings the items into the order of their keys.
pub proof fn sorting_orders_the_items<T>(
    items: Seq<T>,
    keys: Seq<Seq<char>>,
    key: spec_fn(T) -> Seq<char>,
)
    requires
        items.len() == keys.len(),
        keys.len() <= usize::MAX,
        forall|i: int| 0 <= i < items.len() ==> keys[i] == key(#[trigger] items[i]),
    ensures
        forall|i: int, j: int|
            0 <= i < j < sorted_by(items, keys).len() ==> not_behind(
                key(#[trigger] sorted_by(items, keys)[i]),
                key(#[trigger] sorted_by(items, keys)[j]),
            ),
{
    sorting_keeps_the_items(items, keys);
    let order = sorted_positions(keys);
    let s = sorted_by(items, keys);
    assert forall|i: int, j: int| 0 <= i < j < s.len() implies not_behind(
        key(#[trigger] s[i]),
        key(#[trigger] s[j]),
    ) by {
        assert(s[i] == items[order[i] as int] && s[j] == items[order[j] as int]);
        order_is_kept(keys, order[i] as int, order[j] as int);
    }
}

proof fn list_is_in_order<T>(
    items: Seq<T>,
    keys: Seq<Seq<char>>,
    r: Seq<&T>,
    key: spec_fn(T) -> Seq<char>,
)
    requires
        lists_in_order(items, keys, r),
        items.len() == keys.len(),
        forall|i: int| 0 <= i < items.len() ==> keys[i] == key(#[trigger] items[i]),
    ensures
        forall|i: int, j: int|
            0 <= i < j < r.len() ==> not_behind(key(*(#[trigger] r[i])), key(*(#[trigger] r[j]))),
{
    let order = choose|order: Seq<usize>| #[trigger]
        is_sort_order(keys, order) && r.len() == order.len() && forall|i: int|
            0 <= i < r.len() ==> *(#[trigger] r[i]) == items[order[i] as int];
    assert forall|i: int, j: int| 0 <= i < j < r.len() implies not_behind(
        key(*(#[trigger] r[i])),
        key(*(#[trigger] r[j])),
    ) by {
        assert(*r[i] == items[order[i] as int] && *r[j] == items[order[j] as int]);
        order_is_kept(keys, order[i] as int, order[j] as int);
    }
}

/// The menu lists the commands before the skills, and both in alphabetical order.
pub proof fn menu_is_in_order(
    a: App,
    typed: Seq<char>,
    entries: Seq<MenuEntry<'_>>,
    i: int,
    j: int,
)
    requires
        is_menu(a.commands, typed, entries),
        0 <= i < j < entries.len(),
    ensures
        entries[i] is Skill ==> entries[j] is Skill,
        (entries[i] is Skill) == (entries[j] is Skill) ==> not_behind(
            entry_name(entries[i]),
            entry_name(entries[j]),
        ),
{
    let (cs, ss) = choose|cs: Seq<&CommandSpec>, ss: Seq<&SkillCommand>|
        #![trigger is_menu_of(entries, cs, ss)]
        lists_in_order(
            a.commands.command_hits(typed),
            command_keys(a.commands.command_hits(typed)),
            cs,
        ) && lists_in_order(
            a.commands.skill_hits(typed),
            skill_keys(a.commands.skill_hits(typed)),
            ss,
        ) && is_menu_of(entries, cs, ss);
    let hits = a.commands.command_hits(typed);
    let found = a.commands.skill_hits(typed);
    let command_name = |c: CommandSpec| c.name@;
    let skill_name = |c: SkillCommand| c.name@;
    list_is_in_order(hits, command_keys(hits), cs, command_name);
    list_is_in_order(found, skill_keys(found), ss, skill_name);
    if j < cs.len() {
        assert(not_behind(command_name(*cs[i]), command_name(*cs[j])));
    } else if i >= cs.len() {
        assert(not_behind(skill_name(*ss[i - cs.len()]), skill_name(*ss[j - cs.len()])));
    }
}

proof fn models_of_a_preset_are_in_order(
    p: ProviderPreset,
    ollama: OllamaPickerModels,
    active: Option<Seq<char>>,
)
    requires
        p.models@.len() <= usize::MAX,
        ollama is Local ==> (ollama->Local_0)@.len() <= usize::MAX,
    ensures
        forall|i: int| #![trigger preset_entries(p, ollama, active)[i]]
            0 <= i < preset_entries(p, ollama, active).len() ==> preset_entries(
                p,
                ollama,
                active,
            )[i].preset_id == p.id,
        forall|i: int, j: int|
            0 <= i < j < preset_entries(p, ollama, active).len() ==> not_behind(
                (#[trigger] preset_entries(p, ollama, active)[i]).model@,
                (#[trigger] preset_entries(p, ollama, active)[j]).model@,
            ),
{
    let models = crate::model_picker::offered(p, ollama, active);
    let name = |m: ModelSpec| m.name@;
    sorting_orders_the_items(models, model_names(models), name);
    let s = sorted_by(models, model_names(models));
    let rows = preset_entries(p, ollama, active);
    assert forall|i: int, j: int| 0 <= i < j < rows.len() implies not_behind(
        (#[trigger] rows[i]).model@,
        (#[trigger] rows[j]).model@,
    ) by {
        assert(rows[i].model@ == name(s[i]) && rows[j].model@ == name(s[j]));
    }
}

/// Whether two rows of the picker are in order: by their presets, and the models of a
/// preset by their names.
pub open spec fn rows_in_order(e: ModelPickerEntry, f: ModelPickerEntry) -> bool {
    &&& not_behind(e.preset_id@, f.preset_id@)
    &&& e.preset_id@ == f.preset_id@ ==> not_behind(e.model@, f.model@)
}

/// The picker lists the presets in alphabetical order, and the models of a preset too.
/// No two presets go by the same id.
pub proof fn picker_is_in_order(
    presets: Seq<ProviderPreset>,
    ollama: OllamaPickerModels,
    active: Option<Seq<char>>,
    i: int,
    j: int,
)
    requires
        presets.len() <= usize::MAX,
        forall|k: int|
            0 <= k < presets.len() ==> (#[trigger] presets[k]).models@.len() <= usize::MAX,
        forall|k: int, l: int|
            0 <= k < l < presets.len() ==> (#[trigger] presets[k]).id@ != (
            #[trigger] presets[l]).id@,
        ollama is Local ==> (ollama->Local_0)@.len() <= usize::MAX,
        0 <= i < j < picker_entries(presets, ollama, active).len(),
    ensures
        rows_in_order(
            picker_entries(presets, ollama, active)[i],
            picker_entries(presets, ollama, active)[j],
        ),
{
    let ids = preset_ids(presets);
    let id = |p: ProviderPreset| p.id@;
    sorting_keeps_the_items(presets, ids);
    sorting_orders_the_items(presets, ids, id);
    let ps = sorted_by(presets, ids);
    let order = sorted_positions(ids);
    assert forall|k: int, l: int| 0 <= k < l < ps.len() implies not_behind(
        (#[trigger] ps[k]).id@,
        (#[trigger] ps[l]).id@,
    ) && ps[k].id@ != ps[l].id@ by {
        assert(not_behind(id(ps[k]), id(ps[l])));
        assert(goes_before(ids, order[k] as int, order[l] as int));
        assert(ps[k] == presets[order[k] as int] && ps[l] == presets[order[l] as int]);
        if before(ids[order[k] as int], ids[order[l] as int]) {
            before_is_irreflexive(ids[order[k] as int]);
        }
    }
    assert forall|k: int| 0 <= k < ps.len() implies (#[trigger] ps[k]).models@.len()
        <= usize::MAX by {
        assert(ps[k] == presets[order[k] as int]);
    }
    rows_of_presets_are_in_order(ps, ollama, active, ps.len() as int, i, j);
}

proof fn row_belongs_to_a_preset(
    ps: Seq<ProviderPreset>,
    ollama: OllamaPickerModels,
    active: Option<Seq<char>>,
    n: int,
    i: int,
) -> (k: int)
    requires
        0 <= n <= ps.len(),
        0 <= i < entries_of(ps, ollama, active, n).len(),
    ensures
        0 <= k < n,
        entries_of(ps, ollama, active, n)[i].preset_id == ps[k].id,
    decreases n,
{
    let front = entries_of(ps, ollama, active, n - 1);
    if n > 0 && i < front.len() {
        row_belongs_to_a_preset(ps, ollama, active, n - 1, i)
    } else {
        n - 1
    }
}

proof fn rows_of_presets_are_in_order(
    ps: Seq<ProviderPreset>,
    ollama: OllamaPickerModels,
    active: Option<Seq<char>>,
    n: int,
    i: int,
    j: int,
)
    requires
        0 <= n <= ps.len(),
        forall|k: int| 0 <= k < ps.len() ==> (#[trigger] ps[k]).models@.len() <= usize::MAX,
        forall|k: int, l: int|
            0 <= k < l < ps.len() ==> not_behind((#[trigger] ps[k]).id@, (#[trigger] ps[l]).id@)
                && ps[k].id@ != ps[l].id@,
        ollama is Local ==> (ollama->Local_0)@.len() <= usize::MAX,
        0 <= i < j < entries_of(ps, ollama, active, n).len(),
    ensures
        rows_in_order(
            entries_of(ps, ollama, active, n)[i],
            entries_of(ps, ollama, active, n)[j],
        ),
    decreases n,
{
    if n > 0 {
        let front = entries_of(ps, ollama, active, n - 1);
        let p = ps[n - 1];
        let tail = preset_entries(p, ollama, active);
        models_of_a_preset_are_in_order(p, ollama, active);
        if j < front.len() {
            rows_of_presets_are_in_order(ps, ollama, active, n - 1, i, j);
        } else if i >= front.len() {
            assert(tail[i - front.len()].preset_id == p.id);
            assert(tail[j - front.len()].preset_id == p.id);
            before_is_irreflexive(p.id@);
        } else {
            let k = row_belongs_to_a_preset(ps, ollama, active, n - 1, i);
            assert(tail[j - front.len()].preset_id == p.id);
            assert(front[i].preset_id == ps[k].id);
            assert(not_behind(ps[k].id@, ps[n - 1].id@));
        }
    }
}

} // verus!
