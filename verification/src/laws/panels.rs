//! The interactive panels.
use vstd::prelude::*;
#[allow(unused_imports)]
use vstd::string::*;

use crate::app::dispatch::command_ran;
use crate::app::handlers::{is_model_panel, position_of};
use crate::app::keyboard::key_pressed;
use crate::app::App;
use crate::commands::{CommandHandler, SyncCommand};
use crate::events::UserAction;
use crate::input_state::InputMode;
use crate::keys::{KeyCode, KeyEvent};
use crate::laws::events::{adds_one, models_follow};
use crate::model::TranscriptBlock;
use crate::model_picker::{
    context_lines, entries_of, entry_of, picker_context_comes_back, picker_entries,
    preset_entries, preset_ids, ModelPickerEntry, ProviderPreset,
};
use crate::ollama_probe::{model_names, ModelSpec, OllamaPickerModels};
use crate::order::{
    before, before_is_total, before_is_transitive, goes_before,
    is_sort_order, sort_order_is_complete, sorted_by, sorted_positions,
};
use crate::panel::CommandPanelState;
use crate::pickers::{
    cost_lines, help_lines, journal_lines, resume_lines, session_dirs, theme_lines, tool_lines,
};
use crate::style::line_models;
use crate::text::{joined, joined_lines_come_back};
use crate::theme::theme_names;

verus! {

/// Whether a panel is open and has the keyboard.
pub open spec fn panel_has_the_keyboard(a: App, p: CommandPanelState) -> bool {
    &&& a.pending_permission is None
    &&& a.prompt.mode == InputMode::CommandInteract
    &&& a.active_command_panel == Some(p)
}

/// Whether `b` is `a` without its panel: the keyboard is with the prompt again, and
/// the text in it is what it was.
pub open spec fn is_closed(a: App, b: App) -> bool {
    &&& b.active_command_panel is None
    &&& b.prompt.mode == InputMode::Prompt
    &&& b.prompt.buffer == a.prompt.buffer
    &&& b.prompt.cursor == a.prompt.cursor
    &&& b.prompt.history == a.prompt.history
    &&& b.model_name == a.model_name
    &&& b.should_quit == a.should_quit
}

/// Esc closes the panel and chooses nothing.
pub proof fn esc_closes_the_panel(
    a: App,
    p: CommandPanelState,
    key: KeyEvent,
    b: App,
    r: Option<UserAction>,
)
    requires
        key_pressed(a, key, b, r),
        panel_has_the_keyboard(a, p),
        key.code == KeyCode::Esc,
    ensures
        r is None,
        is_closed(a, b),
        b.blocks == a.blocks,
        b.theme == a.theme,
{
}

/// The arrows, and Ctrl+P and Ctrl+N, go to the item above and to the item below,
/// and stop at the ends of the list. What the panel knows of its items stays.
pub proof fn arrows_select_an_item(
    a: App,
    p: CommandPanelState,
    key: KeyEvent,
    b: App,
    r: Option<UserAction>,
    selected: usize,
)
    requires
        key_pressed(a, key, b, r),
        panel_has_the_keyboard(a, p),
        p.selected == Some(selected),
        selected < p.item_count,
        key.code == KeyCode::Up || key.code == KeyCode::Down || key.modifiers.control && (key.code
            == KeyCode::Char('p') || key.code == KeyCode::Char('n')),
    ensures
        r is None,
        b.blocks == a.blocks,
        b.prompt == a.prompt,
        b.theme == a.theme,
        b.active_command_panel matches Some(q) && q.command_name@ == p.command_name@
            && q.item_count == p.item_count && (p.context is Some <==> q.context is Some) && (
        p.context is Some ==> q.context->0@ == p.context->0@) && (q.selected matches Some(next)
            && next < q.item_count && (if key.code == KeyCode::Up || key.code == KeyCode::Char(
            'p',
        ) {
            next == if selected == 0 {
                0
            } else {
                selected - 1
            }
        } else {
            next == if selected + 1 == p.item_count {
                selected as int
            } else {
                selected + 1
            }
        })),
{
}

/// A list that is shown follows the selection: the panel always shows the list of its
/// command with the selected item marked.
pub proof fn list_follows_the_selection(
    a: App,
    p: CommandPanelState,
    key: KeyEvent,
    b: App,
    r: Option<UserAction>,
)
    requires
        key_pressed(a, key, b, r),
        panel_has_the_keyboard(a, p),
        p.selected is Some,
        key.code == KeyCode::Up || key.code == KeyCode::Down,
    ensures
        b.active_command_panel matches Some(q) && q.selected is Some && (p.command_name@
            == "resume"@ ==> line_models(q.lines@) == resume_lines(
            a.around.sessions@,
            q.selected->0 as int,
        )) && (p.command_name@ == "journal"@ ==> line_models(q.lines@) == journal_lines(
            a.around.journal@,
            q.selected->0 as int,
        )) && (p.command_name@ == "theme"@ ==> line_models(q.lines@) == theme_lines(
            a.theme.name@,
            q.selected->0 as int,
        )),
{
    reveal_strlit("resume");
    reveal_strlit("theme");
    reveal_strlit("model");
    reveal_strlit("journal");
    assert("theme"@[0] == 't' && "resume"@[0] == 'r' && "model"@[0] == 'm' && "journal"@[0] == 'j');
    let q = b.active_command_panel->0;
    assert(q@.lines == line_models(q.lines@));
    assert(q@.selected == q.selected);
}

/// A panel is opened with what its command is for: the saved sessions and the journal
/// from their first entry, the themes on the one that is in use, and the tools, the
/// costs and the help from their top.
pub proof fn panels_show_what_they_are_for(
    a: App,
    cmd: SyncCommand,
    args: Seq<String>,
    b: App,
    r: Option<UserAction>,
)
    requires
        command_ran(a, CommandHandler::Sync(cmd), args, b, r),
        args.len() == 0,
        a.around.sessions@.len() > 0,
    ensures
        cmd == SyncCommand::Resume ==> (b.active_command_panel matches Some(p) && p.selected
            == Some(0usize) && p.scroll == 0 && line_models(p.lines@) == resume_lines(
            a.around.sessions@,
            0,
        )),
        cmd == SyncCommand::Journal ==> (b.active_command_panel matches Some(p) && p.selected
            == Some(0usize) && p.scroll == 0 && line_models(p.lines@) == journal_lines(
            a.around.journal@,
            0,
        )),
        cmd == SyncCommand::Theme ==> (b.active_command_panel matches Some(p) && (a.theme.name@
            == "dark"@ ==> p.selected == Some(0usize)) && (a.theme.name@ == "light"@ ==> p.selected
            == Some(1usize)) && (a.theme.name@ == "solarized"@ ==> p.selected == Some(2usize))
            && p.item_count == 3 && p.selected is Some && line_models(p.lines@) == theme_lines(
            a.theme.name@,
            p.selected->0 as int,
        )),
        cmd == SyncCommand::Tools ==> (b.active_command_panel matches Some(p) && p.selected is None
            && p.scroll == 0 && line_models(p.lines@) == tool_lines(a.tool_catalog@)),
        cmd == SyncCommand::Help ==> (b.active_command_panel matches Some(p) && p.selected is None
            && p.scroll == 0 && line_models(p.lines@) == help_lines(
            a.commands.builtins(),
            a.commands.skills(),
        )),
        cmd == SyncCommand::Cost ==> (b.active_command_panel matches Some(p) && p.selected is None
            && p.scroll == 0 && line_models(p.lines@) == cost_lines(
            a.usage,
            a.model_name@,
            a.around.costs,
            a.around.latency_secs@,
        )),
{
    reveal_strlit("dark");
    reveal_strlit("light");
    reveal_strlit("solarized");
    assert("dark"@.len() == 4 && "light"@.len() == 5 && "solarized"@.len() == 9);
    let names = theme_names();
    let t = a.theme.name@;
    assert(names[0] == "dark"@ && names[1] == "light"@ && names[2] == "solarized"@ && names.len()
        == 3);
    assert(position_of(names, t, 3) == 0);
    assert(position_of(names, t, 2) == if t == names[2] {
        2
    } else {
        0int
    });
    assert(position_of(names, t, 1) == if t == names[1] {
        1
    } else {
        position_of(names, t, 2)
    });
    if b.active_command_panel is Some {
        let q = b.active_command_panel->0;
        assert(q@.lines == line_models(q.lines@));
        assert(q@.selected == q.selected);
        assert(q@.scroll == q.scroll);
        assert(q@.item_count == q.item_count);
    }
}

/// A panel without items is scrolled by a line, and any panel by a page, without
/// going beyond its start.
pub proof fn panel_is_scrolled(
    a: App,
    p: CommandPanelState,
    key: KeyEvent,
    b: App,
    r: Option<UserAction>,
)
    requires
        key_pressed(a, key, b, r),
        panel_has_the_keyboard(a, p),
        p.scroll < 1000,
        (key.code == KeyCode::Up || key.code == KeyCode::Down) && p.selected is None || key.code
            == KeyCode::PageUp || key.code == KeyCode::PageDown,
    ensures
        r is None,
        b.blocks == a.blocks,
        b.active_command_panel matches Some(q) && q.selected == p.selected && q.item_count
            == p.item_count && q.scroll == match key.code {
            KeyCode::Up => if p.scroll == 0 {
                0
            } else {
                p.scroll - 1
            },
            KeyCode::Down => p.scroll + 1,
            KeyCode::PageUp => if p.scroll < 10 {
                0
            } else {
                p.scroll - 10
            },
            _ => p.scroll + 10,
        },
{
}

/// Enter on a saved session resumes it: the one in that row of the list that the
/// panel was opened with.
pub proof fn session_in_the_row_is_resumed(
    start: App,
    args: Seq<String>,
    open: App,
    none: Option<UserAction>,
    a: App,
    p: CommandPanelState,
    i: usize,
    key: KeyEvent,
    b: App,
    r: Option<UserAction>,
)
    requires
        command_ran(start, CommandHandler::Sync(SyncCommand::Resume), args, open, none),
        start.around.sessions@.len() > 0,
        key_pressed(a, key, b, r),
        key.code == KeyCode::Enter,
        panel_has_the_keyboard(a, p),
        open.active_command_panel matches Some(q) && p.command_name@ == q.command_name@
            && p.context is Some && q.context is Some && p.context->0@ == q.context->0@,
        p.selected == Some(i),
        i < start.around.sessions@.len(),
        forall|j: int|
            0 <= j <= i ==> !(#[trigger] start.around.sessions@[j]).session_dir@.contains('\n'),
        start.around.sessions@[i as int].session_dir@.len() > 0,
        start.around.sessions@[i as int].session_dir@.last() != '\r',
    ensures
        open.active_command_panel matches Some(q) && q.selected == Some(0usize),
        r matches Some(UserAction::ResumeSession { session_dir }) && session_dir@
            == start.around.sessions@[i as int].session_dir@,
        is_closed(a, b),
        b.blocks == a.blocks,
{
    let all = start.around.sessions@;
    let dirs = session_dirs(all);
    assert(dirs[i as int] == all[i as int].session_dir@);
    assert forall|j: int| 0 <= j <= i implies !(#[trigger] dirs[j]).contains('\n') by {
        assert(dirs[j] == all[j].session_dir@);
    }
    joined_lines_come_back(dirs, i as int);
    reveal_strlit("resume");
    reveal_strlit("theme");
    reveal_strlit("model");
}

/// Enter on a theme switches to the theme that the row names.
pub proof fn theme_in_the_row_is_chosen(
    a: App,
    p: CommandPanelState,
    i: usize,
    key: KeyEvent,
    b: App,
    r: Option<UserAction>,
)
    requires
        key_pressed(a, key, b, r),
        key.code == KeyCode::Enter,
        panel_has_the_keyboard(a, p),
        p.command_name@ == "theme"@,
        p.selected == Some(i),
    ensures
        r is None,
        is_closed(a, b),
        i == 0 ==> b.theme.name@ == "dark"@,
        i == 1 ==> b.theme.name@ == "light"@,
        i == 2 ==> b.theme.name@ == "solarized"@,
        i < 3 ==> adds_one(a, b) && (b.blocks@.last() matches TranscriptBlock::System { text }
            && text@ == "Theme switched to '"@ + b.theme.name@ + "'."@),
        i >= 3 ==> b.theme == a.theme && b.blocks == a.blocks,
{
    reveal_strlit("resume");
    reveal_strlit("theme");
    assert("theme"@[0] == 't' && "resume"@[0] == 'r');
    models_follow(a);
    models_follow(b);
    if i < 3 {
        assert(b.transcript().last() == b.blocks@.last()@);
    }
}

/// Enter on a model asks for that model of that preset: those of the row that is
/// selected. The row of a model that belongs to no preset only says that it is
/// in use.
pub proof fn model_in_the_row_is_chosen(
    start: App,
    rows: Seq<ModelPickerEntry>,
    running: int,
    open: CommandPanelState,
    a: App,
    p: CommandPanelState,
    i: usize,
    key: KeyEvent,
    b: App,
    r: Option<UserAction>,
)
    requires
        is_model_panel(open@, start, rows, running),
        key_pressed(a, key, b, r),
        key.code == KeyCode::Enter,
        panel_has_the_keyboard(a, p),
        p.command_name@ == open.command_name@,
        p.context is Some && open.context is Some && p.context->0@ == open.context->0@,
        p.selected == Some(i),
        i < rows.len(),
        forall|j: int|
            0 <= j <= i ==> !(#[trigger] rows[j]).preset_id@.contains('\n')
                && !rows[j].model@.contains('\n'),
        !rows[i as int].preset_id@.contains('\u{1f}'),
        rows[i as int].model@.len() > 0,
        rows[i as int].model@.last() != '\r',
    ensures
        is_closed(a, b),
        rows[i as int].preset_id@.len() > 0 ==> b.blocks == a.blocks && (r matches Some(
            UserAction::SwitchModel { preset_id, model },
        ) && preset_id@ == rows[i as int].preset_id@ && model@ == rows[i as int].model@),
        rows[i as int].preset_id@.len() == 0 ==> r is None && adds_one(a, b) && (
        b.blocks@.last() matches TranscriptBlock::System { text } && text@ == "Already using "@
            + rows[i as int].model@ + "."@),
{
    picker_context_comes_back(rows, i as int);
    assert(open@.command_name == "model"@);
    assert(open@.context == Some(joined(context_lines(rows), "\n"@)));
    reveal_strlit("resume");
    reveal_strlit("theme");
    reveal_strlit("model");
    assert("theme"@[0] == 't' && "resume"@[0] == 'r' && "model"@[0] == 'm');
    models_follow(a);
    models_follow(b);
    if rows[i as int].preset_id@.len() == 0 {
        assert(b.transcript().last() == b.blocks@.last()@);
    }
}

/// The model panel opens on the model that is running, with a row of its own for
/// one that no preset offers.
pub proof fn running_model_is_selected(
    start: App,
    rows: Seq<ModelPickerEntry>,
    running: int,
    open: CommandPanelState,
)
    requires
        is_model_panel(open@, start, rows, running),
        rows.len() <= usize::MAX,
    ensures
        open.selected matches Some(i) && i < rows.len() && rows[i as int].model@
            == start.model_name@ && (rows[i as int].preset_id@.len() == 0
            || start.active_preset is Some && start.active_preset->0@ == rows[i as int].preset_id@),
        open.item_count == rows.len(),
        open.list_offset + rows.len() == open.lines@.len(),
{
    assert(open@.selected == open.selected);
    assert(open@.item_count == open.item_count);
    assert(open@.lines.len() == open.lines@.len());
}

// ---------------------------------------------------------------------------
// What is offered
// ---------------------------------------------------------------------------

proof fn before_or_behind(keys: Seq<Seq<char>>, i: int, j: int)
    requires
        i != j,
    ensures
        goes_before(keys, i, j) || goes_before(keys, j, i),
{
    before_is_total(keys[i], keys[j]);
}

proof fn three_in_a_row(keys: Seq<Seq<char>>, i: int, j: int, k: int)
    requires
        goes_before(keys, i, j),
        goes_before(keys, j, k),
    ensures
        goes_before(keys, i, k),
{
    if before(keys[i], keys[j]) && before(keys[j], keys[k]) {
        before_is_transitive(keys[i], keys[j], keys[k]);
    }
}

/// The place in a sorted list from which on everything goes behind `n`.
proof fn place_in_order(keys: Seq<Seq<char>>, order: Seq<usize>, n: int, from: int) -> (at: int)
    requires
        0 <= from <= order.len(),
        forall|i: int| 0 <= i < order.len() ==> 0 <= (#[trigger] order[i]) < n,
        forall|i: int, j: int|
            0 <= i < j < order.len() ==> goes_before(
                keys,
                #[trigger] order[i] as int,
                #[trigger] order[j] as int,
            ),
        forall|i: int| 0 <= i < from ==> goes_before(keys, #[trigger] order[i] as int, n),
    ensures
        0 <= at <= order.len(),
        forall|i: int| 0 <= i < at ==> goes_before(keys, #[trigger] order[i] as int, n),
        forall|i: int| at <= i < order.len() ==> goes_before(keys, n, #[trigger] order[i] as int),
    decreases order.len() - from,
{
    if from == order.len() {
        from
    } else if goes_before(keys, order[from] as int, n) {
        place_in_order(keys, order, n, from + 1)
    } else {
        before_or_behind(keys, order[from] as int, n);
        assert forall|i: int| from <= i < order.len() implies goes_before(
            keys,
            n,
            #[trigger] order[i] as int,
        ) by {
            if i > from {
                three_in_a_row(keys, n, order[from] as int, order[i] as int);
            }
        }
        from
    }
}

proof fn first_are_sorted(keys: Seq<Seq<char>>, n: int) -> (order: Seq<usize>)
    requires
        0 <= n <= keys.len() <= usize::MAX,
    ensures
        order.len() == n,
        forall|i: int| 0 <= i < order.len() ==> 0 <= (#[trigger] order[i]) < n,
        forall|i: int, j: int|
            0 <= i < j < order.len() ==> goes_before(
                keys,
                #[trigger] order[i] as int,
                #[trigger] order[j] as int,
            ),
    decreases n,
{
    if n == 0 {
        Seq::empty()
    } else {
        let order = first_are_sorted(keys, n - 1);
        let at = place_in_order(keys, order, n - 1, 0);
        let next = order.insert(at, (n - 1) as usize);
        assert forall|i: int, j: int| 0 <= i < j < next.len() implies goes_before(
            keys,
            #[trigger] next[i] as int,
            #[trigger] next[j] as int,
        ) by {
            let x = if i < at {
                i
            } else {
                i - 1
            };
            let y = if j < at {
                j
            } else {
                j - 1
            };
            if i != at {
                assert(next[i] == order[x]);
            }
            if j != at {
                assert(next[j] == order[y]);
            }
        }
        next
    }
}

/// Sorting keeps the items: it leaves none out, and adds and repeats none.
pub proof fn sorting_keeps_the_items<T>(items: Seq<T>, keys: Seq<Seq<char>>)
    requires
        items.len() == keys.len(),
        keys.len() <= usize::MAX,
    ensures
        sorted_by(items, keys).len() == items.len(),
        forall|x: T| sorted_by(items, keys).contains(x) <==> items.contains(x),
        is_sort_order(keys, sorted_positions(keys)),
{
    let some = first_are_sorted(keys, keys.len() as int);
    assert(is_sort_order(keys, some));
    let order = sorted_positions(keys);
    sort_order_is_complete(keys, order);
    let s = sorted_by(items, keys);
    assert forall|x: T| s.contains(x) <==> items.contains(x) by {
        if s.contains(x) {
            let i = choose|i: int| 0 <= i < s.len() && s[i] == x;
            assert(items[order[i] as int] == x);
        }
        if items.contains(x) {
            let i = choose|i: int| 0 <= i < items.len() && items[i] == x;
            assert(order.contains(i as usize));
            let k = choose|k: int| 0 <= k < order.len() && order[k] == i as usize;
            assert(s[k] == x);
        }
    }
}

/// Whether a row stands for a model of a preset.
pub open spec fn stands_for(e: ModelPickerEntry, p: ProviderPreset, m: ModelSpec) -> bool {
    &&& e.preset_id@ == p.id@
    &&& e.preset_name@ == p.name@
    &&& e.model@ == m.name@
    &&& e.context_window == m.context_window
    &&& e.pricing == m.pricing
}

/// Whether the picker is to offer a model of a preset: the preset is the active
/// one, or the key that it needs is there, and the preset has the model; for
/// Ollama, what the local instance has counts once it was asked.
pub open spec fn is_to_offer(
    p: ProviderPreset,
    m: ModelSpec,
    ollama: OllamaPickerModels,
    active: Option<Seq<char>>,
) -> bool {
    let usable = active == Some(p.id@) || p.key_env@.len() == 0 || (p.key is Some && p.key->0@.len()
        > 0);
    &&& usable
    &&& p.id@ != "ollama"@ ==> p.models@.contains(m)
    &&& p.id@ == "ollama"@ && ollama is Local ==> (ollama->Local_0)@.contains(m)
    &&& p.id@ == "ollama"@ && ollama is Bundled ==> p.models@.contains(m)
    &&& p.id@ == "ollama"@ && ollama is Unreachable ==> p.models@.contains(m) && active == Some(
        p.id@,
    )
}

proof fn preset_rows(p: ProviderPreset, ollama: OllamaPickerModels, active: Option<Seq<char>>)
    requires
        p.models@.len() <= usize::MAX,
        ollama is Local ==> (ollama->Local_0)@.len() <= usize::MAX,
    ensures
        forall|m: ModelSpec| #[trigger]
            is_to_offer(p, m, ollama, active) ==> preset_entries(p, ollama, active).contains(
                entry_of(p, m),
            ),
        forall|e: ModelPickerEntry|
            #![trigger preset_entries(p, ollama, active).contains(e)]
            preset_entries(p, ollama, active).contains(e) ==> exists|m: ModelSpec| #[trigger]
                is_to_offer(p, m, ollama, active) && stands_for(e, p, m),
{
    let models = crate::model_picker::offered(p, ollama, active);
    let sorted = sorted_by(models, model_names(models));
    sorting_keeps_the_items(models, model_names(models));
    let rows = preset_entries(p, ollama, active);
    assert forall|m: ModelSpec| #[trigger] is_to_offer(p, m, ollama, active) implies rows.contains(
        entry_of(p, m),
    ) by {
        assert(models.contains(m));
        assert(sorted.contains(m));
        let k = choose|k: int| 0 <= k < sorted.len() && sorted[k] == m;
        assert(rows[k] == entry_of(p, m));
    }
    assert forall|e: ModelPickerEntry| #[trigger] rows.contains(e) implies exists|m: ModelSpec|
     #[trigger]
        is_to_offer(p, m, ollama, active) && stands_for(e, p, m) by {
        let k = choose|k: int| 0 <= k < rows.len() && rows[k] == e;
        let m = sorted[k];
        assert(sorted.contains(m));
        assert(models.contains(m));
        assert(is_to_offer(p, m, ollama, active) && stands_for(e, p, m));
    }
}

proof fn rows_in_front(
    ps: Seq<ProviderPreset>,
    ollama: OllamaPickerModels,
    active: Option<Seq<char>>,
    n: int,
)
    requires
        0 <= n <= ps.len(),
    ensures
        forall|e: ModelPickerEntry|
            #![trigger entries_of(ps, ollama, active, n).contains(e)]
            entries_of(ps, ollama, active, n).contains(e) ==> exists|k: int|
                0 <= k < n && preset_entries(#[trigger] ps[k], ollama, active).contains(e),
        forall|e: ModelPickerEntry, k: int|
            0 <= k < n && #[trigger] preset_entries(ps[k], ollama, active).contains(e)
                ==> entries_of(ps, ollama, active, n).contains(e),
    decreases n,
{
    if n > 0 {
        rows_in_front(ps, ollama, active, n - 1);
        let front = entries_of(ps, ollama, active, n - 1);
        let tail = preset_entries(ps[n - 1], ollama, active);
        let all = entries_of(ps, ollama, active, n);
        assert(all == front + tail);
        assert forall|e: ModelPickerEntry| #[trigger] all.contains(e) implies exists|k: int|
            0 <= k < n && preset_entries(#[trigger] ps[k], ollama, active).contains(e) by {
            let i = choose|i: int| 0 <= i < all.len() && all[i] == e;
            if i < front.len() {
                assert(front[i] == e);
                assert(front.contains(e));
            } else {
                assert(tail[i - front.len()] == e);
                assert(preset_entries(ps[n - 1], ollama, active).contains(e));
            }
        }
        assert forall|e: ModelPickerEntry, k: int|
            0 <= k < n && #[trigger] preset_entries(ps[k], ollama, active).contains(
                e,
            ) implies all.contains(e) by {
            if k < n - 1 {
                assert(front.contains(e));
                let i = choose|i: int| 0 <= i < front.len() && front[i] == e;
                assert(all[i] == e);
            } else {
                let i = choose|i: int| 0 <= i < tail.len() && tail[i] == e;
                assert(all[front.len() + i] == e);
            }
        }
    }
}

/// The picker offers all models of the presets that can be used.
pub proof fn usable_models_are_offered(
    presets: Seq<ProviderPreset>,
    ollama: OllamaPickerModels,
    active: Option<Seq<char>>,
    p: ProviderPreset,
    m: ModelSpec,
) -> (i: int)
    requires
        presets.len() <= usize::MAX,
        p.models@.len() <= usize::MAX,
        ollama is Local ==> (ollama->Local_0)@.len() <= usize::MAX,
        presets.contains(p),
        is_to_offer(p, m, ollama, active),
    ensures
        0 <= i < picker_entries(presets, ollama, active).len(),
        stands_for(picker_entries(presets, ollama, active)[i], p, m),
{
    let ids = preset_ids(presets);
    sorting_keeps_the_items(presets, ids);
    let ps = sorted_by(presets, ids);
    assert(ps.contains(p));
    let k = choose|k: int| 0 <= k < ps.len() && ps[k] == p;
    preset_rows(p, ollama, active);
    let rows = picker_entries(presets, ollama, active);
    rows_in_front(ps, ollama, active, ps.len() as int);
    assert(preset_entries(ps[k], ollama, active).contains(entry_of(p, m)));
    assert(rows.contains(entry_of(p, m)));
    choose|i: int| 0 <= i < rows.len() && rows[i] == entry_of(p, m)
}

/// The picker offers nothing but models of the presets that can be used: no model
/// of a preset whose key is missing, unless that preset is the active one.
pub proof fn only_usable_models_are_offered(
    presets: Seq<ProviderPreset>,
    ollama: OllamaPickerModels,
    active: Option<Seq<char>>,
    i: int,
) -> (r: (ProviderPreset, ModelSpec))
    requires
        presets.len() <= usize::MAX,
        forall|k: int|
            0 <= k < presets.len() ==> (#[trigger] presets[k]).models@.len() <= usize::MAX,
        ollama is Local ==> (ollama->Local_0)@.len() <= usize::MAX,
        0 <= i < picker_entries(presets, ollama, active).len(),
    ensures
        presets.contains(r.0),
        is_to_offer(r.0, r.1, ollama, active),
        stands_for(picker_entries(presets, ollama, active)[i], r.0, r.1),
{
    let ids = preset_ids(presets);
    sorting_keeps_the_items(presets, ids);
    let ps = sorted_by(presets, ids);
    let rows = picker_entries(presets, ollama, active);
    let e = rows[i];
    assert(rows.contains(e));
    rows_in_front(ps, ollama, active, ps.len() as int);
    let k = choose|k: int|
        0 <= k < ps.len() && preset_entries(#[trigger] ps[k], ollama, active).contains(e);
    let q = ps[k];
    assert(ps.contains(q));
    assert(presets.contains(q));
    let x = choose|x: int| 0 <= x < presets.len() && presets[x] == q;
    assert(presets[x].models@.len() <= usize::MAX);
    preset_rows(q, ollama, active);
    let m = choose|m: ModelSpec| #[trigger]
        is_to_offer(q, m, ollama, active) && stands_for(e, q, m);
    (q, m)
}

} // verus!
