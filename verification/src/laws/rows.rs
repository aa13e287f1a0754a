//! What the panels show.
use vstd::prelude::*;
#[allow(unused_imports)]
use vstd::string::*;

use crate::commands::CommandSpec;
use crate::cost::UsageStats;
use crate::laws::menu::leads;
use crate::modal::{JournalEntry, ResumeEntry};
use crate::model_picker::{model_lines, ModelPickerEntry};
use crate::pickers::{
    cost_lines, help_lines, journal_lines, resume_lines, theme_lines, tool_lines, CostFigures,
};
use crate::skill_commands::SkillCommand;
use crate::style::{line_content, LineModel};
use crate::text::{decimal, lines, padded_left, padded_right, spaces, trim};
use crate::theme::theme_names;

verus! {

/// The text of a line.
pub open spec fn text_of(l: LineModel) -> Seq<char> {
    line_content(l.spans)
}

/// Whether `s` ends with `p`.
pub open spec fn closes(p: Seq<char>, s: Seq<char>) -> bool {
    p.len() <= s.len() && s.skip(s.len() - p.len()) == p
}

/// The beginning of a row: the selected one is marked.
pub open spec fn row_start(is_selected: bool) -> Seq<char> {
    if is_selected {
        " ▶ "@
    } else {
        "   "@
    }
}

proof fn beginning_is_found(p: Seq<char>, rest: Seq<char>, s: Seq<char>)
    requires
        s == p + rest,
    ensures
        leads(p, s),
{
    assert(s.take(p.len() as int) =~= p);
}

proof fn end_is_found(front: Seq<char>, p: Seq<char>, s: Seq<char>)
    requires
        s == front + p,
    ensures
        closes(p, s),
{
    assert(s.skip(s.len() - p.len()) =~= p);
}

proof fn text_of_one(l: LineModel)
    requires
        l.spans.len() == 1,
    ensures
        text_of(l) == l.spans[0].content,
{
    assert(line_content(l.spans.drop_last()) =~= Seq::<char>::empty());
    assert(text_of(l) =~= l.spans[0].content);
}

proof fn text_of_two(l: LineModel)
    requires
        l.spans.len() == 2,
    ensures
        text_of(l) == l.spans[0].content + l.spans[1].content,
{
    let front = l.spans.drop_last();
    assert(line_content(front.drop_last()) =~= Seq::<char>::empty());
    assert(line_content(front) =~= front[0].content);
}

proof fn starts_agree(i: int, selected: int)
    ensures
        " "@ + crate::pickers::item_marker(i, selected) + " "@ == row_start(i == selected),
{
    reveal_strlit(" ");
    reveal_strlit("▶");
    reveal_strlit(" ▶ ");
    reveal_strlit("   ");
    assert(" "@ + crate::pickers::item_marker(i, selected) + " "@ =~= row_start(i == selected));
}

/// The panel of saved sessions has a row for each of them, in their order: by its
/// name, and with when it was used last. Just the selected row is marked.
pub proof fn each_session_has_its_row(entries: Seq<ResumeEntry>, selected: int, i: int)
    requires
        0 <= i < entries.len(),
    ensures
        resume_lines(entries, selected).len() >= entries.len() + 2,
        leads(
            row_start(i == selected) + entries[i].slug@,
            text_of(resume_lines(entries, selected)[i + 2]),
        ),
        closes(
            decimal(entries[i].turn_count as nat) + "  "@ + entries[i].updated_at@,
            text_of(resume_lines(entries, selected)[i + 2]),
        ),
{
    let l = resume_lines(entries, selected)[i + 2];
    let e = entries[i];
    assert(l == crate::pickers::resume_row(e, i, selected));
    text_of_one(l);
    starts_agree(i, selected);
    let start = row_start(i == selected);
    let t = text_of(l);
    let fill = spaces(42 - e.slug@.len());
    let tail = " turns:"@ + padded_left(decimal(e.turn_count as nat), 3) + "  "@ + e.updated_at@;
    assert(t =~= (start + e.slug@) + (fill + tail));
    beginning_is_found(start + e.slug@, fill + tail, t);
    let last = decimal(e.turn_count as nat) + "  "@ + e.updated_at@;
    let pad = spaces(3 - decimal(e.turn_count as nat).len());
    assert(t =~= (start + padded_right(e.slug@, 42) + " turns:"@ + pad) + last);
    end_is_found(start + padded_right(e.slug@, 42) + " turns:"@ + pad, last, t);
}

/// The panel of themes has a row for each of them, and names the one in use. Just the
/// selected row is marked.
pub proof fn each_theme_has_its_row(current: Seq<char>, selected: int, i: int)
    requires
        0 <= i < 3,
    ensures
        theme_lines(current, selected).len() == 5,
        closes(current + ")"@, text_of(theme_lines(current, selected)[0])),
        text_of(theme_lines(current, selected)[i + 2]) == row_start(i == selected) + (if i == 0 {
            "dark"@
        } else if i == 1 {
            "light"@
        } else {
            "solarized"@
        }),
{
    let all = theme_lines(current, selected);
    text_of_one(all[0]);
    let title = "Choose theme  (current: "@ + current + ")"@;
    assert(title =~= "Choose theme  (current: "@ + (current + ")"@));
    end_is_found("Choose theme  (current: "@, current + ")"@, title);
    text_of_one(all[i + 2]);
    starts_agree(i, selected);
    assert(theme_names()[i] == if i == 0 {
        "dark"@
    } else if i == 1 {
        "light"@
    } else {
        "solarized"@
    });
}

/// The journal has a row for each entry, by its name, and behind them the beginning of
/// the entry that is selected, up to twelve lines, and of no other.
pub proof fn selected_entry_is_shown(entries: Seq<JournalEntry>, selected: int, i: int, k: int)
    requires
        0 <= selected < entries.len(),
        0 <= i < entries.len(),
        0 <= k < lines(entries[selected].preview@).len(),
        k < 12,
        lines("  "@ + lines(entries[selected].preview@)[k]) == seq![
            "  "@ + lines(entries[selected].preview@)[k],
        ],
    ensures
        text_of(journal_lines(entries, selected)[i + 2]) == row_start(i == selected)
            + entries[i].name@,
        k + entries.len() + 4 < journal_lines(entries, selected).len(),
        text_of(journal_lines(entries, selected)[k + entries.len() + 4]) == "  "@ + lines(
            entries[selected].preview@,
        )[k],
        journal_lines(entries, selected).len() == entries.len() + 4 + (if lines(
            entries[selected].preview@,
        ).len() <= 12 {
            lines(entries[selected].preview@).len()
        } else {
            13
        }),
        lines(entries[selected].preview@).len() > 12 ==> text_of(
            journal_lines(entries, selected).last(),
        ) == "  … ("@ + decimal((lines(entries[selected].preview@).len() - 12) as nat)
            + " more lines)"@,
{
    let all = journal_lines(entries, selected);
    let l = all[i + 2];
    assert(l == crate::pickers::journal_row(entries, i, selected));
    text_of_two(l);
    starts_agree(i, selected);
    let m = all[k + entries.len() + 4];
    let ls = lines(entries[selected].preview@);
    assert(m == crate::style::text_line("  "@ + ls[k], crate::style::plain_style()));
    assert(m.spans.len() == 1);
    text_of_one(m);
    if ls.len() > 12 {
        text_of_one(all.last());
    }
}

/// The panel of tools counts them and has a row for each, with its name in front and
/// the first line of what it is for.
pub proof fn each_tool_has_its_row(tools: Seq<(String, String)>, i: int)
    requires
        0 <= i < tools.len(),
    ensures
        tool_lines(tools).len() == tools.len() + 2,
        text_of(tool_lines(tools)[0]) == "Available tools ("@ + decimal(tools.len()) + ")"@,
        tool_lines(tools)[i + 2].spans.len() == 4,
        leads(tools[i].0@, tool_lines(tools)[i + 2].spans[1].content),
        tool_lines(tools)[i + 2].spans[3].content.len() <= 60,
        lines(tools[i].1@).len() > 0 && trim(lines(tools[i].1@)[0]).len() <= 60 ==> tool_lines(
            tools,
        )[i + 2].spans[3].content == trim(lines(tools[i].1@)[0]),
{
    let all = tool_lines(tools);
    text_of_one(all[0]);
    assert(all[i + 2] == crate::pickers::tool_row(tools[i]));
    let t = padded_right(tools[i].0@, 16);
    beginning_is_found(tools[i].0@, spaces(16 - tools[i].0@.len()), t);
    reveal_strlit("…");
}

/// The help has a row for each command and for each skill, with its name behind a
/// slash and with what it does.
pub proof fn each_command_is_explained(
    cs: Seq<CommandSpec>,
    ss: Seq<SkillCommand>,
    i: int,
    k: int,
)
    requires
        0 <= i < cs.len(),
        0 <= k < ss.len(),
    ensures
        help_lines(cs, ss).len() >= cs.len() + ss.len() + 5,
        help_lines(cs, ss)[i + 3].spans.len() == 4,
        leads(seq!['/'] + cs[i].name@, help_lines(cs, ss)[i + 3].spans[1].content),
        help_lines(cs, ss)[i + 3].spans[3].content == cs[i].summary@,
        help_lines(cs, ss)[k + cs.len() + 5].spans.len() == 4,
        leads(seq!['/'] + ss[k].name@, help_lines(cs, ss)[k + cs.len() + 5].spans[1].content),
        help_lines(cs, ss)[k + cs.len() + 5].spans[3].content == ss[k].description@,
{
    reveal_strlit("/");
    let all = help_lines(cs, ss);
    let a = cs[i].name@;
    let s = all[i + 3].spans[1].content;
    assert(s =~= (seq!['/'] + a) + spaces(10 - a.len()));
    beginning_is_found(seq!['/'] + a, spaces(10 - a.len()), s);
    let b = ss[k].name@;
    let t = all[k + cs.len() + 5].spans[1].content;
    assert(t =~= (seq!['/'] + b) + spaces(10 - b.len()));
    beginning_is_found(seq!['/'] + b, spaces(10 - b.len()), t);
}

/// The cost panel shows the tokens of the session, in, out and together, each with
/// what they cost, and the model that they were spent on.
pub proof fn tokens_and_costs_are_shown(
    u: UsageStats,
    model: Seq<char>,
    costs: CostFigures,
    latency: Seq<char>,
)
    requires
        u.total_input + u.total_output <= u64::MAX,
    ensures
        ({
            let all = cost_lines(u, model, Some(costs), latency);
            &&& all.len() == 8
            &&& leads("  Input  : "@ + decimal(u.total_input as nat), text_of(all[2]))
            &&& closes("  ($"@ + costs.input@ + ")"@, text_of(all[2]))
            &&& leads("  Output : "@ + decimal(u.total_output as nat), text_of(all[3]))
            &&& closes("  ($"@ + costs.output@ + ")"@, text_of(all[3]))
            &&& leads(
                "  Total  : "@ + decimal((u.total_input + u.total_output) as nat),
                text_of(all[4]),
            )
            &&& closes("  ($"@ + costs.total@ + ")"@, text_of(all[4]))
            &&& text_of(all[6]) == "  Last turn latency: "@ + latency + " s"@
            &&& text_of(all[7]) == "  Provider         : "@ + model
        }),
        ({
            let all = cost_lines(u, model, None, latency);
            &&& closes("  (no pricing)"@, text_of(all[2]))
            &&& closes("  (no pricing)"@, text_of(all[3]))
            &&& closes("  (no pricing)"@, text_of(all[4]))
        }),
{
    reveal_strlit("  Input  : ");
    reveal_strlit("Input  : ");
    reveal_strlit("  Output : ");
    reveal_strlit("Output : ");
    reveal_strlit("  Total  : ");
    reveal_strlit("Total  : ");
    reveal_strlit("  ");
    reveal_strlit("($");
    reveal_strlit("  ($");
    reveal_strlit("(no pricing)");
    reveal_strlit("  (no pricing)");
    reveal_strlit("  Last turn latency: ");
    reveal_strlit("Last turn latency: ");
    reveal_strlit("  Provider         : ");
    reveal_strlit("Provider         : ");
    let total = (u.total_input + u.total_output) as u64;
    assert("  Input  : "@ =~= "  "@ + "Input  : "@);
    assert("  Output : "@ =~= "  "@ + "Output : "@);
    assert("  Total  : "@ =~= "  "@ + "Total  : "@);
    cost_row_is_read("Input  : "@, "  Input  : "@, u.total_input, Some(costs.input@));
    cost_row_is_read("Output : "@, "  Output : "@, u.total_output, Some(costs.output@));
    cost_row_is_read("Total  : "@, "  Total  : "@, total, Some(costs.total@));
    cost_row_is_read("Input  : "@, "  Input  : "@, u.total_input, None);
    cost_row_is_read("Output : "@, "  Output : "@, u.total_output, None);
    cost_row_is_read("Total  : "@, "  Total  : "@, total, None);
    let all = cost_lines(u, model, Some(costs), latency);
    text_of_two(all[6]);
    text_of_two(all[7]);
    assert(text_of(all[6]) =~= "  Last turn latency: "@ + latency + " s"@);
    assert(text_of(all[7]) =~= "  Provider         : "@ + model);
}

proof fn cost_row_is_read(
    label: Seq<char>,
    indented: Seq<char>,
    count: u64,
    figure: Option<Seq<char>>,
)
    requires
        indented == "  "@ + label,
    ensures
        ({
            let t = text_of(crate::pickers::cost_row(label, count, figure));
            &&& leads(indented + decimal(count as nat), t)
            &&& figure matches Some(f) ==> closes("  ($"@ + f + ")"@, t)
            &&& figure is None ==> closes("  (no pricing)"@, t)
        }),
{
    reveal_strlit("  ");
    reveal_strlit("($");
    reveal_strlit("  ($");
    reveal_strlit("(no pricing)");
    reveal_strlit("  (no pricing)");
    let l = crate::pickers::cost_row(label, count, figure);
    text_of_two(l);
    let t = text_of(l);
    let n = decimal(count as nat);
    let fill = spaces(7 - n.len());
    let cost = crate::pickers::cost_label(figure);
    assert(t =~= (indented + n) + (fill + "  "@ + cost));
    beginning_is_found(indented + n, fill + "  "@ + cost, t);
    if let Some(f) = figure {
        assert("  "@ + cost =~= "  ($"@ + f + ")"@);
    } else {
        assert("  "@ + cost =~= "  (no pricing)"@);
    }
    assert(t =~= (indented + n + fill) + ("  "@ + cost));
    end_is_found(indented + n + fill, "  "@ + cost, t);
}

/// The panel of models has a row for each of them, with its name and that of its
/// preset. Just the selected row is marked, and just the running model is ticked.
pub proof fn each_model_has_its_row(
    entries: Seq<ModelPickerEntry>,
    current: Seq<char>,
    running: int,
    selected: int,
    i: int,
)
    requires
        0 <= i < entries.len(),
    ensures
        text_of(model_lines(entries, current, running, selected)[0]) == "Select model  (current: "@
            + current + ")"@,
        ({
            let spans = model_lines(entries, current, running, selected)[i + 2].spans;
            &&& spans.len() >= 8
            &&& spans[0].content == row_start(i == selected)
            &&& spans[1].content == entries[i].model@
            &&& spans[3].content == entries[i].preset_name@
            &&& entries[i].context_window > 0 ==> spans[5].content == decimal(
                (entries[i].context_window / 1000) as nat,
            ) + "K ctx"@
            &&& entries[i].pricing matches Some(p) ==> spans[7].content == "$"@ + p.0@ + "/$"@
                + p.1@ + " per Mtok"@
            &&& entries[i].pricing is None ==> spans[7].content == "no pricing"@
            &&& spans.last().content == "✓"@ && spans.len() == 10 <==> i == running
        }),
{
    starts_agree(i, selected);
    text_of_one(model_lines(entries, current, running, selected)[0]);
    let l = model_lines(entries, current, running, selected)[i + 2];
    assert(l == crate::model_picker::model_row(entries[i], i, running, selected));
}

} // verus!
