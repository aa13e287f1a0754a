//! The contents of the interactive panels.
use vstd::prelude::*;
#[allow(unused_imports)]
use vstd::string::*;

use crate::commands::{CommandRegistry, CommandSpec};
use crate::cost::{capped_sum, UsageStats};
use crate::modal::{JournalEntry, ResumeEntry};
use crate::render::{clamp, clamped};
use crate::skill_commands::SkillCommand;
use crate::style::{
    bold, colored, line, line_models, push_line, raw, span, text_line, Color, Line, LineModel, Span,
    Style,
};
use crate::text::{
    chars_of, concat2, concat3, concat4, decimal, join, joined, lines, lines_of, number_text,
    pad_left, pad_right, padded_left, padded_right, trim, trimmed, views,
};
use crate::theme::{all_themes, theme_names, Theme};

verus! {

/// The style of a panel's header.
pub open spec fn header_style() -> Style {
    bold(Color::Yellow)
}

/// The header of a panel and the blank line below it.
pub open spec fn heading(title: Seq<char>) -> Seq<LineModel> {
    seq![line(seq![span(title, header_style())]), line(seq![])]
}

pub(crate) fn start_panel(title: String) -> (r: Vec<Line>)
    ensures
        line_models(r@) == heading(title@),
{
    let mut out: Vec<Line> = Vec::new();
    push_line(&mut out, Line::one(Span::styled(title, Style::bold_fg(Color::Yellow))));
    push_line(&mut out, Line::blank());
    proof {
        assert(line_models(out@) =~= heading(title@));
    }
    out
}

/// The style of a list item: the selected one stands out.
pub open spec fn item_style(i: int, selected: int) -> Style {
    if i == selected {
        bold(Color::Yellow)
    } else {
        colored(Color::White)
    }
}

/// The marker of a list item.
pub open spec fn item_marker(i: int, selected: int) -> Seq<char> {
    if i == selected {
        "▶"@
    } else {
        " "@
    }
}

pub(crate) fn style_of(i: usize, selected: usize) -> (r: Style)
    ensures
        r == item_style(i as int, selected as int),
{
    if i == selected {
        Style::bold_fg(Color::Yellow)
    } else {
        Style::fg(Color::White)
    }
}

pub(crate) fn marker_of(i: usize, selected: usize) -> (r: &'static str)
    ensures
        r@ == item_marker(i as int, selected as int),
{
    if i == selected {
        "▶"
    } else {
        " "
    }
}

// ---------------------------------------------------------------------------
// Help
// ---------------------------------------------------------------------------

/// One line of help: a term in a column of its own, and what it means.
pub open spec fn help_line(term: Seq<char>, style: Style, meaning: Seq<char>) -> LineModel {
    line(seq![raw("  "@), span(term, style), raw(" "@), raw(meaning)])
}

/// The keys that the help explains.
pub open spec fn help_keys() -> Seq<(Seq<char>, Seq<char>)> {
    seq![
        ("Enter"@, "Submit"@),
        ("Shift+Enter"@, "Newline"@),
        ("Shift+Tab"@, "Cycle input mode"@),
        ("↑/↓ (empty)"@, "Browse history"@),
        ("PgUp / PgDn"@, "Scroll transcript"@),
        ("Ctrl+E"@, "Toggle expand on tool result / EOL"@),
        ("Ctrl+A"@, "Move to line start"@),
        ("Ctrl+C"@, "Interrupt (double-press to exit)"@),
        ("Esc"@, "Close panel / clear input"@),
    ]
}

/// The lines on the built-in commands.
pub open spec fn command_lines(cs: Seq<CommandSpec>) -> Seq<LineModel> {
    cs.map_values(
        |c: CommandSpec|
            help_line("/"@ + padded_right(c.name@, 10), colored(Color::Cyan), c.summary@),
    )
}

/// The lines on the skill commands; none at all without skills.
pub open spec fn skill_lines(ss: Seq<SkillCommand>) -> Seq<LineModel> {
    if ss.len() == 0 {
        seq![]
    } else {
        seq![line(seq![]), line(seq![span("Skill Commands:"@, header_style())])] + ss.map_values(
            |s: SkillCommand|
                help_line("/"@ + padded_right(s.name@, 10), colored(Color::Green), s.description@),
        )
    }
}

/// The lines on the keys.
pub open spec fn key_lines() -> Seq<LineModel> {
    help_keys().map_values(
        |k: (Seq<char>, Seq<char>)| help_line(padded_right(k.0, 14), colored(Color::Cyan), k.1),
    )
}

/// The help panel.
pub open spec fn help_lines(cs: Seq<CommandSpec>, ss: Seq<SkillCommand>) -> Seq<LineModel> {
    heading("Recursive TUI — Help"@) + seq![line(seq![span("Commands:"@, header_style())])]
        + command_lines(cs) + skill_lines(ss) + seq![
        line(seq![]),
        line(seq![span("Keys:"@, header_style())]),
    ] + key_lines()
}

fn push_help(out: &mut Vec<Line>, term: String, style: Style, meaning: &str)
    ensures
        line_models(final(out)@) == line_models(old(out)@).push(help_line(term@, style, meaning@)),
{
    push_line(
        out,
        Line::four(
            Span::raw("  ".to_owned()),
            Span::styled(term, style),
            Span::raw(" ".to_owned()),
            Span::raw(meaning.to_owned()),
        ),
    );
}

fn push_key(out: &mut Vec<Line>, key: &str, meaning: &str)
    ensures
        line_models(final(out)@) == line_models(old(out)@).push(
            help_line(padded_right(key@, 14), colored(Color::Cyan), meaning@),
        ),
{
    push_help(out, pad_right(key, 14), Style::fg(Color::Cyan), meaning);
}

fn push_keys(out: &mut Vec<Line>)
    ensures
        line_models(final(out)@) == line_models(old(out)@) + key_lines(),
{
    push_key(out, "Enter", "Submit");
    push_key(out, "Shift+Enter", "Newline");
    push_key(out, "Shift+Tab", "Cycle input mode");
    push_key(out, "↑/↓ (empty)", "Browse history");
    push_key(out, "PgUp / PgDn", "Scroll transcript");
    push_key(out, "Ctrl+E", "Toggle expand on tool result / EOL");
    push_key(out, "Ctrl+A", "Move to line start");
    push_key(out, "Ctrl+C", "Interrupt (double-press to exit)");
    push_key(out, "Esc", "Close panel / clear input");
    proof {
        assert(line_models(out@) =~= line_models(old(out)@) + key_lines());
    }
}

fn push_commands(out: &mut Vec<Line>, cs: &[CommandSpec])
    ensures
        line_models(final(out)@) == line_models(old(out)@) + command_lines(cs@),
{
    let ghost start = line_models(out@);
    let ghost all = command_lines(cs@);
    let mut i: usize = 0;
    proof {
        assert(start + all.take(0) =~= start);
    }
    while i < cs.len()
        invariant
            i <= cs@.len(),
            all == command_lines(cs@),
            line_models(out@) == start + all.take(i as int),
        decreases cs@.len() - i,
    {
        let padded: String = pad_right(cs[i].name, 10);
        push_help(out, concat2("/", padded.as_str()), Style::fg(Color::Cyan), cs[i].summary);
        proof {
            assert(start + all.take(i + 1) =~= (start + all.take(i as int)).push(all[i as int]));
        }
        i += 1;
    }
    proof {
        assert(all.take(i as int) =~= all);
    }
}

fn push_skills(out: &mut Vec<Line>, ss: &[SkillCommand])
    ensures
        line_models(final(out)@) == line_models(old(out)@) + skill_lines(ss@),
{
    if ss.len() == 0 {
        proof {
            assert(line_models(out@) + skill_lines(ss@) =~= line_models(out@));
        }
        return ;
    }
    let ghost before = line_models(out@);
    push_line(out, Line::blank());
    push_line(
        out,
        Line::one(Span::styled("Skill Commands:".to_owned(), Style::bold_fg(Color::Yellow))),
    );
    let ghost all = ss@.map_values(
        |s: SkillCommand|
            help_line("/"@ + padded_right(s.name@, 10), colored(Color::Green), s.description@),
    );
    let ghost start = line_models(out@);
    let mut i: usize = 0;
    proof {
        assert(start + all.take(0) =~= start);
    }
    while i < ss.len()
        invariant
            i <= ss@.len(),
            all == ss@.map_values(
                |s: SkillCommand|
                    help_line(
                        "/"@ + padded_right(s.name@, 10),
                        colored(Color::Green),
                        s.description@,
                    ),
            ),
            line_models(out@) == start + all.take(i as int),
        decreases ss@.len() - i,
    {
        let padded: String = pad_right(ss[i].name.as_str(), 10);
        push_help(
            out,
            concat2("/", padded.as_str()),
            Style::fg(Color::Green),
            ss[i].description.as_str(),
        );
        proof {
            assert(start + all.take(i + 1) =~= (start + all.take(i as int)).push(all[i as int]));
        }
        i += 1;
    }
    proof {
        assert(all.take(i as int) =~= all);
        assert(start + all =~= before + skill_lines(ss@));
    }
}

/// The help panel: the commands, the skills and the keys.
pub fn build_help_lines(registry: &CommandRegistry) -> (r: Vec<Line>)
    ensures
        line_models(r@) == help_lines(registry.builtins(), registry.skills()),
{
    let mut out: Vec<Line> = start_panel("Recursive TUI — Help".to_owned());
    push_line(
        &mut out,
        Line::one(Span::styled("Commands:".to_owned(), Style::bold_fg(Color::Yellow))),
    );
    push_commands(&mut out, registry.commands());
    push_skills(&mut out, registry.skill_commands());
    push_line(&mut out, Line::blank());
    push_line(
        &mut out,
        Line::one(Span::styled("Keys:".to_owned(), Style::bold_fg(Color::Yellow))),
    );
    push_keys(&mut out);
    proof {
        assert(line_models(out@) =~= help_lines(registry.builtins(), registry.skills()));
    }
    out
}

// ---------------------------------------------------------------------------
// Cost
// ---------------------------------------------------------------------------

/// What the session cost in US dollars, as it is shown.
#[derive(Clone, Debug)]
pub struct CostFigures {
    pub input: String,
    pub output: String,
    pub total: String,
}

/// A cost in brackets.
pub open spec fn cost_label(figure: Option<Seq<char>>) -> Seq<char> {
    match figure {
        Some(f) => "($"@ + f + ")"@,
        None => "(no pricing)"@,
    }
}

/// A row of the cost panel.
pub open spec fn cost_row(label: Seq<char>, count: u64, figure: Option<Seq<char>>) -> LineModel {
    line(
        seq![
            raw("  "@),
            span(
                label + padded_right(decimal(count as nat), 7) + "  "@ + cost_label(figure),
                colored(Color::White),
            ),
        ],
    )
}

/// The three figures, where the model has prices.
pub open spec fn figure(costs: Option<CostFigures>, which: int) -> Option<Seq<char>> {
    match costs {
        Some(c) => Some(
            if which == 0 {
                c.input@
            } else if which == 1 {
                c.output@
            } else {
                c.total@
            },
        ),
        None => None,
    }
}

/// The cost panel.
pub open spec fn cost_lines(
    u: UsageStats,
    model: Seq<char>,
    costs: Option<CostFigures>,
    latency_secs: Seq<char>,
) -> Seq<LineModel> {
    heading("Token usage (this session)"@) + seq![
        cost_row("Input  : "@, u.total_input, figure(costs, 0)),
        cost_row("Output : "@, u.total_output, figure(costs, 1)),
        cost_row("Total  : "@, capped_sum(u.total_input, u.total_output), figure(costs, 2)),
        line(seq![]),
        line(seq![raw("  "@), raw("Last turn latency: "@ + latency_secs + " s"@)]),
        line(seq![raw("  "@), raw("Provider         : "@ + model)]),
    ]
}

fn push_cost(out: &mut Vec<Line>, label: &str, count: u64, figure: Option<&str>)
    ensures
        line_models(final(out)@) == line_models(old(out)@).push(
            cost_row(
                label@,
                count,
                match figure {
                    Some(f) => Some(f@),
                    None => None,
                },
            ),
        ),
{
    let cost: String = match figure {
        Some(f) => concat3("($", f, ")"),
        None => "(no pricing)".to_owned(),
    };
    let n: String = number_text(count);
    let padded: String = pad_right(n.as_str(), 7);
    let text: String = concat4(label, padded.as_str(), "  ", cost.as_str());
    push_line(
        out,
        Line::two(Span::raw("  ".to_owned()), Span::styled(text, Style::fg(Color::White))),
    );
}

/// The cost panel. The costs and the latency come formatted.
pub fn build_cost_lines(
    usage: &UsageStats,
    model: &str,
    costs: &Option<CostFigures>,
    latency_secs: &str,
) -> (r: Vec<Line>)
    ensures
        line_models(r@) == cost_lines(*usage, model@, *costs, latency_secs@),
{
    let mut out: Vec<Line> = start_panel("Token usage (this session)".to_owned());
    let (input, output, total): (Option<&str>, Option<&str>, Option<&str>) = match costs {
        Some(c) => (Some(c.input.as_str()), Some(c.output.as_str()), Some(c.total.as_str())),
        None => (None, None, None),
    };
    push_cost(&mut out, "Input  : ", usage.total_input, input);
    push_cost(&mut out, "Output : ", usage.total_output, output);
    push_cost(&mut out, "Total  : ", usage.total_input.saturating_add(usage.total_output), total);
    push_line(&mut out, Line::blank());
    let latency: String = concat3("Last turn latency: ", latency_secs, " s");
    push_line(&mut out, Line::two(Span::raw("  ".to_owned()), Span::raw(latency)));
    let provider: String = concat2("Provider         : ", model);
    push_line(&mut out, Line::two(Span::raw("  ".to_owned()), Span::raw(provider)));
    proof {
        assert(line_models(out@) =~= cost_lines(*usage, model@, *costs, latency_secs@));
    }
    out
}

// ---------------------------------------------------------------------------
// Tools
// ---------------------------------------------------------------------------

/// The first line of a description, trimmed and cut to 60 characters.
pub open spec fn short_description(desc: Seq<char>) -> Seq<char> {
    let first = if lines(desc).len() > 0 {
        lines(desc)[0]
    } else {
        seq![]
    };
    clamped(trim(first), 60)
}

/// A row of the tool panel.
pub open spec fn tool_row(tool: (String, String)) -> LineModel {
    help_line(padded_right(tool.0@, 16), colored(Color::Cyan), short_description(tool.1@))
}

/// The tool panel.
pub open spec fn tool_lines(tools: Seq<(String, String)>) -> Seq<LineModel> {
    heading("Available tools ("@ + decimal(tools.len()) + ")"@) + if tools.len() == 0 {
        seq![line(seq![span("  (no tools registered)"@, colored(Color::DarkGray))])]
    } else {
        tools.map_values(|t: (String, String)| tool_row(t))
    }
}

fn shorten(desc: &str) -> (r: String)
    ensures
        r@ == short_description(desc@),
{
    let ls: Vec<String> = lines_of(desc);
    let first: Vec<char> = if ls.len() > 0 {
        proof {
            assert(lines(desc@)[0] == ls@[0]@);
        }
        chars_of(ls[0].as_str())
    } else {
        Vec::new()
    };
    proof {
        assert(lines(desc@).len() == ls@.len());
        if ls@.len() == 0 {
            assert(first@ =~= seq![]);
        }
    }
    let t: String = trimmed(&first);
    clamp(t.as_str(), 60)
}

/// The tool panel: the name of each tool and the gist of its description.
pub fn build_tool_lines(entries: &[(String, String)]) -> (r: Vec<Line>)
    ensures
        line_models(r@) == tool_lines(entries@),
{
    let n: String = number_text(entries.len() as u64);
    let mut out: Vec<Line> = start_panel(concat3("Available tools (", n.as_str(), ")"));
    let ghost start = line_models(out@);
    if entries.len() == 0 {
        push_line(
            &mut out,
            Line::one(
                Span::styled("  (no tools registered)".to_owned(), Style::fg(Color::DarkGray)),
            ),
        );
        proof {
            assert(line_models(out@) =~= tool_lines(entries@));
        }
        return out;
    }
    let ghost all = entries@.map_values(|t: (String, String)| tool_row(t));
    let mut i: usize = 0;
    proof {
        assert(start + all.take(0) =~= start);
    }
    while i < entries.len()
        invariant
            i <= entries@.len(),
            all == entries@.map_values(|t: (String, String)| tool_row(t)),
            line_models(out@) == start + all.take(i as int),
        decreases entries@.len() - i,
    {
        let short: String = shorten(entries[i].1.as_str());
        push_help(
            &mut out,
            pad_right(entries[i].0.as_str(), 16),
            Style::fg(Color::Cyan),
            short.as_str(),
        );
        proof {
            assert(start + all.take(i + 1) =~= (start + all.take(i as int)).push(all[i as int]));
        }
        i += 1;
    }
    proof {
        assert(all.take(i as int) =~= all);
    }
    out
}

// ---------------------------------------------------------------------------
// Journal
// ---------------------------------------------------------------------------

/// A row of the journal panel.
pub open spec fn journal_row(entries: Seq<JournalEntry>, i: int, selected: int) -> LineModel {
    line(
        seq![
            raw(" "@ + item_marker(i, selected) + " "@),
            span(entries[i].name@, item_style(i, selected)),
        ],
    )
}

/// The rows of the journal panel.
pub open spec fn journal_rows(entries: Seq<JournalEntry>, selected: int) -> Seq<LineModel> {
    Seq::new(entries.len(), |i: int| journal_row(entries, i, selected))
}

/// The start of a journal entry: at most twelve lines, and how many more there
/// are.
pub open spec fn journal_preview(entry: JournalEntry) -> Seq<LineModel> {
    let ls = lines(entry.preview@);
    let dim = colored(Color::DarkGray);
    seq![line(seq![span("── "@ + entry.name@ + " ──"@, dim)])] + ls.take(
        if ls.len() <= 12 { ls.len() as int } else { 12 },
    ).map_values(|l: Seq<char>| text_line("  "@ + l, crate::style::plain_style()))
        + if ls.len() > 12 {
        seq![
            line(
                seq![span("  … ("@ + decimal((ls.len() - 12) as nat) + " more lines)"@, dim)],
            ),
        ]
    } else {
        seq![]
    }
}

/// The journal panel.
pub open spec fn journal_lines(entries: Seq<JournalEntry>, selected: int) -> Seq<LineModel> {
    let head = heading("Recent journal entries"@);
    if entries.len() == 0 {
        head + seq![line(seq![span("  (no entries in .dev/journal/)"@, colored(Color::DarkGray))])]
    } else {
        head + journal_rows(entries, selected) + seq![line(seq![])] + if 0 <= selected
            < entries.len() {
            journal_preview(entries[selected])
        } else {
            seq![]
        }
    }
}

fn push_journal_preview(out: &mut Vec<Line>, entry: &JournalEntry)
    ensures
        line_models(final(out)@) == line_models(old(out)@) + journal_preview(*entry),
{
    let ghost first = line_models(out@);
    let title: String = concat3("── ", entry.name.as_str(), " ──");
    push_line(out, Line::one(Span::styled(title, Style::fg(Color::DarkGray))));
    let ls: Vec<String> = lines_of(entry.preview.as_str());
    let ghost want = lines(entry.preview@);
    let ghost shown = want.take(
        if want.len() <= 12 { want.len() as int } else { 12 },
    ).map_values(|l: Seq<char>| text_line("  "@ + l, crate::style::plain_style()));
    let ghost start = line_models(out@);
    let mut i: usize = 0;
    proof {
        assert(start + shown.take(0) =~= start);
    }
    while i < ls.len() && i < 12
        invariant
            i <= ls@.len(),
            i <= 12,
            views(ls@) == want,
            shown == want.take(if want.len() <= 12 { want.len() as int } else { 12 }).map_values(
                |l: Seq<char>| text_line("  "@ + l, crate::style::plain_style()),
            ),
            line_models(out@) == start + shown.take(i as int),
        decreases ls@.len() - i,
    {
        let text: String = concat2("  ", ls[i].as_str());
        push_line(out, Line::text(text.as_str(), Style::plain()));
        proof {
            assert(want[i as int] == ls@[i as int]@);
            assert(start + shown.take(i + 1) =~= (start + shown.take(i as int)).push(
                shown[i as int],
            ));
        }
        i += 1;
    }
    proof {
        assert(want.len() == ls@.len());
        assert(shown.take(i as int) =~= shown);
    }
    if ls.len() > 12 {
        let n: String = number_text((ls.len() - 12) as u64);
        let more: String = concat3("  … (", n.as_str(), " more lines)");
        push_line(out, Line::one(Span::styled(more, Style::fg(Color::DarkGray))));
    }
    proof {
        assert(line_models(out@) =~= first + journal_preview(*entry));
    }
}

/// The journal panel: the entries, and the start of the selected one.
pub fn build_journal_lines(entries: &[JournalEntry], selected: usize) -> (r: Vec<Line>)
    ensures
        line_models(r@) == journal_lines(entries@, selected as int),
{
    let mut out: Vec<Line> = start_panel("Recent journal entries".to_owned());
    if entries.len() == 0 {
        push_line(
            &mut out,
            Line::one(
                Span::styled(
                    "  (no entries in .dev/journal/)".to_owned(),
                    Style::fg(Color::DarkGray),
                ),
            ),
        );
        proof {
            assert(line_models(out@) =~= journal_lines(entries@, selected as int));
        }
        return out;
    }
    let ghost start = line_models(out@);
    let ghost all = journal_rows(entries@, selected as int);
    let mut i: usize = 0;
    proof {
        assert(start + all.take(0) =~= start);
    }
    while i < entries.len()
        invariant
            i <= entries@.len(),
            all == journal_rows(entries@, selected as int),
            line_models(out@) == start + all.take(i as int),
        decreases entries@.len() - i,
    {
        let marker: String = concat3(" ", marker_of(i, selected), " ");
        push_line(
            &mut out,
            Line::two(
                Span::raw(marker),
                Span::styled(entries[i].name.clone(), style_of(i, selected)),
            ),
        );
        proof {
            assert(start + all.take(i + 1) =~= (start + all.take(i as int)).push(all[i as int]));
        }
        i += 1;
    }
    push_line(&mut out, Line::blank());
    proof {
        assert(all.take(i as int) =~= all);
        assert(line_models(out@) =~= start + all + seq![line(seq![])]);
    }
    if selected < entries.len() {
        push_journal_preview(&mut out, &entries[selected]);
    }
    proof {
        assert(line_models(out@) =~= journal_lines(entries@, selected as int));
    }
    out
}

/// The names of the journal entries, one per line.
pub fn serde_journal_context(entries: &[JournalEntry]) -> (r: String)
    ensures
        r@ == joined(entries@.map_values(|e: JournalEntry| e.name@), "\n"@),
{
    let mut names: Vec<String> = Vec::new();
    let mut i: usize = 0;
    while i < entries.len()
        invariant
            i <= entries@.len(),
            names@.len() == i,
            forall|j: int| 0 <= j < i ==> (#[trigger] names@[j])@ == entries@[j].name@,
        decreases entries@.len() - i,
    {
        names.push(entries[i].name.clone());
        i += 1;
    }
    proof {
        assert(views(names@) =~= entries@.map_values(|e: JournalEntry| e.name@));
    }
    join(&names, "\n")
}

// ---------------------------------------------------------------------------
// Sessions
// ---------------------------------------------------------------------------

/// A row of the session panel.
pub open spec fn resume_row(e: ResumeEntry, i: int, selected: int) -> LineModel {
    line(
        seq![
            span(
                " "@ + item_marker(i, selected) + " "@ + padded_right(e.slug@, 42) + (" turns:"@
                    + padded_left(decimal(e.turn_count as nat), 3) + "  "@ + e.updated_at@),
                item_style(i, selected),
            ),
        ],
    )
}

/// The session panel.
pub open spec fn resume_lines(entries: Seq<ResumeEntry>, selected: int) -> Seq<LineModel> {
    heading("Recent sessions"@) + Seq::new(
        entries.len(),
        |i: int| resume_row(entries[i], i, selected),
    ) + seq![
        line(seq![]),
        line(
            seq![
                span("↑/↓ navigate  ·  Enter resume  ·  Esc cancel"@, colored(Color::DarkGray)),
            ],
        ),
    ]
}

/// The session panel: one row for each saved session.
pub fn build_resume_lines(entries: &[ResumeEntry], selected: usize) -> (r: Vec<Line>)
    ensures
        line_models(r@) == resume_lines(entries@, selected as int),
{
    let mut out: Vec<Line> = start_panel("Recent sessions".to_owned());
    let ghost start = line_models(out@);
    let ghost all = Seq::new(
        entries@.len(),
        |i: int| resume_row(entries@[i], i, selected as int),
    );
    let mut i: usize = 0;
    proof {
        assert(start + all.take(0) =~= start);
    }
    while i < entries.len()
        invariant
            i <= entries@.len(),
            all == Seq::new(entries@.len(), |i: int| resume_row(entries@[i], i, selected as int)),
            line_models(out@) == start + all.take(i as int),
        decreases entries@.len() - i,
    {
        let slug: String = pad_right(entries[i].slug.as_str(), 42);
        let head: String = concat4(" ", marker_of(i, selected), " ", slug.as_str());
        let n: String = number_text(entries[i].turn_count as u64);
        let turns: String = pad_left(n.as_str(), 3);
        let tail: String = concat4(
            " turns:",
            turns.as_str(),
            "  ",
            entries[i].updated_at.as_str(),
        );
        let text: String = concat2(head.as_str(), tail.as_str());
        push_line(&mut out, Line::one(Span::styled(text, style_of(i, selected))));
        proof {
            assert(start + all.take(i + 1) =~= (start + all.take(i as int)).push(all[i as int]));
        }
        i += 1;
    }
    push_line(&mut out, Line::blank());
    push_line(
        &mut out,
        Line::one(
            Span::styled(
                "↑/↓ navigate  ·  Enter resume  ·  Esc cancel".to_owned(),
                Style::fg(Color::DarkGray),
            ),
        ),
    );
    proof {
        assert(all.take(i as int) =~= all);
        assert(line_models(out@) =~= resume_lines(entries@, selected as int));
    }
    out
}

/// The directories of the sessions.
pub open spec fn session_dirs(entries: Seq<ResumeEntry>) -> Seq<Seq<char>> {
    entries.map_values(|e: ResumeEntry| e.session_dir@)
}

/// The directories of the sessions, one per line.
pub fn serde_resume_context(entries: &[ResumeEntry]) -> (r: String)
    ensures
        r@ == joined(session_dirs(entries@), "\n"@),
{
    let mut dirs: Vec<String> = Vec::new();
    let mut i: usize = 0;
    while i < entries.len()
        invariant
            i <= entries@.len(),
            dirs@.len() == i,
            forall|j: int| 0 <= j < i ==> (#[trigger] dirs@[j])@ == entries@[j].session_dir@,
        decreases entries@.len() - i,
    {
        dirs.push(entries[i].session_dir.clone());
        i += 1;
    }
    proof {
        assert(views(dirs@) =~= session_dirs(entries@));
    }
    join(&dirs, "\n")
}

// ---------------------------------------------------------------------------
// Themes
// ---------------------------------------------------------------------------

/// The theme panel.
pub open spec fn theme_lines(current: Seq<char>, selected: int) -> Seq<LineModel> {
    heading("Choose theme  (current: "@ + current + ")"@) + Seq::new(
        theme_names().len(),
        |i: int|
            line(
                seq![
                    span(
                        " "@ + item_marker(i, selected) + " "@ + theme_names()[i],
                        item_style(i, selected),
                    ),
                ],
            ),
    )
}

/// The theme panel: one row for each theme.
pub fn build_theme_picker_lines(current: &str, selected: usize) -> (r: Vec<Line>)
    ensures
        line_models(r@) == theme_lines(current@, selected as int),
{
    let mut out: Vec<Line> = start_panel(concat3("Choose theme  (current: ", current, ")"));
    let themes: Vec<Theme> = all_themes();
    let ghost start = line_models(out@);
    let ghost names = themes@.map_values(|t: Theme| t.name@);
    let ghost all = theme_lines(current@, selected as int).skip(2);
    let mut i: usize = 0;
    proof {
        assert(start + all.take(0) =~= start);
        assert(names == theme_names());
        assert(themes@.len() == theme_names().len());
    }
    while i < themes.len()
        invariant
            i <= themes@.len(),
            themes@.len() == theme_names().len(),
            names == themes@.map_values(|t: Theme| t.name@),
            names == theme_names(),
            all == theme_lines(current@, selected as int).skip(2),
            line_models(out@) == start + all.take(i as int),
        decreases themes@.len() - i,
    {
        let text: String = concat4(" ", marker_of(i, selected), " ", themes[i].name);
        push_line(&mut out, Line::one(Span::styled(text, style_of(i, selected))));
        proof {
            assert(names[i as int] == themes@[i as int].name@);
            assert(start + all.take(i + 1) =~= (start + all.take(i as int)).push(all[i as int]));
        }
        i += 1;
    }
    proof {
        assert(line_models(out@) =~= theme_lines(current@, selected as int));
    }
    out
}

} // verus!
