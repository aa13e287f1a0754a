//! Styled lines of text as plain values.
use vstd::prelude::*;

use crate::text::{lines, lines_of, views};

verus! {

/// A terminal colour.
#[derive(Clone, Copy, Debug, PartialEq, Eq, Structural)]
pub enum Color {
    White,
    Cyan,
    Yellow,
    Green,
    Red,
    DarkGray,
}

/// How a piece of text looks.
#[derive(Clone, Copy, Debug, PartialEq, Eq, Structural)]
pub struct Style {
    pub fg: Option<Color>,
    pub bold: bool,
    pub dim: bool,
    pub italic: bool,
}

/// The style without any property.
pub open spec fn plain_style() -> Style {
    Style { fg: None, bold: false, dim: false, italic: false }
}

/// The style that only sets the text colour.
pub open spec fn colored(c: Color) -> Style {
    Style { fg: Some(c), ..plain_style() }
}

/// The style of bold text in a colour.
pub open spec fn bold(c: Color) -> Style {
    Style { bold: true, ..colored(c) }
}

impl Style {
    /// The style without any property.
    pub fn plain() -> (r: Style)
        ensures
            r == plain_style(),
    {
        Style { fg: None, bold: false, dim: false, italic: false }
    }

    /// The style that only sets the text colour.
    pub fn fg(c: Color) -> (r: Style)
        ensures
            r == colored(c),
    {
        Style { fg: Some(c), bold: false, dim: false, italic: false }
    }

    /// The style of bold text in a colour.
    pub fn bold_fg(c: Color) -> (r: Style)
        ensures
            r == bold(c),
    {
        Style { fg: Some(c), bold: true, dim: false, italic: false }
    }
}

/// A piece of text in one style.
#[derive(Clone, Debug)]
pub struct Span {
    pub content: String,
    pub style: Style,
}

/// The model of a span: its text and its style.
pub struct SpanModel {
    pub content: Seq<char>,
    pub style: Style,
}

impl View for Span {
    type V = SpanModel;

    open spec fn view(&self) -> SpanModel {
        SpanModel { content: self.content@, style: self.style }
    }
}

/// One line of text: its spans, and the style underneath them.
#[derive(Clone, Debug)]
pub struct Line {
    pub spans: Vec<Span>,
    pub style: Style,
}

/// The model of a line.
pub struct LineModel {
    pub spans: Seq<SpanModel>,
    pub style: Style,
}

/// The models of a list of spans.
pub open spec fn span_models(s: Seq<Span>) -> Seq<SpanModel> {
    s.map_values(|x: Span| x@)
}

impl View for Line {
    type V = LineModel;

    open spec fn view(&self) -> LineModel {
        LineModel { spans: span_models(self.spans@), style: self.style }
    }
}

/// The models of a list of lines.
pub open spec fn line_models(s: Seq<Line>) -> Seq<LineModel> {
    s.map_values(|x: Line| x@)
}

/// The span that shows `content` in `style`.
pub open spec fn span(content: Seq<char>, style: Style) -> SpanModel {
    SpanModel { content, style }
}

/// The span that shows `content` without a style.
pub open spec fn raw(content: Seq<char>) -> SpanModel {
    SpanModel { content, style: plain_style() }
}

/// The line of the given spans, without a style of its own.
pub open spec fn line(spans: Seq<SpanModel>) -> LineModel {
    LineModel { spans, style: plain_style() }
}

/// The line that shows a text: one unstyled span for each line of the text.
pub open spec fn text_line(s: Seq<char>, style: Style) -> LineModel {
    LineModel { spans: lines(s).map_values(|l: Seq<char>| raw(l)), style }
}

impl Span {
    /// The text in a style.
    pub fn styled(content: String, style: Style) -> (r: Span)
        ensures
            r@ == span(content@, style),
    {
        Span { content, style }
    }

    /// The text without a style.
    pub fn raw(content: String) -> (r: Span)
        ensures
            r@ == raw(content@),
    {
        Span { content, style: Style::plain() }
    }
}

impl Line {
    /// The empty line.
    pub fn blank() -> (r: Line)
        ensures
            r@ == line(seq![]),
    {
        let r: Line = Line { spans: Vec::new(), style: Style::plain() };
        proof {
            assert(r@.spans =~= seq![]);
        }
        r
    }

    /// The line of one span.
    pub fn one(s: Span) -> (r: Line)
        ensures
            r@ == line(seq![s@]),
    {
        let mut spans: Vec<Span> = Vec::new();
        spans.push(s);
        let r: Line = Line { spans, style: Style::plain() };
        proof {
            assert(r@.spans =~= seq![s@]);
        }
        r
    }

    /// The line of the given spans.
    pub fn of(spans: Vec<Span>) -> (r: Line)
        ensures
            r@ == line(span_models(spans@)),
    {
        Line { spans, style: Style::plain() }
    }

    /// The line of two spans.
    pub fn two(a: Span, b: Span) -> (r: Line)
        ensures
            r@ == line(seq![a@, b@]),
    {
        let mut spans: Vec<Span> = Vec::new();
        spans.push(a);
        spans.push(b);
        let r: Line = Line { spans, style: Style::plain() };
        proof {
            assert(r@.spans =~= seq![a@, b@]);
        }
        r
    }

    /// The line of four spans.
    pub fn four(a: Span, b: Span, c: Span, d: Span) -> (r: Line)
        ensures
            r@ == line(seq![a@, b@, c@, d@]),
    {
        let mut spans: Vec<Span> = Vec::new();
        spans.push(a);
        spans.push(b);
        spans.push(c);
        spans.push(d);
        let r: Line = Line { spans, style: Style::plain() };
        proof {
            assert(r@.spans =~= seq![a@, b@, c@, d@]);
        }
        r
    }

    /// The line that shows `s` on top of `style`: one unstyled span for each
    /// line of `s`.
    pub fn text(s: &str, style: Style) -> (r: Line)
        ensures
            r@ == text_line(s@, style),
    {
        let parts: Vec<String> = lines_of(s);
        let mut spans: Vec<Span> = Vec::new();
        let mut i: usize = 0;
        while i < parts.len()
            invariant
                i <= parts@.len(),
                spans@.len() == i,
                forall|j: int| 0 <= j < i ==> (#[trigger] spans@[j])@ == raw(parts@[j]@),
            decreases parts@.len() - i,
        {
            spans.push(Span::raw(parts[i].clone()));
            i += 1;
        }
        let r: Line = Line { spans, style };
        proof {
            assert(views(parts@) == lines(s@));
            assert(r@.spans =~= text_line(s@, style).spans) by {
                assert forall|j: int| 0 <= j < r@.spans.len() implies r@.spans[j] == text_line(
                    s@,
                    style,
                ).spans[j] by {
                    assert(lines(s@)[j] == parts@[j]@);
                }
            }
        }
        r
    }
}

/// Appends a line.
pub fn push_line(out: &mut Vec<Line>, l: Line)
    ensures
        line_models(final(out)@) == line_models(old(out)@).push(l@),
{
    out.push(l);
    proof {
        assert(line_models(out@) =~= line_models(old(out)@).push(l@));
    }
}

/// Appends a span.
pub fn push_span(out: &mut Vec<Span>, s: Span)
    ensures
        span_models(final(out)@) == span_models(old(out)@).push(s@),
{
    out.push(s);
    proof {
        assert(span_models(out@) =~= span_models(old(out)@).push(s@));
    }
}

/// The text of a line: the contents of its spans in a row.
pub open spec fn line_content(l: Seq<SpanModel>) -> Seq<char>
    decreases l.len(),
{
    if l.len() == 0 {
        Seq::empty()
    } else {
        line_content(l.drop_last()) + l.last().content
    }
}

} // verus!
