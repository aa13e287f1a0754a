//! What comes in from the terminal besides single keys: the mouse, pasted text,
//! and escape sequences that arrive in pieces.
use vstd::prelude::*;
#[allow(unused_imports)]
use vstd::string::*;

use crate::app::panels::{scroll_by, scrolled};
use crate::app::App;
use crate::keys::{KeyCode, KeyEvent, MouseEvent, MouseEventKind};
use crate::style::{line_content, span_models, Line};
use crate::text::{chars_of, concat2, concat4, concat5, decimal, join, joined, number_text, views};

verus! {

// ---------------------------------------------------------------------------
// The mouse
// ---------------------------------------------------------------------------

/// The texts of rows `start` to `end`, both included, as far as there are rows,
/// with line feeds between them.
pub open spec fn rows_text(rows: Seq<Line>, start: int, end: int) -> Seq<char> {
    let hi = if end + 1 <= rows.len() {
        end + 1
    } else {
        rows.len() as int
    };
    if start < hi {
        joined(
            rows.subrange(start, hi).map_values(|l: Line| line_content(span_models(l.spans@))),
            "\n"@,
        )
    } else {
        seq![]
    }
}

/// The selection once the mouse was dragged to a row.
pub open spec fn dragged(selection: Option<(usize, usize)>, row: u16) -> Option<(usize, usize)> {
    match selection {
        Some((start, _)) => Some(
            if start <= row {
                (start, row as usize)
            } else {
                (row as usize, start)
            },
        ),
        None => None,
    }
}

/// What the mouse does, given the rows that are visible. The wheel scrolls the
/// transcript and drops the selection, and the left button selects rows, which
/// are copied when it is released.
pub open spec fn mouse_used(a: App, ev: MouseEvent, rows: Seq<Line>, b: App) -> bool {
    match ev.kind {
        MouseEventKind::ScrollUp => b == (App {
            selection: None,
            scroll_offset: scrolled(a.scroll_offset, 3, false),
            ..a
        }),
        MouseEventKind::ScrollDown => b == (App {
            selection: None,
            scroll_offset: scrolled(a.scroll_offset, 3, true),
            ..a
        }),
        MouseEventKind::LeftDown => b == (App {
            selection: Some((ev.row as usize, ev.row as usize)),
            ..a
        }),
        MouseEventKind::LeftDrag => b == (App { selection: dragged(a.selection, ev.row), ..a }),
        MouseEventKind::LeftUp => match a.selection {
            Some((start, end)) => {
                &&& b == (App { selection: None, last_copied: b.last_copied, ..a })
                &&& b.last_copied matches Some(t) && t@ == rows_text(
                    rows,
                    start as int,
                    end as int,
                )
            },
            None => b == a,
        },
        MouseEventKind::Other => b == a,
    }
}

/// The text of a line: the contents of its spans in a row.
fn text_of_line(l: &Line) -> (r: String)
    ensures
        r@ == line_content(span_models(l.spans@)),
{
    let ghost all = span_models(l.spans@);
    let mut out: String = String::new();
    let mut i: usize = 0;
    proof {
        assert(out@ =~= line_content(all.take(0)));
    }
    while i < l.spans.len()
        invariant
            i <= l.spans@.len(),
            all == span_models(l.spans@),
            out@ == line_content(all.take(i as int)),
        decreases l.spans@.len() - i,
    {
        out = concat2(out.as_str(), l.spans[i].content.as_str());
        proof {
            assert(all.take(i + 1).drop_last() =~= all.take(i as int));
            assert(all.take(i + 1).last() == all[i as int]);
            assert(all[i as int].content == l.spans@[i as int].content@);
        }
        i += 1;
    }
    proof {
        assert(all.take(i as int) =~= all);
    }
    out
}

/// Copies rows `start` to `end`, both included, as far as there are rows.
pub fn copy_visible_rows(app: &mut App, rows: &Vec<Line>, start: usize, end: usize)
    requires
        start <= end,
        end < usize::MAX,
    ensures
        *final(app) == (App { last_copied: final(app).last_copied, ..*old(app) }),
        final(app).last_copied matches Some(t) && t@ == rows_text(
            rows@,
            start as int,
            end as int,
        ),
{
    let hi: usize = if end + 1 <= rows.len() {
        end + 1
    } else {
        rows.len()
    };
    if start >= hi {
        app.copy_text(String::new());
        proof {
            assert(app.last_copied->Some_0@ =~= seq![]);
        }
        return ;
    }
    let mut texts: Vec<String> = Vec::new();
    let mut i: usize = start;
    while i < hi
        invariant
            start <= i <= hi <= rows@.len(),
            texts@.len() == i - start,
            forall|j: int|
                0 <= j < texts@.len() ==> (#[trigger] texts@[j])@ == line_content(
                    span_models(rows@[start + j].spans@),
                ),
        decreases hi - i,
    {
        texts.push(text_of_line(&rows[i]));
        i += 1;
    }
    let text: String = join(&texts, "\n");
    proof {
        assert(views(texts@) =~= rows@.subrange(start as int, hi as int).map_values(
            |l: Line| line_content(span_models(l.spans@)),
        ));
    }
    app.copy_text(text);
}

/// Handles a mouse event. `rows` are the rows of the transcript that are
/// visible.
pub fn handle_mouse(app: &mut App, ev: MouseEvent, rows: &Vec<Line>)
    requires
        old(app).wf(),
    ensures
        mouse_used(*old(app), ev, rows@, *final(app)),
        final(app).wf(),
{
    match ev.kind {
        MouseEventKind::ScrollUp => {
            app.selection = None;
            app.scroll_offset = scroll_by(app.scroll_offset, 3, false);
        },
        MouseEventKind::ScrollDown => {
            app.selection = None;
            app.scroll_offset = scroll_by(app.scroll_offset, 3, true);
        },
        MouseEventKind::LeftDown => {
            app.selection = Some((ev.row as usize, ev.row as usize));
        },
        MouseEventKind::LeftDrag => {
            if let Some((start, _)) = app.selection {
                let row: usize = ev.row as usize;
                app.selection = if start <= row {
                    Some((start, row))
                } else {
                    Some((row, start))
                };
            }
        },
        MouseEventKind::LeftUp => {
            if let Some((start, end)) = app.selection {
                copy_visible_rows(app, rows, start, end);
                app.selection = None;
            }
        },
        MouseEventKind::Other => {},
    }
}

/// A selection never outlives the rows that it was made on: scrolling drops it,
/// and so does releasing the button.
pub proof fn scrolling_drops_the_selection(a: App, ev: MouseEvent, rows: Seq<Line>, b: App)
    requires
        mouse_used(a, ev, rows, b),
        ev.kind == MouseEventKind::ScrollUp || ev.kind == MouseEventKind::ScrollDown || ev.kind
            == MouseEventKind::LeftUp,
    ensures
        b.selection is None,
{
}

// ---------------------------------------------------------------------------
// Pasted text
// ---------------------------------------------------------------------------

/// Whether `b` is `a` with a text put into its prompt at the cursor, and the cursor
/// behind it.
pub open spec fn pasted(a: App, text: Seq<char>, b: App) -> bool {
    &&& b == (App { prompt: b.prompt, ..a })
    &&& b.prompt.buffer@ == a.prompt.buffer@.take(a.prompt.index()) + text + a.prompt.buffer@.skip(
        a.prompt.index(),
    )
    &&& b.prompt.index() == a.prompt.index() + text.len()
    &&& b.prompt == (crate::input_state::PromptInputState {
        buffer: b.prompt.buffer,
        cursor: b.prompt.cursor,
        ..a.prompt
    })
}

impl App {
    /// Puts pasted text into the prompt at the cursor. Markers in it have no
    /// meaning.
    pub fn handle_paste(&mut self, text: &str)
        requires
            old(self).wf(),
        ensures
            pasted(*old(self), text@, *final(self)),
            final(self).wf(),
    {
        let v: Vec<char> = chars_of(text);
        let ghost before = self.prompt.buffer@;
        let ghost k = self.prompt.index();
        let ghost start = *self;
        let mut i: usize = 0;
        proof {
            assert(self.prompt.is_at(k));
            assert(before =~= before.take(k) + v@.take(0) + before.skip(k));
        }
        while i < v.len()
            invariant
                i <= v@.len(),
                v@ == text@,
                start == *old(self),
                before == start.prompt.buffer@,
                k == start.prompt.index(),
                0 <= k <= before.len(),
                self.prompt.wf(),
                *self == (App { prompt: self.prompt, ..start }),
                self.prompt == (crate::input_state::PromptInputState {
                    buffer: self.prompt.buffer,
                    cursor: self.prompt.cursor,
                    ..start.prompt
                }),
                self.prompt.index() == k + i,
                self.prompt.buffer@ == before.take(k) + v@.take(i as int) + before.skip(k),
            decreases v@.len() - i,
        {
            let ghost shown = self.prompt.buffer@;
            self.prompt.insert_char(v[i]);
            proof {
                assert(shown.insert(k + i, v@[i as int]) =~= before.take(k) + v@.take(i + 1)
                    + before.skip(k));
            }
            i += 1;
        }
        proof {
            assert(v@.take(i as int) =~= text@);
        }
    }
}

// ---------------------------------------------------------------------------
// Keys that arrive together
// ---------------------------------------------------------------------------

/// The keys to handle out of a key and the event that is already waiting behind
/// it: Esc with a `[` right behind it is the start of an escape sequence that
/// arrived in pieces, and both are dropped.
pub open spec fn keys_of(key: KeyEvent, next: Option<(KeyEvent, bool)>) -> Seq<KeyEvent> {
    match next {
        Some((other, is_press)) => if key.code == KeyCode::Esc && is_press && other.code
            == KeyCode::Char('[') {
            seq![]
        } else if is_press {
            seq![key, other]
        } else {
            seq![key]
        },
        None => seq![key],
    }
}

/// The keys to handle out of a key and the key event that is already waiting
/// behind it, which may be a press or not.
pub fn keys_to_handle(key: KeyEvent, next: Option<(KeyEvent, bool)>) -> (r: Vec<KeyEvent>)
    ensures
        r@ == keys_of(key, next),
{
    let mut keys: Vec<KeyEvent> = Vec::new();
    if let Some((other, is_press)) = next {
        if key.code == KeyCode::Esc && is_press && other.code == KeyCode::Char('[') {
            return keys;
        }
        keys.push(key);
        if is_press {
            keys.push(other);
        }
    } else {
        keys.push(key);
    }
    proof {
        assert(keys@ =~= keys_of(key, next));
    }
    keys
}

// ---------------------------------------------------------------------------
// The log of panics
// ---------------------------------------------------------------------------

/// The log entry for a panic.
pub open spec fn panic_entry(
    unix_secs: u64,
    thread: Seq<char>,
    location: Seq<char>,
    msg: Seq<char>,
) -> Seq<char> {
    ("[unix_ts="@ + decimal(unix_secs as nat) + "] thread '"@ + thread) + "' panicked at "@
        + location + ":\n"@ + msg + "\n\n"@
}

/// The log entry for a panic.
pub fn panic_log_entry(unix_secs: u64, thread: &str, location: &str, msg: &str) -> (r: String)
    ensures
        r@ == panic_entry(unix_secs, thread@, location@, msg@),
{
    let secs: String = number_text(unix_secs);
    let head: String = concat4("[unix_ts=", secs.as_str(), "] thread '", thread);
    let body: String = concat5(head.as_str(), "' panicked at ", location, ":\n", msg);
    concat2(body.as_str(), "\n\n")
}

} // verus!
