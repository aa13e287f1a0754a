//! The mouse, pasted text and keys that arrive together.
use vstd::prelude::*;
#[allow(unused_imports)]
use vstd::string::*;

use crate::app::App;
use crate::keys::{KeyCode, KeyEvent, MouseEvent, MouseEventKind};
use crate::laws::prompt::{paste_splits, splits};
use crate::style::{line_content, span_models, Line};
use crate::terminal::{keys_of, mouse_used, pasted};
use crate::text::joined;

verus! {

/// Pasted text goes to the cursor, as it is, and the cursor behind it. Whatever it
/// holds, the prompt's mode stays and nothing is submitted.
pub proof fn pasted_text_goes_to_the_cursor(
    a: App,
    text: Seq<char>,
    b: App,
    u: Seq<char>,
    v: Seq<char>,
)
    requires
        pasted(a, text, b),
        splits(a.prompt, u, v),
        b.wf(),
    ensures
        splits(b.prompt, u + text, v),
        b.prompt.mode == a.prompt.mode,
        b.prompt.history == a.prompt.history,
        b.blocks == a.blocks,
{
    paste_splits(a.prompt, b.prompt, text, u, v);
}

/// The wheel scrolls the transcript: up to what was said before, and down to the
/// end, three lines at a time.
pub proof fn wheel_scrolls_the_transcript(a: App, ev: MouseEvent, rows: Seq<Line>, b: App)
    requires
        mouse_used(a, ev, rows, b),
        a.scroll_offset < 60000,
    ensures
        ev.kind == MouseEventKind::ScrollUp ==> b.scroll_offset == a.scroll_offset + 3,
        ev.kind == MouseEventKind::ScrollDown ==> b.scroll_offset == if a.scroll_offset >= 3 {
            a.scroll_offset - 3
        } else {
            0
        },
        ev.kind != MouseEventKind::ScrollUp && ev.kind != MouseEventKind::ScrollDown
            ==> b.scroll_offset == a.scroll_offset,
        b.prompt == a.prompt,
        b.blocks == a.blocks,
{
}

/// The row that the button went down on and the row that the mouse was dragged to
/// are the ends of the selection, in whichever direction it was dragged, and
/// releasing the button copies the rows from the one to the other.
pub proof fn dragged_rows_are_copied(
    a: App,
    down: MouseEvent,
    b: App,
    drag: MouseEvent,
    c: App,
    up: MouseEvent,
    d: App,
    rows: Seq<Line>,
    lo: u16,
    hi: u16,
)
    requires
        down.kind == MouseEventKind::LeftDown,
        drag.kind == MouseEventKind::LeftDrag,
        up.kind == MouseEventKind::LeftUp,
        mouse_used(a, down, rows, b),
        mouse_used(b, drag, rows, c),
        mouse_used(c, up, rows, d),
        down.row == lo && drag.row == hi || down.row == hi && drag.row == lo,
        lo <= hi,
        hi < rows.len(),
    ensures
        c.selection == Some((lo as usize, hi as usize)),
        d.selection is None,
        d.last_copied matches Some(t) && t@ == joined(
            Seq::new(
                (hi - lo + 1) as nat,
                |i: int| line_content(span_models(rows[lo + i].spans@)),
            ),
            "\n"@,
        ),
        d.blocks == a.blocks,
        d.prompt == a.prompt,
{
    let texts = rows.subrange(lo as int, hi + 1).map_values(
        |l: Line| line_content(span_models(l.spans@)),
    );
    assert(texts =~= Seq::new(
        (hi - lo + 1) as nat,
        |i: int| line_content(span_models(rows[lo + i].spans@)),
    ));
}

/// A click without a drag copies the row that it was made on.
pub proof fn clicked_row_is_copied(
    a: App,
    down: MouseEvent,
    b: App,
    up: MouseEvent,
    d: App,
    rows: Seq<Line>,
)
    requires
        down.kind == MouseEventKind::LeftDown,
        up.kind == MouseEventKind::LeftUp,
        mouse_used(a, down, rows, b),
        mouse_used(b, up, rows, d),
        down.row < rows.len(),
    ensures
        d.last_copied matches Some(t) && t@ == line_content(
            span_models(rows[down.row as int].spans@),
        ),
{
    let k = down.row as int;
    let texts = rows.subrange(k, k + 1).map_values(
        |l: Line| line_content(span_models(l.spans@)),
    );
    assert(texts.len() == 1);
    assert(texts[0] == line_content(span_models(rows[k].spans@)));
}

/// No key is lost but the start of an escape sequence that came in pieces, and no
/// key but a press is handled behind another one.
pub proof fn keys_are_handled_in_order(key: KeyEvent, next: Option<(KeyEvent, bool)>)
    ensures
        next is None ==> keys_of(key, next) == seq![key],
        next matches Some((other, pressed)) ==> (!pressed ==> keys_of(key, next) == seq![key]) && (
        pressed && !(key.code == KeyCode::Esc && other.code == KeyCode::Char('[')) ==> keys_of(
            key,
            next,
        ) == seq![key, other]) && (pressed && key.code == KeyCode::Esc && other.code
            == KeyCode::Char('[') ==> keys_of(key, next).len() == 0),
{
}

} // verus!
