//! Typing at the prompt, and submitting what was typed.
use vstd::prelude::*;
#[allow(unused_imports)]
use vstd::string::*;

use crate::app::keyboard::key_pressed;
use crate::app::App;
use crate::events::UserAction;
use crate::input_state::{
    byte_pos, line_above, line_below, line_end, line_start, InputMode, PromptInputState,
};
use crate::keys::{KeyCode, KeyEvent};
use crate::laws::events::{adds_one, models_follow};
use crate::laws::interrupt::prompt_has_the_keyboard;
use crate::model::TranscriptBlock;

verus! {

// ---------------------------------------------------------------------------
// The cursor
// ---------------------------------------------------------------------------

/// The number of bytes that a text takes in UTF-8.
pub open spec fn utf8_len(s: Seq<char>) -> nat
    decreases s.len(),
{
    if s.len() == 0 {
        0
    } else {
        let c = s.last() as u32;
        utf8_len(s.drop_last()) + if c < 0x80 {
            1nat
        } else if c < 0x800 {
            2nat
        } else if c < 0x1_0000 {
            3nat
        } else {
            4nat
        }
    }
}

/// Whether the prompt holds `u` before the cursor and `v` behind it.
pub open spec fn splits(p: PromptInputState, u: Seq<char>, v: Seq<char>) -> bool {
    p.buffer@ == u + v && p.cursor == utf8_len(u)
}

proof fn position_is_a_length(s: Seq<char>, k: int)
    requires
        0 <= k <= s.len(),
    ensures
        byte_pos(s, k) == utf8_len(s.take(k)),
    decreases k,
{
    if k > 0 {
        position_is_a_length(s, k - 1);
        assert(s.take(k).drop_last() =~= s.take(k - 1));
    }
}

proof fn split_gives_the_index(p: PromptInputState, u: Seq<char>, v: Seq<char>)
    requires
        splits(p, u, v),
    ensures
        p.wf(),
        p.index() == u.len(),
{
    position_is_a_length(p.buffer@, u.len() as int);
    assert(p.buffer@.take(u.len() as int) =~= u);
    assert(p.is_at(u.len() as int));
    p.lemma_index(u.len() as int);
}

proof fn index_gives_the_split(p: PromptInputState, u: Seq<char>, v: Seq<char>)
    requires
        p.wf(),
        p.buffer@ == u + v,
        p.index() == u.len(),
    ensures
        splits(p, u, v),
{
    assert(p.is_at(p.index()));
    position_is_a_length(p.buffer@, u.len() as int);
    assert(p.buffer@.take(u.len() as int) =~= u);
}

/// A text that is put in at the cursor stands between what stood on its two sides.
pub proof fn paste_splits(
    p: PromptInputState,
    q: PromptInputState,
    text: Seq<char>,
    u: Seq<char>,
    v: Seq<char>,
)
    requires
        splits(p, u, v),
        q.wf(),
        q.buffer@ == p.buffer@.take(p.index()) + text + p.buffer@.skip(p.index()),
        q.index() == p.index() + text.len(),
    ensures
        splits(q, u + text, v),
{
    split_gives_the_index(p, u, v);
    assert(p.buffer@.take(u.len() as int) =~= u);
    assert(p.buffer@.skip(u.len() as int) =~= v);
    index_gives_the_split(q, u + text, v);
}

/// Whether a key is held down alone.
pub open spec fn is_plain_key(key: KeyEvent) -> bool {
    !key.modifiers.shift && !key.modifiers.control && !key.modifiers.alt
        && !key.modifiers.super_key && !key.modifiers.meta
}

/// Whether a text is being typed, in one of the modes that a submission can be
/// made in.
pub open spec fn is_open(a: App) -> bool {
    prompt_has_the_keyboard(a) && (a.prompt.mode == InputMode::Prompt || a.prompt.mode
        == InputMode::Bash || a.prompt.mode == InputMode::Note)
}

/// Whether nothing but the text and the cursor of the prompt changed.
pub open spec fn only_the_text_changed(a: App, b: App) -> bool {
    &&& b.prompt.mode == a.prompt.mode
    &&& b.prompt.history == a.prompt.history
    &&& b.prompt.history_idx == a.prompt.history_idx
    &&& b.blocks == a.blocks
    &&& b.turn == a.turn
    &&& b.modals == a.modals
    &&& b.should_quit == a.should_quit
}

/// A character goes where the cursor stands, and the cursor behind it. A marker
/// at the start of an empty prompt and an `@` have meanings of their own.
pub proof fn character_goes_to_the_cursor(
    a: App,
    c: char,
    key: KeyEvent,
    b: App,
    r: Option<UserAction>,
    u: Seq<char>,
    v: Seq<char>,
)
    requires
        key_pressed(a, key, b, r),
        is_open(a),
        key.code == KeyCode::Char(c),
        !key.modifiers.control,
        splits(a.prompt, u, v),
        a.prompt.mode == InputMode::Prompt ==> c != '@' && (u + v).len() > 0,
    ensures
        r is None,
        splits(b.prompt, u.push(c), v),
        only_the_text_changed(a, b),
{
    split_gives_the_index(a.prompt, u, v);
    assert(b.prompt.buffer@ =~= u.push(c) + v);
    index_gives_the_split(b.prompt, u.push(c), v);
}

/// Backspace takes away the character before the cursor, and Delete the one
/// behind it.
pub proof fn characters_are_deleted(
    a: App,
    key: KeyEvent,
    b: App,
    r: Option<UserAction>,
    u: Seq<char>,
    v: Seq<char>,
)
    requires
        key_pressed(a, key, b, r),
        is_open(a),
        splits(a.prompt, u, v),
        (u + v).len() > 0,
        key.code == KeyCode::Backspace || key.code == KeyCode::Delete,
    ensures
        r is None,
        only_the_text_changed(a, b),
        key.code == KeyCode::Backspace && u.len() > 0 ==> splits(b.prompt, u.drop_last(), v),
        key.code == KeyCode::Backspace && u.len() == 0 ==> b.prompt == a.prompt,
        key.code == KeyCode::Delete && v.len() > 0 ==> splits(b.prompt, u, v.skip(1)),
        key.code == KeyCode::Delete && v.len() == 0 ==> b.prompt == a.prompt,
{
    split_gives_the_index(a.prompt, u, v);
    if key.code == KeyCode::Backspace && u.len() > 0 {
        assert(b.prompt.buffer@ =~= u.drop_last() + v);
        index_gives_the_split(b.prompt, u.drop_last(), v);
    }
    if key.code == KeyCode::Delete && v.len() > 0 {
        assert(b.prompt.buffer@ =~= u + v.skip(1));
        index_gives_the_split(b.prompt, u, v.skip(1));
    }
}

/// Left and Right move the cursor by one character, and the text stays.
pub proof fn cursor_moves_by_one(
    a: App,
    key: KeyEvent,
    b: App,
    r: Option<UserAction>,
    u: Seq<char>,
    v: Seq<char>,
)
    requires
        key_pressed(a, key, b, r),
        is_open(a),
        splits(a.prompt, u, v),
        key.code == KeyCode::Left || key.code == KeyCode::Right,
    ensures
        r is None,
        only_the_text_changed(a, b),
        b.prompt.buffer@ == a.prompt.buffer@,
        key.code == KeyCode::Left && u.len() > 0 ==> splits(
            b.prompt,
            u.drop_last(),
            seq![u.last()] + v,
        ),
        key.code == KeyCode::Left && u.len() == 0 ==> splits(b.prompt, u, v),
        key.code == KeyCode::Right && v.len() > 0 ==> splits(b.prompt, u.push(v[0]), v.skip(1)),
        key.code == KeyCode::Right && v.len() == 0 ==> splits(b.prompt, u, v),
{
    split_gives_the_index(a.prompt, u, v);
    if key.code == KeyCode::Left {
        if u.len() > 0 {
            assert(u + v =~= u.drop_last() + (seq![u.last()] + v));
            index_gives_the_split(b.prompt, u.drop_last(), seq![u.last()] + v);
        } else {
            index_gives_the_split(b.prompt, u, v);
        }
    } else {
        if v.len() > 0 {
            assert(u + v =~= u.push(v[0]) + v.skip(1));
            index_gives_the_split(b.prompt, u.push(v[0]), v.skip(1));
        } else {
            index_gives_the_split(b.prompt, u, v);
        }
    }
}

/// Whether `line` is the part of `u` behind its last line feed, and `rest` what
/// stands before it.
pub open spec fn ends_in_line(u: Seq<char>, rest: Seq<char>, line: Seq<char>) -> bool {
    &&& u == rest + line
    &&& !line.contains('\n')
    &&& rest.len() == 0 || rest.last() == '\n'
}

/// Whether `line` is the part of `v` before its first line feed, and `rest` what
/// stands behind it.
pub open spec fn begins_in_line(v: Seq<char>, line: Seq<char>, rest: Seq<char>) -> bool {
    &&& v == line + rest
    &&& !line.contains('\n')
    &&& rest.len() == 0 || rest[0] == '\n'
}

proof fn start_of_line_is_found(s: Seq<char>, rest: Seq<char>, line: Seq<char>, k: int, i: int)
    requires
        0 <= i <= k <= s.len(),
        rest.len() <= i,
        k == rest.len() + line.len(),
        s.take(k) == rest + line,
        !line.contains('\n'),
        rest.len() == 0 || rest.last() == '\n',
    ensures
        line_start(s, i) == rest.len(),
    decreases i,
{
    let u = s.take(k);
    if i > rest.len() {
        assert(s[i - 1] == u[i - 1]);
        assert(u[i - 1] == line[i - 1 - rest.len()]);
        start_of_line_is_found(s, rest, line, k, i - 1);
    } else if i > 0 {
        assert(s[i - 1] == u[i - 1]);
        assert(u[i - 1] == rest[i - 1]);
    }
}

proof fn end_of_line_is_found(s: Seq<char>, line: Seq<char>, rest: Seq<char>, k: int, i: int)
    requires
        0 <= k <= i <= k + line.len(),
        k <= s.len(),
        s.skip(k) == line + rest,
        !line.contains('\n'),
        rest.len() == 0 || rest[0] == '\n',
    ensures
        line_end(s, i) == k + line.len(),
    decreases k + line.len() - i,
{
    let v = s.skip(k);
    assert(v.len() == s.len() - k);
    assert(v.len() == line.len() + rest.len());
    if i < k + line.len() {
        assert(s[i] == v[i - k]);
        assert(v[i - k] == line[i - k]);
        end_of_line_is_found(s, line, rest, k, i + 1);
    } else if i < s.len() {
        assert(s[i] == v[i - k]);
        assert(v[i - k] == rest[0]);
    }
}

proof fn home_and_end_move_the_cursor(a: App, key: KeyEvent, b: App, r: Option<UserAction>)
    requires
        key_pressed(a, key, b, r),
        is_open(a),
        key.code == KeyCode::Home || key.code == KeyCode::End,
    ensures
        r is None,
        only_the_text_changed(a, b),
        b.prompt.buffer == a.prompt.buffer,
        b.prompt.wf(),
        b.prompt.index() == if key.code == KeyCode::Home {
            line_start(a.prompt.buffer@, a.prompt.index())
        } else {
            line_end(a.prompt.buffer@, a.prompt.index())
        },
{
}

/// Home goes to the start of the line that the cursor is in, and End to its end.
pub proof fn cursor_goes_to_the_ends_of_the_line(
    a: App,
    key: KeyEvent,
    b: App,
    r: Option<UserAction>,
    before: Seq<char>,
    left: Seq<char>,
    right: Seq<char>,
    after: Seq<char>,
)
    requires
        key_pressed(a, key, b, r),
        is_open(a),
        splits(a.prompt, before + left, right + after),
        ends_in_line(before + left, before, left),
        begins_in_line(right + after, right, after),
        key.code == KeyCode::Home || key.code == KeyCode::End,
    ensures
        r is None,
        only_the_text_changed(a, b),
        key.code == KeyCode::Home ==> splits(b.prompt, before, left + right + after),
        key.code == KeyCode::End ==> splits(b.prompt, before + left + right, after),
{
    home_and_end_move_the_cursor(a, key, b, r);
    lines_are_found(a.prompt, b.prompt, key.code == KeyCode::Home, before, left, right, after);
}

proof fn lines_are_found(
    p: PromptInputState,
    q: PromptInputState,
    home: bool,
    before: Seq<char>,
    left: Seq<char>,
    right: Seq<char>,
    after: Seq<char>,
)
    requires
        splits(p, before + left, right + after),
        ends_in_line(before + left, before, left),
        begins_in_line(right + after, right, after),
        q.buffer == p.buffer,
        q.wf(),
        q.index() == if home {
            line_start(p.buffer@, p.index())
        } else {
            line_end(p.buffer@, p.index())
        },
    ensures
        home ==> splits(q, before, left + right + after),
        !home ==> splits(q, before + left + right, after),
{
    let u = before + left;
    let v = right + after;
    let s = p.buffer@;
    let k = u.len() as int;
    split_gives_the_index(p, u, v);
    assert(s.take(k) =~= u);
    assert(s.skip(k) =~= v);
    start_of_line_is_found(s, before, left, k, k);
    end_of_line_is_found(s, right, after, k, k);
    if home {
        assert(s =~= before + (left + right + after));
        index_gives_the_split(q, before, left + right + after);
    } else {
        assert(s =~= (before + left + right) + after);
        index_gives_the_split(q, before + left + right, after);
    }
}

/// Ctrl+A, Ctrl+B and Ctrl+F do what Home, Left and Right do, and so does Ctrl+E
/// what End does, while something is typed.
pub proof fn control_keys_move_alike(
    a: App,
    key: KeyEvent,
    other: KeyEvent,
    b: App,
    r: Option<UserAction>,
    c: App,
    s: Option<UserAction>,
)
    requires
        key_pressed(a, key, b, r),
        key_pressed(a, other, c, s),
        is_open(a),
        a.wf(),
        a.prompt.buffer@.len() > 0,
        key.modifiers.control,
        key.code == KeyCode::Char('a') && other.code == KeyCode::Home || key.code
            == KeyCode::Char('b') && other.code == KeyCode::Left || key.code == KeyCode::Char('f')
            && other.code == KeyCode::Right || key.code == KeyCode::Char('e') && other.code
            == KeyCode::End,
    ensures
        r is None,
        s is None,
        b.prompt.cursor == c.prompt.cursor,
        b.prompt.buffer@ == c.prompt.buffer@,
{
    assert(b.prompt.is_at(b.prompt.index()));
    assert(c.prompt.is_at(c.prompt.index()));
}

proof fn control_p_and_n_move_the_cursor(a: App, key: KeyEvent, b: App, r: Option<UserAction>)
    requires
        key_pressed(a, key, b, r),
        is_open(a),
        key.modifiers.control,
        key.code == KeyCode::Char('p') || key.code == KeyCode::Char('n'),
    ensures
        r is None,
        only_the_text_changed(a, b),
        b.prompt.buffer == a.prompt.buffer,
        b.prompt.wf(),
        b.prompt.index() == if key.code == KeyCode::Char('p') {
            line_above(a.prompt.buffer@, a.prompt.index())
        } else {
            line_below(a.prompt.buffer@, a.prompt.index())
        },
{
}

proof fn neighbours_are_found(
    p: PromptInputState,
    q: PromptInputState,
    above: bool,
    before: Seq<char>,
    upper: Seq<char>,
    left: Seq<char>,
    right: Seq<char>,
    lower: Seq<char>,
    after: Seq<char>,
)
    requires
        splits(p, before + upper + seq!['\n'] + left, right + seq!['\n'] + lower + after),
        before.len() == 0 || before.last() == '\n',
        after.len() == 0 || after[0] == '\n',
        !upper.contains('\n'),
        !left.contains('\n'),
        !right.contains('\n'),
        !lower.contains('\n'),
        q.buffer == p.buffer,
        q.wf(),
        q.index() == if above {
            line_above(p.buffer@, p.index())
        } else {
            line_below(p.buffer@, p.index())
        },
    ensures
        above ==> q.cursor == utf8_len(
            before + upper.take(
                if left.len() <= upper.len() {
                    left.len() as int
                } else {
                    upper.len() as int
                },
            ),
        ),
        !above ==> q.cursor == utf8_len(
            before + upper + seq!['\n'] + left + right + seq!['\n'] + lower.take(
                if left.len() <= lower.len() {
                    left.len() as int
                } else {
                    lower.len() as int
                },
            ),
        ),
{
    let v = right + seq!['\n'] + lower + after;
    if above {
        place_above_is_found(p, q, before, upper, left, v);
    } else {
        let head = before + upper + seq!['\n'];
        assert(head.last() == '\n');
        place_below_is_found(p, q, head, left, right, lower, after);
    }
}

proof fn place_above_is_found(
    p: PromptInputState,
    q: PromptInputState,
    before: Seq<char>,
    upper: Seq<char>,
    left: Seq<char>,
    v: Seq<char>,
)
    requires
        splits(p, before + upper + seq!['\n'] + left, v),
        before.len() == 0 || before.last() == '\n',
        !upper.contains('\n'),
        !left.contains('\n'),
        q.buffer == p.buffer,
        q.wf(),
        q.index() == line_above(p.buffer@, p.index()),
    ensures
        q.cursor == utf8_len(
            before + upper.take(
                if left.len() <= upper.len() {
                    left.len() as int
                } else {
                    upper.len() as int
                },
            ),
        ),
{
    let n: int = if left.len() <= upper.len() {
        left.len() as int
    } else {
        upper.len() as int
    };
    let u = before + upper + seq!['\n'] + left;
    let s = u + v;
    split_gives_the_index(p, u, v);
    line_above_is_found(s, before, upper, left, v);
    let rest = upper.skip(n) + (seq!['\n'] + left + v);
    assert(s == (before + upper.take(n)) + rest) by {
        parts_are_regrouped(before, upper.take(n), upper.skip(n), seq!['\n'] + left + v);
        assert(upper =~= upper.take(n) + upper.skip(n));
        assert(s =~= before + upper + (seq!['\n'] + left + v));
    }
    index_gives_the_split(q, before + upper.take(n), rest);
}

proof fn place_below_is_found(
    p: PromptInputState,
    q: PromptInputState,
    head: Seq<char>,
    left: Seq<char>,
    right: Seq<char>,
    lower: Seq<char>,
    after: Seq<char>,
)
    requires
        splits(p, head + left, right + seq!['\n'] + lower + after),
        head.len() == 0 || head.last() == '\n',
        after.len() == 0 || after[0] == '\n',
        !left.contains('\n'),
        !right.contains('\n'),
        !lower.contains('\n'),
        q.buffer == p.buffer,
        q.wf(),
        q.index() == line_below(p.buffer@, p.index()),
    ensures
        q.cursor == utf8_len(
            head + left + right + seq!['\n'] + lower.take(
                if left.len() <= lower.len() {
                    left.len() as int
                } else {
                    lower.len() as int
                },
            ),
        ),
{
    let n: int = if left.len() <= lower.len() {
        left.len() as int
    } else {
        lower.len() as int
    };
    let u = head + left;
    let v = right + seq!['\n'] + lower + after;
    let s = u + v;
    split_gives_the_index(p, u, v);
    assert(v =~= right + (seq!['\n'] + lower + after));
    line_below_is_found(s, head, left, right, lower, after);
    let front = head + left + right + seq!['\n'];
    let rest = lower.skip(n) + after;
    assert(s == (front + lower.take(n)) + rest) by {
        parts_are_regrouped(front, lower.take(n), lower.skip(n), after);
        assert(lower =~= lower.take(n) + lower.skip(n));
        assert(s =~= front + lower + after);
    }
    index_gives_the_split(q, front + lower.take(n), rest);
}

proof fn parts_are_regrouped(a: Seq<char>, b: Seq<char>, c: Seq<char>, d: Seq<char>)
    ensures
        a + (b + c) + d == (a + b) + (c + d),
{
    assert(a + (b + c) + d =~= (a + b) + (c + d));
}

proof fn line_above_is_found(
    s: Seq<char>,
    before: Seq<char>,
    upper: Seq<char>,
    left: Seq<char>,
    v: Seq<char>,
)
    requires
        s == before + upper + seq!['\n'] + left + v,
        before.len() == 0 || before.last() == '\n',
        !upper.contains('\n'),
        !left.contains('\n'),
    ensures
        line_above(s, (before.len() + upper.len() + 1 + left.len()) as int) == before.len()
            + if left.len() <= upper.len() {
            left.len()
        } else {
            upper.len()
        },
{
    let head = before + upper + seq!['\n'];
    let k = (head.len() + left.len()) as int;
    assert(s.take(k) =~= head + left);
    start_of_line_is_found(s, head, left, k, k);
    let at = (before.len() + upper.len()) as int;
    assert(s.take(at) =~= before + upper);
    start_of_line_is_found(s, before, upper, at, at);
}

proof fn line_below_is_found(
    s: Seq<char>,
    head: Seq<char>,
    left: Seq<char>,
    right: Seq<char>,
    lower: Seq<char>,
    after: Seq<char>,
)
    requires
        s == head + left + (right + (seq!['\n'] + lower + after)),
        head.len() == 0 || head.last() == '\n',
        after.len() == 0 || after[0] == '\n',
        !left.contains('\n'),
        !right.contains('\n'),
        !lower.contains('\n'),
    ensures
        line_below(s, (head.len() + left.len()) as int) == head.len() + left.len() + right.len() + 1
            + if left.len() <= lower.len() {
            left.len()
        } else {
            lower.len()
        },
{
    let tail = seq!['\n'] + lower + after;
    let k = (head.len() + left.len()) as int;
    assert(s.take(k) =~= head + left);
    start_of_line_is_found(s, head, left, k, k);
    assert(s.skip(k) =~= right + tail);
    assert(tail[0] == '\n');
    end_of_line_is_found(s, right, tail, k, k);
    let below = (k + right.len() + 1) as int;
    assert(s.skip(below) =~= lower + after);
    end_of_line_is_found(s, lower, after, below, below);
}

/// Ctrl+P goes to the line above and Ctrl+N to the line below, in the same column
/// as far as that line reaches.
pub proof fn cursor_goes_from_line_to_line(
    a: App,
    key: KeyEvent,
    b: App,
    r: Option<UserAction>,
    before: Seq<char>,
    upper: Seq<char>,
    left: Seq<char>,
    right: Seq<char>,
    lower: Seq<char>,
    after: Seq<char>,
)
    requires
        key_pressed(a, key, b, r),
        is_open(a),
        key.modifiers.control,
        key.code == KeyCode::Char('p') || key.code == KeyCode::Char('n'),
        splits(
            a.prompt,
            before + upper + seq!['\n'] + left,
            right + seq!['\n'] + lower + after,
        ),
        before.len() == 0 || before.last() == '\n',
        after.len() == 0 || after[0] == '\n',
        !upper.contains('\n'),
        !left.contains('\n'),
        !right.contains('\n'),
        !lower.contains('\n'),
    ensures
        r is None,
        only_the_text_changed(a, b),
        b.prompt.buffer@ == a.prompt.buffer@,
        key.code == KeyCode::Char('p') ==> b.prompt.cursor == utf8_len(
            before + upper.take(
                if left.len() <= upper.len() {
                    left.len() as int
                } else {
                    upper.len() as int
                },
            ),
        ),
        key.code == KeyCode::Char('n') ==> b.prompt.cursor == utf8_len(
            before + upper + seq!['\n'] + left + right + seq!['\n'] + lower.take(
                if left.len() <= lower.len() {
                    left.len() as int
                } else {
                    lower.len() as int
                },
            ),
        ),
{
    control_p_and_n_move_the_cursor(a, key, b, r);
    neighbours_are_found(
        a.prompt,
        b.prompt,
        key.code == KeyCode::Char('p'),
        before,
        upper,
        left,
        right,
        lower,
        after,
    );
}

/// Ctrl+J, and Enter together with any modifier key, break the line and submit
/// nothing.
pub proof fn line_is_broken(
    a: App,
    key: KeyEvent,
    b: App,
    r: Option<UserAction>,
    u: Seq<char>,
    v: Seq<char>,
)
    requires
        key_pressed(a, key, b, r),
        is_open(a),
        splits(a.prompt, u, v),
        key.modifiers.control && key.code == KeyCode::Char('j') || key.code == KeyCode::Enter
            && !is_plain_key(key),
    ensures
        r is None,
        splits(b.prompt, u.push('\n'), v),
        only_the_text_changed(a, b),
{
    split_gives_the_index(a.prompt, u, v);
    assert(b.prompt.buffer@ =~= u.push('\n') + v);
    index_gives_the_split(b.prompt, u.push('\n'), v);
}

// ---------------------------------------------------------------------------
// Modes
// ---------------------------------------------------------------------------

/// A marker at the start of an empty prompt switches the mode and is not part of
/// the text; Backspace in the empty prompt switches back.
pub proof fn markers_switch_the_mode(
    a: App,
    key: KeyEvent,
    b: App,
    r: Option<UserAction>,
    back: KeyEvent,
    c: App,
    s: Option<UserAction>,
)
    requires
        key_pressed(a, key, b, r),
        prompt_has_the_keyboard(a),
        a.prompt.mode == InputMode::Prompt,
        a.prompt.buffer@.len() == 0,
        !key.modifiers.control,
        key.code == KeyCode::Char('!') || key.code == KeyCode::Char('#') || key.code
            == KeyCode::Char('/'),
        key_pressed(b, back, c, s),
        back.code == KeyCode::Backspace,
    ensures
        r is None,
        b.prompt.buffer@.len() == 0,
        key.code == KeyCode::Char('!') ==> b.prompt.mode == InputMode::Bash,
        key.code == KeyCode::Char('#') ==> b.prompt.mode == InputMode::Note,
        key.code == KeyCode::Char('/') ==> b.prompt.mode == InputMode::Command,
        b.blocks == a.blocks,
        s is None,
        c.prompt.mode == InputMode::Prompt,
        c.prompt.buffer@.len() == 0,
{
}

/// A slash at the start of an empty prompt takes over the skills that were loaded since
/// the last one, once, and leaves the built-in commands; no other character does.
pub proof fn slash_takes_over_the_skills(
    a: App,
    key: KeyEvent,
    c: char,
    b: App,
    r: Option<UserAction>,
)
    requires
        key_pressed(a, key, b, r),
        prompt_has_the_keyboard(a),
        a.prompt.mode == InputMode::Prompt,
        a.prompt.buffer@.len() == 0,
        !key.modifiers.control,
        key.code == KeyCode::Char(c),
    ensures
        c == '/' ==> b.around.skills is None && (a.around.skills matches Some(skills)
            ==> b.commands.skills() == skills@) && (a.around.skills is None ==> b.commands.skills()
            == a.commands.skills()),
        b.commands.builtins() == a.commands.builtins(),
        c != '/' ==> b.commands == a.commands && b.around.skills == a.around.skills,
{
}

/// Shift+Tab leads from the ordinary mode to shell commands, to notes and back,
/// and keeps the text.
pub proof fn modes_are_cycled(a: App, key: KeyEvent, b: App, r: Option<UserAction>)
    requires
        key_pressed(a, key, b, r),
        prompt_has_the_keyboard(a),
        key.code == KeyCode::BackTab,
        a.prompt.mode != InputMode::CommandInteract,
    ensures
        r is None,
        b.prompt.buffer == a.prompt.buffer,
        b.prompt.cursor == a.prompt.cursor,
        a.prompt.mode == InputMode::Prompt ==> b.prompt.mode == InputMode::Bash,
        a.prompt.mode == InputMode::Bash ==> b.prompt.mode == InputMode::Note,
        a.prompt.mode != InputMode::Prompt && a.prompt.mode != InputMode::Bash ==> b.prompt.mode
            == InputMode::Prompt,
{
}

// ---------------------------------------------------------------------------
// Submitting
// ---------------------------------------------------------------------------

/// Whether the prompt is empty again, and the history has `entry` as its newest
/// entry, behind what it had before as far as a hundred entries reach.
pub open spec fn is_recorded(a: App, entry: Seq<char>, b: App) -> bool {
    let h = a.prompt.history@;
    let k = b.prompt.history@;
    &&& b.prompt.buffer@.len() == 0
    &&& b.prompt.cursor == 0
    &&& b.prompt.mode == InputMode::Prompt
    &&& b.prompt.history_idx is None
    &&& k.len() == if h.len() < 100 {
        h.len() + 1
    } else {
        100
    }
    &&& k.last()@ == entry
    &&& forall|i: int| 0 <= i < k.len() - 1 ==> #[trigger] k[i] == h[h.len() - (k.len() - 1) + i]
}

/// Enter sends what was typed: a message to the agent, a command to the shell, and
/// a note to nobody. It is shown, kept in the history with its marker, and the
/// prompt is empty again.
pub proof fn enter_submits_the_text(a: App, key: KeyEvent, b: App, r: Option<UserAction>)
    requires
        key_pressed(a, key, b, r),
        is_open(a),
        key.code == KeyCode::Enter,
        is_plain_key(key),
        a.prompt.buffer@.len() > 0,
        a.prompt.history@.len() <= 100,
    ensures
        adds_one(a, b),
        b.scroll_offset == 0,
        a.prompt.mode == InputMode::Prompt ==> (r matches Some(UserAction::SendMessage(t)) && t@
            == a.prompt.buffer@) && (b.blocks@.last() matches TranscriptBlock::User { text }
            && text@ == a.prompt.buffer@) && b.turn.running && (a.turn_count < u64::MAX
            ==> b.turn_count == a.turn_count + 1) && is_recorded(a, a.prompt.buffer@, b),
        a.prompt.mode == InputMode::Bash ==> (r matches Some(UserAction::RunShell(t)) && t@
            == a.prompt.buffer@) && (b.blocks@.last() matches TranscriptBlock::User { text }
            && text@ == "!"@ + a.prompt.buffer@) && b.turn == a.turn && b.turn_count == a.turn_count
            && is_recorded(
            a,
            "!"@ + a.prompt.buffer@,
            b,
        ),
        a.prompt.mode == InputMode::Note ==> r is None && (
        b.blocks@.last() matches TranscriptBlock::System { text } && text@ == "# "@
            + a.prompt.buffer@) && b.turn == a.turn && is_recorded(
            a,
            "#"@ + a.prompt.buffer@,
            b,
        ),
{
    models_follow(a);
    models_follow(b);
    assert(b.transcript().last() == b.blocks@.last()@);
    reveal_strlit("");
    assert(""@ + a.prompt.buffer@ =~= a.prompt.buffer@);
}

/// Enter at an empty prompt does nothing.
pub proof fn enter_at_an_empty_prompt_does_nothing(
    a: App,
    key: KeyEvent,
    b: App,
    r: Option<UserAction>,
)
    requires
        key_pressed(a, key, b, r),
        is_open(a),
        key.code == KeyCode::Enter,
        is_plain_key(key),
        a.prompt.buffer@.len() == 0,
    ensures
        r is None,
        b == a,
{
}

// ---------------------------------------------------------------------------
// The transcript
// ---------------------------------------------------------------------------

/// The page keys scroll the transcript by twenty rows, and the arrows together
/// with Shift by three; the prompt stays.
pub proof fn transcript_is_scrolled(a: App, key: KeyEvent, b: App, r: Option<UserAction>)
    requires
        key_pressed(a, key, b, r),
        is_open(a),
        a.scroll_offset + 20 <= u16::MAX,
    ensures
        key.code == KeyCode::PageUp ==> b.scroll_offset == a.scroll_offset + 20,
        key.code == KeyCode::PageDown ==> b.scroll_offset == if a.scroll_offset >= 20 {
            a.scroll_offset - 20
        } else {
            0
        },
        key.code == KeyCode::Up && key.modifiers.shift ==> b.scroll_offset == a.scroll_offset + 3,
        key.code == KeyCode::Down && key.modifiers.shift ==> b.scroll_offset
            == if a.scroll_offset >= 3 {
            a.scroll_offset - 3
        } else {
            0
        },
        key.code == KeyCode::PageUp || key.code == KeyCode::PageDown || (key.code == KeyCode::Up
            || key.code == KeyCode::Down) && key.modifiers.shift ==> r is None && b.prompt
            == a.prompt && b.blocks == a.blocks,
{
}

/// Whether a block is a tool call with a result.
pub open spec fn is_finished_call(b: TranscriptBlock) -> bool {
    b matches TranscriptBlock::ToolCall { result, .. } && result is Some
}

/// Ctrl+E at an empty prompt unfolds the result of the latest finished tool call,
/// or folds it again, and changes nothing else.
pub proof fn latest_result_is_unfolded(
    a: App,
    key: KeyEvent,
    b: App,
    r: Option<UserAction>,
    i: int,
)
    requires
        key_pressed(a, key, b, r),
        prompt_has_the_keyboard(a),
        a.prompt.mode != InputMode::CommandInteract,
        key.modifiers.control,
        key.code == KeyCode::Char('e'),
        a.prompt.buffer@.len() == 0,
        0 <= i < a.blocks@.len(),
        is_finished_call(a.blocks@[i]),
        forall|j: int| i < j < a.blocks@.len() ==> !is_finished_call(#[trigger] a.blocks@[j]),
    ensures
        r is None,
        b.blocks@.len() == a.blocks@.len(),
        forall|j: int|
            0 <= j < a.blocks@.len() && j != i ==> (#[trigger] b.blocks@[j])@ == a.blocks@[j]@,
        match (a.blocks@[i], b.blocks@[i]) {
            (
                TranscriptBlock::ToolCall { id, result: Some(x), .. },
                TranscriptBlock::ToolCall { id: id2, result: Some(y), .. },
            ) => id2@ == id@ && y.expanded == !x.expanded && y.success == x.success && y.output@
                == x.output@,
            _ => false,
        },
        b.prompt == a.prompt,
{
    models_follow(a);
    models_follow(b);
    let wanted = |b: crate::model::BlockModel| crate::transcript::is_expandable(b);
    let bs = a.transcript();
    crate::transcript::last_block_is_last(bs, wanted);
    let at = crate::transcript::last_block(bs, wanted);
    assert(bs[i] == a.blocks@[i]@);
    assert(wanted(bs[i]));
    if at > i {
        assert(bs[at] == a.blocks@[at]@);
        assert(wanted(bs[at]));
        assert(is_finished_call(a.blocks@[at]));
    }
    assert(at == i);
}

} // verus!
