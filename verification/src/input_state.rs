//! The prompt: its text, its cursor, its mode and its history.
use vstd::prelude::*;
#[allow(unused_imports)]
use vstd::string::*;
use vstd::utf8::encode_utf8;

use crate::text::{chars_of, find_char, next_char, text_between};

verus! {

/// The most submissions that the history keeps.
pub const HISTORY_CAPACITY: usize = 100;

/// What the prompt's text will be taken for.
#[derive(Clone, Copy, Debug, PartialEq, Eq, Structural)]
pub enum InputMode {
    /// A message to the agent.
    Prompt,
    /// A shell command.
    Bash,
    /// A note that stays in the interface.
    Note,
    /// A slash command.
    Command,
    /// A message, while a file name is being completed.
    AtFile,
    /// A query into the history.
    HistorySearch,
    /// Nothing: an interactive panel has the keyboard.
    CommandInteract,
}

/// The mode that follows `m` in the cycle of modes.
pub open spec fn next_mode(m: InputMode) -> InputMode {
    match m {
        InputMode::Prompt => InputMode::Bash,
        InputMode::Bash => InputMode::Note,
        _ => InputMode::Prompt,
    }
}

/// The marker that a submission in mode `m` carries in the history.
pub open spec fn mode_prefix(m: InputMode) -> Seq<char> {
    match m {
        InputMode::Bash => "!"@,
        InputMode::Note => "#"@,
        InputMode::Command => "/"@,
        _ => ""@,
    }
}

/// The mode that the marker of a history entry stands for.
pub open spec fn entry_mode(entry: Seq<char>) -> InputMode {
    if entry.len() > 0 && entry[0] == '!' {
        InputMode::Bash
    } else if entry.len() > 0 && entry[0] == '#' {
        InputMode::Note
    } else if entry.len() > 0 && entry[0] == '/' {
        InputMode::Command
    } else {
        InputMode::Prompt
    }
}

/// A history entry without its marker.
pub open spec fn entry_text(entry: Seq<char>) -> Seq<char> {
    if entry_mode(entry) == InputMode::Prompt {
        entry
    } else {
        entry.skip(1)
    }
}

impl InputMode {
    /// The mode that follows in the cycle of modes.
    pub fn cycle_next(&self) -> (r: InputMode)
        ensures
            r == next_mode(*self),
    {
        match self {
            InputMode::Prompt => InputMode::Bash,
            InputMode::Bash => InputMode::Note,
            _ => InputMode::Prompt,
        }
    }

    /// The marker that a submission in this mode carries in the history.
    pub fn history_prefix(&self) -> (r: &'static str)
        ensures
            r@ == mode_prefix(*self),
    {
        match self {
            InputMode::Bash => "!",
            InputMode::Note => "#",
            InputMode::Command => "/",
            _ => "",
        }
    }
}

/// Splits a history entry into its mode and its text.
pub fn strip_history_prefix(entry: &str) -> (r: (InputMode, &str))
    ensures
        r.0 == entry_mode(entry@),
        r.1@ == entry_text(entry@),
{
    let n: usize = entry.unicode_len();
    if n == 0 {
        return (InputMode::Prompt, entry);
    }
    let c: char = entry.get_char(0);
    proof {
        assert(entry@.subrange(1, n as int) == entry@.skip(1));
    }
    if c == '!' {
        (InputMode::Bash, entry.substring_char(1, n))
    } else if c == '#' {
        (InputMode::Note, entry.substring_char(1, n))
    } else if c == '/' {
        (InputMode::Command, entry.substring_char(1, n))
    } else {
        (InputMode::Prompt, entry)
    }
}

/// What a mode's marker is written for can be read back: stripping the marked
/// text gives the mode and the text again, for every mode that has a marker.
/// Without a marker the text must not start with one.
pub proof fn history_prefix_is_stripped(m: InputMode, text: Seq<char>)
    requires
        m == InputMode::Prompt || m == InputMode::Bash || m == InputMode::Note || m
            == InputMode::Command,
        m == InputMode::Prompt ==> entry_mode(text) == InputMode::Prompt,
    ensures
        entry_mode(mode_prefix(m) + text) == m,
        entry_text(mode_prefix(m) + text) == text,
{
    reveal_strlit("!");
    reveal_strlit("#");
    reveal_strlit("/");
    reveal_strlit("");
    if m == InputMode::Prompt {
        assert(mode_prefix(m) + text =~= text);
    } else {
        assert((mode_prefix(m) + text).skip(1) =~= text);
    }
}

// ---------------------------------------------------------------------------
// Byte positions
// ---------------------------------------------------------------------------

/// The number of bytes that a character takes in UTF-8.
pub open spec fn char_width(c: char) -> nat {
    if c as u32 <= 0x7f {
        1
    } else if c as u32 <= 0x7ff {
        2
    } else if c as u32 <= 0xffff {
        3
    } else {
        4
    }
}

/// The byte position of the `k`-th character.
pub open spec fn byte_pos(s: Seq<char>, k: int) -> nat
    decreases k,
{
    if k <= 0 {
        0
    } else {
        byte_pos(s, k - 1) + char_width(s[k - 1])
    }
}

proof fn lemma_byte_pos_grows(s: Seq<char>, j: int, k: int)
    requires
        0 <= j < k,
    ensures
        byte_pos(s, j) < byte_pos(s, k),
    decreases k,
{
    if j < k - 1 {
        lemma_byte_pos_grows(s, j, k - 1);
    }
}

proof fn lemma_byte_pos_shift(s: Seq<char>, k: int)
    requires
        1 <= k <= s.len(),
    ensures
        byte_pos(s, k) == char_width(s[0]) + byte_pos(s.drop_first(), k - 1),
    decreases k,
{
    if k > 1 {
        lemma_byte_pos_shift(s, k - 1);
    } else {
        assert(byte_pos(s, 0) == 0);
        assert(byte_pos(s.drop_first(), 0) == 0);
    }
}

/// The UTF-8 form of a text is as long as its byte positions say.
proof fn lemma_encoded_len(s: Seq<char>)
    ensures
        encode_utf8(s).len() == byte_pos(s, s.len() as int),
    decreases s.len(),
{
    if s.len() > 0 {
        lemma_encoded_len(s.drop_first());
        lemma_byte_pos_shift(s, s.len() as int);
        vstd::utf8::char_is_scalar(s[0]);
        assert(encode_utf8(s) == vstd::utf8::encode_scalar(s[0] as u32) + encode_utf8(
            s.drop_first(),
        ));
        assert(vstd::utf8::encode_scalar(s[0] as u32).len() == char_width(s[0]));
    }
}

/// The number of bytes that a character takes in UTF-8.
fn width_of(c: char) -> (r: usize)
    ensures
        r == char_width(c),
{
    let code: u32 = c as u32;
    if code <= 0x7f {
        1
    } else if code <= 0x7ff {
        2
    } else if code <= 0xffff {
        3
    } else {
        4
    }
}

/// The number of bytes of a text.
fn byte_len(s: &str) -> (r: usize)
    ensures
        r == byte_pos(s@, s@.len() as int),
{
    proof {
        lemma_encoded_len(s@);
    }
    s.as_bytes().len()
}

// ---------------------------------------------------------------------------
// Lines
// ---------------------------------------------------------------------------

/// The start of the line that holds position `k`.
pub open spec fn line_start(s: Seq<char>, k: int) -> int
    decreases k,
{
    if k <= 0 {
        0
    } else if s[k - 1] == '\n' {
        k
    } else {
        line_start(s, k - 1)
    }
}

/// The end of the line that holds position `k`.
pub open spec fn line_end(s: Seq<char>, k: int) -> int {
    next_char(s, '\n', k)
}

/// The position one line above `k`, in the same column as far as that line
/// reaches; `k` itself on the first line.
pub open spec fn line_above(s: Seq<char>, k: int) -> int {
    let start = line_start(s, k);
    if start == 0 {
        k
    } else {
        let above = line_start(s, start - 1);
        let column = k - start;
        let width = start - 1 - above;
        above + if column <= width {
            column
        } else {
            width
        }
    }
}

/// The position one line below `k`, in the same column as far as that line
/// reaches; `k` itself on the last line.
pub open spec fn line_below(s: Seq<char>, k: int) -> int {
    let end = line_end(s, k);
    if end >= s.len() {
        k
    } else {
        let below = end + 1;
        let column = k - line_start(s, k);
        let stop = line_end(s, below);
        if below + column <= stop {
            below + column
        } else {
            stop
        }
    }
}

fn find_line_start(v: &Vec<char>, k: usize) -> (r: usize)
    requires
        k <= v@.len(),
    ensures
        r == line_start(v@, k as int),
        r <= k,
{
    let mut i: usize = k;
    while i > 0 && v[i - 1] != '\n'
        invariant
            i <= k <= v@.len(),
            line_start(v@, i as int) == line_start(v@, k as int),
        decreases i,
    {
        i -= 1;
    }
    i
}

// ---------------------------------------------------------------------------
// The prompt
// ---------------------------------------------------------------------------

/// The state of the prompt.
#[derive(Clone, Debug)]
pub struct PromptInputState {
    pub buffer: String,
    /// The cursor, as a byte position in the buffer.
    pub cursor: usize,
    pub mode: InputMode,
    /// The submissions, oldest first, each with the marker of its mode.
    pub history: Vec<String>,
    /// The history entry that is shown, while the history is being walked.
    pub history_idx: Option<usize>,
    /// What was being typed before the history was walked.
    pub draft: Option<(InputMode, String)>,
}

/// Whether `q` is `p` with a character inserted at the cursor.
pub open spec fn inserted(p: PromptInputState, c: char, q: PromptInputState) -> bool {
    &&& q.wf()
    &&& q.buffer@ == p.buffer@.insert(p.index(), c)
    &&& q.index() == p.index() + 1
    &&& q == (PromptInputState { buffer: q.buffer, cursor: q.cursor, ..p })
}

/// Whether `q` is `p` without the character before the cursor, if there is one.
pub open spec fn backspaced(p: PromptInputState, q: PromptInputState) -> bool {
    if p.index() == 0 {
        q == p
    } else {
        &&& q.wf()
        &&& q.buffer@ == p.buffer@.remove(p.index() - 1)
        &&& q.index() == p.index() - 1
        &&& q == (PromptInputState { buffer: q.buffer, cursor: q.cursor, ..p })
    }
}

/// Whether `q` is `p` without the character after the cursor, if there is one.
pub open spec fn deleted(p: PromptInputState, q: PromptInputState) -> bool {
    if p.index() == p.buffer@.len() {
        q == p
    } else {
        &&& q.wf()
        &&& q.buffer@ == p.buffer@.remove(p.index())
        &&& q.index() == p.index()
        &&& q == (PromptInputState { buffer: q.buffer, cursor: q.cursor, ..p })
    }
}

/// Whether `q` is `p` with the cursor before the `k`-th character.
pub open spec fn moved(p: PromptInputState, k: int, q: PromptInputState) -> bool {
    &&& q.wf()
    &&& q.index() == k
    &&& q == (PromptInputState { cursor: q.cursor, ..p })
}

/// Whether `q` is `p` after a step back in the history.
pub open spec fn stepped_back(p: PromptInputState, q: PromptInputState) -> bool {
    if p.history@.len() == 0 {
        q == p
    } else {
        &&& q.history == p.history
        &&& q.history_idx == Some(p.entry_before() as usize)
        &&& q.shows(p.history@[p.entry_before()]@)
        &&& q.draft == if p.history_idx is None {
            Some((p.mode, p.buffer))
        } else {
            p.draft
        }
    }
}

/// Whether `q` is `p` after a step forward in the history.
pub open spec fn stepped_forward(p: PromptInputState, q: PromptInputState) -> bool {
    match p.history_idx {
        None => q == p,
        Some(i) => {
            &&& q.history == p.history
            &&& if i + 1 < p.history@.len() {
                &&& q.history_idx == Some((i + 1) as usize)
                &&& q.shows(p.history@[i + 1]@)
                &&& q.draft == p.draft
            } else {
                &&& q.history_idx is None
                &&& q.draft is None
                &&& q.wf()
                &&& q.index() == q.buffer@.len()
                &&& match p.draft {
                    Some((mode, text)) => q.mode == mode && q.buffer == text,
                    None => q.mode == InputMode::Prompt && q.buffer@.len() == 0,
                }
            }
        },
    }
}

/// Whether `q` is `p` with nothing in it, in the ordinary mode.
pub open spec fn cleared(p: PromptInputState, q: PromptInputState) -> bool {
    &&& q.wf()
    &&& q.buffer@.len() == 0
    &&& q == (PromptInputState {
        buffer: q.buffer,
        cursor: 0,
        mode: InputMode::Prompt,
        history_idx: None,
        ..p
    })
}

/// Whether `q` is `p` once a submission is recorded.
pub open spec fn recorded(p: PromptInputState, entry: Seq<char>, q: PromptInputState) -> bool {
    &&& q.wf()
    &&& q.is_clear()
    &&& q.draft is None
    &&& exists|e: String| #[trigger] e@ == entry && q.history@ == kept_history(p.history@, e)
}

/// Whether `q` is `p` with another text, and the cursor behind it.
pub open spec fn refilled(p: PromptInputState, text: Seq<char>, q: PromptInputState) -> bool {
    &&& q.wf()
    &&& q.buffer@ == text
    &&& q.index() == text.len()
    &&& q == (PromptInputState { buffer: q.buffer, cursor: q.cursor, ..p })
}

impl PromptInputState {
    /// Whether the cursor stands between two characters of the buffer, or at
    /// either end of it.
    pub open spec fn wf(self) -> bool {
        exists|k: int| self.is_at(k)
    }

    /// Whether the cursor stands before the `k`-th character.
    pub open spec fn is_at(self, k: int) -> bool {
        0 <= k <= self.buffer@.len() && self.cursor == byte_pos(self.buffer@, k)
    }

    /// The number of characters before the cursor.
    pub open spec fn index(self) -> int {
        choose|k: int| self.is_at(k)
    }

    /// Whether the prompt is empty, in the ordinary mode, and no history entry
    /// is shown.
    pub open spec fn is_clear(self) -> bool {
        self.buffer@.len() == 0 && self.cursor == 0 && self.mode == InputMode::Prompt
            && self.history_idx is None
    }

    /// The cursor stands before one character only.
    pub proof fn lemma_index(self, k: int)
        requires
            self.is_at(k),
        ensures
            self.index() == k,
            self.wf(),
    {
        let j = self.index();
        assert(self.is_at(j));
        if j < k {
            lemma_byte_pos_grows(self.buffer@, j, k);
        } else if k < j {
            lemma_byte_pos_grows(self.buffer@, k, j);
        }
    }

    /// The empty prompt.
    pub fn new() -> (r: PromptInputState)
        ensures
            r.wf(),
            r.is_clear(),
            r.history@.len() == 0,
            r.draft is None,
    {
        let r: PromptInputState = PromptInputState {
            buffer: String::new(),
            cursor: 0,
            mode: InputMode::Prompt,
            history: Vec::new(),
            history_idx: None,
            draft: None,
        };
        proof {
            assert(r.is_at(0));
        }
        r
    }

    /// The number of characters before the cursor.
    pub fn cursor_index(&self) -> (r: usize)
        requires
            self.wf(),
        ensures
            r == self.index(),
            self.is_at(r as int),
    {
        let v: Vec<char> = chars_of(self.buffer.as_str());
        let mut i: usize = 0;
        let mut pos: usize = 0;
        let n: usize = v.len();
        let ghost k = self.index();
        while pos < self.cursor
            invariant
                i <= k <= n,
                n == v@.len(),
                v@ == self.buffer@,
                pos == byte_pos(v@, i as int),
                self.is_at(k),
                pos <= self.cursor,
            decreases k - i,
        {
            proof {
                if i == k {
                    assert(false);
                }
                if i + 1 < k {
                    lemma_byte_pos_grows(v@, i + 1, k);
                }
            }
            pos = pos + width_of(v[i]);
            i += 1;
        }
        proof {
            if i < k {
                lemma_byte_pos_grows(v@, i as int, k);
            }
        }
        i
    }

    /// Puts the cursor before the `k`-th character.
    fn place(&mut self, k: usize)
        requires
            k <= old(self).buffer@.len(),
        ensures
            final(self).is_at(k as int),
            final(self).wf(),
            final(self).index() == k,
            *final(self) == (PromptInputState { cursor: final(self).cursor, ..*old(self) }),
    {
        let v: Vec<char> = chars_of(self.buffer.as_str());
        let total: usize = byte_len(self.buffer.as_str());
        let mut i: usize = 0;
        let mut pos: usize = 0;
        while i < k
            invariant
                i <= k <= v@.len(),
                pos == byte_pos(v@, i as int),
                total == byte_pos(v@, v@.len() as int),
            decreases k - i,
        {
            proof {
                if i + 1 < v@.len() {
                    lemma_byte_pos_grows(v@, i + 1, v@.len() as int);
                }
            }
            pos = pos + width_of(v[i]);
            i += 1;
        }
        self.cursor = pos;
        proof {
            assert(self.is_at(k as int));
            self.lemma_index(k as int);
        }
    }

    /// Replaces the buffer and puts the cursor behind it.
    pub fn set_buffer(&mut self, text: String)
        ensures
            refilled(*old(self), text@, *final(self)),
            final(self).buffer == text,
    {
        self.buffer = text;
        let n: usize = self.buffer.as_str().unicode_len();
        self.place(n);
    }

    /// Empties the prompt and goes back to the ordinary mode.
    pub fn clear(&mut self)
        ensures
            cleared(*old(self), *final(self)),
    {
        self.buffer = String::new();
        self.cursor = 0;
        self.mode = InputMode::Prompt;
        self.history_idx = None;
        proof {
            assert(self.is_at(0));
        }
    }

    /// Inserts a character at the cursor.
    pub fn insert_char(&mut self, c: char)
        requires
            old(self).wf(),
        ensures
            inserted(*old(self), c, *final(self)),
            final(self).wf(),
    {
        let k: usize = self.cursor_index();
        let mut v: Vec<char> = chars_of(self.buffer.as_str());
        v.insert(k, c);
        self.buffer = text_between(&v, 0, v.len());
        proof {
            assert(v@.subrange(0, v@.len() as int) == v@);
        }
        self.place(k + 1);
    }

    /// Removes the character before the cursor.
    pub fn backspace(&mut self)
        requires
            old(self).wf(),
        ensures
            backspaced(*old(self), *final(self)),
            final(self).wf(),
    {
        let k: usize = self.cursor_index();
        if k > 0 {
            let mut v: Vec<char> = chars_of(self.buffer.as_str());
            let _ = v.remove(k - 1);
            self.buffer = text_between(&v, 0, v.len());
            proof {
                assert(v@.subrange(0, v@.len() as int) == v@);
            }
            self.place(k - 1);
        }
    }

    /// Removes the character after the cursor.
    pub fn delete_forward(&mut self)
        requires
            old(self).wf(),
        ensures
            deleted(*old(self), *final(self)),
            final(self).wf(),
    {
        let k: usize = self.cursor_index();
        let mut v: Vec<char> = chars_of(self.buffer.as_str());
        if k < v.len() {
            let _ = v.remove(k);
            self.buffer = text_between(&v, 0, v.len());
            proof {
                assert(v@.subrange(0, v@.len() as int) == v@);
            }
            self.place(k);
        }
    }

    /// Moves the cursor one character to the left.
    pub fn move_left(&mut self)
        requires
            old(self).wf(),
        ensures
            moved(
                *old(self),
                if old(self).index() > 0 {
                    old(self).index() - 1
                } else {
                    0
                },
                *final(self),
            ),
    {
        let k: usize = self.cursor_index();
        if k > 0 {
            self.place(k - 1);
        }
    }

    /// Moves the cursor one character to the right.
    pub fn move_right(&mut self)
        requires
            old(self).wf(),
        ensures
            moved(
                *old(self),
                if old(self).index() < old(self).buffer@.len() {
                    old(self).index() + 1
                } else {
                    old(self).index()
                },
                *final(self),
            ),
    {
        let k: usize = self.cursor_index();
        if k < self.buffer.as_str().unicode_len() {
            self.place(k + 1);
        }
    }

    /// Moves the cursor to the start of its line.
    pub fn move_home(&mut self)
        requires
            old(self).wf(),
        ensures
            moved(
                *old(self),
                line_start(old(self).buffer@, old(self).index()),
                *final(self),
            ),
    {
        let k: usize = self.cursor_index();
        let v: Vec<char> = chars_of(self.buffer.as_str());
        let start: usize = find_line_start(&v, k);
        self.place(start);
    }

    /// Moves the cursor to the end of its line.
    pub fn move_end(&mut self)
        requires
            old(self).wf(),
        ensures
            moved(
                *old(self),
                line_end(old(self).buffer@, old(self).index()),
                *final(self),
            ),
    {
        let k: usize = self.cursor_index();
        let v: Vec<char> = chars_of(self.buffer.as_str());
        let end: usize = find_char(&v, '\n', k);
        self.place(end);
    }

    /// Moves the cursor one line up.
    pub fn move_prev_line(&mut self)
        requires
            old(self).wf(),
        ensures
            moved(
                *old(self),
                line_above(old(self).buffer@, old(self).index()),
                *final(self),
            ),
    {
        let k: usize = self.cursor_index();
        let v: Vec<char> = chars_of(self.buffer.as_str());
        let start: usize = find_line_start(&v, k);
        if start > 0 {
            let above: usize = find_line_start(&v, start - 1);
            let column: usize = k - start;
            let width: usize = start - 1 - above;
            if column <= width {
                self.place(above + column);
            } else {
                self.place(above + width);
            }
        }
    }

    /// Moves the cursor one line down.
    pub fn move_next_line(&mut self)
        requires
            old(self).wf(),
        ensures
            moved(
                *old(self),
                line_below(old(self).buffer@, old(self).index()),
                *final(self),
            ),
    {
        let k: usize = self.cursor_index();
        let v: Vec<char> = chars_of(self.buffer.as_str());
        let end: usize = find_char(&v, '\n', k);
        if end < v.len() {
            let below: usize = end + 1;
            let column: usize = k - find_line_start(&v, k);
            let stop: usize = find_char(&v, '\n', below);
            if column <= stop - below {
                self.place(below + column);
            } else {
                self.place(stop);
            }
        }
    }

    /// Shows a history entry: its mode, its text, the cursor behind it.
    pub open spec fn shows(self, entry: Seq<char>) -> bool {
        &&& self.mode == entry_mode(entry)
        &&& self.buffer@ == entry_text(entry)
        &&& self.wf()
        &&& self.index() == self.buffer@.len()
    }

    fn show_entry(&mut self, i: usize)
        requires
            i < old(self).history@.len(),
        ensures
            final(self).shows(old(self).history@[i as int]@),
            final(self).history_idx == Some(i),
            final(self).history == old(self).history,
            final(self).draft == old(self).draft,
    {
        let entry: String = self.history[i].clone();
        let (mode, text) = strip_history_prefix(entry.as_str());
        self.mode = mode;
        self.set_buffer(text.to_owned());
        self.history_idx = Some(i);
        proof {
            let k = self.buffer@.len() as int;
            assert(self.is_at(k));
            self.lemma_index(k);
        }
    }

    /// The entry that a step back in the history leads to.
    pub open spec fn entry_before(self) -> int {
        match self.history_idx {
            None => self.history@.len() - 1,
            Some(i) => if i == 0 {
                0
            } else if i <= self.history@.len() {
                i - 1
            } else {
                self.history@.len() - 1
            },
        }
    }

    /// Steps back in the history. The first step keeps what was being typed.
    pub fn history_prev(&mut self)
        requires
            old(self).wf(),
        ensures
            stepped_back(*old(self), *final(self)),
            final(self).wf(),
    {
        let n: usize = self.history.len();
        if n == 0 {
            return ;
        }
        let i: usize = match self.history_idx {
            None => {
                self.draft = Some((self.mode, self.buffer.clone()));
                n - 1
            },
            Some(i) => if i == 0 {
                0
            } else if i <= n {
                i - 1
            } else {
                n - 1
            },
        };
        self.show_entry(i);
    }

    /// Steps forward in the history. Behind the newest entry, what was being
    /// typed comes back.
    pub fn history_next(&mut self)
        requires
            old(self).wf(),
        ensures
            stepped_forward(*old(self), *final(self)),
            final(self).wf(),
    {
        if let Some(i) = self.history_idx {
            let n: usize = self.history.len();
            if i < n && i + 1 < n {
                self.show_entry(i + 1);
            } else {
                self.history_idx = None;
                match self.draft.take() {
                    Some((mode, text)) => {
                        self.mode = mode;
                        self.set_buffer(text);
                    },
                    None => {
                        self.mode = InputMode::Prompt;
                        self.set_buffer(String::new());
                    },
                }
            }
        }
    }

    /// Keeps a submission, at the cost of the oldest ones where the history is
    /// full, and clears the prompt.
    pub fn record_submission(&mut self, entry: String)
        ensures
            recorded(*old(self), entry@, *final(self)),
            final(self).history@ == kept_history(old(self).history@, entry),
    {
        self.history.push(entry);
        let ghost all = self.history@;
        while self.history.len() > HISTORY_CAPACITY
            invariant
                all == old(self).history@.push(entry),
                self.history@.len() <= all.len(),
                self.history@ == all.skip(all.len() - self.history@.len()),
                self.history@.len() < all.len() ==> self.history@.len() >= HISTORY_CAPACITY,
            decreases self.history@.len(),
        {
            let ghost before = self.history@;
            let _ = self.history.remove(0);
            proof {
                assert(self.history@ == before.skip(1));
                assert(self.history@ =~= all.skip(all.len() - self.history@.len()));
            }
        }
        self.clear();
        self.draft = None;
        proof {
            assert(self.is_at(0));
            assert(all.skip(0) == all);
        }
    }
}

/// The history once a submission is added: the newest entries that there is
/// room for.
pub open spec fn kept_history(history: Seq<String>, entry: String) -> Seq<String> {
    let all = history.push(entry);
    if all.len() > HISTORY_CAPACITY {
        all.skip(all.len() - HISTORY_CAPACITY)
    } else {
        all
    }
}

/// The submission that was just recorded is the newest entry of the history,
/// the entries before it keep their order, and the history stays within its
/// capacity.
pub proof fn recorded_submission_is_newest(history: Seq<String>, entry: String)
    ensures
        ({
            let kept = kept_history(history, entry);
            &&& 0 < kept.len() <= HISTORY_CAPACITY
            &&& kept.last() == entry
            &&& forall|i: int|
                1 <= i < kept.len() ==> kept[kept.len() - 1 - i] == #[trigger] history[history.len()
                    - i]
        }),
{
}

/// Where the cursor stands rests on the text and on the cursor alone.
pub proof fn place_is_kept(p: PromptInputState, q: PromptInputState)
    requires
        p.wf(),
        q.buffer@ == p.buffer@,
        q.cursor == p.cursor,
    ensures
        q.wf(),
        q.index() == p.index(),
{
    let k = p.index();
    assert(p.is_at(k));
    assert(q.is_at(k));
    q.lemma_index(k);
}

} // verus!
