//! Walking and searching the history.
use vstd::prelude::*;
#[allow(unused_imports)]
use vstd::string::*;

use crate::app::keyboard::key_pressed;
use crate::app::App;
use crate::completion::{history_hits, history_hits_are_ranked, lowered_history};
use crate::events::UserAction;
use crate::input_state::{stepped_back, stepped_forward, InputMode, PromptInputState};
use crate::keys::{KeyCode, KeyEvent};
use crate::laws::interrupt::prompt_has_the_keyboard;
use crate::laws::prompt::is_open;
use crate::text::{has_part, has_prefix, lowercase_of};

verus! {

// ---------------------------------------------------------------------------
// Walking
// ---------------------------------------------------------------------------

/// Whether the prompt shows a history entry: its text without the marker, in the
/// mode that the marker stands for.
pub open spec fn recalls(p: PromptInputState, entry: Seq<char>) -> bool {
    if entry.len() > 0 && entry[0] == '!' {
        p.mode == InputMode::Bash && p.buffer@ == entry.skip(1)
    } else if entry.len() > 0 && entry[0] == '#' {
        p.mode == InputMode::Note && p.buffer@ == entry.skip(1)
    } else if entry.len() > 0 && entry[0] == '/' {
        p.mode == InputMode::Command && p.buffer@ == entry.skip(1)
    } else {
        p.mode == InputMode::Prompt && p.buffer@ == entry
    }
}

/// Up from an empty prompt shows the newest entry, and then one entry further
/// back with each press, down to the oldest one. The history stays as it is.
pub proof fn up_walks_back(a: App, key: KeyEvent, b: App, r: Option<UserAction>)
    requires
        key_pressed(a, key, b, r),
        is_open(a),
        key.code == KeyCode::Up,
        !key.modifiers.shift,
        a.prompt.history@.len() > 0,
        a.prompt.history_idx matches Some(i) ==> i < a.prompt.history@.len(),
    ensures
        r is None,
        b.prompt.history == a.prompt.history,
        a.prompt.history_idx is None && a.prompt.buffer@.len() == 0 ==> b.prompt.history_idx
            == Some((a.prompt.history@.len() - 1) as usize) && recalls(
            b.prompt,
            a.prompt.history@.last()@,
        ),
        a.prompt.history_idx matches Some(i) ==> {
            let back = if i == 0 {
                0
            } else {
                i - 1
            };
            b.prompt.history_idx == Some(back as usize) && recalls(
                b.prompt,
                a.prompt.history@[back as int]@,
            )
        },
        a.prompt.history_idx is None && a.prompt.buffer@.len() > 0 ==> b == a,
        b.blocks == a.blocks,
{
}

/// Down leads back towards the newest entry, one entry with each press.
pub proof fn down_walks_forward(
    a: App,
    key: KeyEvent,
    b: App,
    r: Option<UserAction>,
    i: usize,
)
    requires
        key_pressed(a, key, b, r),
        is_open(a),
        key.code == KeyCode::Down,
        !key.modifiers.shift,
        a.prompt.history_idx == Some(i),
    ensures
        r is None,
        b.prompt.history == a.prompt.history,
        i + 1 < a.prompt.history@.len() ==> b.prompt.history_idx == Some((i + 1) as usize)
            && recalls(b.prompt, a.prompt.history@[i + 1]@),
        i + 1 >= a.prompt.history@.len() ==> b.prompt.history_idx is None,
{
}

/// What was being typed comes back: a step back and a step forward, from the
/// prompt as it was, leave the same text in the same mode.
pub proof fn draft_comes_back(p: PromptInputState, q: PromptInputState, s: PromptInputState)
    requires
        p.history_idx is None,
        p.history@.len() > 0,
        p.history@.len() <= usize::MAX,
        stepped_back(p, q),
        stepped_forward(q, s),
    ensures
        s.buffer@ == p.buffer@,
        s.mode == p.mode,
        s.history_idx is None,
        s.history == p.history,
{
}

/// A step back and a step forward within the history lead to the same entry.
pub proof fn steps_in_the_history_cancel_out(
    p: PromptInputState,
    i: usize,
    q: PromptInputState,
    s: PromptInputState,
)
    requires
        p.history_idx == Some(i),
        0 < i < p.history@.len(),
        stepped_back(p, q),
        stepped_forward(q, s),
    ensures
        s.history_idx == Some(i),
        recalls(s, p.history@[i as int]@),
        s.history == p.history,
{
}

// ---------------------------------------------------------------------------
// Searching
// ---------------------------------------------------------------------------

/// Whether `hits` is what a search for `query` shows of a history: at most twelve
/// entries, each of which holds the query in whatever letter case; those that
/// start with it ahead of the others, and the newer ahead of the older among
/// each of the two. None is left out as long as there is room.
pub open spec fn are_found(history: Seq<String>, query: Seq<char>, hits: Seq<usize>) -> bool {
    let q = lowercase_of(query);
    &&& hits.len() <= 12
    &&& forall|i: int|
        0 <= i < hits.len() ==> (#[trigger] hits[i]) < history.len() && has_part(
            lowercase_of(history[hits[i] as int]@),
            q,
        )
    &&& forall|i: int, j: int|
        0 <= i < j < hits.len() ==> {
            let x = #[trigger] hits[i];
            let y = #[trigger] hits[j];
            let px = has_prefix(lowercase_of(history[x as int]@), q);
            let py = has_prefix(lowercase_of(history[y as int]@), q);
            (px && !py) || (px == py && x > y)
        }
    &&& hits.len() < 12 ==> forall|h: usize|
        h < history.len() && has_part(lowercase_of((#[trigger] history[h as int])@), q)
            ==> hits.contains(h)
    &&& forall|h: usize, i: int|
        h < history.len() && has_part(lowercase_of(history[h as int]@), q) && !hits.contains(h)
            && 0 <= i < hits.len() ==> {
            let x = #[trigger] hits[i];
            let px = has_prefix(lowercase_of(history[x as int]@), q);
            let ph = has_prefix(lowercase_of((#[trigger] history[h as int])@), q);
            (px && !ph) || (px == ph && x > h)
        }
}

proof fn search_finds(history: Seq<String>, query: Seq<char>)
    requires
        history.len() <= usize::MAX,
    ensures
        are_found(history, query, history_hits(lowered_history(history), lowercase_of(query))),
{
    let q = lowercase_of(query);
    let lowered = lowered_history(history);
    let hits = history_hits(lowered, q);
    history_hits_are_ranked(lowered, q);
    assert forall|i: int| 0 <= i < hits.len() implies (#[trigger] hits[i]) < history.len()
        && has_part(lowercase_of(history[hits[i] as int]@), q) by {
        assert(lowered[hits[i] as int] == lowercase_of(history[hits[i] as int]@));
    }
    assert forall|i: int, j: int| 0 <= i < j < hits.len() implies ({
        let x = #[trigger] hits[i];
        let y = #[trigger] hits[j];
        let px = has_prefix(lowercase_of(history[x as int]@), q);
        let py = has_prefix(lowercase_of(history[y as int]@), q);
        (px && !py) || (px == py && x > y)
    }) by {
        assert(lowered[hits[i] as int] == lowercase_of(history[hits[i] as int]@));
        assert(lowered[hits[j] as int] == lowercase_of(history[hits[j] as int]@));
    }
    if hits.len() < 12 {
        assert forall|h: usize|
            h < history.len() && has_part(
                lowercase_of((#[trigger] history[h as int])@),
                q,
            ) implies hits.contains(h) by {
            assert(lowered[h as int] == lowercase_of(history[h as int]@));
        }
    }
    assert forall|h: usize, i: int|
        h < history.len() && has_part(lowercase_of(history[h as int]@), q) && !hits.contains(h)
            && 0 <= i < hits.len() implies ({
        let x = #[trigger] hits[i];
        let px = has_prefix(lowercase_of(history[x as int]@), q);
        let ph = has_prefix(lowercase_of((#[trigger] history[h as int])@), q);
        (px && !ph) || (px == ph && x > h)
    }) by {
        assert(lowered[hits[i] as int] == lowercase_of(history[hits[i] as int]@));
        assert(lowered[h as int] == lowercase_of(history[h as int]@));
    }
}

/// What is typed goes on in the query, the matches are those of the query as it
/// then is, and what was typed at the prompt before stays.
pub proof fn query_is_searched_for(a: App, key: KeyEvent, b: App, r: Option<UserAction>)
    requires
        key_pressed(a, key, b, r),
        prompt_has_the_keyboard(a),
        a.prompt.mode == InputMode::HistorySearch,
        !key.modifiers.control,
        a.prompt.history@.len() <= usize::MAX,
    ensures
        r is None,
        b.prompt.history == a.prompt.history,
        key.code matches KeyCode::Char(c) ==> b.hsearch_query@ == a.hsearch_query@.push(c)
            && are_found(a.prompt.history@, b.hsearch_query@, b.hsearch_matches@) && b.prompt.buffer
            == a.prompt.buffer && b.prompt.mode == InputMode::HistorySearch,
        key.code == KeyCode::Backspace && a.hsearch_query@.len() > 0 ==> b.hsearch_query@
            == a.hsearch_query@.drop_last() && are_found(
            a.prompt.history@,
            b.hsearch_query@,
            b.hsearch_matches@,
        ) && b.prompt.buffer == a.prompt.buffer,
        key.code == KeyCode::Esc ==> b.prompt.buffer == a.prompt.buffer && b.prompt.mode
            == InputMode::Prompt && b.hsearch_matches@.len() == 0,
        b.blocks == a.blocks,
{
    search_finds(a.prompt.history@, b.hsearch_query@);
}

/// Ctrl+R starts a search that shows the newest entries, and once more selects the
/// next match, from the last one on the first.
pub proof fn search_is_started(a: App, key: KeyEvent, b: App, r: Option<UserAction>)
    requires
        key_pressed(a, key, b, r),
        prompt_has_the_keyboard(a),
        key.modifiers.control,
        key.code == KeyCode::Char('r'),
        a.wf(),
        a.prompt.history@.len() <= usize::MAX,
        a.hsearch_selected < a.hsearch_matches@.len(),
    ensures
        r is None,
        a.prompt.mode == InputMode::Prompt ==> b.prompt.mode == InputMode::HistorySearch
            && b.hsearch_query@.len() == 0 && b.hsearch_selected == 0 && are_found(
            a.prompt.history@,
            seq![],
            b.hsearch_matches@,
        ) && b.prompt.buffer == a.prompt.buffer,
        a.prompt.mode == InputMode::HistorySearch ==> b.hsearch_selected
            == if a.hsearch_selected + 1 == a.hsearch_matches@.len() {
            0
        } else {
            a.hsearch_selected + 1
        } && b.hsearch_matches == a.hsearch_matches,
{
    search_finds(a.prompt.history@, seq![]);
    if a.prompt.mode == InputMode::HistorySearch {
        let n = a.hsearch_matches@.len() as int;
        if a.hsearch_selected + 1 == n {
            assert(n % n == 0) by (nonlinear_arith)
                requires
                    n > 0,
            ;
        } else {
            assert((a.hsearch_selected + 1) % n == a.hsearch_selected + 1) by (nonlinear_arith)
                requires
                    0 <= a.hsearch_selected + 1 < n,
            ;
        }
    }
}

/// Enter puts the entry that is selected into the prompt, as the history holds it,
/// and sends nothing.
pub proof fn selected_entry_is_put_into_the_prompt(
    a: App,
    key: KeyEvent,
    b: App,
    r: Option<UserAction>,
    i: usize,
)
    requires
        key_pressed(a, key, b, r),
        prompt_has_the_keyboard(a),
        a.prompt.mode == InputMode::HistorySearch,
        key.code == KeyCode::Enter,
        a.hsearch_selected < a.hsearch_matches@.len(),
        a.hsearch_matches@[a.hsearch_selected as int] == i,
        i < a.prompt.history@.len(),
    ensures
        r is None,
        b.prompt.buffer@ == a.prompt.history@[i as int]@,
        b.prompt.mode == InputMode::Prompt,
        b.prompt.history == a.prompt.history,
        b.hsearch_matches@.len() == 0,
        b.blocks == a.blocks,
{
}

/// The arrows select the next match and the one before, within the matches.
pub proof fn arrows_select_a_match(a: App, key: KeyEvent, b: App, r: Option<UserAction>)
    requires
        key_pressed(a, key, b, r),
        prompt_has_the_keyboard(a),
        a.wf(),
        a.prompt.mode == InputMode::HistorySearch,
        a.hsearch_selected < a.hsearch_matches@.len(),
    ensures
        key.code == KeyCode::Up ==> b.hsearch_selected == if a.hsearch_selected == 0 {
            0
        } else {
            a.hsearch_selected - 1
        } && b.hsearch_matches == a.hsearch_matches,
        key.code == KeyCode::Down ==> b.hsearch_selected == if a.hsearch_selected + 1
            == a.hsearch_matches@.len() {
            a.hsearch_selected as int
        } else {
            a.hsearch_selected + 1
        } && b.hsearch_matches == a.hsearch_matches,
{
}

} // verus!
