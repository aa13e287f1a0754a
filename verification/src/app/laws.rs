//! What holds of the interface across keys and events.
use std::time::Instant;

use vstd::prelude::*;

use crate::app::dialogs::{permission_answer, permission_key};
use crate::app::event_loop::{event_applied, jumps_to_end};
use crate::app::handlers::resume_panel;
use crate::app::keyboard::{
    ctrl_c_pressed_after, in_window, key_pressed, submitted, DOUBLE_PRESS_WINDOW_NANOS,
};
use crate::app::panels::{chosen_session, moved_selection, scrolled};
use crate::app::popups::search_key;
use crate::app::App;
use crate::cost::{capped_sum, idle, underway};
use crate::events::{UiEvent, UserAction};
use crate::input_state::{
    backspaced, entry_mode, history_prefix_is_stripped, inserted, mode_prefix, next_mode, recorded,
    stepped_back, InputMode, PromptInputState,
};
use crate::keys::{KeyCode, KeyEvent};
use crate::model::BlockModel;
use crate::panel::PanelModel;
use crate::pickers::session_dirs;
use crate::text::{joined_lines_come_back, without_cr};
use crate::transcript::{answer_finished, answer_streamed, is_streaming_answer};

verus! {

// ---------------------------------------------------------------------------
// Leaving
// ---------------------------------------------------------------------------

/// Esc never quits, whatever has the keyboard.
pub proof fn esc_never_quits(a: App, key: KeyEvent, b: App, r: Option<UserAction>)
    requires
        key.code == KeyCode::Esc,
        key_pressed(a, key, b, r),
    ensures
        b.should_quit == a.should_quit,
{
}

/// Ctrl+C quits if and only if the press before it is no longer ago than the
/// window, and any other press is remembered.
pub proof fn only_double_ctrl_c_quits(
    a: App,
    since: Option<u64>,
    at: Instant,
    b: App,
    r: Option<UserAction>,
)
    requires
        ctrl_c_pressed_after(a, since, at, b, r),
    ensures
        b.should_quit == (a.should_quit || (since matches Some(n) && n
            <= DOUBLE_PRESS_WINDOW_NANOS)),
        b.double_press.last_ctrl_c_at == if in_window(since) {
            None
        } else {
            Some(at)
        },
{
}

/// Ctrl+C quits at the first press only where one came before it.
pub proof fn first_ctrl_c_never_quits(a: App, key: KeyEvent, b: App, r: Option<UserAction>)
    requires
        key.is_ctrl('c'),
        a.double_press.last_ctrl_c_at is None,
        key_pressed(a, key, b, r),
    ensures
        b.should_quit == a.should_quit,
{
}

// ---------------------------------------------------------------------------
// Who has the keyboard
// ---------------------------------------------------------------------------

/// While a permission request waits, no key but Ctrl+C reaches anything else:
/// the prompt, the transcript and the dialogs stay as they are, and nothing is
/// asked of the worker.
pub proof fn permission_request_has_the_keyboard(
    a: App,
    key: KeyEvent,
    b: App,
    r: Option<UserAction>,
)
    requires
        a.pending_permission is Some,
        !key.is_ctrl('c'),
        key_pressed(a, key, b, r),
    ensures
        r is None,
        b.prompt == a.prompt,
        b.blocks == a.blocks,
        b.modals == a.modals,
        b.should_quit == a.should_quit,
{
}

/// A request is answered by one key press at most: once it is answered, none
/// waits, and before that no answer is given.
pub proof fn permission_is_answered_once(a: App, code: KeyCode, b: App)
    requires
        a.pending_permission is Some,
        permission_key(a, code, b),
    ensures
        permission_answer(code) is Some ==> b.pending_permission is None && b.permission_reply
            is Some,
        permission_answer(code) is None ==> b == a,
{
}

/// A tool that was allowed for good is allowed from then on, and no tool loses
/// that.
pub proof fn always_means_always(a: App, code: KeyCode, b: App, tool: Seq<char>)
    requires
        permission_key(a, code, b),
    ensures
        a.is_auto_allowed(tool) ==> b.is_auto_allowed(tool),
        permission_answer(code) == Some((true, true)) ==> (a.pending_permission matches Some(p)
            ==> b.is_auto_allowed(p.tool_name@)),
{
    if a.is_auto_allowed(tool) {
        let i = choose|i: int|
            0 <= i < a.auto_allowed_tools@.len() && (#[trigger] a.auto_allowed_tools@[i])@ == tool;
        assert(b.auto_allowed_tools@[i]@ == tool);
    }
    if permission_answer(code) == Some((true, true)) && a.pending_permission is Some {
        let name = a.pending_permission->Some_0.tool_name@;
        if a.is_auto_allowed(name) {
            let i = choose|i: int|
                0 <= i < a.auto_allowed_tools@.len() && (#[trigger] a.auto_allowed_tools@[i])@
                    == name;
            assert(b.auto_allowed_tools@[i]@ == name);
        } else {
            assert(b.auto_allowed_tools@.last()@ == name);
        }
    }
}

// ---------------------------------------------------------------------------
// The prompt
// ---------------------------------------------------------------------------

/// The cycle of modes leads back to where it began.
pub proof fn modes_come_round(m: InputMode)
    requires
        m == InputMode::Prompt || m == InputMode::Bash || m == InputMode::Note,
    ensures
        next_mode(next_mode(next_mode(m))) == m,
{
}

/// What is typed can be taken back: a character and a backspace leave the text
/// and the cursor where they were.
pub proof fn backspace_undoes_typing(
    p: PromptInputState,
    c: char,
    q: PromptInputState,
    s: PromptInputState,
)
    requires
        p.wf(),
        inserted(p, c, q),
        backspaced(q, s),
    ensures
        s.buffer@ == p.buffer@,
        s.index() == p.index(),
        s.mode == p.mode,
        s.history == p.history,
{
    assert(p.is_at(p.index()));
    assert(s.buffer@ =~= p.buffer@);
}

/// A submission can be recalled: one step back in the history shows it again.
pub proof fn submission_can_be_recalled(
    p: PromptInputState,
    entry: Seq<char>,
    q: PromptInputState,
    s: PromptInputState,
)
    requires
        recorded(p, entry, q),
        entry.len() > 0,
        stepped_back(q, s),
    ensures
        s.shows(entry),
{
}

/// A submission comes back in the mode that it was made in, without the marker
/// that the history keeps of it. In the ordinary mode, which has no marker, the
/// text must not start with one.
pub proof fn submission_comes_back_in_its_mode(
    p: PromptInputState,
    m: InputMode,
    text: Seq<char>,
    q: PromptInputState,
    s: PromptInputState,
)
    requires
        m == InputMode::Prompt || m == InputMode::Bash || m == InputMode::Note || m
            == InputMode::Command,
        m == InputMode::Prompt ==> entry_mode(text) == InputMode::Prompt,
        text.len() > 0,
        recorded(p, mode_prefix(m) + text, q),
        stepped_back(q, s),
    ensures
        s.mode == m,
        s.buffer@ == text,
{
    history_prefix_is_stripped(m, text);
    submission_can_be_recalled(p, mode_prefix(m) + text, q, s);
}

/// Scrolling a page up and a page down again leads back, away from the ends of
/// the range.
pub proof fn pages_cancel_out(scroll: u16, by: u16)
    requires
        scroll + by <= u16::MAX,
    ensures
        scrolled(scrolled(scroll, by, false), by, true) == scroll,
{
}

/// While the history is being searched, every key leaves the selection among
/// the matches, or at the first place where there are none.
pub proof fn search_selection_stays_in_range(a: App, code: KeyCode, b: App)
    requires
        a.hsearch_selected < a.hsearch_matches@.len() || a.hsearch_selected == 0,
        search_key(a, code, b),
    ensures
        b.hsearch_selected < b.hsearch_matches@.len() || b.hsearch_selected == 0,
{
}

/// Submitting a message in the ordinary mode shows it, starts a turn, empties
/// the prompt, keeps the message in the history and hands it to the worker.
pub proof fn submitting_sends_the_message(a: App, b: App, r: Option<UserAction>)
    requires
        a.prompt.mode == InputMode::Prompt,
        a.prompt.buffer@.len() > 0,
        submitted(a, b, r),
    ensures
        r matches Some(UserAction::SendMessage(t)) && t@ == a.prompt.buffer@,
        b.transcript() == a.transcript().push(BlockModel::User { text: a.prompt.buffer@ }),
        b.turn.running,
        b.scroll_offset == 0,
        b.prompt.is_clear(),
        b.turn_count == capped_sum(a.turn_count, 1),
{
}

/// An empty prompt is never submitted.
pub proof fn empty_prompt_is_not_submitted(a: App, b: App, r: Option<UserAction>)
    requires
        a.prompt.buffer@.len() == 0,
        submitted(a, b, r),
    ensures
        r is None,
        b == a,
{
}

// ---------------------------------------------------------------------------
// Panels
// ---------------------------------------------------------------------------

/// The selection of a panel stays within its items.
pub proof fn panel_selection_stays_in_range(selected: usize, item_count: usize, up: bool)
    requires
        selected < item_count,
    ensures
        moved_selection(selected, item_count, up) < item_count,
{
}

/// A step down and a step up lead back, away from the end of the list.
pub proof fn steps_cancel_out(selected: usize, item_count: usize)
    requires
        selected + 1 < item_count,
    ensures
        moved_selection(moved_selection(selected, item_count, false), item_count, true)
            == selected,
{
}

/// The panel of saved sessions gives back what it was opened with: with item `i`
/// selected, confirming it resumes session `i`. The directories up to it hold no
/// line feed, and its own neither ends in a carriage return, which the line
/// ending of any row but the last would swallow, nor is it empty in the last
/// row.
pub proof fn resume_panel_gives_the_session(a: App, i: usize)
    requires
        i < a.around.sessions@.len(),
        forall|j: int|
            0 <= j <= i ==> !(#[trigger] a.around.sessions@[j]).session_dir@.contains('\n'),
        i + 1 == a.around.sessions@.len() ==> a.around.sessions@[i as int].session_dir@.len() > 0,
        i + 1 < a.around.sessions@.len() ==> without_cr(
            a.around.sessions@[i as int].session_dir@,
        ) == a.around.sessions@[i as int].session_dir@,
    ensures
        chosen_session(PanelModel { selected: Some(i), ..resume_panel(a) }) == Some(
            a.around.sessions@[i as int].session_dir@,
        ),
{
    let dirs = session_dirs(a.around.sessions@);
    assert(dirs[i as int] == a.around.sessions@[i as int].session_dir@);
    assert forall|j: int| 0 <= j <= i implies !(#[trigger] dirs[j]).contains('\n') by {
        assert(dirs[j] == a.around.sessions@[j].session_dir@);
    }
    joined_lines_come_back(dirs, i as int);
}

// ---------------------------------------------------------------------------
// Events
// ---------------------------------------------------------------------------

/// A user who scrolled up keeps their place while an answer, a tool or a turn
/// goes on: only the events that call for attention show the end of the
/// transcript.
pub proof fn scroll_position_is_kept(a: App, ev: UiEvent, b: App)
    requires
        event_applied(a, ev, b),
        !jumps_to_end(ev),
    ensures
        b.scroll_offset == a.scroll_offset,
{
}

/// No event touches what is being typed, or quits.
pub proof fn events_leave_the_prompt_alone(a: App, ev: UiEvent, b: App)
    requires
        event_applied(a, ev, b),
    ensures
        b.prompt == a.prompt,
        b.should_quit == a.should_quit,
        b.selection == a.selection,
{
}

/// A turn that is over leaves the interface idle, however it ended.
pub proof fn ended_turn_leaves_idle(a: App, ev: UiEvent, b: App)
    requires
        event_applied(a, ev, b),
        ev is TurnFinished || ev is Interrupted,
    ensures
        idle(b.turn),
        b.pending_latency_ms is None,
{
}

/// The start of a turn sets the counts of the turn back and keeps those of the
/// session.
pub proof fn turn_start_keeps_totals(a: App, b: App)
    requires
        event_applied(a, UiEvent::TurnStarted, b),
    ensures
        underway(b.turn),
        b.usage.turn_cache_hit == 0,
        b.usage.turn_cache_miss == 0,
        b.usage.total_input == a.usage.total_input,
        b.usage.total_output == a.usage.total_output,
        b.usage.total_cache_hit == a.usage.total_cache_hit,
        b.usage.total_cache_miss == a.usage.total_cache_miss,
        b.usage.last_turn_cache == a.usage.last_turn_cache,
{
}

/// The totals of the session never go down with a report of the usage.
pub proof fn totals_only_grow(
    a: App,
    input_tokens: u64,
    output_tokens: u64,
    cache_hit_tokens: u64,
    cache_miss_tokens: u64,
    b: App,
)
    requires
        event_applied(
            a,
            UiEvent::Usage { input_tokens, output_tokens, cache_hit_tokens, cache_miss_tokens },
            b,
        ),
    ensures
        b.usage.total_input >= a.usage.total_input,
        b.usage.total_output >= a.usage.total_output,
        b.usage.total_cache_hit >= a.usage.total_cache_hit,
        b.usage.total_cache_miss >= a.usage.total_cache_miss,
{
}

/// The pieces of an answer add up: two pieces leave the transcript that their
/// concatenation leaves.
pub proof fn streamed_pieces_add_up(
    blocks: Seq<BlockModel>,
    x: Seq<char>,
    y: Seq<char>,
    latency: Option<u64>,
)
    ensures
        answer_streamed(answer_streamed(blocks, x, latency), y, latency) == answer_streamed(
            blocks,
            x + y,
            latency,
        ),
{
    let once = answer_streamed(blocks, x, latency);
    if blocks.len() > 0 && is_streaming_answer(blocks.last()) {
        let text = blocks.last()->Assistant_text;
        assert((text + x) + y =~= text + (x + y));
        assert(answer_streamed(once, y, latency) =~= answer_streamed(blocks, x + y, latency));
    } else {
        assert(answer_streamed(once, y, latency) =~= answer_streamed(blocks, x + y, latency));
    }
}

/// The whole answer takes the place of the pieces that came before it: it
/// stands once in the transcript.
pub proof fn whole_answer_replaces_its_pieces(
    blocks: Seq<BlockModel>,
    piece: Seq<char>,
    content: Seq<char>,
    latency: Option<u64>,
)
    requires
        !(blocks.len() > 0 && is_streaming_answer(blocks.last())),
    ensures
        answer_finished(answer_streamed(blocks, piece, latency), content, latency)
            == answer_finished(blocks, content, latency),
{
    assert(answer_finished(answer_streamed(blocks, piece, latency), content, latency)
        =~= answer_finished(blocks, content, latency));
}

} // verus!
