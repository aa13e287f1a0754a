//! Esc and Ctrl+C.
use std::time::Instant;

use vstd::prelude::*;
#[allow(unused_imports)]
use vstd::string::*;

use crate::app::keyboard::{ctrl_c_pressed_after, esc_pressed, key_pressed};
use crate::app::App;
use crate::events::UserAction;
use crate::input_state::InputMode;
use crate::keys::{KeyCode, KeyEvent};
use crate::model::TranscriptBlock;

verus! {

/// Whether nothing but the prompt has the keyboard.
pub open spec fn prompt_has_the_keyboard(a: App) -> bool {
    &&& a.pending_permission is None
    &&& !a.plan_awaiting_approval
    &&& !a.plan_mode_request_pending
    &&& a.modals@.len() == 0
}

/// Whether the prompt is empty and in the ordinary mode.
pub open spec fn nothing_typed(a: App) -> bool {
    a.prompt.buffer@.len() == 0 && a.prompt.mode == InputMode::Prompt
}

/// Whether `b` shows what `a` shows, and behind it a note with that text.
pub open spec fn notes(a: App, text: Seq<char>, b: App) -> bool {
    &&& b.blocks@.len() == a.blocks@.len() + 1
    &&& forall|j: int| 0 <= j < a.blocks@.len() ==> (#[trigger] b.blocks@[j])@ == a.blocks@[j]@
    &&& b.blocks@.last() matches TranscriptBlock::System { text: t } && t@ == text
}

/// Whether the prompt of `b` is that of `a` with the text dropped, back in the
/// ordinary mode.
pub open spec fn drops_the_text(a: App, b: App) -> bool {
    &&& b.prompt.buffer@.len() == 0
    &&& b.prompt.cursor == 0
    &&& b.prompt.mode == InputMode::Prompt
    &&& b.prompt.history_idx is None
    &&& b.prompt.history@ == a.prompt.history@
    &&& b.blocks == a.blocks
    &&& b.turn == a.turn
}

proof fn note_is_last(a: App, b: App, text: Seq<char>)
    requires
        b.transcript() == a.transcript().push(crate::model::BlockModel::System { text }),
    ensures
        notes(a, text, b),
{
    assert(b.transcript().len() == b.blocks@.len());
    assert(b.transcript().last() == b.blocks@.last()@);
    assert forall|j: int| 0 <= j < a.blocks@.len() implies (#[trigger] b.blocks@[j])@
        == a.blocks@[j]@ by {
        assert(b.transcript()[j] == b.blocks@[j]@);
        assert(a.transcript()[j] == a.blocks@[j]@);
    }
}

/// Esc at an empty prompt interrupts the turn that runs, and says so.
pub proof fn esc_interrupts_the_turn(a: App, key: KeyEvent, b: App, r: Option<UserAction>)
    requires
        key_pressed(a, key, b, r),
        key.code == KeyCode::Esc,
        prompt_has_the_keyboard(a),
        nothing_typed(a),
        a.turn.running,
    ensures
        r == Some(UserAction::Interrupt),
        notes(a, "Interrupting… (press Ctrl+C again to exit)"@, b),
        b.prompt == a.prompt,
        b.turn == a.turn,
        b.should_quit == a.should_quit,
{
    note_is_last(a, b, "Interrupting… (press Ctrl+C again to exit)"@);
}

/// A single Ctrl+C at an empty prompt interrupts the turn that runs as Esc does,
/// and is remembered.
pub proof fn ctrl_c_interrupts_the_turn(
    a: App,
    since: Option<u64>,
    at: Instant,
    b: App,
    r: Option<UserAction>,
)
    requires
        ctrl_c_pressed_after(a, since, at, b, r),
        since is None || since->Some_0 > 1_000_000_000,
        a.modals@.len() == 0,
        nothing_typed(a),
        a.turn.running,
    ensures
        r == Some(UserAction::Interrupt),
        notes(a, "Interrupting… (press Ctrl+C again to exit)"@, b),
        b.double_press.last_ctrl_c_at == Some(at),
        b.prompt == a.prompt,
        b.turn == a.turn,
        b.should_quit == a.should_quit,
{
    note_is_last(a, b, "Interrupting… (press Ctrl+C again to exit)"@);
}

/// Esc and a single Ctrl+C ask the same of the worker wherever no dialog is open,
/// and neither quits.
pub proof fn esc_and_ctrl_c_agree(
    a: App,
    at: Instant,
    b: App,
    r: Option<UserAction>,
    c: App,
    s: Option<UserAction>,
)
    requires
        a.modals@.len() == 0,
        esc_pressed(a, at, b, r),
        ctrl_c_pressed_after(a, None, at, c, s),
    ensures
        r == s,
        r is Some <==> a.turn.running && nothing_typed(a),
        b.prompt.buffer@ == c.prompt.buffer@,
        b.prompt.mode == c.prompt.mode,
        b.should_quit == a.should_quit,
        c.should_quit == a.should_quit,
{
}

/// Esc drops what is being typed, and interrupts nothing then.
pub proof fn esc_drops_the_text(a: App, key: KeyEvent, b: App, r: Option<UserAction>)
    requires
        key_pressed(a, key, b, r),
        key.code == KeyCode::Esc,
        prompt_has_the_keyboard(a),
        a.prompt.mode == InputMode::Prompt || a.prompt.mode == InputMode::Bash || a.prompt.mode
            == InputMode::Note,
        !nothing_typed(a),
    ensures
        r is None,
        drops_the_text(a, b),
{
}

/// A single Ctrl+C closes the dialog on top, and keeps what is being typed; it
/// drops that where no dialog is open.
pub proof fn ctrl_c_leaves_step_by_step(
    a: App,
    since: Option<u64>,
    at: Instant,
    b: App,
    r: Option<UserAction>,
)
    requires
        ctrl_c_pressed_after(a, since, at, b, r),
        since is None || since->Some_0 > 1_000_000_000,
    ensures
        !b.should_quit || a.should_quit,
        b.double_press.last_ctrl_c_at == Some(at),
        a.modals@.len() > 0 ==> r is None && b.modals@ == a.modals@.drop_last() && b.prompt
            == a.prompt && b.blocks == a.blocks,
        a.modals@.len() == 0 && !nothing_typed(a) ==> r is None && drops_the_text(a, b),
        a.modals@.len() == 0 && nothing_typed(a) && !a.turn.running ==> r is None && notes(
            a,
            "Press Ctrl+C again to exit"@,
            b,
        ),
{
    if a.modals@.len() == 0 && nothing_typed(a) && !a.turn.running {
        note_is_last(a, b, "Press Ctrl+C again to exit"@);
    }
}

/// The second press of a double Ctrl+C quits at once, whatever is open or typed,
/// and asks nothing of the worker.
pub proof fn double_ctrl_c_quits(
    a: App,
    nanos: u64,
    at: Instant,
    b: App,
    r: Option<UserAction>,
)
    requires
        ctrl_c_pressed_after(a, Some(nanos), at, b, r),
        nanos <= 1_000_000_000,
    ensures
        b.should_quit,
        r is None,
        b.double_press.last_ctrl_c_at is None,
        b.prompt == a.prompt,
        b.blocks == a.blocks,
        b.modals == a.modals,
{
}

} // verus!
