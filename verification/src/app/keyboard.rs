//! The keyboard: what each key does.
use std::time::Instant;

use vstd::prelude::*;
#[allow(unused_imports)]
use vstd::string::*;

use crate::app::dialogs::{
    dialog_closed, inline_plan_key, modal_key_action, permission_key, plan_request_key,
};
use crate::app::dispatch::{line_ran, message_sent};
use crate::app::event_loop::note;
use crate::app::panels::{panel_closed, panel_key, scroll_by, scrolled};
use crate::app::popups::{
    atfile_entered, atfile_key, atfile_left, menu_key, search_entered, search_key, search_left,
};
use crate::app::{App, DoublePress};
use crate::clock::elapsed_nanos;
use crate::command_menu::{is_menu, MenuEntry};
use crate::events::UserAction;
use crate::input_state::{
    backspaced, cleared, deleted, inserted, line_above, line_below, line_end, line_start,
    mode_prefix, moved, next_mode, place_is_kept, recorded, stepped_back, stepped_forward,
    InputMode, PromptInputState,
};
use crate::keys::{KeyCode, KeyEvent};
use crate::modal::Modal;
use crate::model::{BlockModel, TranscriptBlock};
use crate::text::concat2;
use crate::transcript::expansion_toggled;

verus! {

/// Two presses within this time count as a double press.
pub const DOUBLE_PRESS_WINDOW_NANOS: u64 = 1_000_000_000;

// ---------------------------------------------------------------------------
// Interrupting and leaving
// ---------------------------------------------------------------------------

/// Whether something is being typed, or the prompt is in a special mode.
pub open spec fn is_typing(a: App) -> bool {
    a.prompt.buffer@.len() > 0 || a.prompt.mode != InputMode::Prompt
}

/// Whether `b` is `a` with an empty prompt in the ordinary mode.
pub open spec fn prompt_cleared(a: App, b: App) -> bool {
    b == (App { prompt: b.prompt, ..a }) && cleared(a.prompt, b.prompt)
}

/// The state once the time of a press of Esc is noted.
pub open spec fn esc_noted(a: App, at: Option<Instant>) -> App {
    App { double_press: DoublePress { last_esc_at: at, ..a.double_press }, ..a }
}

/// The state once the time of a press of Ctrl+C is noted.
pub open spec fn ctrl_c_noted(a: App, at: Option<Instant>) -> App {
    App { double_press: DoublePress { last_ctrl_c_at: at, ..a.double_press }, ..a }
}

/// What Esc does: it clears the prompt, or else interrupts the turn. It never
/// quits.
pub open spec fn esc_pressed(a: App, at: Instant, b: App, r: Option<UserAction>) -> bool {
    let noted = esc_noted(a, Some(at));
    if is_typing(a) {
        prompt_cleared(noted, b) && r is None
    } else if a.turn.running {
        &&& App::appended(noted, note("Interrupting… (press Ctrl+C again to exit)"@), b)
        &&& r == Some(UserAction::Interrupt)
    } else {
        b == noted && r is None
    }
}

/// What Ctrl+C does: the second press of a double press quits, and a single one
/// closes a dialog, or else clears the prompt, or else interrupts the turn, or
/// else says how to quit.
pub open spec fn ctrl_c_pressed(
    a: App,
    is_second: bool,
    at: Instant,
    b: App,
    r: Option<UserAction>,
) -> bool {
    let noted = ctrl_c_noted(a, Some(at));
    if is_second {
        b == (App { should_quit: true, ..ctrl_c_noted(a, None) }) && r is None
    } else if a.modals@.len() > 0 {
        dialog_closed(noted, b) && r is None
    } else if is_typing(a) {
        prompt_cleared(noted, b) && r is None
    } else if a.turn.running {
        &&& App::appended(noted, note("Interrupting… (press Ctrl+C again to exit)"@), b)
        &&& r == Some(UserAction::Interrupt)
    } else {
        App::appended(noted, note("Press Ctrl+C again to exit"@), b) && r is None
    }
}

/// Whether a press is the second one of a double press: one came before it, and
/// no more nanoseconds ago than the window is long.
pub open spec fn in_window(since: Option<u64>) -> bool {
    since matches Some(n) && n <= DOUBLE_PRESS_WINDOW_NANOS
}

/// What Ctrl+C does, given the nanoseconds since the press before it.
pub open spec fn ctrl_c_pressed_after(
    a: App,
    since: Option<u64>,
    at: Instant,
    b: App,
    r: Option<UserAction>,
) -> bool {
    ctrl_c_pressed(a, in_window(since), at, b, r)
}

/// Whether a press counts as the second one, given the nanoseconds since the
/// press before it.
pub fn is_double_press(since: Option<u64>) -> (r: bool)
    ensures
        r == in_window(since),
{
    match since {
        Some(n) => n <= DOUBLE_PRESS_WINDOW_NANOS,
        None => false,
    }
}

impl App {
    fn is_being_typed(&self) -> (r: bool)
        ensures
            r == is_typing(*self),
    {
        self.prompt.buffer.as_str().unicode_len() > 0 || self.prompt.mode != InputMode::Prompt
    }

    /// Handles Esc at the prompt, at the given time.
    pub fn press_esc(&mut self, now: Instant) -> (r: Option<UserAction>)
        requires
            old(self).wf(),
        ensures
            esc_pressed(*old(self), now, *final(self), r),
            final(self).wf(),
    {
        self.double_press.last_esc_at = Some(now);
        if self.is_being_typed() {
            self.prompt.clear();
            return None;
        }
        if self.turn.running {
            self.push_system("Interrupting… (press Ctrl+C again to exit)");
            return Some(UserAction::Interrupt);
        }
        None
    }

    /// Handles Esc at the prompt.
    pub fn handle_esc(&mut self) -> (r: Option<UserAction>)
        requires
            old(self).wf(),
        ensures
            exists|at: Instant| esc_pressed(*old(self), at, *final(self), r),
            final(self).wf(),
    {
        self.press_esc(Instant::now())
    }

    /// Handles Ctrl+C at the given time, as the second press of a double press
    /// or as a single one.
    pub fn press_ctrl_c(&mut self, is_second: bool, now: Instant) -> (r: Option<UserAction>)
        requires
            old(self).wf(),
        ensures
            ctrl_c_pressed(*old(self), is_second, now, *final(self), r),
            final(self).wf(),
    {
        if is_second {
            self.should_quit = true;
            self.double_press.last_ctrl_c_at = None;
            return None;
        }
        self.double_press.last_ctrl_c_at = Some(now);
        if self.modals.len() > 0 {
            self.modals.pop();
            proof {
                assert(self.modals@ =~= old(self).modals@.drop_last());
            }
            return None;
        }
        if self.is_being_typed() {
            self.prompt.clear();
            return None;
        }
        if self.turn.running {
            self.push_system("Interrupting… (press Ctrl+C again to exit)");
            return Some(UserAction::Interrupt);
        }
        self.push_system("Press Ctrl+C again to exit");
        None
    }

    /// Handles Ctrl+C at the given time, given the nanoseconds since the press
    /// before it.
    pub fn press_ctrl_c_after(&mut self, since: Option<u64>, now: Instant) -> (r: Option<
        UserAction,
    >)
        requires
            old(self).wf(),
        ensures
            ctrl_c_pressed_after(*old(self), since, now, *final(self), r),
            final(self).wf(),
    {
        let is_second: bool = is_double_press(since);
        self.press_ctrl_c(is_second, now)
    }

    /// Handles Ctrl+C. The clock says how long ago the press before it was; what
    /// it says is not stated.
    pub fn handle_ctrl_c(&mut self) -> (r: Option<UserAction>)
        requires
            old(self).wf(),
        ensures
            exists|since: Option<u64>, at: Instant|
                (since is Some <==> old(self).double_press.last_ctrl_c_at is Some)
                    && #[trigger] ctrl_c_pressed_after(*old(self), since, at, *final(self), r),
            final(self).wf(),
    {
        let now: Instant = Instant::now();
        let since: Option<u64> = match &self.double_press.last_ctrl_c_at {
            Some(at) => Some(elapsed_nanos(at)),
            None => None,
        };
        self.press_ctrl_c_after(since, now)
    }
}

// ---------------------------------------------------------------------------
// Typing
// ---------------------------------------------------------------------------

/// Whether `b` is `a` with another mode.
pub open spec fn mode_set(a: App, mode: InputMode, b: App) -> bool {
    b == (App { prompt: PromptInputState { mode, ..a.prompt }, ..a })
}

/// What a character does at the prompt: a marker at the start of an empty
/// prompt switches the mode, an `@` in the ordinary mode starts to offer file
/// names, and any other character is inserted.
pub open spec fn char_typed(a: App, c: char, b: App) -> bool {
    let at_start = a.prompt.buffer@.len() == 0 && a.prompt.mode == InputMode::Prompt;
    if at_start && c == '!' {
        mode_set(a, InputMode::Bash, b)
    } else if at_start && c == '#' {
        mode_set(a, InputMode::Note, b)
    } else if at_start && c == '/' {
        App::skills_reloaded(
            App { prompt: PromptInputState { mode: InputMode::Command, ..a.prompt }, ..a },
            b,
        )
    } else if c == '@' && a.prompt.mode == InputMode::Prompt {
        exists|mid: App|
            mid == (App { prompt: mid.prompt, ..a }) && inserted(a.prompt, '@', mid.prompt)
                && #[trigger] atfile_entered(mid, b)
    } else {
        b == (App { prompt: b.prompt, ..a }) && inserted(a.prompt, c, b.prompt)
    }
}

/// Whether `b` is `a` with one more block, shown at the end of the transcript.
pub open spec fn block_shown(a: App, block: BlockModel, b: App) -> bool {
    &&& b == (App { blocks: b.blocks, scroll_offset: 0, ..a })
    &&& b.transcript() == a.transcript().push(block)
}

/// Whether a message is sent.
pub open spec fn sends(r: Option<UserAction>, text: Seq<char>) -> bool {
    r matches Some(UserAction::SendMessage(t)) && t@ == text
}

/// What becomes of the text of the prompt when it is submitted.
pub open spec fn text_taken(a: App, b: App, r: Option<UserAction>) -> bool {
    let text = a.prompt.buffer@;
    match a.prompt.mode {
        InputMode::Prompt => message_sent(a, text, b) && sends(r, text),
        InputMode::Bash => {
            &&& block_shown(a, BlockModel::User { text: "!"@ + text }, b)
            &&& r matches Some(UserAction::RunShell(t)) && t@ == text
        },
        InputMode::Note => block_shown(a, note("# "@ + text), b) && r is None,
        InputMode::Command => line_ran(a, text, b, r),
        InputMode::AtFile => {
            &&& sends(r, text)
            &&& exists|mid: App| #[trigger] atfile_left(a, mid) && message_sent(mid, text, b)
        },
        InputMode::HistorySearch => {
            &&& sends(r, text)
            &&& exists|mid: App| #[trigger] search_left(a, mid) && message_sent(mid, text, b)
        },
        InputMode::CommandInteract => panel_closed(a, b) && r is None,
    }
}

/// Whether `b` is `a` ready for the next input, with the submission in the
/// history. Where a panel was opened, the prompt is only emptied.
pub open spec fn prompt_renewed(a: App, entry: Seq<char>, b: App) -> bool {
    &&& b == (App { prompt: b.prompt, command_menu_selected: None, ..a })
    &&& if a.prompt.mode != InputMode::CommandInteract {
        recorded(a.prompt, entry, b.prompt)
    } else {
        &&& b.prompt == (PromptInputState {
            buffer: b.prompt.buffer,
            cursor: 0,
            history_idx: None,
            ..a.prompt
        })
        &&& b.prompt.buffer@.len() == 0
    }
}

/// What submitting the prompt does.
pub open spec fn submitted(a: App, b: App, r: Option<UserAction>) -> bool {
    if a.prompt.buffer@.len() == 0 {
        b == a && r is None
    } else {
        exists|mid: App| #[trigger]
            text_taken(a, mid, r) && prompt_renewed(
                mid,
                mode_prefix(a.prompt.mode) + a.prompt.buffer@,
                b,
            )
    }
}

impl App {
    /// Handles a character at the prompt.
    pub fn handle_char_input(&mut self, c: char)
        requires
            old(self).wf(),
        ensures
            char_typed(*old(self), c, *final(self)),
            final(self).wf(),
    {
        if self.prompt.buffer.as_str().unicode_len() == 0 && self.prompt.mode == InputMode::Prompt {
            if c == '!' || c == '#' || c == '/' {
                self.prompt.mode = if c == '!' {
                    InputMode::Bash
                } else if c == '#' {
                    InputMode::Note
                } else {
                    InputMode::Command
                };
                proof {
                    place_is_kept(old(self).prompt, self.prompt);
                }
                if c == '/' {
                    self.try_reload_skills();
                }
                return ;
            }
        }
        if c == '@' && self.prompt.mode == InputMode::Prompt {
            self.prompt.insert_char('@');
            self.enter_atfile_mode();
            return ;
        }
        self.prompt.insert_char(c);
    }

    fn take_text(&mut self) -> (r: Option<UserAction>)
        requires
            old(self).wf(),
        ensures
            text_taken(*old(self), *final(self), r),
            final(self).wf(),
    {
        let body: String = self.prompt.buffer.clone();
        match self.prompt.mode {
            InputMode::Prompt => {
                self.send_message(body.clone());
                Some(UserAction::SendMessage(body))
            },
            InputMode::Bash => {
                let text: String = concat2("!", body.as_str());
                self.push_block(TranscriptBlock::User { text });
                self.scroll_to_bottom();
                Some(UserAction::RunShell(body))
            },
            InputMode::Note => {
                let text: String = concat2("# ", body.as_str());
                self.push_system(text.as_str());
                self.scroll_to_bottom();
                None
            },
            InputMode::Command => self.dispatch_slash_command(body.as_str()),
            InputMode::AtFile => {
                self.exit_atfile_mode();
                self.send_message(body.clone());
                Some(UserAction::SendMessage(body))
            },
            InputMode::HistorySearch => {
                self.exit_history_search_mode();
                self.send_message(body.clone());
                Some(UserAction::SendMessage(body))
            },
            InputMode::CommandInteract => {
                self.close_command_panel();
                proof {
                    place_is_kept(old(self).prompt, self.prompt);
                }
                None
            },
        }
    }

    /// Submits what was typed, in the way of the prompt's mode.
    pub fn submit_prompt(&mut self) -> (r: Option<UserAction>)
        requires
            old(self).wf(),
        ensures
            submitted(*old(self), *final(self), r),
            final(self).wf(),
    {
        if self.prompt.buffer.as_str().unicode_len() == 0 {
            return None;
        }
        let entry: String = concat2(
            self.prompt.mode.history_prefix(),
            self.prompt.buffer.as_str(),
        );
        let action: Option<UserAction> = self.take_text();
        let ghost mid = *self;
        if self.prompt.mode != InputMode::CommandInteract {
            self.prompt.record_submission(entry);
        } else {
            self.prompt.set_buffer(String::new());
            self.prompt.cursor = 0;
            self.prompt.history_idx = None;
            proof {
                assert(self.prompt.is_at(0));
            }
        }
        self.command_menu_selected = None;
        proof {
            assert(text_taken(*old(self), mid, action));
        }
        action
    }
}

// ---------------------------------------------------------------------------
// All keys
// ---------------------------------------------------------------------------

/// The keys that move the cursor, and where to.
pub open spec fn cursor_target(p: PromptInputState, code: KeyCode) -> Option<int> {
    match code {
        KeyCode::Left => Some(
            if p.index() > 0 {
                p.index() - 1
            } else {
                0
            },
        ),
        KeyCode::Right => Some(
            if p.index() < p.buffer@.len() {
                p.index() + 1
            } else {
                p.index()
            },
        ),
        KeyCode::Home => Some(line_start(p.buffer@, p.index())),
        KeyCode::End => Some(line_end(p.buffer@, p.index())),
        _ => None,
    }
}

/// Whether Up walks the history: while it is being walked, and from an empty
/// prompt.
pub open spec fn walks_up(a: App) -> bool {
    a.prompt.history@.len() > 0 && (a.prompt.history_idx is Some || a.prompt.buffer@.len() == 0)
}

/// How far a key scrolls the transcript, and whether towards its end.
pub open spec fn transcript_scroll(key: KeyEvent) -> Option<(u16, bool)> {
    match key.code {
        KeyCode::PageUp => Some((20, false)),
        KeyCode::PageDown => Some((20, true)),
        KeyCode::Up => if key.modifiers.shift {
            Some((3, false))
        } else {
            None
        },
        KeyCode::Down => if key.modifiers.shift {
            Some((3, true))
        } else {
            None
        },
        _ => None,
    }
}

/// Whether a key starts a new line in the prompt.
pub open spec fn breaks_line(key: KeyEvent) -> bool {
    key.is_ctrl('j') || (key.code == KeyCode::Enter && key.modifiers.some_held())
}

/// What a key does to the prompt itself: its text, its cursor and its history.
pub open spec fn prompt_key(p: PromptInputState, key: KeyEvent, q: PromptInputState) -> bool {
    match key.code {
        KeyCode::Backspace => if p.buffer@.len() == 0 && p.mode != InputMode::Prompt {
            q == (PromptInputState { mode: InputMode::Prompt, ..p })
        } else {
            backspaced(p, q)
        },
        KeyCode::Delete => deleted(p, q),
        KeyCode::Up => stepped_back(p, q),
        KeyCode::Down => stepped_forward(p, q),
        _ => match cursor_target(p, key.code) {
            Some(k) => moved(p, k, q),
            None => q == p,
        },
    }
}

/// What a key does in the conversation.
pub open spec fn chat_key(a: App, key: KeyEvent, b: App, r: Option<UserAction>) -> bool {
    if breaks_line(key) {
        r is None && b == (App { prompt: b.prompt, ..a }) && inserted(a.prompt, '\n', b.prompt)
    } else if key.code == KeyCode::Enter {
        submitted(a, b, r)
    } else if key.code == KeyCode::Esc {
        exists|at: Instant| esc_pressed(a, at, b, r)
    } else {
        &&& r is None
        &&& match (transcript_scroll(key), key.code) {
            (Some((by, to_end)), _) => b == (App {
                scroll_offset: scrolled(a.scroll_offset, by, to_end),
                ..a
            }),
            (None, KeyCode::Char(c)) => char_typed(a, c, b),
            (None, KeyCode::Up) if !walks_up(a) => b == a,
            (None, _) => b == (App { prompt: b.prompt, ..a }) && prompt_key(
                a.prompt,
                key,
                b.prompt,
            ),
        }
    }
}

/// The control keys that move the cursor, and where to.
pub open spec fn ctrl_target(p: PromptInputState, c: char) -> Option<int> {
    if c == 'a' {
        cursor_target(p, KeyCode::Home)
    } else if c == 'b' {
        cursor_target(p, KeyCode::Left)
    } else if c == 'f' {
        cursor_target(p, KeyCode::Right)
    } else if c == 'e' && p.buffer@.len() > 0 {
        cursor_target(p, KeyCode::End)
    } else if c == 'p' {
        Some(line_above(p.buffer@, p.index()))
    } else if c == 'n' {
        Some(line_below(p.buffer@, p.index()))
    } else {
        None
    }
}

/// Whether the control key together with `c` has a meaning of its own.
pub open spec fn is_shortcut(c: char) -> bool {
    c == 'a' || c == 'b' || c == 'e' || c == 'f' || c == 'n' || c == 'o' || c == 'p' || c == 'r'
}

/// What a control key does at the prompt.
pub open spec fn shortcut_key(a: App, c: char, b: App) -> bool {
    match ctrl_target(a.prompt, c) {
        Some(k) => b == (App { prompt: b.prompt, ..a }) && moved(a.prompt, k, b.prompt),
        None => if c == 'e' {
            &&& b == (App { blocks: b.blocks, ..a })
            &&& b.transcript() == expansion_toggled(a.transcript())
        } else if c == 'o' {
            b == (App { modals: b.modals, ..a }) && b.modals@ == a.modals@.push(
                Modal::ContextUsage,
            )
        } else if c == 'r' && a.prompt.mode == InputMode::Prompt {
            search_entered(a, b)
        } else if c == 'r' && a.prompt.mode == InputMode::HistorySearch
            && a.hsearch_matches@.len() > 0 {
            b == (App {
                hsearch_selected: ((a.hsearch_selected + 1)
                    % a.hsearch_matches@.len() as int) as usize,
                ..a
            })
        } else {
            b == a
        },
    }
}

/// What a key does at the prompt, in any of its modes.
pub open spec fn typing_key(a: App, key: KeyEvent, b: App, r: Option<UserAction>) -> bool {
    match key.code {
        KeyCode::BackTab => r is None && mode_set(a, next_mode(a.prompt.mode), b),
        _ => if a.prompt.mode == InputMode::HistorySearch {
            r is None && search_key(a, key.code, b)
        } else if a.prompt.mode == InputMode::AtFile {
            r is None && atfile_key(a, key.code, b)
        } else if a.prompt.mode == InputMode::Command {
            exists|entries: Seq<MenuEntry<'_>>, mid: App, taken: Option<Option<UserAction>>|
                is_menu(a.commands, a.prompt.buffer@, entries) && #[trigger] menu_key(
                    a,
                    key.code,
                    entries,
                    mid,
                    taken,
                ) && match taken {
                    Some(action) => b == mid && r == action,
                    None => chat_key(mid, key, b, r),
                }
        } else {
            chat_key(a, key, b, r)
        },
    }
}

/// What a key does. It goes to whatever has the keyboard: Ctrl+C above all, a
/// permission request, an open panel, a plan or a request to plan, a dialog,
/// and at last the prompt.
pub open spec fn key_pressed(a: App, key: KeyEvent, b: App, r: Option<UserAction>) -> bool {
    if key.is_ctrl('c') {
        exists|since: Option<u64>, at: Instant|
            (since is Some <==> a.double_press.last_ctrl_c_at is Some)
                && #[trigger] ctrl_c_pressed_after(a, since, at, b, r)
    } else if a.pending_permission is Some {
        r is None && permission_key(a, key.code, b)
    } else if a.prompt.mode == InputMode::CommandInteract {
        panel_key(a, key, b, r)
    } else if a.plan_awaiting_approval {
        inline_plan_key(a, key.code, b, r)
    } else if a.plan_mode_request_pending {
        plan_request_key(a, key.code, b, r)
    } else if a.modals@.len() > 0 {
        modal_key_action(a, key.code, b, r)
    } else {
        match key.code {
            KeyCode::Char(c) if key.modifiers.control && is_shortcut(c) => r is None
                && shortcut_key(a, c, b),
            _ => typing_key(a, key, b, r),
        }
    }
}

impl App {
    /// Whether Up walks the history.
    pub fn should_walk_history_up(&self) -> (r: bool)
        ensures
            r == walks_up(*self),
    {
        self.prompt.history.len() > 0 && (self.prompt.history_idx.is_some()
            || self.prompt.buffer.as_str().unicode_len() == 0)
    }

    /// Whether Down walks the history.
    pub fn should_walk_history_down(&self) -> (r: bool)
        ensures
            r == (self.prompt.history_idx is Some),
    {
        self.prompt.history_idx.is_some()
    }

    fn handle_prompt_key(&mut self, key: KeyEvent)
        requires
            old(self).wf(),
        ensures
            *final(self) == (App { prompt: final(self).prompt, ..*old(self) }),
            prompt_key(old(self).prompt, key, final(self).prompt),
            final(self).wf(),
    {
        match key.code {
            KeyCode::Backspace => {
                if self.prompt.buffer.as_str().unicode_len() == 0 && self.prompt.mode
                    != InputMode::Prompt {
                    self.prompt.mode = InputMode::Prompt;
                    proof {
                        place_is_kept(old(self).prompt, self.prompt);
                    }
                } else {
                    self.prompt.backspace();
                }
            },
            KeyCode::Delete => self.prompt.delete_forward(),
            KeyCode::Up => self.prompt.history_prev(),
            KeyCode::Down => self.prompt.history_next(),
            KeyCode::Left => self.prompt.move_left(),
            KeyCode::Right => self.prompt.move_right(),
            KeyCode::Home => self.prompt.move_home(),
            KeyCode::End => self.prompt.move_end(),
            _ => {},
        }
    }

    fn handle_chat_key(&mut self, key: KeyEvent) -> (r: Option<UserAction>)
        requires
            old(self).wf(),
        ensures
            chat_key(*old(self), key, *final(self), r),
            final(self).wf(),
    {
        if key.ctrl('j') || (key.code == KeyCode::Enter && key.modifiers.any()) {
            self.prompt.insert_char('\n');
            return None;
        }
        match key.code {
            KeyCode::Enter => {
                return self.submit_prompt();
            },
            KeyCode::Esc => {
                return self.handle_esc();
            },
            KeyCode::PageUp => {
                self.scroll_offset = scroll_by(self.scroll_offset, 20, false);
            },
            KeyCode::PageDown => {
                self.scroll_offset = scroll_by(self.scroll_offset, 20, true);
            },
            KeyCode::Up => {
                if key.modifiers.shift {
                    self.scroll_offset = scroll_by(self.scroll_offset, 3, false);
                } else if self.should_walk_history_up() {
                    self.handle_prompt_key(key);
                }
            },
            KeyCode::Down => {
                if key.modifiers.shift {
                    self.scroll_offset = scroll_by(self.scroll_offset, 3, true);
                } else if self.should_walk_history_down() {
                    self.handle_prompt_key(key);
                }
            },
            KeyCode::Char(c) => self.handle_char_input(c),
            _ => self.handle_prompt_key(key),
        }
        None
    }

    fn handle_shortcut(&mut self, c: char)
        requires
            old(self).wf(),
            is_shortcut(c),
        ensures
            shortcut_key(*old(self), c, *final(self)),
            final(self).wf(),
    {
        if c == 'e' {
            if self.prompt.buffer.as_str().unicode_len() == 0 {
                self.toggle_last_expandable();
            } else {
                self.prompt.move_end();
            }
        } else if c == 'a' {
            self.prompt.move_home();
        } else if c == 'b' {
            self.prompt.move_left();
        } else if c == 'f' {
            self.prompt.move_right();
        } else if c == 'p' {
            self.prompt.move_prev_line();
        } else if c == 'n' {
            self.prompt.move_next_line();
        } else if c == 'o' {
            self.modals.push(Modal::ContextUsage);
        } else {
            match self.prompt.mode {
                InputMode::Prompt => self.enter_history_search_mode(),
                InputMode::HistorySearch => self.select_next_match(),
                _ => {},
            }
        }
    }

    fn handle_typing_key(&mut self, key: KeyEvent) -> (r: Option<UserAction>)
        requires
            old(self).wf(),
        ensures
            typing_key(*old(self), key, *final(self), r),
            final(self).wf(),
    {
        if key.code == KeyCode::BackTab {
            self.prompt.mode = self.prompt.mode.cycle_next();
            proof {
                place_is_kept(old(self).prompt, self.prompt);
            }
            return None;
        }
        if self.prompt.mode == InputMode::HistorySearch {
            return self.handle_history_search_key(key);
        }
        if self.prompt.mode == InputMode::AtFile {
            return self.handle_atfile_key(key);
        }
        if self.prompt.mode == InputMode::Command {
            let taken: Option<Option<UserAction>> = self.handle_command_menu_key(key);
            if let Some(action) = taken {
                return action;
            }
        }
        self.handle_chat_key(key)
    }

    /// Handles a key. The result is what the worker is to do.
    pub fn handle_key(&mut self, key: KeyEvent) -> (r: Option<UserAction>)
        requires
            old(self).wf(),
        ensures
            key_pressed(*old(self), key, *final(self), r),
            final(self).wf(),
    {
        if key.ctrl('c') {
            return self.handle_ctrl_c();
        }
        if self.pending_permission.is_some() {
            return self.handle_permission_key(key);
        }
        if self.prompt.mode == InputMode::CommandInteract {
            return self.handle_command_panel_key(key);
        }
        if self.plan_awaiting_approval {
            return self.handle_inline_plan_review_key(key);
        }
        if self.plan_mode_request_pending {
            return self.handle_plan_mode_request_key(key);
        }
        if self.modals.len() > 0 {
            return self.handle_modal_key_action(key);
        }
        if let KeyCode::Char(c) = key.code {
            if key.modifiers.control && (c == 'a' || c == 'b' || c == 'e' || c == 'f' || c == 'n'
                || c == 'o' || c == 'p' || c == 'r') {
                self.handle_shortcut(c);
                return None;
            }
        }
        self.handle_typing_key(key)
    }
}

} // verus!
