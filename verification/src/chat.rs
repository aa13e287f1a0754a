//! A plain chat front end: one line of input above a log of messages.
use std::time::Instant;

use vstd::prelude::*;
#[allow(unused_imports)]
use vstd::string::*;

use crate::events::UserAction;
use crate::keys::KeyCode;
use crate::model::AppScreen;
use crate::style::{colored, text_line, Color, Line, LineModel, Style};
use crate::text::{
    chars_of, concat2, concat3, has_prefix, lines, lines_of, lowercase, lowercase_of, starts_with,
    text_between,
};

verus! {

/// One entry of the message log.
#[derive(Clone, Debug, PartialEq, Eq)]
pub enum StyledMessage {
    User(String),
    Assistant(String),
    ToolCall(String),
    ToolResult { name: String, success: bool },
    System(String),
    Separator,
}

/// The line that shows a message.
pub open spec fn message_line(m: StyledMessage) -> LineModel {
    match m {
        StyledMessage::User(text) => text_line("You: "@ + text@, colored(Color::White)),
        StyledMessage::Assistant(text) => text_line("Agent: "@ + text@, colored(Color::Cyan)),
        StyledMessage::ToolCall(name) => text_line(
            "  🔧 "@ + name@,
            Style { dim: true, ..colored(Color::Yellow) },
        ),
        StyledMessage::ToolResult { name, success } => if success {
            text_line("  ✓"@ + " "@ + name@, Style { dim: true, ..colored(Color::Green) })
        } else {
            text_line("  ✗"@ + " "@ + name@, Style { dim: true, ..colored(Color::Red) })
        },
        StyledMessage::System(text) => text_line(
            text@,
            Style { italic: true, ..colored(Color::DarkGray) },
        ),
        StyledMessage::Separator => text_line(
            "────────────────────────────────"@,
            colored(Color::DarkGray),
        ),
    }
}

impl StyledMessage {
    /// The line that shows the message.
    pub fn to_line(&self) -> (r: Line)
        ensures
            r@ == message_line(*self),
    {
        match self {
            StyledMessage::User(text) => {
                let s: String = concat2("You: ", text.as_str());
                Line::text(s.as_str(), Style::fg(Color::White))
            },
            StyledMessage::Assistant(text) => {
                let s: String = concat2("Agent: ", text.as_str());
                Line::text(s.as_str(), Style::fg(Color::Cyan))
            },
            StyledMessage::ToolCall(name) => {
                let s: String = concat2("  🔧 ", name.as_str());
                let mut style: Style = Style::fg(Color::Yellow);
                style.dim = true;
                Line::text(s.as_str(), style)
            },
            StyledMessage::ToolResult { name, success } => {
                let prefix: &str = if *success {
                    "  ✓"
                } else {
                    "  ✗"
                };
                let mut style: Style = if *success {
                    Style::fg(Color::Green)
                } else {
                    Style::fg(Color::Red)
                };
                style.dim = true;
                let s: String = concat3(prefix, " ", name.as_str());
                Line::text(s.as_str(), style)
            },
            StyledMessage::System(text) => {
                let mut style: Style = Style::fg(Color::DarkGray);
                style.italic = true;
                Line::text(text.as_str(), style)
            },
            StyledMessage::Separator => Line::text(
                "────────────────────────────────",
                Style::fg(Color::DarkGray),
            ),
        }
    }
}

/// What the agent tells the front end.
#[derive(Clone, Debug, PartialEq, Eq)]
pub enum UiEvent {
    ToolCall { name: String },
    ToolResult { name: String, success: bool },
    AssistantMessage { content: String },
    Error { message: String },
}

/// The state of the front end.
#[derive(Debug)]
pub struct App {
    pub input: String,
    pub messages: Vec<StyledMessage>,
    pub should_quit: bool,
    pub session_id: Option<String>,
    pub connected: bool,
    /// How far the log is scrolled up from its end.
    pub scroll_offset: u16,
    pub screen: AppScreen,
    pub splash_start: Instant,
}

/// Whether `b` is `a` with a system message at the end of the log.
pub open spec fn noted(a: App, text: Seq<char>, b: App) -> bool {
    &&& b == (App { messages: b.messages, ..a })
    &&& b.messages@.len() == a.messages@.len() + 1
    &&& b.messages@.drop_last() == a.messages@
    &&& b.messages@.last() matches StyledMessage::System(t) && t@ == text
}

/// What a key does while a plan is shown.
pub open spec fn plan_key(
    a: App,
    plan_text: String,
    key: KeyCode,
    b: App,
    r: Option<UserAction>,
) -> bool {
    if key == KeyCode::Enter || key == KeyCode::Char('y') {
        &&& r == Some(UserAction::ConfirmPlan)
        &&& exists|mid: App| #[trigger]
            noted(a, "Plan approved"@, mid) && b == (App {
                messages: b.messages,
                screen: AppScreen::Chat,
                scroll_offset: 0,
                ..mid
            }) && b.messages@ == mid.messages@.push(StyledMessage::Assistant(plan_text))
    } else if key == KeyCode::Esc || key == KeyCode::Char('n') {
        &&& r matches Some(UserAction::RejectPlan(t)) && t@.len() == 0
        &&& exists|mid: App| #[trigger]
            noted(a, "Plan rejected"@, mid) && b == (App {
                screen: AppScreen::Chat,
                scroll_offset: 0,
                ..mid
            })
    } else if key == KeyCode::Char('e') {
        r is None && b == (App { input: plan_text, screen: AppScreen::Chat, ..a })
    } else {
        r is None && b == a
    }
}

/// The scroll position that a key leads to, for the keys that scroll.
pub open spec fn scroll_target(offset: u16, key: KeyCode) -> Option<int> {
    match key {
        KeyCode::Up => Some(
            if offset + 1 > u16::MAX {
                u16::MAX as int
            } else {
                offset + 1
            },
        ),
        KeyCode::Down => Some(
            if offset < 1 {
                0
            } else {
                offset - 1
            },
        ),
        KeyCode::PageUp => Some(
            if offset + 10 > u16::MAX {
                u16::MAX as int
            } else {
                offset + 10
            },
        ),
        KeyCode::PageDown => Some(
            if offset < 10 {
                0
            } else {
                offset - 10
            },
        ),
        _ => None,
    }
}

/// What a key does in the chat. The keys that scroll, and `q`, which quits, only
/// count while nothing is being typed.
pub open spec fn typing_key(a: App, key: KeyCode, b: App, r: Option<UserAction>) -> bool {
    let empty = a.input@.len() == 0;
    match key {
        KeyCode::Enter => if empty {
            r is None && b == a
        } else {
            &&& r == Some(UserAction::SendMessage(a.input))
            &&& b == (App { input: b.input, messages: b.messages, scroll_offset: 0, ..a })
            &&& b.input@.len() == 0
            &&& b.messages@ == a.messages@.push(StyledMessage::User(a.input))
        },
        KeyCode::Esc => r is None && b == (App { should_quit: true, ..a }),
        KeyCode::Backspace => {
            &&& r is None
            &&& b == (App { input: b.input, ..a })
            &&& b.input@ == if empty {
                a.input@
            } else {
                a.input@.drop_last()
            }
        },
        KeyCode::Char(c) => if c == 'q' && empty {
            r is None && b == (App { should_quit: true, ..a })
        } else {
            r is None && b == (App { input: b.input, ..a }) && b.input@ == a.input@.push(c)
        },
        _ => r is None && match scroll_target(a.scroll_offset, key) {
            Some(n) if empty => b == (App { scroll_offset: n as u16, ..a }),
            _ => b == a,
        },
    }
}

/// What a key does, on whichever screen is shown.
pub open spec fn key_taken(a: App, key: KeyCode, b: App, r: Option<UserAction>) -> bool {
    match a.screen {
        AppScreen::PlanReview { plan_text } => plan_key(a, plan_text, key, b, r),
        _ => typing_key(a, key, b, r),
    }
}

/// Whether a message, given its first line in lower case, announces a plan.
pub open spec fn announces_plan(lowered: Seq<char>) -> bool {
    has_prefix(lowered, "plan:"@) || has_prefix(lowered, "## plan"@)
}

/// The first line of a text.
pub open spec fn first_line(text: Seq<char>) -> Seq<char> {
    if lines(text).len() > 0 {
        lines(text)[0]
    } else {
        ""@
    }
}

/// Whether `b` is `a` once a message of the assistant came in: a plan is put up
/// for review, and anything else goes into the log.
pub open spec fn answer_shown(a: App, content: String, is_plan: bool, b: App) -> bool {
    if is_plan {
        b == (App { screen: AppScreen::PlanReview { plan_text: content }, scroll_offset: 0, ..a })
    } else {
        &&& b == (App { messages: b.messages, scroll_offset: 0, ..a })
        &&& b.messages@ == a.messages@.push(StyledMessage::Assistant(content)).push(
            StyledMessage::Separator,
        )
    }
}

/// Whether `b` is `a` once an event was taken. The end of the log is shown after
/// every event.
pub open spec fn event_taken(a: App, event: UiEvent, b: App) -> bool {
    match event {
        UiEvent::ToolCall { name } => {
            &&& b == (App { messages: b.messages, scroll_offset: 0, ..a })
            &&& b.messages@ == a.messages@.push(StyledMessage::ToolCall(name))
        },
        UiEvent::ToolResult { name, success } => {
            &&& b == (App { messages: b.messages, scroll_offset: 0, ..a })
            &&& b.messages@ == a.messages@.push(StyledMessage::ToolResult { name, success })
        },
        UiEvent::AssistantMessage { content } => answer_shown(
            a,
            content,
            announces_plan(lowercase_of(first_line(content@))),
            b,
        ),
        UiEvent::Error { message } => noted(
            App { scroll_offset: 0, ..a },
            "Error: "@ + message@,
            b,
        ),
    }
}

/// Whether a message, given its first line in lower case, announces a plan.
pub fn is_plan_heading(lowered: &str) -> (r: bool)
    ensures
        r == announces_plan(lowered@),
{
    starts_with(lowered, "plan:") || starts_with(lowered, "## plan")
}

impl App {
    /// Whether this is the front end at its start.
    pub open spec fn is_fresh(self) -> bool {
        &&& self.input@.len() == 0
        &&& self.messages@.len() == 1
        &&& self.messages@[0] matches StyledMessage::System(t) && t@
            == "Welcome to Recursive TUI. Type a message and press Enter."@
        &&& !self.should_quit
        &&& self.session_id is None
        &&& !self.connected
        &&& self.scroll_offset == 0
        &&& self.screen == AppScreen::Splash
    }

    /// The front end at its start.
    pub fn new() -> (r: App)
        ensures
            r.is_fresh(),
    {
        let mut messages: Vec<StyledMessage> = Vec::new();
        messages.push(
            StyledMessage::System(
                "Welcome to Recursive TUI. Type a message and press Enter.".to_owned(),
            ),
        );
        App {
            input: String::new(),
            messages,
            should_quit: false,
            session_id: None,
            connected: false,
            scroll_offset: 0,
            screen: AppScreen::Splash,
            splash_start: Instant::now(),
        }
    }

    fn note(&mut self, text: String)
        ensures
            noted(*old(self), text@, *final(self)),
    {
        self.messages.push(StyledMessage::System(text));
        proof {
            assert(self.messages@.drop_last() =~= old(self).messages@);
        }
    }

    fn handle_plan_key(&mut self, plan_text: String, key: KeyCode) -> (r: Option<UserAction>)
        ensures
            plan_key(*old(self), plan_text, key, *final(self), r),
    {
        match key {
            KeyCode::Enter | KeyCode::Char('y') => {
                self.note("Plan approved".to_owned());
                self.messages.push(StyledMessage::Assistant(plan_text));
                self.screen = AppScreen::Chat;
                self.scroll_to_bottom();
                Some(UserAction::ConfirmPlan)
            },
            KeyCode::Esc | KeyCode::Char('n') => {
                self.note("Plan rejected".to_owned());
                self.screen = AppScreen::Chat;
                self.scroll_to_bottom();
                Some(UserAction::RejectPlan(String::new()))
            },
            KeyCode::Char('e') => {
                self.input = plan_text;
                self.screen = AppScreen::Chat;
                None
            },
            _ => None,
        }
    }

    fn handle_typing_key(&mut self, key: KeyCode) -> (r: Option<UserAction>)
        ensures
            typing_key(*old(self), key, *final(self), r),
    {
        let empty: bool = self.input.as_str().unicode_len() == 0;
        match key {
            KeyCode::Enter => {
                if empty {
                    return None;
                }
                let msg: String = self.input.clone();
                self.messages.push(StyledMessage::User(msg.clone()));
                self.input = String::new();
                self.scroll_to_bottom();
                return Some(UserAction::SendMessage(msg));
            },
            KeyCode::Up => {
                if empty {
                    self.scroll_offset = self.scroll_offset.saturating_add(1);
                }
            },
            KeyCode::Down => {
                if empty {
                    self.scroll_offset = self.scroll_offset.saturating_sub(1);
                }
            },
            KeyCode::PageUp => {
                if empty {
                    self.scroll_offset = self.scroll_offset.saturating_add(10);
                }
            },
            KeyCode::PageDown => {
                if empty {
                    self.scroll_offset = self.scroll_offset.saturating_sub(10);
                }
            },
            KeyCode::Char(c) => {
                if c == 'q' && empty {
                    self.should_quit = true;
                } else {
                    self.input.push(c);
                }
            },
            KeyCode::Backspace => {
                let v: Vec<char> = chars_of(self.input.as_str());
                let n: usize = v.len();
                if n > 0 {
                    proof {
                        assert(v@.subrange(0, n - 1) =~= v@.drop_last());
                    }
                    self.input = text_between(&v, 0, n - 1);
                }
            },
            KeyCode::Esc => {
                self.should_quit = true;
            },
            _ => {},
        }
        None
    }

    /// Handles a key. The result is what the agent is to do.
    pub fn handle_key(&mut self, key: KeyCode) -> (r: Option<UserAction>)
        ensures
            key_taken(*old(self), key, *final(self), r),
    {
        let mut plan: Option<String> = None;
        if let AppScreen::PlanReview { plan_text } = &self.screen {
            plan = Some(plan_text.clone());
        }
        match plan {
            Some(plan_text) => self.handle_plan_key(plan_text, key),
            None => self.handle_typing_key(key),
        }
    }

    /// Takes a message of the assistant, which is a plan or is not.
    pub fn show_answer(&mut self, content: String, is_plan: bool)
        ensures
            answer_shown(*old(self), content, is_plan, *final(self)),
    {
        if is_plan {
            self.screen = AppScreen::PlanReview { plan_text: content };
        } else {
            self.messages.push(StyledMessage::Assistant(content));
            self.messages.push(StyledMessage::Separator);
        }
        self.scroll_to_bottom();
    }

    /// Takes an event of the agent.
    pub fn handle_ui_event(&mut self, event: UiEvent)
        ensures
            event_taken(*old(self), event, *final(self)),
    {
        match event {
            UiEvent::ToolCall { name } => {
                self.messages.push(StyledMessage::ToolCall(name));
            },
            UiEvent::ToolResult { name, success } => {
                self.messages.push(StyledMessage::ToolResult { name, success });
            },
            UiEvent::AssistantMessage { content } => {
                let ls: Vec<String> = lines_of(content.as_str());
                proof {
                    reveal_strlit("");
                    assert(ls@.len() == lines(content@).len());
                    if ls@.len() > 0 {
                        assert(lines(content@)[0] == ls@[0]@);
                    }
                }
                let lowered: String = if ls.len() > 0 {
                    lowercase(ls[0].as_str())
                } else {
                    lowercase("")
                };
                let is_plan: bool = is_plan_heading(lowered.as_str());
                self.show_answer(content, is_plan);
            },
            UiEvent::Error { message } => {
                let text: String = concat2("Error: ", message.as_str());
                self.note(text);
            },
        }
        self.scroll_to_bottom();
    }

    /// Shows the end of the log.
    pub fn scroll_to_bottom(&mut self)
        ensures
            *final(self) == (App { scroll_offset: 0, ..*old(self) }),
    {
        self.scroll_offset = 0;
    }
}

impl Default for App {
    fn default() -> (r: App)
        ensures
            r.is_fresh(),
    {
        App::new()
    }
}

/// Whatever the front end is told, the end of the log is shown afterwards.
pub proof fn events_show_the_end(a: App, event: UiEvent, b: App)
    requires
        event_taken(a, event, b),
    ensures
        b.scroll_offset == 0,
{
}

/// Answering a plan in any of the three ways leads back to the chat, and only
/// accepting it puts it into the log.
pub proof fn answered_plan_leads_to_chat(
    a: App,
    plan: String,
    key: KeyCode,
    b: App,
    r: Option<UserAction>,
)
    requires
        a.screen == (AppScreen::PlanReview { plan_text: plan }),
        plan_key(a, plan, key, b, r),
        b != a,
    ensures
        b.screen == AppScreen::Chat,
        b.messages@.len() == a.messages@.len() + 2 <==> r == Some(UserAction::ConfirmPlan),
{
}

} // verus!
