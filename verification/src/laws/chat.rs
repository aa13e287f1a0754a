//! The plain chat front end.
use vstd::prelude::*;
#[allow(unused_imports)]
use vstd::string::*;

use crate::chat::{event_taken, key_taken, App, StyledMessage, UiEvent};
use crate::events::UserAction;
use crate::keys::KeyCode;
use crate::model::AppScreen;
use crate::text::{lines, lowercase_of};

verus! {

/// Whether `b` logs what `a` logs, and behind it one more message.
pub open spec fn logs_one(a: App, b: App) -> bool {
    &&& b.messages@.len() == a.messages@.len() + 1
    &&& forall|i: int| 0 <= i < a.messages@.len() ==> #[trigger] b.messages@[i] == a.messages@[i]
}

/// Enter sends what was typed, logs it and empties the line, and does nothing where
/// nothing was typed.
pub proof fn typed_line_is_sent(a: App, b: App, r: Option<UserAction>)
    requires
        key_taken(a, KeyCode::Enter, b, r),
        !(a.screen is PlanReview),
    ensures
        a.input@.len() > 0 ==> (r matches Some(UserAction::SendMessage(text)) && text@ == a.input@)
            && b.input@.len() == 0 && logs_one(a, b) && (
        b.messages@.last() matches StyledMessage::User(text) && text@ == a.input@) && b.scroll_offset == 0,
        a.input@.len() == 0 ==> r is None && b == a,
{
}

/// A character goes to the end of the line, Backspace takes the last one away again,
/// and neither sends anything.
pub proof fn line_is_edited(
    a: App,
    c: char,
    b: App,
    r: Option<UserAction>,
    d: App,
    s: Option<UserAction>,
)
    requires
        !(a.screen is PlanReview),
        key_taken(a, KeyCode::Char(c), b, r),
        key_taken(b, KeyCode::Backspace, d, s),
    ensures
        r is None,
        s is None,
        a.input@.len() > 0 || c != 'q' ==> b.input@ == a.input@.push(c) && d.input@ == a.input@
            && b.should_quit == a.should_quit,
        a.input@.len() == 0 && c == 'q' ==> b.should_quit,
        b.messages == a.messages,
        d.messages == a.messages,
{
    assert(a.input@.push(c).drop_last() =~= a.input@);
}

/// Only Esc, and `q` on an empty line, quit.
pub proof fn esc_and_q_quit(a: App, key: KeyCode, b: App, r: Option<UserAction>)
    requires
        key_taken(a, key, b, r),
        !a.should_quit,
    ensures
        b.should_quit <==> !(a.screen is PlanReview) && (key == KeyCode::Esc || key
            == KeyCode::Char('q') && a.input@.len() == 0),
{
}

/// The answer to a plan is what the user said: yes confirms it and logs it, no
/// rejects it, and editing puts it into the line.
pub proof fn plan_review_is_answered(
    a: App,
    plan: String,
    key: KeyCode,
    b: App,
    r: Option<UserAction>,
)
    requires
        a.screen == (AppScreen::PlanReview { plan_text: plan }),
        key_taken(a, key, b, r),
    ensures
        r == Some(UserAction::ConfirmPlan) <==> key == KeyCode::Enter || key == KeyCode::Char('y'),
        (r is Some && r->0 is RejectPlan) <==> key == KeyCode::Esc || key == KeyCode::Char('n'),
        !(r is Some && r->0 is SendMessage),
        key == KeyCode::Enter || key == KeyCode::Char('y') ==> b.screen == AppScreen::Chat
            && b.messages@.len() == a.messages@.len() + 2 && b.messages@.last()
            == StyledMessage::Assistant(plan) && (
        b.messages@[a.messages@.len() as int] matches StyledMessage::System(t) && t@
            == "Plan approved"@),
        key == KeyCode::Esc || key == KeyCode::Char('n') ==> b.screen == AppScreen::Chat
            && logs_one(a, b) && (b.messages@.last() matches StyledMessage::System(t) && t@
            == "Plan rejected"@),
        key == KeyCode::Char('e') ==> b.screen == AppScreen::Chat && b.input == plan && b.messages
            == a.messages,
        b.should_quit == a.should_quit,
{
    if key == KeyCode::Esc || key == KeyCode::Char('n') {
        assert forall|i: int| 0 <= i < a.messages@.len() implies #[trigger] b.messages@[i]
            == a.messages@[i] by {
            assert(b.messages@.drop_last()[i] == a.messages@[i]);
        }
    }
}

/// The scrolling keys go by a line or a page, up to older messages and down to the
/// end, while nothing is typed.
pub proof fn log_is_scrolled(a: App, key: KeyCode, b: App, r: Option<UserAction>)
    requires
        key_taken(a, key, b, r),
        !(a.screen is PlanReview),
        a.input@.len() == 0,
        a.scroll_offset < 60000,
    ensures
        key == KeyCode::Up ==> b.scroll_offset == a.scroll_offset + 1,
        key == KeyCode::PageUp ==> b.scroll_offset == a.scroll_offset + 10,
        key == KeyCode::Down ==> b.scroll_offset == if a.scroll_offset >= 1 {
            a.scroll_offset - 1
        } else {
            0
        },
        key == KeyCode::PageDown ==> b.scroll_offset == if a.scroll_offset >= 10 {
            a.scroll_offset - 10
        } else {
            0
        },
{
}

/// What the agent does is logged as what it is: a call by its tool, a result with
/// its success, an error in its words, and an answer unless it is a plan, which
/// is put up for review.
pub proof fn agent_is_logged(a: App, event: UiEvent, b: App)
    requires
        event_taken(a, event, b),
    ensures
        event matches UiEvent::ToolCall { name } ==> logs_one(a, b) && b.messages@.last()
            == StyledMessage::ToolCall(name),
        event matches UiEvent::ToolResult { name, success } ==> logs_one(a, b)
            && b.messages@.last() == (StyledMessage::ToolResult { name, success }),
        event matches UiEvent::Error { message } ==> logs_one(a, b) && (
        b.messages@.last() matches StyledMessage::System(t) && t@ == "Error: "@ + message@),
        event matches UiEvent::AssistantMessage { content } ==> {
            let heading = if lines(content@).len() > 0 {
                lowercase_of(lines(content@)[0])
            } else {
                lowercase_of(""@)
            };
            let is_plan = heading.len() >= 5 && heading.take(5) == "plan:"@ || heading.len() >= 7
                && heading.take(7) == "## plan"@;
            &&& is_plan ==> b.screen == (AppScreen::PlanReview { plan_text: content })
                && b.messages == a.messages
            &&& !is_plan ==> b.screen == a.screen && b.messages@.len() == a.messages@.len() + 2
                && b.messages@[a.messages@.len() as int] == StyledMessage::Assistant(content)
        },
        b.input == a.input,
        b.should_quit == a.should_quit,
{
    reveal_strlit("plan:");
    reveal_strlit("## plan");
    if event is Error {
        assert forall|i: int| 0 <= i < a.messages@.len() implies #[trigger] b.messages@[i]
            == a.messages@[i] by {
            assert(b.messages@.drop_last()[i] == a.messages@[i]);
        }
    }
    if let UiEvent::AssistantMessage { content } = event {
        let heading = if lines(content@).len() > 0 {
            lowercase_of(lines(content@)[0])
        } else {
            lowercase_of(""@)
        };
        if heading.len() >= 5 {
            assert(heading.take(5) == heading.subrange(0, 5));
        }
        if heading.len() >= 7 {
            assert(heading.take(7) == heading.subrange(0, 7));
        }
    }
}

} // verus!
