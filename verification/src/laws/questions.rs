//! Questions that wait for the user: permissions, plans, dialogs, and the skill
//! installer.
use vstd::prelude::*;
#[allow(unused_imports)]
use vstd::string::*;

use crate::app::keyboard::key_pressed;
use crate::app::{App, PendingSkillInstall, SkillReply};
use crate::backend::{decided_on, PermissionDecision};
use crate::events::{
    PermissionRequest, SkillInstallEvent, SkillSearchResult, SkillZipFile, UserAction,
};
use crate::input_state::InputMode;
use crate::keys::{KeyCode, KeyEvent};
use crate::laws::events::models_follow;
use crate::modal::{ConfirmAction, Modal, SkillInstallPage, SkillInstallState};
use crate::model::BlockModel;
use crate::transcript::last_block_is_last;

verus! {

// ---------------------------------------------------------------------------
// Permissions
// ---------------------------------------------------------------------------

/// Whether the user has allowed a tool for good.
pub open spec fn is_listed(a: App, tool: Seq<char>) -> bool {
    exists|i: int|
        0 <= i < a.auto_allowed_tools@.len() && (#[trigger] a.auto_allowed_tools@[i])@ == tool
}

/// A key that says yes, for once or for good.
pub open spec fn says_yes(code: KeyCode) -> bool {
    code == KeyCode::Enter || code == KeyCode::Char('y') || code == KeyCode::Char('Y')
        || says_always(code)
}

/// A key that says yes for good.
pub open spec fn says_always(code: KeyCode) -> bool {
    code == KeyCode::Char('a') || code == KeyCode::Char('A')
}

/// A key that says no.
pub open spec fn says_no(code: KeyCode) -> bool {
    code == KeyCode::Esc || code == KeyCode::Char('n') || code == KeyCode::Char('N')
}

/// A request of a tool that was allowed for good is granted unasked, and any other
/// waits, unanswered, for the user.
pub proof fn request_waits_unless_allowed(a: App, request: PermissionRequest, b: App)
    requires
        App::permission_asked(a, request, b),
    ensures
        is_listed(a, request.tool_name@) ==> b.permission_reply == Some(true)
            && b.pending_permission == a.pending_permission,
        !is_listed(a, request.tool_name@) ==> b.permission_reply == a.permission_reply
            && b.pending_permission == Some(request),
        b.auto_allowed_tools == a.auto_allowed_tools,
        b.blocks == a.blocks,
        b.prompt == a.prompt,
{
}

/// Yes allows the tool that waits, no denies it, and any other key answers
/// nothing.
pub proof fn request_is_answered_as_the_user_says(
    a: App,
    request: PermissionRequest,
    key: KeyEvent,
    b: App,
    r: Option<UserAction>,
)
    requires
        key_pressed(a, key, b, r),
        !key.is_ctrl('c'),
        a.pending_permission == Some(request),
    ensures
        r is None,
        says_yes(key.code) ==> b.permission_reply == Some(true) && b.pending_permission is None,
        says_no(key.code) ==> b.permission_reply == Some(false) && b.pending_permission is None,
        !says_yes(key.code) && !says_no(key.code) ==> b == a,
        says_always(key.code) ==> is_listed(b, request.tool_name@),
        !says_always(key.code) ==> b.auto_allowed_tools@ == a.auto_allowed_tools@,
{
    if says_always(key.code) {
        if is_listed(a, request.tool_name@) {
            let i = choose|i: int|
                0 <= i < a.auto_allowed_tools@.len() && (#[trigger] a.auto_allowed_tools@[i])@
                    == request.tool_name@;
            assert(b.auto_allowed_tools@[i]@ == request.tool_name@);
        } else {
            assert(b.auto_allowed_tools@[b.auto_allowed_tools@.len() - 1]@
                == request.tool_name@);
        }
    }
}

/// Allowing a tool for good allows that tool and no other.
pub proof fn only_the_tool_itself_is_allowed(
    a: App,
    request: PermissionRequest,
    key: KeyEvent,
    b: App,
    r: Option<UserAction>,
    tool: Seq<char>,
)
    requires
        key_pressed(a, key, b, r),
        !key.is_ctrl('c'),
        a.pending_permission == Some(request),
        tool != request.tool_name@,
    ensures
        is_listed(b, tool) <==> is_listed(a, tool),
{
    if is_listed(a, tool) {
        let i = choose|i: int|
            0 <= i < a.auto_allowed_tools@.len() && (#[trigger] a.auto_allowed_tools@[i])@ == tool;
        assert(b.auto_allowed_tools@[i]@ == tool);
    }
    if is_listed(b, tool) {
        let i = choose|i: int|
            0 <= i < b.auto_allowed_tools@.len() && (#[trigger] b.auto_allowed_tools@[i])@ == tool;
        assert(i < a.auto_allowed_tools@.len());
        assert(a.auto_allowed_tools@[i]@ == tool);
    }
}

/// A tool that was allowed for good is never asked about again.
pub proof fn allowed_for_good_is_not_asked_again(
    a: App,
    request: PermissionRequest,
    key: KeyEvent,
    b: App,
    r: Option<UserAction>,
    again: PermissionRequest,
    c: App,
)
    requires
        key_pressed(a, key, b, r),
        a.pending_permission == Some(request),
        says_always(key.code),
        again.tool_name@ == request.tool_name@,
        App::permission_asked(b, again, c),
    ensures
        c.pending_permission is None,
        c.permission_reply == Some(true),
{
    request_is_answered_as_the_user_says(a, request, key, b, r);
}

/// A tool runs only where nobody asks, nobody can be asked, or the user said yes:
/// while the hook is on and the user could be asked, no and silence deny it.
pub proof fn no_and_silence_deny(
    enabled: bool,
    delivered: bool,
    answer: Option<bool>,
    r: PermissionDecision,
)
    requires
        decided_on(enabled, delivered, answer, r),
    ensures
        enabled && delivered && answer == Some(false) ==> r is Deny,
        enabled && delivered && answer is None ==> r is Deny,
        enabled && delivered && answer == Some(true) ==> r is Allow,
        !enabled ==> r is Allow,
        enabled && !delivered ==> r is Allow,
        r matches PermissionDecision::Deny(why) ==> why@ == "denied by user"@,
{
}

// ---------------------------------------------------------------------------
// Plans
// ---------------------------------------------------------------------------

/// The answer to a plan in the transcript goes to the worker: yes confirms it, no
/// rejects it, and editing rejects it and puts the plan into the prompt. Any
/// other key leaves it waiting.
pub proof fn plan_is_answered_as_the_user_says(
    a: App,
    key: KeyEvent,
    b: App,
    r: Option<UserAction>,
    i: int,
)
    requires
        key_pressed(a, key, b, r),
        !key.is_ctrl('c'),
        a.pending_permission is None,
        a.prompt.mode != InputMode::CommandInteract,
        a.plan_awaiting_approval,
        0 <= i < a.blocks@.len(),
        a.blocks@[i] is PlanProposal,
        forall|j: int| i < j < a.blocks@.len() ==> !(#[trigger] a.blocks@[j] is PlanProposal),
    ensures
        key.code == KeyCode::Enter || key.code == KeyCode::Char('y') ==> r == Some(
            UserAction::ConfirmPlan,
        ) && !b.plan_awaiting_approval && b.prompt == a.prompt,
        key.code == KeyCode::Esc || key.code == KeyCode::Char('n') ==> (r matches Some(
            UserAction::RejectPlan(why),
        ) && why@ == "user rejected"@) && !b.plan_awaiting_approval && b.prompt == a.prompt,
        key.code == KeyCode::Char('e') ==> (r matches Some(UserAction::RejectPlan(why)) && why@
            == "user edited"@) && !b.plan_awaiting_approval && b.prompt.buffer@
            == a.blocks@[i]->PlanProposal_plan_text@ && b.prompt.mode == InputMode::Prompt,
        key.code != KeyCode::Enter && key.code != KeyCode::Char('y') && key.code != KeyCode::Esc
            && key.code != KeyCode::Char('n') && key.code != KeyCode::Char('e') ==> r is None && b
            == a,
        b.blocks == a.blocks,
{
    models_follow(a);
    let wanted = |b: BlockModel| b is PlanProposal;
    last_block_is_last(a.transcript(), wanted);
    let at = crate::transcript::last_block(a.transcript(), wanted);
    assert(a.transcript()[i] == a.blocks@[i]@);
    assert(wanted(a.transcript()[i]));
    if at > i {
        assert(a.transcript()[at] == a.blocks@[at]@);
        assert(wanted(a.transcript()[at]));
    }
    assert(at == i);
}

/// The answer to a request to plan goes to the worker: yes grants it, no turns it
/// down.
pub proof fn plan_request_is_answered_as_the_user_says(
    a: App,
    key: KeyEvent,
    b: App,
    r: Option<UserAction>,
)
    requires
        key_pressed(a, key, b, r),
        !key.is_ctrl('c'),
        a.pending_permission is None,
        a.prompt.mode != InputMode::CommandInteract,
        !a.plan_awaiting_approval,
        a.plan_mode_request_pending,
    ensures
        key.code == KeyCode::Enter || key.code == KeyCode::Char('y') ==> r == Some(
            UserAction::ApprovePlanMode,
        ) && !b.plan_mode_request_pending,
        key.code == KeyCode::Esc || key.code == KeyCode::Char('n') ==> (r matches Some(
            UserAction::RejectPlanMode(why),
        ) && why@ == "user skipped"@) && !b.plan_mode_request_pending,
        key.code != KeyCode::Enter && key.code != KeyCode::Char('y') && key.code != KeyCode::Esc
            && key.code != KeyCode::Char('n') ==> r is None && b == a,
        b.prompt == a.prompt,
        b.blocks == a.blocks,
{
}

/// Whether the dialogs have the keyboard.
pub open spec fn dialogs_have_the_keyboard(a: App) -> bool {
    &&& a.pending_permission is None
    &&& a.prompt.mode != InputMode::CommandInteract
    &&& !a.plan_awaiting_approval
    &&& !a.plan_mode_request_pending
    &&& a.modals@.len() > 0
}

/// The answer to a plan in a dialog goes to the worker, and closes that dialog and
/// no other; editing puts the plan into the prompt.
pub proof fn plan_dialog_is_answered_as_the_user_says(
    a: App,
    key: KeyEvent,
    b: App,
    r: Option<UserAction>,
)
    requires
        key_pressed(a, key, b, r),
        !key.is_ctrl('c'),
        dialogs_have_the_keyboard(a),
        a.modals@.last() is PlanReview,
    ensures
        key.code == KeyCode::Enter || key.code == KeyCode::Char('y') ==> r == Some(
            UserAction::ConfirmPlan,
        ) && b.modals@ == a.modals@.drop_last() && b.prompt == a.prompt,
        key.code == KeyCode::Esc || key.code == KeyCode::Char('n') ==> (r matches Some(
            UserAction::RejectPlan(why),
        ) && why@ == "user rejected"@) && b.modals@ == a.modals@.drop_last() && b.prompt
            == a.prompt,
        key.code == KeyCode::Char('e') ==> r is None && b.modals@ == a.modals@.drop_last()
            && b.prompt.buffer@ == a.modals@.last()->PlanReview_plan_text@ && b.prompt.mode
            == InputMode::Prompt,
        b.blocks == a.blocks,
{
}

// ---------------------------------------------------------------------------
// Dialogs
// ---------------------------------------------------------------------------

/// Esc closes the dialog on top, whichever it is but a preview of a skill's file,
/// and leaves those below it, the prompt and the transcript alone.
pub proof fn esc_closes_one_dialog(a: App, key: KeyEvent, b: App, r: Option<UserAction>)
    requires
        key_pressed(a, key, b, r),
        key.code == KeyCode::Esc,
        dialogs_have_the_keyboard(a),
        a.modals@.last() matches Modal::SkillInstall(s) ==> !(s.page is Preview),
    ensures
        b.modals@ == a.modals@.drop_last(),
        b.prompt == a.prompt,
        b.blocks == a.blocks,
        b.should_quit == a.should_quit,
{
}

/// A confirmation does what it asks about on yes, and nothing on no.
pub proof fn confirmation_is_answered_as_the_user_says(
    a: App,
    prompt: String,
    on_yes: ConfirmAction,
    key: KeyEvent,
    b: App,
    r: Option<UserAction>,
)
    requires
        key_pressed(a, key, b, r),
        !key.is_ctrl('c'),
        dialogs_have_the_keyboard(a),
        a.modals@.last() == (Modal::Confirm { prompt, on_yes }),
    ensures
        r is None,
        key.code == KeyCode::Enter || key.code == KeyCode::Char('y') ==> b.modals@
            == a.modals@.drop_last() && match on_yes {
            ConfirmAction::Exit => b.should_quit && b.blocks == a.blocks,
            ConfirmAction::Clear => b.should_quit == a.should_quit && b.blocks@.len() == 1
                && b.usage.total_input == 0 && b.usage.total_output == 0,
        },
        key.code == KeyCode::Esc || key.code == KeyCode::Char('n') || key.code == KeyCode::Char(
            'q',
        ) ==> b.modals@ == a.modals@.drop_last() && b.should_quit == a.should_quit && b.blocks
            == a.blocks,
{
    if (key.code == KeyCode::Enter || key.code == KeyCode::Char('y')) && on_yes
        == ConfirmAction::Clear {
        models_follow(b);
    }
}

/// Enter on a saved session resumes that session, and the arrows select the next
/// and the one before, within the list.
pub proof fn selected_session_is_resumed(
    a: App,
    entries: Vec<crate::modal::ResumeEntry>,
    selected: usize,
    key: KeyEvent,
    b: App,
    r: Option<UserAction>,
)
    requires
        key_pressed(a, key, b, r),
        !key.is_ctrl('c'),
        dialogs_have_the_keyboard(a),
        a.modals@.last() == (Modal::ResumePicker { entries, selected }),
        selected < entries@.len(),
    ensures
        key.code == KeyCode::Enter ==> (r matches Some(UserAction::ResumeSession { session_dir })
            && session_dir@ == entries@[selected as int].session_dir@) && b.modals@
            == a.modals@.drop_last(),
        key.code == KeyCode::Up ==> r is None && b.modals@.len() == a.modals@.len()
            && b.modals@.last() == (Modal::ResumePicker {
            entries,
            selected: if selected == 0 {
                0
            } else {
                (selected - 1) as usize
            },
        }),
        key.code == KeyCode::Down ==> r is None && b.modals@.len() == a.modals@.len()
            && b.modals@.last() == (Modal::ResumePicker {
            entries,
            selected: if selected + 1 == entries@.len() {
                selected
            } else {
                (selected + 1) as usize
            },
        }),
{
}

/// The arrows select within the lists of journal files and of servers.
pub proof fn arrows_step_through_the_list(
    a: App,
    key: KeyEvent,
    b: App,
    r: Option<UserAction>,
)
    requires
        key_pressed(a, key, b, r),
        dialogs_have_the_keyboard(a),
        key.code == KeyCode::Up || key.code == KeyCode::Down,
    ensures
        r is None,
        a.modals@.last() matches Modal::Journal { entries, selected } ==> selected
            < entries@.len() ==> b.modals@.last() == (Modal::Journal {
            entries,
            selected: if key.code == KeyCode::Up {
                if selected == 0 {
                    0
                } else {
                    (selected - 1) as usize
                }
            } else if selected + 1 == entries@.len() {
                selected
            } else {
                (selected + 1) as usize
            },
        }),
        a.modals@.last() matches Modal::McpServers { entries, selected } ==> selected
            < entries@.len() ==> b.modals@.last() == (Modal::McpServers {
            entries,
            selected: if key.code == KeyCode::Up {
                if selected == 0 {
                    0
                } else {
                    (selected - 1) as usize
                }
            } else if selected + 1 == entries@.len() {
                selected
            } else {
                (selected + 1) as usize
            },
        }),
        b.modals@.len() == a.modals@.len(),
        forall|k: int| 0 <= k < a.modals@.len() - 1 ==> #[trigger] b.modals@[k] == a.modals@[k],
{
}

// ---------------------------------------------------------------------------
// The skill installer
// ---------------------------------------------------------------------------

/// The hits of a search are put to the user, all of them and the first one
/// selected, and the files of the skill after that.
pub proof fn installer_puts_its_questions(
    a: App,
    query: String,
    results: Vec<SkillSearchResult>,
    b: App,
    slug: String,
    files: Vec<SkillZipFile>,
    c: App,
)
    requires
        App::installer_asked(a, SkillInstallEvent::Search { query, results }, b),
        App::installer_asked(b, SkillInstallEvent::Files { slug, files }, c),
    ensures
        b.pending_skill_install == Some(PendingSkillInstall::Search),
        b.modals@.len() == a.modals@.len() + 1,
        b.modals@.last() matches Modal::SkillInstall(s) && s.results == results && s.page == (
        SkillInstallPage::Results { selected: 0 }),
        c.pending_skill_install == Some(PendingSkillInstall::Files),
        c.modals@.len() == b.modals@.len(),
        c.modals@.last() matches Modal::SkillInstall(s) && s.results == results && s.slug == Some(
            slug,
        ) && s.files == files && s.page == (SkillInstallPage::Files { selected: 0 }),
        b.skill_reply == a.skill_reply,
        c.skill_reply == a.skill_reply,
        b.blocks == a.blocks,
{
}

/// Whether the skill installer has the keyboard, in that state.
pub open spec fn installer_has_the_keyboard(a: App, s: SkillInstallState) -> bool {
    dialogs_have_the_keyboard(a) && a.modals@.last() == Modal::SkillInstall(s)
}

/// Enter answers a search with the skill that is selected, and Esc with none.
pub proof fn selected_skill_is_chosen(
    a: App,
    s: SkillInstallState,
    selected: usize,
    key: KeyEvent,
    b: App,
    r: Option<UserAction>,
)
    requires
        key_pressed(a, key, b, r),
        installer_has_the_keyboard(a, s),
        s.page == (SkillInstallPage::Results { selected }),
        selected < s.results@.len(),
        a.pending_skill_install == Some(PendingSkillInstall::Search),
    ensures
        r is None,
        key.code == KeyCode::Enter ==> (b.skill_reply matches Some(
            SkillReply::Chosen(Some(slug)),
        ) && slug@ == s.results@[selected as int].slug@) && b.pending_skill_install is None
            && b.modals@ == a.modals@,
        key.code == KeyCode::Esc ==> (b.skill_reply matches Some(SkillReply::Chosen(None)))
            && b.pending_skill_install is None && b.modals@ == a.modals@.drop_last(),
        key.code == KeyCode::Up || key.code == KeyCode::Down ==> b.skill_reply == a.skill_reply
            && b.pending_skill_install == a.pending_skill_install && (
        b.modals@.last() matches Modal::SkillInstall(t) && t.results == s.results && t.page == (
        SkillInstallPage::Results {
            selected: if key.code == KeyCode::Up {
                if selected == 0 {
                    0
                } else {
                    (selected - 1) as usize
                }
            } else if selected + 1 == s.results@.len() {
                selected
            } else {
                (selected + 1) as usize
            },
        })),
        b.blocks == a.blocks,
{
}

/// A skill is installed on yes only; Esc refuses it, and looking at a file decides
/// nothing.
pub proof fn skill_is_installed_on_yes_only(
    a: App,
    s: SkillInstallState,
    selected: usize,
    key: KeyEvent,
    b: App,
    r: Option<UserAction>,
)
    requires
        key_pressed(a, key, b, r),
        !key.is_ctrl('c'),
        installer_has_the_keyboard(a, s),
        s.page == (SkillInstallPage::Files { selected }),
        a.pending_skill_install == Some(PendingSkillInstall::Files),
        a.skill_reply is None,
    ensures
        r is None,
        b.skill_reply == Some(SkillReply::Confirmed(true)) <==> key.code == KeyCode::Char('y'),
        b.skill_reply == Some(SkillReply::Confirmed(false)) <==> key.code == KeyCode::Esc,
        key.code == KeyCode::Char('y') || key.code == KeyCode::Esc ==> b.modals@
            == a.modals@.drop_last() && b.pending_skill_install is None,
        key.code != KeyCode::Char('y') && key.code != KeyCode::Esc ==> b.skill_reply is None
            && b.pending_skill_install == a.pending_skill_install && b.modals@.len()
            == a.modals@.len(),
        key.code == KeyCode::Enter || key.code == KeyCode::Char('v') ==> (
        b.modals@.last() matches Modal::SkillInstall(t) && t.page == (SkillInstallPage::Preview {
            file_idx: selected,
            scroll: 0,
        }) && t.files == s.files && t.slug == s.slug),
{
}

/// Esc leads from the preview of a file back to the list, with that file selected,
/// and decides nothing.
pub proof fn preview_leads_back(
    a: App,
    s: SkillInstallState,
    file_idx: usize,
    scroll: u16,
    key: KeyEvent,
    b: App,
    r: Option<UserAction>,
)
    requires
        key_pressed(a, key, b, r),
        !key.is_ctrl('c'),
        installer_has_the_keyboard(a, s),
        s.page == (SkillInstallPage::Preview { file_idx, scroll }),
    ensures
        r is None,
        b.skill_reply == a.skill_reply,
        b.pending_skill_install == a.pending_skill_install,
        b.modals@.len() == a.modals@.len(),
        key.code == KeyCode::Esc ==> (b.modals@.last() matches Modal::SkillInstall(t) && t.page == (
        SkillInstallPage::Files { selected: file_idx }) && t.files == s.files),
        key.code == KeyCode::Down && scroll < u16::MAX ==> (
        b.modals@.last() matches Modal::SkillInstall(t) && t.page == (SkillInstallPage::Preview {
            file_idx,
            scroll: (scroll + 1) as u16,
        })),
{
}

/// The arrows go through the hits of a search and through the files of a skill, within
/// their lists, and decide nothing.
pub proof fn arrows_step_through_the_installer(
    a: App,
    s: SkillInstallState,
    key: KeyEvent,
    b: App,
    r: Option<UserAction>,
)
    requires
        key_pressed(a, key, b, r),
        installer_has_the_keyboard(a, s),
        key.code == KeyCode::Up || key.code == KeyCode::Down,
    ensures
        b.skill_reply == a.skill_reply,
        b.pending_skill_install == a.pending_skill_install,
        s.page matches SkillInstallPage::Results { selected } ==> selected < s.results@.len() ==> (
        b.modals@.last() matches Modal::SkillInstall(t) && t.results == s.results && t.page == (
        SkillInstallPage::Results {
            selected: if key.code == KeyCode::Up {
                if selected == 0 {
                    0
                } else {
                    (selected - 1) as usize
                }
            } else if selected + 1 == s.results@.len() {
                selected
            } else {
                (selected + 1) as usize
            },
        })),
        s.page matches SkillInstallPage::Files { selected } ==> selected < s.files@.len() ==> (
        b.modals@.last() matches Modal::SkillInstall(t) && t.files == s.files && t.page == (
        SkillInstallPage::Files {
            selected: if key.code == KeyCode::Up {
                if selected == 0 {
                    0
                } else {
                    (selected - 1) as usize
                }
            } else if selected + 1 == s.files@.len() {
                selected
            } else {
                (selected + 1) as usize
            },
        })),
{
}

/// A dialog without a list is scrolled by a line or by a page, and stays open.
pub proof fn dialog_is_scrolled(a: App, key: KeyEvent, b: App, r: Option<UserAction>)
    requires
        key_pressed(a, key, b, r),
        dialogs_have_the_keyboard(a),
        a.modals@.last() is ContextUsage || a.modals@.last() is Confirm,
        a.modal_scroll < 60000,
        key.code == KeyCode::Up || key.code == KeyCode::Down || key.code == KeyCode::PageUp
            || key.code == KeyCode::PageDown,
    ensures
        r is None,
        b.modals == a.modals,
        b.modal_scroll == match key.code {
            KeyCode::Up => if a.modal_scroll == 0 {
                0
            } else {
                a.modal_scroll - 1
            },
            KeyCode::PageUp => if a.modal_scroll < 10 {
                0
            } else {
                a.modal_scroll - 10
            },
            KeyCode::Down => a.modal_scroll + 1,
            _ => a.modal_scroll + 10,
        },
{
}

/// A dialog that asks nothing is closed by Esc, Enter and `q`, and by no other
/// character.
pub proof fn plain_dialog_is_closed(a: App, key: KeyEvent, c: char, b: App, r: Option<UserAction>)
    requires
        key_pressed(a, key, b, r),
        dialogs_have_the_keyboard(a),
        a.modals@.last() is ContextUsage,
        !key.modifiers.control,
        key.code == KeyCode::Char(c) || key.code == KeyCode::Esc || key.code == KeyCode::Enter,
    ensures
        r is None,
        b.modals@.len() == a.modals@.len() - 1 <==> !(key.code is Char) || c == 'q',
        key.code is Char && c != 'q' ==> b == a,
        !b.should_quit || a.should_quit,
{
}

/// A page of the installer answers its own question only: what waits for a choice is
/// not told of a confirmation, nor the other way round.
pub proof fn installer_answers_its_own_question(
    a: App,
    s: SkillInstallState,
    key: KeyEvent,
    b: App,
    r: Option<UserAction>,
)
    requires
        key_pressed(a, key, b, r),
        !key.is_ctrl('c'),
        installer_has_the_keyboard(a, s),
    ensures
        s.page is Results && a.pending_skill_install != Some(PendingSkillInstall::Search)
            ==> b.skill_reply == a.skill_reply,
        s.page is Files && a.pending_skill_install != Some(PendingSkillInstall::Files)
            ==> b.skill_reply == a.skill_reply,
        s.page is Preview ==> b.skill_reply == a.skill_reply,
        r is None,
{
}

} // verus!
