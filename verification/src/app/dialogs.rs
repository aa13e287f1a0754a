//! The keys of the dialogs, and of the questions that wait for an answer.
use vstd::prelude::*;
#[allow(unused_imports)]
use vstd::string::*;

use crate::app::panels::{scroll_by, scrolled};
use crate::app::{App, PendingSkillInstall, SkillReply};
use crate::events::UserAction;
use crate::keys::{KeyCode, KeyEvent};
use crate::modal::{ConfirmAction, Modal, SkillInstallPage, SkillInstallState};
use crate::model::{block_models, BlockModel, TranscriptBlock};
use crate::transcript::{last_block, last_where};

verus! {

// ---------------------------------------------------------------------------
// Permission requests
// ---------------------------------------------------------------------------

/// What a key answers to a permission request: whether the tool may run, and
/// whether it may from now on run unasked.
pub open spec fn permission_answer(code: KeyCode) -> Option<(bool, bool)> {
    match code {
        KeyCode::Enter => Some((true, false)),
        KeyCode::Esc => Some((false, false)),
        KeyCode::Char(c) => if c == 'y' || c == 'Y' {
            Some((true, false))
        } else if c == 'n' || c == 'N' {
            Some((false, false))
        } else if c == 'a' || c == 'A' {
            Some((true, true))
        } else {
            None
        },
        _ => None,
    }
}

/// Whether `b` is `a` with the permission request answered.
pub open spec fn permission_key(a: App, code: KeyCode, b: App) -> bool {
    match (permission_answer(code), a.pending_permission) {
        (Some((allow, always)), Some(request)) => {
            &&& b == (App {
                pending_permission: None,
                permission_reply: Some(allow),
                auto_allowed_tools: b.auto_allowed_tools,
                ..a
            })
            &&& b.auto_allowed_tools@ == if always && !a.is_auto_allowed(request.tool_name@) {
                a.auto_allowed_tools@.push(request.tool_name)
            } else {
                a.auto_allowed_tools@
            }
        },
        _ => b == a,
    }
}

impl App {
    /// Handles a key while a permission request waits.
    pub fn handle_permission_key(&mut self, key: KeyEvent) -> (r: Option<UserAction>)
        ensures
            r is None,
            permission_key(*old(self), key.code, *final(self)),
    {
        let (allow, always): (bool, bool) = match key.code {
            KeyCode::Enter => (true, false),
            KeyCode::Esc => (false, false),
            KeyCode::Char(c) => {
                if c == 'y' || c == 'Y' {
                    (true, false)
                } else if c == 'n' || c == 'N' {
                    (false, false)
                } else if c == 'a' || c == 'A' {
                    (true, true)
                } else {
                    return None;
                }
            },
            _ => return None,
        };
        if let Some(request) = self.pending_permission.take() {
            if always && !self.auto_allows(request.tool_name.as_str()) {
                self.auto_allowed_tools.push(request.tool_name);
            }
            self.permission_reply = Some(allow);
        }
        None
    }
}

// ---------------------------------------------------------------------------
// Plans
// ---------------------------------------------------------------------------

/// Whether `b` is `a` without its topmost dialog.
pub open spec fn dialog_closed(a: App, b: App) -> bool {
    &&& b == (App { modals: b.modals, ..a })
    &&& b.modals@ == if a.modals@.len() > 0 {
        a.modals@.drop_last()
    } else {
        a.modals@
    }
}

/// Whether an action turns the plan down for the given reason.
pub open spec fn rejects_plan(r: Option<UserAction>, reason: Seq<char>) -> bool {
    r matches Some(UserAction::RejectPlan(t)) && t@ == reason
}

/// What a key does to the plan in the topmost dialog.
pub open spec fn plan_review_key(a: App, code: KeyCode, b: App, r: Option<UserAction>) -> bool {
    if code == KeyCode::Enter || code == KeyCode::Char('y') {
        dialog_closed(a, b) && r == Some(UserAction::ConfirmPlan)
    } else if code == KeyCode::Esc || code == KeyCode::Char('n') {
        dialog_closed(a, b) && rejects_plan(r, "user rejected"@)
    } else if code == KeyCode::Char('e') {
        &&& r is None
        &&& if a.modals@.len() > 0 && a.modals@.last() is PlanReview {
            exists|mid: App| #[trigger]
                App::input_set(a, a.modals@.last()->PlanReview_plan_text@, mid) && dialog_closed(
                    mid,
                    b,
                )
        } else {
            dialog_closed(a, b)
        }
    } else {
        b == a && r is None
    }
}

/// The text of the latest plan in the transcript, where there is one.
pub open spec fn latest_plan(blocks: Seq<BlockModel>) -> Option<Seq<char>> {
    let at = last_block(blocks, |b: BlockModel| b is PlanProposal);
    if at >= 0 {
        match blocks[at] {
            BlockModel::PlanProposal { plan_text, .. } => Some(plan_text),
            _ => None,
        }
    } else {
        None
    }
}

/// What a key does to the plan in the transcript that waits for approval.
pub open spec fn inline_plan_key(a: App, code: KeyCode, b: App, r: Option<UserAction>) -> bool {
    if code == KeyCode::Enter || code == KeyCode::Char('y') {
        b == (App { plan_awaiting_approval: false, ..a }) && r == Some(UserAction::ConfirmPlan)
    } else if code == KeyCode::Esc || code == KeyCode::Char('n') {
        b == (App { plan_awaiting_approval: false, ..a }) && rejects_plan(r, "user rejected"@)
    } else if code == KeyCode::Char('e') {
        &&& rejects_plan(r, "user edited"@)
        &&& match latest_plan(a.transcript()) {
            Some(text) => App::input_set(App { plan_awaiting_approval: false, ..a }, text, b),
            None => b == (App { plan_awaiting_approval: false, ..a }),
        }
    } else {
        b == a && r is None
    }
}

/// What a key does to the request to enter plan mode.
pub open spec fn plan_request_key(a: App, code: KeyCode, b: App, r: Option<UserAction>) -> bool {
    if code == KeyCode::Enter || code == KeyCode::Char('y') {
        b == (App { plan_mode_request_pending: false, ..a }) && r == Some(
            UserAction::ApprovePlanMode,
        )
    } else if code == KeyCode::Esc || code == KeyCode::Char('n') {
        &&& b == (App { plan_mode_request_pending: false, ..a })
        &&& r matches Some(UserAction::RejectPlanMode(t)) && t@ == "user skipped"@
    } else {
        b == a && r is None
    }
}

fn find_plan(blocks: &Vec<TranscriptBlock>) -> (r: Option<String>)
    ensures
        match (r, latest_plan(block_models(blocks@))) {
            (Some(s), Some(t)) => s@ == t,
            (None, None) => true,
            _ => false,
        },
{
    let ghost bs = block_models(blocks@);
    let ghost wanted = |b: BlockModel| b is PlanProposal;
    let mut i: usize = blocks.len();
    while i > 0
        invariant
            i <= blocks@.len(),
            bs == block_models(blocks@),
            wanted == (|b: BlockModel| b is PlanProposal),
            last_where(bs, wanted, i as int) == last_block(bs, wanted),
        decreases i,
    {
        i -= 1;
        proof {
            assert(bs[i as int] == blocks@[i as int]@);
        }
        if let TranscriptBlock::PlanProposal { plan_text, .. } = &blocks[i] {
            return Some(plan_text.clone());
        }
    }
    None
}

impl App {
    fn close_dialog(&mut self)
        ensures
            dialog_closed(*old(self), *final(self)),
    {
        self.modals.pop();
        proof {
            if old(self).modals@.len() > 0 {
                assert(self.modals@ =~= old(self).modals@.drop_last());
            }
        }
    }

    /// Handles a key while the dialog on top asks about a plan.
    pub fn handle_plan_review_key(&mut self, key: KeyEvent) -> (r: Option<UserAction>)
        ensures
            plan_review_key(*old(self), key.code, *final(self), r),
    {
        match key.code {
            KeyCode::Char('y') | KeyCode::Enter => {
                self.close_dialog();
                Some(UserAction::ConfirmPlan)
            },
            KeyCode::Char('n') | KeyCode::Esc => {
                self.close_dialog();
                Some(UserAction::RejectPlan("user rejected".to_owned()))
            },
            KeyCode::Char('e') => {
                let n: usize = self.modals.len();
                let mut text: Option<String> = None;
                if n > 0 {
                    if let Modal::PlanReview { plan_text, .. } = &self.modals[n - 1] {
                        text = Some(plan_text.clone());
                    }
                }
                if let Some(t) = text {
                    self.set_input(t.as_str());
                }
                self.close_dialog();
                None
            },
            _ => None,
        }
    }

    /// Handles a key while the plan in the transcript waits for approval.
    pub fn handle_inline_plan_review_key(&mut self, key: KeyEvent) -> (r: Option<UserAction>)
        ensures
            inline_plan_key(*old(self), key.code, *final(self), r),
    {
        match key.code {
            KeyCode::Char('y') | KeyCode::Enter => {
                self.plan_awaiting_approval = false;
                Some(UserAction::ConfirmPlan)
            },
            KeyCode::Char('n') | KeyCode::Esc => {
                self.plan_awaiting_approval = false;
                Some(UserAction::RejectPlan("user rejected".to_owned()))
            },
            KeyCode::Char('e') => {
                let plan: Option<String> = find_plan(&self.blocks);
                self.plan_awaiting_approval = false;
                if let Some(text) = plan {
                    self.set_input(text.as_str());
                }
                Some(UserAction::RejectPlan("user edited".to_owned()))
            },
            _ => None,
        }
    }

    /// Handles a key while a request to enter plan mode waits.
    pub fn handle_plan_mode_request_key(&mut self, key: KeyEvent) -> (r: Option<UserAction>)
        ensures
            plan_request_key(*old(self), key.code, *final(self), r),
    {
        match key.code {
            KeyCode::Char('y') | KeyCode::Enter => {
                self.plan_mode_request_pending = false;
                Some(UserAction::ApprovePlanMode)
            },
            KeyCode::Char('n') | KeyCode::Esc => {
                self.plan_mode_request_pending = false;
                Some(UserAction::RejectPlanMode("user skipped".to_owned()))
            },
            _ => None,
        }
    }
}

// ---------------------------------------------------------------------------
// Dialogs with a list
// ---------------------------------------------------------------------------

/// About how many rows of a list a dialog shows.
pub const MODAL_LIST_VISIBLE: u16 = 28;

/// The scroll position that shows a list item, starting from the given one. Two
/// lines of heading stand above the list, and rows are counted modulo 2^16.
pub open spec fn following(scroll: u16, selected: usize) -> u16 {
    let row = selected as int % 0x1_0000 + 2;
    if row < scroll {
        (row - 1) as u16
    } else if row + 1 > scroll + MODAL_LIST_VISIBLE {
        (row + 1 - MODAL_LIST_VISIBLE) as u16
    } else {
        scroll
    }
}

/// The item one step on in a list of `count` items: up for `up`, and else down.
pub open spec fn list_step(selected: usize, count: int, up: bool) -> usize {
    if up {
        if selected > 0 {
            (selected - 1) as usize
        } else {
            selected
        }
    } else if selected + 1 < count {
        (selected + 1) as usize
    } else {
        selected
    }
}

fn step_in_list(selected: usize, count: usize, up: bool) -> (r: usize)
    ensures
        r == list_step(selected, count as int, up),
{
    if up {
        if selected > 0 {
            selected - 1
        } else {
            selected
        }
    } else if selected < count && selected + 1 < count {
        selected + 1
    } else {
        selected
    }
}

/// The dialog with a step up or down in its list, and the item that is then
/// selected; a dialog without a list has none.
pub open spec fn stepped_dialog(m: Modal, up: bool) -> Option<(Modal, usize)> {
    match m {
        Modal::Journal { entries, selected } => {
            let next = list_step(selected, entries@.len() as int, up);
            Some((Modal::Journal { entries, selected: next }, next))
        },
        Modal::ResumePicker { entries, selected } => {
            let next = list_step(selected, entries@.len() as int, up);
            Some((Modal::ResumePicker { entries, selected: next }, next))
        },
        Modal::McpServers { entries, selected } => {
            let next = list_step(selected, entries@.len() as int, up);
            Some((Modal::McpServers { entries, selected: next }, next))
        },
        _ => None,
    }
}

/// Whether `b` is `a` with a step up or down in the list of the topmost dialog.
pub open spec fn list_stepped(a: App, up: bool, b: App) -> bool {
    if a.modals@.len() == 0 {
        b == a
    } else {
        match stepped_dialog(a.modals@.last(), up) {
            None => b == a,
            Some((m, next)) => {
                &&& b == (App {
                    modals: b.modals,
                    modal_scroll: following(a.modal_scroll, next),
                    ..a
                })
                &&& b.modals@ == a.modals@.update(a.modals@.len() - 1, m)
            },
        }
    }
}

/// What a key does to the list of saved sessions in the topmost dialog.
pub open spec fn resume_picker_key(a: App, code: KeyCode, b: App, r: Option<UserAction>) -> bool {
    match code {
        KeyCode::Up => r is None && list_stepped(a, true, b),
        KeyCode::Down => r is None && list_stepped(a, false, b),
        KeyCode::Enter => {
            &&& dialog_closed(a, b)
            &&& r == chosen_entry(a)
        },
        _ => if code == KeyCode::Esc || code == KeyCode::Char('q') {
            dialog_closed(a, b) && r is None
        } else {
            b == a && r is None
        },
    }
}

/// The action that resumes the session selected in the topmost dialog.
pub open spec fn chosen_entry(a: App) -> Option<UserAction> {
    if a.modals@.len() == 0 {
        None
    } else {
        match a.modals@.last() {
            Modal::ResumePicker { entries, selected } => if selected < entries@.len() {
                Some(
                    UserAction::ResumeSession {
                        session_dir: entries@[selected as int].session_dir,
                    },
                )
            } else {
                None
            },
            _ => None,
        }
    }
}

/// What a key does to the list of MCP servers in the topmost dialog.
pub open spec fn mcp_servers_key(a: App, code: KeyCode, b: App) -> bool {
    match code {
        KeyCode::Up => list_stepped(a, true, b),
        KeyCode::Down => list_stepped(a, false, b),
        _ => if code == KeyCode::Esc || code == KeyCode::Char('q') {
            dialog_closed(a, b)
        } else {
            b == a
        },
    }
}

impl App {
    /// Scrolls the dialog so that the selected item of its list is shown.
    pub fn modal_scroll_follow_selection(&mut self, selected: usize)
        ensures
            *final(self) == (App {
                modal_scroll: following(old(self).modal_scroll, selected),
                ..*old(self)
            }),
    {
        let row: u32 = (selected % 0x1_0000) as u32 + 2;
        let scroll: u32 = self.modal_scroll as u32;
        if row < scroll {
            self.modal_scroll = (row - 1) as u16;
        } else if row + 1 > scroll + MODAL_LIST_VISIBLE as u32 {
            self.modal_scroll = (row + 1 - MODAL_LIST_VISIBLE as u32) as u16;
        }
    }

    fn step_list(&mut self, up: bool) -> (r: bool)
        ensures
            r == (old(self).modals@.len() > 0 && stepped_dialog(old(self).modals@.last(), up)
                is Some),
            list_stepped(*old(self), up, *final(self)),
    {
        let n: usize = self.modals.len();
        if n == 0 {
            return false;
        }
        match &self.modals[n - 1] {
            Modal::Journal { .. } | Modal::ResumePicker { .. } | Modal::McpServers { .. } => {},
            _ => return false,
        }
        let mut next: usize = 0;
        match &mut self.modals[n - 1] {
            Modal::Journal { entries, selected } => {
                next = step_in_list(*selected, entries.len(), up);
                *selected = next;
            },
            Modal::ResumePicker { entries, selected } => {
                next = step_in_list(*selected, entries.len(), up);
                *selected = next;
            },
            Modal::McpServers { entries, selected } => {
                next = step_in_list(*selected, entries.len(), up);
                *selected = next;
            },
            _ => {},
        }
        self.modal_scroll_follow_selection(next);
        true
    }

    /// Handles a key while the dialog on top lists the saved sessions.
    pub fn handle_resume_picker_key(&mut self, key: KeyEvent) -> (r: Option<UserAction>)
        ensures
            resume_picker_key(*old(self), key.code, *final(self), r),
    {
        match key.code {
            KeyCode::Esc | KeyCode::Char('q') => {
                self.close_dialog();
                None
            },
            KeyCode::Up => {
                self.step_list(true);
                None
            },
            KeyCode::Down => {
                self.step_list(false);
                None
            },
            KeyCode::Enter => {
                let n: usize = self.modals.len();
                let mut r: Option<UserAction> = None;
                if n > 0 {
                    if let Modal::ResumePicker { entries, selected } = &self.modals[n - 1] {
                        if *selected < entries.len() {
                            r = Some(
                                UserAction::ResumeSession {
                                    session_dir: entries[*selected].session_dir.clone(),
                                },
                            );
                        }
                    }
                }
                self.close_dialog();
                r
            },
            _ => None,
        }
    }

    /// Handles a key while the dialog on top lists the MCP servers.
    pub fn handle_mcp_servers_key(&mut self, key: KeyEvent) -> (r: Option<UserAction>)
        ensures
            r is None,
            mcp_servers_key(*old(self), key.code, *final(self)),
    {
        match key.code {
            KeyCode::Esc | KeyCode::Char('q') => self.close_dialog(),
            KeyCode::Up => {
                self.step_list(true);
            },
            KeyCode::Down => {
                self.step_list(false);
            },
            _ => {},
        }
        None
    }
}

/// Whatever the scroll position was, the selected item of a list is shown: its
/// row lies among the visible ones.
pub proof fn selection_stays_visible(scroll: u16, selected: usize)
    requires
        selected < 0x1_0000,
    ensures
        following(scroll, selected) <= selected + 2 < following(scroll, selected)
            + MODAL_LIST_VISIBLE,
{
}

// ---------------------------------------------------------------------------
// The skill installer
// ---------------------------------------------------------------------------

/// Whether `b` is `a` with another page of the skill installer on top.
pub open spec fn page_shown(a: App, s: SkillInstallState, page: SkillInstallPage, b: App) -> bool {
    &&& b == (App { modals: b.modals, ..a })
    &&& b.modals@ == a.modals@.update(
        a.modals@.len() - 1,
        Modal::SkillInstall(SkillInstallState { page, ..s }),
    )
}

/// The answer to the skill installer, given what it waits for; a question of
/// the other kind gets none.
pub open spec fn answered(a: App, wanted: PendingSkillInstall, reply: SkillReply) -> App {
    App {
        pending_skill_install: None,
        skill_reply: if a.pending_skill_install == Some(wanted) {
            Some(reply)
        } else {
            a.skill_reply
        },
        ..a
    }
}

/// What a key does to the list of skills that were found.
pub open spec fn results_key(
    a: App,
    s: SkillInstallState,
    selected: usize,
    code: KeyCode,
    b: App,
) -> bool {
    match code {
        KeyCode::Up => page_shown(
            a,
            s,
            SkillInstallPage::Results {
                selected: list_step(selected, s.results@.len() as int, true),
            },
            b,
        ),
        KeyCode::Down => page_shown(
            a,
            s,
            SkillInstallPage::Results {
                selected: list_step(selected, s.results@.len() as int, false),
            },
            b,
        ),
        KeyCode::Enter => b == if selected < s.results@.len() {
            answered(
                a,
                PendingSkillInstall::Search,
                SkillReply::Chosen(Some(s.results@[selected as int].slug)),
            )
        } else {
            App { pending_skill_install: None, ..a }
        },
        KeyCode::Esc => dialog_closed(
            answered(a, PendingSkillInstall::Search, SkillReply::Chosen(None)),
            b,
        ),
        _ => b == a,
    }
}

/// What a key does to the list of files of a skill.
pub open spec fn files_key(
    a: App,
    s: SkillInstallState,
    selected: usize,
    code: KeyCode,
    b: App,
) -> bool {
    match code {
        KeyCode::Up => page_shown(
            a,
            s,
            SkillInstallPage::Files { selected: list_step(selected, s.files@.len() as int, true) },
            b,
        ),
        KeyCode::Down => page_shown(
            a,
            s,
            SkillInstallPage::Files { selected: list_step(selected, s.files@.len() as int, false) },
            b,
        ),
        KeyCode::Esc => dialog_closed(
            answered(a, PendingSkillInstall::Files, SkillReply::Confirmed(false)),
            b,
        ),
        _ => if code == KeyCode::Enter || code == KeyCode::Char('v') {
            page_shown(a, s, SkillInstallPage::Preview { file_idx: selected, scroll: 0 }, b)
        } else if code == KeyCode::Char('y') {
            dialog_closed(
                answered(a, PendingSkillInstall::Files, SkillReply::Confirmed(true)),
                b,
            )
        } else {
            b == a
        },
    }
}

/// How far a key scrolls a file, and whether it does so upwards.
pub open spec fn scroll_keys(code: KeyCode) -> Option<(u16, bool)> {
    match code {
        KeyCode::Up => Some((1, true)),
        KeyCode::Down => Some((1, false)),
        KeyCode::PageUp => Some((10, true)),
        KeyCode::PageDown => Some((10, false)),
        _ => None,
    }
}

/// What a key does to the preview of a file.
pub open spec fn preview_key(
    a: App,
    s: SkillInstallState,
    file_idx: usize,
    scroll: u16,
    code: KeyCode,
    b: App,
) -> bool {
    match scroll_keys(code) {
        Some((by, up)) => page_shown(
            App { modal_scroll: scrolled(a.modal_scroll, by, up), ..a },
            s,
            SkillInstallPage::Preview { file_idx, scroll: scrolled(scroll, by, up) },
            b,
        ),
        None => if code == KeyCode::Esc {
            page_shown(
                App { modal_scroll: 0, ..a },
                s,
                SkillInstallPage::Files { selected: file_idx },
                b,
            )
        } else {
            b == a
        },
    }
}

/// What a key does to the skill installer in the topmost dialog.
pub open spec fn skill_install_key(a: App, code: KeyCode, b: App) -> bool {
    match a.top_installer() {
        None => b == a,
        Some(s) => match s.page {
            SkillInstallPage::Results { selected } => results_key(a, s, selected, code, b),
            SkillInstallPage::Files { selected } => files_key(a, s, selected, code, b),
            SkillInstallPage::Preview { file_idx, scroll } => preview_key(
                a,
                s,
                file_idx,
                scroll,
                code,
                b,
            ),
        },
    }
}

impl App {
    fn show_page(&mut self, page: SkillInstallPage)
        requires
            old(self).top_installer() is Some,
        ensures
            page_shown(*old(self), old(self).top_installer()->Some_0, page, *final(self)),
    {
        let n: usize = self.modals.len();
        if let Modal::SkillInstall(s) = &mut self.modals[n - 1] {
            s.page = page;
        }
    }

    fn answer_installer(&mut self, wanted: PendingSkillInstall, reply: SkillReply)
        ensures
            *final(self) == answered(*old(self), wanted, reply),
    {
        if let Some(pending) = self.pending_skill_install.take() {
            if pending == wanted {
                self.skill_reply = Some(reply);
            }
        }
    }

    fn handle_results_key(&mut self, selected: usize, count: usize, slug: Option<String>, code: KeyCode)
        requires
            old(self).top_installer() matches Some(s) && s.page == (SkillInstallPage::Results {
                selected,
            }) && s.results@.len() == count && slug == if selected < count {
                Some(s.results@[selected as int].slug)
            } else {
                None
            },
        ensures
            results_key(
                *old(self),
                old(self).top_installer()->Some_0,
                selected,
                code,
                *final(self),
            ),
    {
        match code {
            KeyCode::Up => self.show_page(
                SkillInstallPage::Results { selected: step_in_list(selected, count, true) },
            ),
            KeyCode::Down => self.show_page(
                SkillInstallPage::Results { selected: step_in_list(selected, count, false) },
            ),
            KeyCode::Enter => {
                match slug {
                    Some(chosen) => self.answer_installer(
                        PendingSkillInstall::Search,
                        SkillReply::Chosen(Some(chosen)),
                    ),
                    None => {
                        self.pending_skill_install = None;
                    },
                }
            },
            KeyCode::Esc => {
                self.answer_installer(PendingSkillInstall::Search, SkillReply::Chosen(None));
                self.close_dialog();
            },
            _ => {},
        }
    }

    fn handle_files_key(&mut self, selected: usize, count: usize, code: KeyCode)
        requires
            old(self).top_installer() matches Some(s) && s.page == (SkillInstallPage::Files {
                selected,
            }) && s.files@.len() == count,
        ensures
            files_key(*old(self), old(self).top_installer()->Some_0, selected, code, *final(self)),
    {
        match code {
            KeyCode::Up => self.show_page(
                SkillInstallPage::Files { selected: step_in_list(selected, count, true) },
            ),
            KeyCode::Down => self.show_page(
                SkillInstallPage::Files { selected: step_in_list(selected, count, false) },
            ),
            KeyCode::Char('v') | KeyCode::Enter => self.show_page(
                SkillInstallPage::Preview { file_idx: selected, scroll: 0 },
            ),
            KeyCode::Char('y') => {
                self.answer_installer(PendingSkillInstall::Files, SkillReply::Confirmed(true));
                self.close_dialog();
            },
            KeyCode::Esc => {
                self.answer_installer(PendingSkillInstall::Files, SkillReply::Confirmed(false));
                self.close_dialog();
            },
            _ => {},
        }
    }

    fn handle_preview_key(&mut self, file_idx: usize, scroll: u16, code: KeyCode)
        requires
            old(self).top_installer() matches Some(s) && s.page == (SkillInstallPage::Preview {
                file_idx,
                scroll,
            }),
        ensures
            preview_key(
                *old(self),
                old(self).top_installer()->Some_0,
                file_idx,
                scroll,
                code,
                *final(self),
            ),
    {
        let (by, up): (u16, bool) = match code {
            KeyCode::Up => (1, true),
            KeyCode::Down => (1, false),
            KeyCode::PageUp => (10, true),
            KeyCode::PageDown => (10, false),
            KeyCode::Esc => {
                self.show_page(SkillInstallPage::Files { selected: file_idx });
                self.modal_scroll = 0;
                return ;
            },
            _ => return ,
        };
        self.show_page(
            SkillInstallPage::Preview { file_idx, scroll: scroll_by(scroll, by, up) },
        );
        self.modal_scroll = scroll_by(self.modal_scroll, by, up);
    }

    /// Handles a key while the skill installer is on top.
    pub fn handle_skill_install_key(&mut self, key: KeyEvent)
        ensures
            skill_install_key(*old(self), key.code, *final(self)),
    {
        let n: usize = self.modals.len();
        if n == 0 {
            return ;
        }
        let page: SkillInstallPage;
        let results: usize;
        let files: usize;
        let mut slug: Option<String> = None;
        if let Modal::SkillInstall(s) = &self.modals[n - 1] {
            page = s.page;
            results = s.results.len();
            files = s.files.len();
            if let SkillInstallPage::Results { selected } = page {
                if selected < results {
                    slug = Some(s.results[selected].slug.clone());
                }
            }
        } else {
            return ;
        }
        match page {
            SkillInstallPage::Results { selected } => {
                self.handle_results_key(selected, results, slug, key.code)
            },
            SkillInstallPage::Files { selected } => {
                self.handle_files_key(selected, files, key.code)
            },
            SkillInstallPage::Preview { file_idx, scroll } => {
                self.handle_preview_key(file_idx, scroll, key.code)
            },
        }
    }
}

// ---------------------------------------------------------------------------
// Any dialog
// ---------------------------------------------------------------------------

/// What the topmost dialog does on yes, where it asks for a confirmation.
pub open spec fn question(a: App) -> Option<ConfirmAction> {
    if a.modals@.len() == 0 {
        None
    } else {
        match a.modals@.last() {
            Modal::Confirm { on_yes, .. } => Some(on_yes),
            _ => None,
        }
    }
}

/// Whether `b` is `a` with the topmost dialog closed and what it asked about
/// done.
pub open spec fn confirmed(a: App, action: ConfirmAction, b: App) -> bool {
    exists|mid: App| #[trigger]
        dialog_closed(a, mid) && match action {
            ConfirmAction::Exit => b == (App { should_quit: true, ..mid }),
            ConfirmAction::Clear => App::conversation_dropped(mid, b),
        }
}

/// Whether `b` is `a` with the topmost dialog scrolled; in the journal, the
/// selection moves instead.
pub open spec fn dialog_scrolled(a: App, by: u16, up: bool, b: App) -> bool {
    if a.modals@.last() is Journal {
        list_stepped(a, up, b)
    } else {
        b == (App { modal_scroll: scrolled(a.modal_scroll, by, up), ..a })
    }
}

/// What a key does to a dialog that has no keys of its own.
pub open spec fn modal_key(a: App, code: KeyCode, b: App) -> bool {
    if a.modals@.len() == 0 {
        b == a
    } else {
        match code {
            KeyCode::Esc => dialog_closed(a, b),
            KeyCode::Enter => match question(a) {
                Some(action) => confirmed(a, action, b),
                None => dialog_closed(a, b),
            },
            KeyCode::Up => dialog_scrolled(a, 1, true, b),
            KeyCode::PageUp => dialog_scrolled(a, 10, true, b),
            KeyCode::Down => dialog_scrolled(a, 1, false, b),
            KeyCode::PageDown => dialog_scrolled(a, 10, false, b),
            KeyCode::Char(c) => if c == 'q' {
                dialog_closed(a, b)
            } else if c == 'y' {
                match question(a) {
                    Some(action) => confirmed(a, action, b),
                    None => b == a,
                }
            } else if c == 'n' && question(a) is Some {
                dialog_closed(a, b)
            } else {
                b == a
            },
            _ => b == a,
        }
    }
}

/// What a key does while dialogs are open: the topmost one takes it.
pub open spec fn modal_key_action(a: App, code: KeyCode, b: App, r: Option<UserAction>) -> bool {
    if a.modals@.len() == 0 {
        b == a && r is None
    } else {
        match a.modals@.last() {
            Modal::PlanReview { .. } => plan_review_key(a, code, b, r),
            Modal::ResumePicker { .. } => resume_picker_key(a, code, b, r),
            Modal::McpServers { .. } => r is None && mcp_servers_key(a, code, b),
            Modal::SkillInstall(_) => r is None && skill_install_key(a, code, b),
            _ => r is None && modal_key(a, code, b),
        }
    }
}

impl App {
    fn asks(&self) -> (r: Option<ConfirmAction>)
        ensures
            r == question(*self),
    {
        let n: usize = self.modals.len();
        if n == 0 {
            return None;
        }
        match &self.modals[n - 1] {
            Modal::Confirm { on_yes, .. } => Some(*on_yes),
            _ => None,
        }
    }

    fn confirm(&mut self, action: ConfirmAction)
        ensures
            confirmed(*old(self), action, *final(self)),
    {
        self.close_dialog();
        match action {
            ConfirmAction::Exit => {
                self.should_quit = true;
            },
            ConfirmAction::Clear => self.reset_transcript(),
        }
    }

    fn scroll_dialog(&mut self, by: u16, up: bool)
        requires
            old(self).modals@.len() > 0,
        ensures
            dialog_scrolled(*old(self), by, up, *final(self)),
    {
        let n: usize = self.modals.len();
        let lists_journal: bool = match &self.modals[n - 1] {
            Modal::Journal { .. } => true,
            _ => false,
        };
        if lists_journal {
            self.step_list(up);
        } else {
            self.modal_scroll = scroll_by(self.modal_scroll, by, up);
        }
    }

    /// Handles a key for a dialog that has no keys of its own. The result says
    /// whether there was a dialog to take it.
    pub fn handle_modal_key(&mut self, key: KeyEvent) -> (r: bool)
        ensures
            r == (old(self).modals@.len() > 0),
            modal_key(*old(self), key.code, *final(self)),
    {
        if self.modals.len() == 0 {
            return false;
        }
        match key.code {
            KeyCode::Esc | KeyCode::Char('q') => self.close_dialog(),
            KeyCode::Char('y') => {
                if let Some(action) = self.asks() {
                    self.confirm(action);
                }
            },
            KeyCode::Char('n') => {
                if self.asks().is_some() {
                    self.close_dialog();
                }
            },
            KeyCode::Enter => {
                match self.asks() {
                    Some(action) => self.confirm(action),
                    None => self.close_dialog(),
                }
            },
            KeyCode::Up => self.scroll_dialog(1, true),
            KeyCode::PageUp => self.scroll_dialog(10, true),
            KeyCode::Down => self.scroll_dialog(1, false),
            KeyCode::PageDown => self.scroll_dialog(10, false),
            _ => {},
        }
        true
    }

    /// Handles a key while dialogs are open.
    pub fn handle_modal_key_action(&mut self, key: KeyEvent) -> (r: Option<UserAction>)
        ensures
            modal_key_action(*old(self), key.code, *final(self), r),
    {
        let n: usize = self.modals.len();
        if n == 0 {
            return None;
        }
        match &self.modals[n - 1] {
            Modal::PlanReview { .. } => self.handle_plan_review_key(key),
            Modal::ResumePicker { .. } => self.handle_resume_picker_key(key),
            Modal::McpServers { .. } => self.handle_mcp_servers_key(key),
            Modal::SkillInstall(_) => {
                self.handle_skill_install_key(key);
                None
            },
            _ => {
                self.handle_modal_key(key);
                None
            },
        }
    }
}

} // verus!
