//! The keys of the interactive panel.
use vstd::prelude::*;
#[allow(unused_imports)]
use vstd::string::*;

use crate::app::event_loop::note;
use crate::app::handlers::opt_text;
use crate::app::App;
use crate::events::UserAction;
use crate::input_state::{place_is_kept, InputMode, PromptInputState};
use crate::keys::{KeyCode, KeyEvent};
use crate::model::BlockModel;
use crate::model_picker::{
    context_row, model_lines, parse_model_picker_context, picker_entries, picker_state,
    rebuild_model_picker_lines, ModelPickerEntry,
};
use crate::panel::PanelModel;
use crate::pickers::{
    build_journal_lines, build_resume_lines, build_theme_picker_lines, journal_lines,
    resume_lines, theme_lines,
};
use crate::style::{line_models, Line, LineModel};
use crate::text::{concat3, lines, lines_of, same_text, views};
use crate::theme::{all_themes, theme_names, Theme};

verus! {

/// The selected item one step on: up for `up`, and else down, within the list.
pub open spec fn moved_selection(selected: usize, item_count: usize, up: bool) -> usize {
    let last = if item_count == 0 {
        0
    } else {
        item_count - 1
    };
    if up {
        if selected == 0 {
            0
        } else {
            (selected - 1) as usize
        }
    } else if selected < last {
        (selected + 1) as usize
    } else {
        last as usize
    }
}

/// A scroll position `by` lines further up, or down.
pub open spec fn scrolled(scroll: u16, by: u16, up: bool) -> u16 {
    if up {
        if scroll < by {
            0
        } else {
            (scroll - by) as u16
        }
    } else if scroll + by > u16::MAX {
        u16::MAX
    } else {
        (scroll + by) as u16
    }
}

pub(crate) fn scroll_by(scroll: u16, by: u16, up: bool) -> (r: u16)
    ensures
        r == scrolled(scroll, by, up),
{
    if up {
        scroll.saturating_sub(by)
    } else {
        scroll.saturating_add(by)
    }
}

/// Whether `after` are the lines of the panel of a command with another item
/// selected, where it showed `before`.
pub open spec fn lines_rebuilt(
    app: App,
    command: Seq<char>,
    selected: usize,
    before: Seq<LineModel>,
    after: Seq<LineModel>,
) -> bool {
    if command == "journal"@ {
        after == journal_lines(app.around.journal@, selected as int)
    } else if command == "resume"@ {
        after == resume_lines(app.around.sessions@, selected as int)
    } else if command == "theme"@ {
        after == theme_lines(app.theme.name@, selected as int)
    } else if command == "model"@ {
        exists|rows: Seq<ModelPickerEntry>, running: int| #[trigger]
            picker_state(
                picker_entries(
                    app.around.presets@,
                    app.around.ollama,
                    opt_text(app.active_preset),
                ),
                opt_text(app.active_preset),
                app.model_name@,
                rows,
                running,
            ) && after == model_lines(rows, app.model_name@, running, selected as int)
    } else {
        after == before
    }
}

/// Whether `b` is `a` with a step up or down in its panel: to the next item
/// where the panel has items, and else by a line.
pub open spec fn panel_stepped(a: App, up: bool, b: App) -> bool {
    match a.active_command_panel {
        None => b == a,
        Some(p) => {
            &&& b == (App { active_command_panel: b.active_command_panel, ..a })
            &&& b.active_command_panel matches Some(q) && match p.selected {
                Some(selected) => {
                    let next = moved_selection(selected, p.item_count, up);
                    &&& q@ == (PanelModel { selected: Some(next), lines: q@.lines, ..p@ })
                    &&& lines_rebuilt(a, p.command_name@, next, p@.lines, q@.lines)
                },
                None => q@ == (PanelModel { scroll: scrolled(p.scroll, 1, up), ..p@ }),
            }
        },
    }
}

/// Whether `b` is `a` with its panel scrolled by a page.
pub open spec fn panel_paged(a: App, up: bool, b: App) -> bool {
    match a.active_command_panel {
        None => b == a,
        Some(p) => {
            &&& b == (App { active_command_panel: b.active_command_panel, ..a })
            &&& b.active_command_panel matches Some(q) && q@ == (PanelModel {
                scroll: scrolled(p.scroll, 10, up),
                ..p@
            })
        },
    }
}

/// Whether `b` is `a` with its panel closed.
pub open spec fn panel_closed(a: App, b: App) -> bool {
    b == (App {
        active_command_panel: None,
        prompt: PromptInputState { mode: InputMode::Prompt, ..a.prompt },
        ..a
    })
}

/// The session that the panel's selection stands for, where it stands for one.
pub open spec fn chosen_session(p: PanelModel) -> Option<Seq<char>> {
    match (p.selected, p.context) {
        (Some(i), Some(ctx)) => if i < lines(ctx).len() {
            Some(lines(ctx)[i as int])
        } else {
            None
        },
        _ => None,
    }
}

/// Whether the chosen session is resumed.
pub open spec fn session_chosen(a: App, p: PanelModel, b: App, r: Option<UserAction>) -> bool {
    &&& panel_closed(a, b)
    &&& match chosen_session(p) {
        Some(dir) => r matches Some(UserAction::ResumeSession { session_dir })
            && session_dir@ == dir,
        None => r is None,
    }
}

/// Whether the chosen theme is switched to.
pub open spec fn theme_chosen(a: App, p: PanelModel, b: App, r: Option<UserAction>) -> bool {
    &&& r is None
    &&& match p.selected {
        Some(i) if i < theme_names().len() => {
            let name = theme_names()[i as int];
            &&& b.theme.name@ == name
            &&& b == (App {
                theme: b.theme,
                blocks: b.blocks,
                active_command_panel: None,
                prompt: PromptInputState { mode: InputMode::Prompt, ..a.prompt },
                ..a
            })
            &&& b.transcript() == a.transcript().push(
                note("Theme switched to '"@ + name + "'."@),
            )
        },
        _ => panel_closed(a, b),
    }
}

/// Whether the chosen model is switched to. The row of the running model that
/// belongs to no preset only says that it is in use.
pub open spec fn model_chosen(a: App, p: PanelModel, b: App, r: Option<UserAction>) -> bool {
    match (p.selected, p.context) {
        (Some(i), Some(ctx)) => {
            &&& b == (App {
                blocks: b.blocks,
                active_command_panel: None,
                prompt: PromptInputState { mode: InputMode::Prompt, ..a.prompt },
                ..a
            })
            &&& match context_row(ctx, i as int) {
                Some((preset, model)) => if preset.len() == 0 {
                    &&& r is None
                    &&& b.transcript() == a.transcript().push(
                        note("Already using "@ + model + "."@),
                    )
                } else {
                    &&& b.blocks == a.blocks
                    &&& r matches Some(UserAction::SwitchModel { preset_id, model: m })
                        && preset_id@ == preset && m@ == model
                },
                None => {
                    &&& r is None
                    &&& b.transcript() == a.transcript().push(
                        BlockModel::Error {
                            text: "Could not switch model: malformed selection."@,
                        },
                    )
                },
            }
        },
        _ => panel_closed(a, b) && r is None,
    }
}

/// Whether the panel's selection is confirmed. The panel is closed in any case.
pub open spec fn panel_confirmed(a: App, b: App, r: Option<UserAction>) -> bool {
    match a.active_command_panel {
        None => panel_closed(a, b) && r is None,
        Some(p) => if p.command_name@ == "resume"@ {
            session_chosen(a, p@, b, r)
        } else if p.command_name@ == "theme"@ {
            theme_chosen(a, p@, b, r)
        } else if p.command_name@ == "model"@ {
            model_chosen(a, p@, b, r)
        } else {
            panel_closed(a, b) && r is None
        },
    }
}

/// What a key does while a panel is open.
pub open spec fn panel_key(a: App, key: KeyEvent, b: App, r: Option<UserAction>) -> bool {
    if key.is_ctrl('p') || key.code == KeyCode::Up {
        r is None && panel_stepped(a, true, b)
    } else if key.is_ctrl('n') || key.code == KeyCode::Down {
        r is None && panel_stepped(a, false, b)
    } else {
        match key.code {
            KeyCode::Esc => r is None && panel_closed(a, b),
            KeyCode::PageUp => r is None && panel_paged(a, true, b),
            KeyCode::PageDown => r is None && panel_paged(a, false, b),
            KeyCode::Enter => panel_confirmed(a, b, r),
            _ => r is None && b == a,
        }
    }
}

impl App {
    /// The lines of the panel of a command with another item selected; `None`
    /// where they stay as they are.
    fn rebuilt_lines(&self, command: &str, selected: usize) -> (r: Option<Vec<Line>>)
        ensures
            match r {
                Some(after) => forall|before: Seq<LineModel>| #[trigger]
                    lines_rebuilt(*self, command@, selected, before, line_models(after@)),
                None => forall|before: Seq<LineModel>| #[trigger]
                    lines_rebuilt(*self, command@, selected, before, before),
            },
    {
        if same_text(command, "journal") {
            Some(build_journal_lines(self.around.journal.as_slice(), selected))
        } else if same_text(command, "resume") {
            Some(build_resume_lines(self.around.sessions.as_slice(), selected))
        } else if same_text(command, "theme") {
            Some(build_theme_picker_lines(self.theme.name, selected))
        } else if same_text(command, "model") {
            let preset: Option<&str> = match &self.active_preset {
                Some(p) => Some(p.as_str()),
                None => None,
            };
            Some(
                rebuild_model_picker_lines(
                    &self.around.presets,
                    &self.around.ollama,
                    preset,
                    self.model_name.as_str(),
                    selected,
                ),
            )
        } else {
            None
        }
    }

    /// Renders the panel's lines anew for another selected item.
    pub fn rebuild_panel_lines_for_selection(
        &mut self,
        command: &str,
        selected: usize,
        _ctx: Option<&str>,
    )
        ensures
            match old(self).active_command_panel {
                None => *final(self) == *old(self),
                Some(p) => {
                    &&& *final(self) == (App {
                        active_command_panel: final(self).active_command_panel,
                        ..*old(self)
                    })
                    &&& final(self).active_command_panel matches Some(q) && q@ == (PanelModel {
                        lines: q@.lines,
                        ..p@
                    }) && lines_rebuilt(*old(self), command@, selected, p@.lines, q@.lines)
                },
            },
    {
        if let Some(after) = self.rebuilt_lines(command, selected) {
            if let Some(p) = &mut self.active_command_panel {
                p.lines = after;
            }
        }
    }

    /// Moves the panel's selection, or scrolls a panel without items.
    pub fn panel_move_cursor(&mut self, up: bool) -> (r: Option<UserAction>)
        ensures
            r is None,
            panel_stepped(*old(self), up, *final(self)),
    {
        let mut step: Option<(String, usize)> = None;
        if let Some(p) = &mut self.active_command_panel {
            if let Some(selected) = p.selected {
                let last: usize = if p.item_count == 0 {
                    0
                } else {
                    p.item_count - 1
                };
                let next: usize = if up {
                    if selected == 0 {
                        0
                    } else {
                        selected - 1
                    }
                } else if selected < last {
                    selected + 1
                } else {
                    last
                };
                p.selected = Some(next);
                step = Some((p.command_name.clone(), next));
            } else {
                p.scroll = scroll_by(p.scroll, 1, up);
            }
        }
        if let Some((command, next)) = step {
            self.rebuild_panel_lines_for_selection(command.as_str(), next, None);
        }
        None
    }

    fn scroll_panel(&mut self, up: bool)
        ensures
            panel_paged(*old(self), up, *final(self)),
    {
        if let Some(p) = &mut self.active_command_panel {
            p.scroll = scroll_by(p.scroll, 10, up);
        }
    }

    fn confirm_session(&mut self, selected: Option<usize>, context: Option<String>) -> (r: Option<
        UserAction,
    >)
        ensures
            forall|p: PanelModel|
                p.selected == selected && p.context == opt_text(context) ==> #[trigger]
                    session_chosen(*old(self), p, *final(self), r),
    {
        self.close_command_panel();
        if let (Some(i), Some(ctx)) = (selected, context) {
            let mut dirs: Vec<String> = lines_of(ctx.as_str());
            proof {
                assert(dirs@.len() == lines(ctx@).len());
            }
            if i < dirs.len() {
                proof {
                    assert(views(dirs@)[i as int] == dirs@[i as int]@);
                }
                let session_dir: String = dirs.remove(i);
                return Some(UserAction::ResumeSession { session_dir });
            }
        }
        None
    }

    fn confirm_theme(&mut self, selected: Option<usize>) -> (r: Option<UserAction>)
        ensures
            forall|p: PanelModel|
                p.selected == selected ==> #[trigger] theme_chosen(
                    *old(self),
                    p,
                    *final(self),
                    r,
                ),
    {
        self.close_command_panel();
        if let Some(i) = selected {
            let themes: Vec<Theme> = all_themes();
            proof {
                assert(themes@.len() == theme_names().len());
            }
            if i < themes.len() {
                proof {
                    assert(themes@.map_values(|t: Theme| t.name@)[i as int]
                        == themes@[i as int].name@);
                }
                self.theme = themes[i];
                let text: String = concat3("Theme switched to '", themes[i].name, "'.");
                self.push_system(text.as_str());
            }
        }
        None
    }

    fn confirm_model(&mut self, selected: Option<usize>, context: Option<String>) -> (r: Option<
        UserAction,
    >)
        ensures
            forall|p: PanelModel|
                p.selected == selected && p.context == opt_text(context) ==> #[trigger]
                    model_chosen(*old(self), p, *final(self), r),
    {
        self.close_command_panel();
        if let (Some(i), Some(ctx)) = (selected, context) {
            match parse_model_picker_context(ctx.as_str(), i) {
                Some((preset_id, model)) => {
                    if preset_id.as_str().unicode_len() == 0 {
                        let text: String = concat3("Already using ", model.as_str(), ".");
                        self.push_system(text.as_str());
                    } else {
                        return Some(UserAction::SwitchModel { preset_id, model });
                    }
                },
                None => {
                    self.push_error("Could not switch model: malformed selection.");
                },
            }
        }
        None
    }

    /// Does what the selected item of the panel stands for and closes the panel.
    pub fn confirm_command_panel(&mut self) -> (r: Option<UserAction>)
        ensures
            panel_confirmed(*old(self), *final(self), r),
    {
        let mut chosen: Option<(String, Option<usize>, Option<String>)> = None;
        if let Some(p) = &self.active_command_panel {
            chosen = Some((p.command_name.clone(), p.selected, p.context.clone()));
        }
        if let Some((command, selected, context)) = chosen {
            if same_text(command.as_str(), "resume") {
                return self.confirm_session(selected, context);
            }
            if same_text(command.as_str(), "theme") {
                return self.confirm_theme(selected);
            }
            if same_text(command.as_str(), "model") {
                return self.confirm_model(selected, context);
            }
        }
        self.close_command_panel();
        None
    }

    /// Handles a key while a panel is open.
    pub fn handle_command_panel_key(&mut self, key: KeyEvent) -> (r: Option<UserAction>)
        requires
            old(self).wf(),
        ensures
            panel_key(*old(self), key, *final(self), r),
            final(self).wf(),
    {
        let r: Option<UserAction> = if key.ctrl('p') || key.code == KeyCode::Up {
            self.panel_move_cursor(true)
        } else if key.ctrl('n') || key.code == KeyCode::Down {
            self.panel_move_cursor(false)
        } else {
            match key.code {
                KeyCode::Esc => {
                    self.close_command_panel();
                    None
                },
                KeyCode::PageUp => {
                    self.scroll_panel(true);
                    None
                },
                KeyCode::PageDown => {
                    self.scroll_panel(false);
                    None
                },
                KeyCode::Enter => self.confirm_command_panel(),
                _ => None,
            }
        };
        proof {
            place_is_kept(old(self).prompt, self.prompt);
        }
        r
    }
}

} // verus!
