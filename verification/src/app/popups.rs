//! The keys of the lists that open above the prompt: the command menu, the file
//! names behind an `@`, and the history search.
use vstd::prelude::*;
#[allow(unused_imports)]
use vstd::string::*;

use crate::app::App;
use crate::command_menu::{
    command_menu_entries, entry_name, has_candidate, is_common_start, is_menu, tab_complete_names,
    MenuEntry, MAX_VISIBLE,
};
use crate::completion::{
    are_suggestions, glob_workspace_files, history_hits, lowered_history, search_history,
};
use crate::events::UserAction;
use crate::input_state::{
    backspaced, inserted, place_is_kept, refilled, InputMode, PromptInputState,
};
use crate::keys::{KeyCode, KeyEvent};
use crate::text::{
    chars_of, concat3, has_part, last_at, lowercase_of, rfind_text, text_between, views,
};

verus! {

/// The selection one step up; off the top of the list nothing is selected.
pub open spec fn step_up(selected: Option<usize>) -> Option<usize> {
    match selected {
        None => None,
        Some(n) => if n == 0 {
            None
        } else {
            Some((n - 1) as usize)
        },
    }
}

/// The selection one step down in a list of `count` items; it stays where the
/// list ends.
pub open spec fn step_down(selected: Option<usize>, count: int) -> Option<usize> {
    match selected {
        None => Some(0),
        Some(n) => if n + 1 < count {
            Some((n + 1) as usize)
        } else {
            Some(n)
        },
    }
}

fn one_up(selected: Option<usize>) -> (r: Option<usize>)
    ensures
        r == step_up(selected),
{
    match selected {
        None => None,
        Some(n) => if n == 0 {
            None
        } else {
            Some(n - 1)
        },
    }
}

fn one_down(selected: Option<usize>, count: usize) -> (r: Option<usize>)
    ensures
        r == step_down(selected, count as int),
{
    match selected {
        None => Some(0),
        Some(n) => if n < count && n + 1 < count {
            Some(n + 1)
        } else {
            Some(n)
        },
    }
}

// ---------------------------------------------------------------------------
// The command menu
// ---------------------------------------------------------------------------

/// The number of entries that the menu shows.
pub open spec fn shown_count(n: int) -> int {
    if n <= MAX_VISIBLE {
        n
    } else {
        MAX_VISIBLE as int
    }
}

/// What a key does to the command menu with the given entries. `r` says whether
/// the menu takes the key.
pub open spec fn menu_key(
    a: App,
    code: KeyCode,
    entries: Seq<MenuEntry<'_>>,
    b: App,
    r: Option<Option<UserAction>>,
) -> bool {
    match code {
        KeyCode::Up => {
            &&& b == (App { command_menu_selected: step_up(a.command_menu_selected), ..a })
            &&& r == if a.command_menu_selected is None {
                None
            } else {
                Some(None::<UserAction>)
            }
        },
        KeyCode::Down => if entries.len() == 0 {
            b == a && r is None
        } else {
            &&& b == (App {
                command_menu_selected: step_down(
                    a.command_menu_selected,
                    shown_count(entries.len() as int),
                ),
                ..a
            })
            &&& r == Some(None::<UserAction>)
        },
        KeyCode::Tab => {
            &&& r == Some(None::<UserAction>)
            &&& exists|names: Seq<&str>| #[trigger]
                are_names(names, entries) && name_completed(a, names, b)
        },
        KeyCode::Enter => {
            &&& r is None
            &&& match a.command_menu_selected {
                Some(i) => if i < entries.len() {
                    &&& b == (App { prompt: b.prompt, command_menu_selected: None, ..a })
                    &&& refilled(a.prompt, entry_name(entries[i as int]), b.prompt)
                } else {
                    b == (App { command_menu_selected: None, ..a })
                },
                None => b == a,
            }
        },
        _ => b == a && r is None,
    }
}

/// Whether `names` are the names of the entries.
pub open spec fn are_names(names: Seq<&str>, entries: Seq<MenuEntry<'_>>) -> bool {
    &&& names.len() == entries.len()
    &&& forall|i: int| 0 <= i < names.len() ==> (#[trigger] names[i])@ == entry_name(entries[i])
}

/// Whether `b` is `a` with the name completed as far as the candidates agree.
pub open spec fn name_completed(a: App, names: Seq<&str>, b: App) -> bool {
    if has_candidate(names, a.prompt.buffer@) && !is_common_start(
        names,
        a.prompt.buffer@,
        a.prompt.buffer@,
    ) {
        &&& b == (App { prompt: b.prompt, command_menu_selected: None, ..a })
        &&& refilled(a.prompt, b.prompt.buffer@, b.prompt)
        &&& is_common_start(names, a.prompt.buffer@, b.prompt.buffer@)
    } else {
        b == a
    }
}

impl App {
    /// Handles a key while a slash command is being typed. `None` means that the
    /// menu has no use for it.
    pub fn handle_command_menu_key(&mut self, key: KeyEvent) -> (r: Option<Option<UserAction>>)
        requires
            old(self).wf(),
        ensures
            exists|entries: Seq<MenuEntry<'_>>|
                is_menu(old(self).commands, old(self).prompt.buffer@, entries) && #[trigger]
                    menu_key(*old(self), key.code, entries, *final(self), r),
            final(self).wf(),
    {
        let mut target: Option<String> = None;
        let count: usize;
        let ghost all;
        {
            let entries: Vec<MenuEntry<'_>> = command_menu_entries(
                &self.commands,
                self.prompt.buffer.as_str(),
            );
            count = entries.len();
            proof {
                all = entries@;
            }
            if key.code == KeyCode::Enter {
                if let Some(i) = self.command_menu_selected {
                    if i < entries.len() {
                        target = Some(entries[i].name().to_owned());
                    }
                }
            } else if key.code == KeyCode::Tab {
                let mut names: Vec<&str> = Vec::new();
                let mut i: usize = 0;
                while i < entries.len()
                    invariant
                        i <= entries@.len(),
                        names@.len() == i,
                        forall|j: int|
                            0 <= j < i ==> (#[trigger] names@[j])@ == entry_name(entries@[j]),
                    decreases entries@.len() - i,
                {
                    names.push(entries[i].name());
                    i += 1;
                }
                target = tab_complete_names(self.prompt.buffer.as_str(), &names);
                proof {
                    assert(are_names(names@, entries@));
                }
            }
        }
        let shown: usize = if count <= MAX_VISIBLE {
            count
        } else {
            MAX_VISIBLE
        };
        let mut r: Option<Option<UserAction>> = None;
        match key.code {
            KeyCode::Up => {
                if self.command_menu_selected.is_some() {
                    self.command_menu_selected = one_up(self.command_menu_selected);
                    r = Some(None);
                }
            },
            KeyCode::Down => {
                if shown > 0 {
                    self.command_menu_selected = one_down(self.command_menu_selected, shown);
                    r = Some(None);
                }
            },
            KeyCode::Tab => {
                if let Some(t) = target {
                    self.prompt.set_buffer(t);
                    self.command_menu_selected = None;
                }
                r = Some(None);
            },
            KeyCode::Enter => {
                if let Some(t) = target {
                    self.prompt.set_buffer(t);
                }
                self.command_menu_selected = None;
            },
            _ => {},
        }
        proof {
            assert(menu_key(*old(self), key.code, all, *self, r));
        }
        r
    }
}

// ---------------------------------------------------------------------------
// File names
// ---------------------------------------------------------------------------

/// Whether `b` is `a` back in the ordinary mode, with no file names offered.
pub open spec fn atfile_left(a: App, b: App) -> bool {
    &&& b == (App {
        prompt: PromptInputState { mode: InputMode::Prompt, ..a.prompt },
        atfile_query: b.atfile_query,
        atfile_suggestions: b.atfile_suggestions,
        atfile_selected: None,
        ..a
    })
    &&& b.atfile_query@.len() == 0
    &&& b.atfile_suggestions@.len() == 0
}

/// Whether `b` is `a` with file names offered for an empty query.
pub open spec fn atfile_entered(a: App, b: App) -> bool {
    &&& b == (App {
        prompt: PromptInputState { mode: InputMode::AtFile, ..a.prompt },
        atfile_query: b.atfile_query,
        atfile_suggestions: b.atfile_suggestions,
        atfile_selected: None,
        ..a
    })
    &&& b.atfile_query@.len() == 0
    &&& are_suggestions(a.around.files@, seq![], views(b.atfile_suggestions@))
}

/// A selection that is moved to the last item where the list has become too
/// short for it.
pub open spec fn kept_selection(selected: Option<usize>, count: int) -> Option<usize> {
    match selected {
        None => None,
        Some(n) => if n < count {
            Some(n)
        } else if count == 0 {
            None
        } else {
            Some((count - 1) as usize)
        },
    }
}

/// Whether `b` is `a` with file names offered for another query.
pub open spec fn atfile_asked(a: App, query: Seq<char>, b: App) -> bool {
    &&& b.atfile_query@ == query
    &&& are_suggestions(a.around.files@, query, views(b.atfile_suggestions@))
    &&& b.atfile_selected == kept_selection(
        a.atfile_selected,
        b.atfile_suggestions@.len() as int,
    )
}

/// What the prompt holds once a file was chosen: the file's name takes the place
/// of what was typed behind the last `@`.
pub open spec fn with_file(buffer: Seq<char>, chosen: Seq<char>) -> Seq<char> {
    let at = if has_part(buffer, "@"@) {
        last_at(buffer, "@"@)
    } else {
        buffer.len() as int
    };
    buffer.take(at) + "@"@ + chosen
}

/// Whether `b` is `a` with the selected file name, or else the first one, put
/// into the prompt.
pub open spec fn atfile_chosen(a: App, b: App) -> bool {
    let i = match a.atfile_selected {
        Some(n) => n as int,
        None => 0,
    };
    if i < a.atfile_suggestions@.len() {
        exists|mid: App|
            mid == (App { prompt: mid.prompt, ..a }) && refilled(
                a.prompt,
                with_file(a.prompt.buffer@, a.atfile_suggestions@[i]@),
                mid.prompt,
            ) && #[trigger] atfile_left(mid, b)
    } else {
        atfile_left(a, b)
    }
}

/// What a key does while file names are offered.
pub open spec fn atfile_key(a: App, code: KeyCode, b: App) -> bool {
    match code {
        KeyCode::Esc => atfile_left(a, b),
        KeyCode::Enter => atfile_chosen(a, b),
        KeyCode::Tab => atfile_chosen(a, b),
        KeyCode::Up => b == (App { atfile_selected: step_up(a.atfile_selected), ..a }),
        KeyCode::Down => if a.atfile_suggestions@.len() == 0 {
            b == a
        } else {
            b == (App {
                atfile_selected: step_down(
                    a.atfile_selected,
                    a.atfile_suggestions@.len() as int,
                ),
                ..a
            })
        },
        KeyCode::Backspace => if a.atfile_query@.len() == 0 {
            exists|mid: App| #[trigger]
                atfile_left(a, mid) && b == (App { prompt: b.prompt, ..mid }) && backspaced(
                    mid.prompt,
                    b.prompt,
                )
        } else {
            &&& b == (App {
                prompt: b.prompt,
                atfile_query: b.atfile_query,
                atfile_suggestions: b.atfile_suggestions,
                atfile_selected: b.atfile_selected,
                ..a
            })
            &&& backspaced(a.prompt, b.prompt)
            &&& atfile_asked(a, a.atfile_query@.drop_last(), b)
        },
        KeyCode::Char(c) => {
            &&& b == (App {
                prompt: b.prompt,
                atfile_query: b.atfile_query,
                atfile_suggestions: b.atfile_suggestions,
                atfile_selected: b.atfile_selected,
                ..a
            })
            &&& inserted(a.prompt, c, b.prompt)
            &&& atfile_asked(a, a.atfile_query@.push(c), b)
        },
        _ => b == a,
    }
}

fn without_last(s: &str) -> (r: String)
    requires
        s@.len() > 0,
    ensures
        r@ == s@.drop_last(),
{
    let v: Vec<char> = chars_of(s);
    let n: usize = v.len();
    proof {
        assert(v@.subrange(0, n - 1) =~= v@.drop_last());
    }
    text_between(&v, 0, n - 1)
}

fn put_file(buffer: &str, chosen: &str) -> (r: String)
    ensures
        r@ == with_file(buffer@, chosen@),
{
    let v: Vec<char> = chars_of(buffer);
    let pattern: Vec<char> = chars_of("@");
    proof {
        reveal_strlit("@");
    }
    let at: usize = match rfind_text(&v, &pattern) {
        Some(i) => i,
        None => v.len(),
    };
    proof {
        assert(v@.subrange(0, at as int) == v@.take(at as int));
    }
    let head: String = text_between(&v, 0, at);
    concat3(head.as_str(), "@", chosen)
}

impl App {
    /// Starts to offer file names.
    pub fn enter_atfile_mode(&mut self)
        requires
            old(self).wf(),
        ensures
            atfile_entered(*old(self), *final(self)),
            final(self).wf(),
    {
        self.prompt.mode = InputMode::AtFile;
        self.atfile_query = String::new();
        self.atfile_selected = None;
        self.atfile_suggestions = glob_workspace_files(&self.around.files, "");
        proof {
            reveal_strlit("");
            assert(""@ =~= seq![]);
            place_is_kept(old(self).prompt, self.prompt);
        }
    }

    /// Offers the file names for the query as it is now.
    pub fn refresh_atfile_suggestions(&mut self)
        ensures
            *final(self) == (App {
                atfile_suggestions: final(self).atfile_suggestions,
                atfile_selected: final(self).atfile_selected,
                ..*old(self)
            }),
            atfile_asked(*old(self), old(self).atfile_query@, *final(self)),
    {
        self.atfile_suggestions = glob_workspace_files(
            &self.around.files,
            self.atfile_query.as_str(),
        );
        let count: usize = self.atfile_suggestions.len();
        if let Some(selected) = self.atfile_selected {
            if selected >= count {
                self.atfile_selected = if count == 0 {
                    None
                } else {
                    Some(count - 1)
                };
            }
        }
    }

    /// Puts the selected file name, or else the first one, into the prompt.
    pub fn commit_atfile_selection(&mut self)
        requires
            old(self).wf(),
        ensures
            atfile_chosen(*old(self), *final(self)),
            final(self).wf(),
    {
        let i: usize = match self.atfile_selected {
            Some(n) => n,
            None => 0,
        };
        if i < self.atfile_suggestions.len() {
            let text: String = put_file(
                self.prompt.buffer.as_str(),
                self.atfile_suggestions[i].as_str(),
            );
            self.prompt.set_buffer(text);
        }
        self.exit_atfile_mode();
    }

    /// Goes back to the ordinary mode.
    pub fn exit_atfile_mode(&mut self)
        requires
            old(self).wf(),
        ensures
            atfile_left(*old(self), *final(self)),
            final(self).wf(),
    {
        self.prompt.mode = InputMode::Prompt;
        self.atfile_query = String::new();
        self.atfile_suggestions = Vec::new();
        self.atfile_selected = None;
        proof {
            place_is_kept(old(self).prompt, self.prompt);
        }
    }

    /// Handles a key while file names are offered.
    pub fn handle_atfile_key(&mut self, key: KeyEvent) -> (r: Option<UserAction>)
        requires
            old(self).wf(),
        ensures
            r is None,
            atfile_key(*old(self), key.code, *final(self)),
            final(self).wf(),
    {
        match key.code {
            KeyCode::Esc => self.exit_atfile_mode(),
            KeyCode::Enter | KeyCode::Tab => self.commit_atfile_selection(),
            KeyCode::Up => {
                self.atfile_selected = one_up(self.atfile_selected);
            },
            KeyCode::Down => {
                let count: usize = self.atfile_suggestions.len();
                if count > 0 {
                    self.atfile_selected = one_down(self.atfile_selected, count);
                }
            },
            KeyCode::Backspace => {
                if self.atfile_query.as_str().unicode_len() == 0 {
                    self.exit_atfile_mode();
                    self.prompt.backspace();
                } else {
                    self.atfile_query = without_last(self.atfile_query.as_str());
                    self.prompt.backspace();
                    self.refresh_atfile_suggestions();
                }
            },
            KeyCode::Char(c) => {
                self.atfile_query.push(c);
                self.prompt.insert_char(c);
                self.refresh_atfile_suggestions();
            },
            _ => {},
        }
        None
    }
}

// ---------------------------------------------------------------------------
// The history search
// ---------------------------------------------------------------------------

/// Whether `b` is `a` back in the ordinary mode, with no history entries
/// offered.
pub open spec fn search_left(a: App, b: App) -> bool {
    &&& b == (App {
        prompt: PromptInputState { mode: InputMode::Prompt, ..a.prompt },
        hsearch_query: b.hsearch_query,
        hsearch_matches: b.hsearch_matches,
        hsearch_selected: 0,
        ..a
    })
    &&& b.hsearch_query@.len() == 0
    &&& b.hsearch_matches@.len() == 0
}

/// What a search in the prompt's history finds.
pub open spec fn found_in_history(a: App, query: Seq<char>) -> Seq<usize> {
    history_hits(lowered_history(a.prompt.history@), lowercase_of(query))
}

/// Whether `b` is `a` with the history offered for an empty query.
pub open spec fn search_entered(a: App, b: App) -> bool {
    &&& b == (App {
        prompt: PromptInputState { mode: InputMode::HistorySearch, ..a.prompt },
        hsearch_query: b.hsearch_query,
        hsearch_matches: b.hsearch_matches,
        hsearch_selected: 0,
        ..a
    })
    &&& b.hsearch_query@.len() == 0
    &&& b.hsearch_matches@ == found_in_history(a, seq![])
}

/// Whether `b` is `a` with the history offered for another query. A selection
/// that the list has become too short for goes back to the first entry.
pub open spec fn search_asked(a: App, query: Seq<char>, b: App) -> bool {
    &&& b == (App {
        hsearch_query: b.hsearch_query,
        hsearch_matches: b.hsearch_matches,
        hsearch_selected: b.hsearch_selected,
        ..a
    })
    &&& b.hsearch_query@ == query
    &&& b.hsearch_matches@ == found_in_history(a, query)
    &&& b.hsearch_selected == if a.hsearch_selected < b.hsearch_matches@.len() {
        a.hsearch_selected
    } else {
        0
    }
}

/// The history entry that is selected, where there is one.
pub open spec fn selected_entry(a: App) -> Option<String> {
    if a.hsearch_selected < a.hsearch_matches@.len()
        && a.hsearch_matches@[a.hsearch_selected as int] < a.prompt.history@.len() {
        Some(a.prompt.history@[a.hsearch_matches@[a.hsearch_selected as int] as int])
    } else {
        None
    }
}

/// Whether `b` is `a` with the selected history entry put into the prompt.
pub open spec fn entry_chosen(a: App, b: App) -> bool {
    match selected_entry(a) {
        Some(entry) => exists|mid: App|
            mid == (App { prompt: mid.prompt, ..a }) && refilled(a.prompt, entry@, mid.prompt)
                && #[trigger] search_left(mid, b),
        None => search_left(a, b),
    }
}

/// What a key does while the history is being searched.
pub open spec fn search_key(a: App, code: KeyCode, b: App) -> bool {
    match code {
        KeyCode::Esc => search_left(a, b),
        KeyCode::Enter => entry_chosen(a, b),
        KeyCode::Up => if a.hsearch_matches@.len() > 0 && a.hsearch_selected > 0 {
            b == (App { hsearch_selected: (a.hsearch_selected - 1) as usize, ..a })
        } else {
            b == a
        },
        KeyCode::Down => if a.hsearch_selected + 1 < a.hsearch_matches@.len() {
            b == (App { hsearch_selected: (a.hsearch_selected + 1) as usize, ..a })
        } else {
            b == a
        },
        KeyCode::Backspace => if a.hsearch_query@.len() == 0 {
            search_left(a, b)
        } else {
            search_asked(a, a.hsearch_query@.drop_last(), b)
        },
        KeyCode::Char(c) => search_asked(a, a.hsearch_query@.push(c), b),
        _ => b == a,
    }
}

impl App {
    /// Starts to search the history.
    pub fn enter_history_search_mode(&mut self)
        requires
            old(self).wf(),
        ensures
            search_entered(*old(self), *final(self)),
            final(self).wf(),
    {
        self.prompt.mode = InputMode::HistorySearch;
        self.hsearch_query = String::new();
        self.hsearch_selected = 0;
        self.hsearch_matches = search_history(self.prompt.history.as_slice(), "");
        proof {
            reveal_strlit("");
            assert(""@ =~= seq![]);
            place_is_kept(old(self).prompt, self.prompt);
        }
    }

    /// Searches the history for the query as it is now.
    pub fn refresh_hsearch_matches(&mut self)
        ensures
            search_asked(*old(self), old(self).hsearch_query@, *final(self)),
            final(self).hsearch_query == old(self).hsearch_query,
    {
        self.hsearch_matches = search_history(
            self.prompt.history.as_slice(),
            self.hsearch_query.as_str(),
        );
        if self.hsearch_selected >= self.hsearch_matches.len() {
            self.hsearch_selected = 0;
        }
    }

    /// Puts the selected history entry into the prompt.
    pub fn commit_history_selection(&mut self)
        requires
            old(self).wf(),
        ensures
            entry_chosen(*old(self), *final(self)),
            final(self).wf(),
    {
        if self.hsearch_selected < self.hsearch_matches.len() {
            let i: usize = self.hsearch_matches[self.hsearch_selected];
            if i < self.prompt.history.len() {
                let entry: String = self.prompt.history[i].clone();
                self.prompt.set_buffer(entry);
            }
        }
        self.exit_history_search_mode();
    }

    /// Goes back to the ordinary mode.
    pub fn exit_history_search_mode(&mut self)
        requires
            old(self).wf(),
        ensures
            search_left(*old(self), *final(self)),
            final(self).wf(),
    {
        self.prompt.mode = InputMode::Prompt;
        self.hsearch_query = String::new();
        self.hsearch_matches = Vec::new();
        self.hsearch_selected = 0;
        proof {
            place_is_kept(old(self).prompt, self.prompt);
        }
    }

    /// Handles a key while the history is being searched.
    pub fn handle_history_search_key(&mut self, key: KeyEvent) -> (r: Option<UserAction>)
        requires
            old(self).wf(),
        ensures
            r is None,
            search_key(*old(self), key.code, *final(self)),
            final(self).wf(),
    {
        match key.code {
            KeyCode::Esc => self.exit_history_search_mode(),
            KeyCode::Enter => self.commit_history_selection(),
            KeyCode::Up => {
                if self.hsearch_matches.len() > 0 && self.hsearch_selected > 0 {
                    self.hsearch_selected = self.hsearch_selected - 1;
                }
            },
            KeyCode::Down => {
                if self.hsearch_selected + 1 < self.hsearch_matches.len() {
                    self.hsearch_selected = self.hsearch_selected + 1;
                }
            },
            KeyCode::Backspace => {
                if self.hsearch_query.as_str().unicode_len() == 0 {
                    self.exit_history_search_mode();
                } else {
                    self.hsearch_query = without_last(self.hsearch_query.as_str());
                    self.refresh_hsearch_matches();
                }
            },
            KeyCode::Char(c) => {
                self.hsearch_query.push(c);
                self.refresh_hsearch_matches();
            },
            _ => {},
        }
        None
    }

    /// Selects the next match, and behind the last one the first.
    pub fn select_next_match(&mut self)
        requires
            old(self).wf(),
        ensures
            *final(self) == if old(self).hsearch_matches@.len() > 0 {
                App {
                    hsearch_selected: ((old(self).hsearch_selected + 1)
                        % old(self).hsearch_matches@.len() as int) as usize,
                    ..*old(self)
                }
            } else {
                *old(self)
            },
            final(self).wf(),
    {
        let n: usize = self.hsearch_matches.len();
        if n > 0 {
            self.hsearch_selected = (self.hsearch_selected + 1) % n;
        }
    }
}

} // verus!
