//! The interactive panel below the prompt.
use vstd::prelude::*;

use crate::style::{line_models, Line, LineModel};

verus! {

/// An interactive panel.
#[derive(Clone, Debug)]
pub struct CommandPanelState {
    /// The command that opened the panel.
    pub command_name: String,
    pub lines: Vec<Line>,
    /// The selected item, for a panel with a list.
    pub selected: Option<usize>,
    pub item_count: usize,
    /// The line of the first item.
    pub list_offset: usize,
    pub scroll: u16,
    /// What the panel's command needs to know of its items.
    pub context: Option<String>,
    pub hint: String,
}

/// The model of a panel.
pub struct PanelModel {
    pub command_name: Seq<char>,
    pub lines: Seq<LineModel>,
    pub selected: Option<usize>,
    pub item_count: usize,
    pub list_offset: usize,
    pub scroll: u16,
    pub context: Option<Seq<char>>,
    pub hint: Seq<char>,
}

impl View for CommandPanelState {
    type V = PanelModel;

    open spec fn view(&self) -> PanelModel {
        PanelModel {
            command_name: self.command_name@,
            lines: line_models(self.lines@),
            selected: self.selected,
            item_count: self.item_count,
            list_offset: self.list_offset,
            scroll: self.scroll,
            context: match self.context {
                Some(c) => Some(c@),
                None => None,
            },
            hint: self.hint@,
        }
    }
}

/// The panel of a command that shows the given lines and has no items.
pub open spec fn text_panel(command: Seq<char>, lines: Seq<LineModel>) -> PanelModel {
    PanelModel {
        command_name: command,
        lines,
        selected: None,
        item_count: 0,
        list_offset: 0,
        scroll: 0,
        context: None,
        hint: seq![],
    }
}

impl CommandPanelState {
    /// The panel of a command that shows the given lines.
    pub fn new(command_name: &str, lines: Vec<Line>) -> (r: CommandPanelState)
        ensures
            r@ == text_panel(command_name@, line_models(lines@)),
    {
        let r: CommandPanelState = CommandPanelState {
            command_name: command_name.to_owned(),
            lines,
            selected: None,
            item_count: 0,
            list_offset: 0,
            scroll: 0,
            context: None,
            hint: String::new(),
        };
        proof {
            assert(r@.hint =~= seq![]);
        }
        r
    }

    /// The panel with an item selected.
    pub fn with_selection(self, selected: usize) -> (r: CommandPanelState)
        ensures
            r@ == (PanelModel { selected: Some(selected), ..self@ }),
    {
        let mut p: CommandPanelState = self;
        p.selected = Some(selected);
        p
    }

    /// The panel with the number of its items.
    pub fn with_item_count(self, item_count: usize) -> (r: CommandPanelState)
        ensures
            r@ == (PanelModel { item_count, ..self@ }),
    {
        let mut p: CommandPanelState = self;
        p.item_count = item_count;
        p
    }

    /// The panel with the line of its first item.
    pub fn with_list_offset(self, list_offset: usize) -> (r: CommandPanelState)
        ensures
            r@ == (PanelModel { list_offset, ..self@ }),
    {
        let mut p: CommandPanelState = self;
        p.list_offset = list_offset;
        p
    }

    /// The panel with a line of help on its keys.
    pub fn with_hint(self, hint: &str) -> (r: CommandPanelState)
        ensures
            r@ == (PanelModel { hint: hint@, ..self@ }),
    {
        let mut p: CommandPanelState = self;
        p.hint = hint.to_owned();
        p
    }

    /// The panel with what its command needs to know of its items.
    pub fn with_context(self, context: String) -> (r: CommandPanelState)
        ensures
            r@ == (PanelModel { context: Some(context@), ..self@ }),
    {
        let mut p: CommandPanelState = self;
        p.context = Some(context);
        p
    }
}

} // verus!
