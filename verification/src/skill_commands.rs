//! Slash commands that stand for a prompt template.
use vstd::prelude::*;

use crate::text::{replace_text, replaced};

verus! {

/// A slash command made from a skill file.
#[derive(Clone, Debug)]
pub struct SkillCommand {
    pub name: String,
    pub description: String,
    pub aliases: Vec<String>,
    pub argument_hint: String,
    pub allowed_tools: Option<Vec<String>>,
    pub prompt_template: String,
    pub source_path: String,
}

impl SkillCommand {
    /// The prompt for the given arguments: the template, with the arguments in
    /// each place that asks for them.
    pub fn expand(&self, args: &str) -> (r: String)
        ensures
            r@ == replaced(self.prompt_template@, "$ARGUMENTS"@, args@),
    {
        proof {
            reveal_strlit("$ARGUMENTS");
        }
        replace_text(self.prompt_template.as_str(), "$ARGUMENTS", args)
    }
}

} // verus!
