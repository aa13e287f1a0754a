//! The colour themes.
use vstd::prelude::*;

use crate::text::same_text;

verus! {

/// A colour theme.
#[derive(Clone, Copy, Debug, PartialEq, Eq)]
pub struct Theme {
    pub name: &'static str,
}

/// The names of the themes, in the order in which they are offered.
pub open spec fn theme_names() -> Seq<Seq<char>> {
    seq!["dark"@, "light"@, "solarized"@]
}

/// The themes, in the order in which they are offered.
pub fn all_themes() -> (r: Vec<Theme>)
    ensures
        r@.map_values(|t: Theme| t.name@) == theme_names(),
{
    let mut themes: Vec<Theme> = Vec::new();
    themes.push(Theme { name: "dark" });
    themes.push(Theme { name: "light" });
    themes.push(Theme { name: "solarized" });
    proof {
        assert(themes@.map_values(|t: Theme| t.name@) =~= theme_names());
    }
    themes
}

/// The theme of that name, or else the first one.
pub fn find_theme(name: &str) -> (r: Theme)
    ensures
        theme_names().contains(name@) ==> r.name@ == name@,
        !theme_names().contains(name@) ==> r.name@ == "dark"@,
{
    proof {
        let names = theme_names();
        assert(names[0] == "dark"@ && names[1] == "light"@ && names[2] == "solarized"@);
        if names.contains(name@) {
            let i = choose|i: int| 0 <= i < names.len() && names[i] == name@;
            assert(i == 0 || i == 1 || i == 2);
        }
    }
    if same_text(name, "light") {
        Theme { name: "light" }
    } else if same_text(name, "solarized") {
        Theme { name: "solarized" }
    } else {
        Theme { name: "dark" }
    }
}

} // verus!
