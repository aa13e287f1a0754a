//! The menu of slash commands that opens while one is being typed.
use vstd::prelude::*;
#[allow(unused_imports)]
use vstd::string::*;

use crate::commands::{
    command_keys, lists_in_order, skill_keys, CommandRegistry, CommandSpec,
};
use crate::skill_commands::SkillCommand;
use crate::text::{chars_of, has_prefix, starts_with, text_between};

verus! {

/// The most entries that the menu shows at once.
pub const MAX_VISIBLE: usize = 8;

/// One entry of the menu.
#[derive(Clone, Copy, Debug)]
pub enum MenuEntry<'a> {
    Command(&'a CommandSpec),
    Skill(&'a SkillCommand),
}

/// The name that an entry completes to.
pub open spec fn entry_name(e: MenuEntry<'_>) -> Seq<char> {
    match e {
        MenuEntry::Command(c) => c.name@,
        MenuEntry::Skill(s) => s.name@,
    }
}

impl<'a> MenuEntry<'a> {
    /// The name that the entry completes to.
    pub fn name(&self) -> (r: &str)
        ensures
            r@ == entry_name(*self),
    {
        match self {
            MenuEntry::Command(c) => c.name,
            MenuEntry::Skill(s) => s.name.as_str(),
        }
    }
}

/// Whether the menu for `buffer` has the given entries: first the built-in
/// commands that start with it, then the skills, both in alphabetical order.
pub open spec fn is_menu(
    registry: CommandRegistry,
    buffer: Seq<char>,
    entries: Seq<MenuEntry<'_>>,
) -> bool {
    exists|cs: Seq<&CommandSpec>, ss: Seq<&SkillCommand>|
        #![trigger is_menu_of(entries, cs, ss)]
        lists_in_order(
            registry.command_hits(buffer),
            command_keys(registry.command_hits(buffer)),
            cs,
        ) && lists_in_order(
            registry.skill_hits(buffer),
            skill_keys(registry.skill_hits(buffer)),
            ss,
        ) && is_menu_of(entries, cs, ss)
}

/// Whether the entries are the given commands and behind them the given skills.
pub open spec fn is_menu_of(
    entries: Seq<MenuEntry<'_>>,
    cs: Seq<&CommandSpec>,
    ss: Seq<&SkillCommand>,
) -> bool {
    &&& entries.len() == cs.len() + ss.len()
    &&& forall|i: int|
        0 <= i < cs.len() ==> (#[trigger] entries[i]) == MenuEntry::Command(cs[i])
    &&& forall|i: int|
        cs.len() <= i < entries.len() ==> (#[trigger] entries[i]) == MenuEntry::Skill(
            ss[i - cs.len()],
        )
}

/// The menu for what is being typed.
pub fn command_menu_entries<'a>(registry: &'a CommandRegistry, buffer: &str) -> (r: Vec<
    MenuEntry<'a>,
>)
    ensures
        is_menu(*registry, buffer@, r@),
{
    let cs: Vec<&'a CommandSpec> = registry.search(buffer);
    let ss: Vec<&'a SkillCommand> = registry.search_skills(buffer);
    let mut entries: Vec<MenuEntry<'a>> = Vec::new();
    let mut i: usize = 0;
    while i < cs.len()
        invariant
            i <= cs@.len(),
            entries@.len() == i,
            forall|j: int|
                0 <= j < i ==> (#[trigger] entries@[j]) == MenuEntry::Command(cs@[j]),
        decreases cs@.len() - i,
    {
        entries.push(MenuEntry::Command(cs[i]));
        i += 1;
    }
    let mut k: usize = 0;
    while k < ss.len()
        invariant
            k <= ss@.len(),
            entries@.len() == cs@.len() + k,
            forall|j: int|
                0 <= j < cs@.len() ==> (#[trigger] entries@[j]) == MenuEntry::Command(cs@[j]),
            forall|j: int|
                cs@.len() <= j < entries@.len() ==> (#[trigger] entries@[j]) == MenuEntry::Skill(
                    ss@[j - cs@.len()],
                ),
        decreases ss@.len() - k,
    {
        entries.push(MenuEntry::Skill(ss[k]));
        k += 1;
    }
    proof {
        assert(is_menu_of(entries@, cs@, ss@));
    }
    entries
}

/// Whether every name that starts with `buffer` starts with `t` too.
pub open spec fn is_shared(names: Seq<&str>, buffer: Seq<char>, t: Seq<char>) -> bool {
    forall|i: int|
        #![trigger names[i]]
        0 <= i < names.len() && has_prefix(names[i]@, buffer) ==> has_prefix(names[i]@, t)
}

/// Whether some name starts with `buffer`.
pub open spec fn has_candidate(names: Seq<&str>, buffer: Seq<char>) -> bool {
    exists|i: int| 0 <= i < names.len() && has_prefix((#[trigger] names[i])@, buffer)
}

/// Whether `t` is the longest text that all names that start with `buffer` have
/// in common.
pub open spec fn is_common_start(names: Seq<&str>, buffer: Seq<char>, t: Seq<char>) -> bool {
    &&& has_candidate(names, buffer)
    &&& is_shared(names, buffer, t)
    &&& forall|u: Seq<char>| #[trigger] is_shared(names, buffer, u) ==> has_prefix(t, u)
}

fn common_start(a: &Vec<char>, b: &Vec<char>) -> (r: usize)
    ensures
        r <= a@.len(),
        r <= b@.len(),
        a@.take(r as int) == b@.take(r as int),
        r < a@.len() && r < b@.len() ==> a@[r as int] != b@[r as int],
{
    let mut i: usize = 0;
    while i < a.len() && i < b.len() && a[i] == b[i]
        invariant
            i <= a@.len(),
            i <= b@.len(),
            forall|j: int| 0 <= j < i ==> a@[j] == b@[j],
        decreases a@.len() - i,
    {
        i += 1;
    }
    proof {
        assert(a@.take(i as int) =~= b@.take(i as int));
    }
    i
}

proof fn lemma_prefixes(s: Seq<char>, t: Seq<char>, u: Seq<char>)
    requires
        has_prefix(s, t),
        has_prefix(s, u),
        u.len() <= t.len(),
    ensures
        has_prefix(t, u),
{
    assert(t == s.subrange(0, t.len() as int));
    assert(u == s.subrange(0, u.len() as int));
    assert(t.subrange(0, u.len() as int) =~= u);
}

/// The longest text that all names that start with `buffer` have in common,
/// where there are such names.
fn common_start_of(names: &Vec<&str>, buffer: &str) -> (r: Option<Vec<char>>)
    ensures
        r is Some <==> has_candidate(names@, buffer@),
        r matches Some(t) ==> is_common_start(names@, buffer@, t@),
{
    let mut shared: Option<Vec<char>> = None;
    let mut i: usize = 0;
    while i < names.len()
        invariant
            i <= names@.len(),
            shared is None ==> forall|j: int|
                0 <= j < i ==> !has_prefix((#[trigger] names@[j])@, buffer@),
            shared matches Some(t) ==> is_common_start(names@.take(i as int), buffer@, t@),
        decreases names@.len() - i,
    {
        let ghost done = names@.take(i as int);
        let ghost next = names@.take(i + 1);
        proof {
            assert(next =~= done.push(names@[i as int]));
            assert(forall|j: int| 0 <= j < i ==> (#[trigger] next[j]) == done[j]);
        }
        if starts_with(names[i], buffer) {
            let v: Vec<char> = chars_of(names[i]);
            match shared {
                None => {
                    proof {
                        let t = v@;
                        assert(has_prefix(next[i as int]@, buffer@));
                        assert(t.subrange(0, t.len() as int) =~= t);
                        assert forall|j: int| 0 <= j < next.len() && has_prefix(
                            next[j]@,
                            buffer@,
                        ) implies has_prefix(#[trigger] next[j]@, t) by {
                            if j < i {
                                assert(next[j] == names@[j]);
                            }
                        }
                        assert forall|u: Seq<char>| #[trigger]
                            is_shared(next, buffer@, u) implies has_prefix(t, u) by {
                            assert(has_prefix(next[i as int]@, u));
                        }
                    }
                    shared = Some(v);
                },
                Some(t) => {
                    let k: usize = common_start(&t, &v);
                    let ghost before = t@;
                    let mut cut: Vec<char> = t;
                    cut.truncate(k);
                    proof {
                        let c = cut@;
                        assert(c == before.take(k as int));
                        let w = choose|w: int|
                            0 <= w < done.len() && has_prefix((#[trigger] done[w])@, buffer@);
                        assert(next[w] == done[w]);
                        assert(v@.subrange(0, k as int) =~= c);
                        assert(before.subrange(0, k as int) =~= c);
                        assert forall|j: int| 0 <= j < next.len() && has_prefix(
                            next[j]@,
                            buffer@,
                        ) implies has_prefix(#[trigger] next[j]@, c) by {
                            if j < i {
                                assert(next[j] == done[j]);
                                assert(has_prefix(done[j]@, before));
                                assert(done[j]@.subrange(0, k as int) =~= before.subrange(
                                    0,
                                    k as int,
                                ));
                            }
                        }
                        assert forall|u: Seq<char>| #[trigger]
                            is_shared(next, buffer@, u) implies has_prefix(c, u) by {
                            assert(is_shared(done, buffer@, u)) by {
                                assert forall|j: int| 0 <= j < done.len() && has_prefix(
                                    done[j]@,
                                    buffer@,
                                ) implies has_prefix(#[trigger] done[j]@, u) by {
                                    assert(next[j] == done[j]);
                                }
                            }
                            assert(has_prefix(before, u));
                            assert(has_prefix(next[i as int]@, u));
                            assert(u == before.subrange(0, u.len() as int));
                            assert(u == v@.subrange(0, u.len() as int));
                            if u.len() > k {
                                assert(before[k as int] == u[k as int]);
                                assert(v@[k as int] == u[k as int]);
                            }
                            lemma_prefixes(before, c, u);
                        }
                    }
                    shared = Some(cut);
                },
            }
        } else {
            proof {
                if shared is Some {
                    let t = shared->Some_0;
                    let w = choose|w: int|
                        0 <= w < done.len() && has_prefix((#[trigger] done[w])@, buffer@);
                    assert(next[w] == done[w]);
                    assert(is_shared(next, buffer@, t@)) by {
                        assert forall|j: int| 0 <= j < next.len() && has_prefix(
                            next[j]@,
                            buffer@,
                        ) implies has_prefix(#[trigger] next[j]@, t@) by {
                            if j < i {
                                assert(next[j] == done[j]);
                            }
                        }
                    }
                    assert forall|u: Seq<char>| #[trigger]
                        is_shared(next, buffer@, u) implies has_prefix(t@, u) by {
                        assert(is_shared(done, buffer@, u)) by {
                            assert forall|j: int| 0 <= j < done.len() && has_prefix(
                                done[j]@,
                                buffer@,
                            ) implies has_prefix(#[trigger] done[j]@, u) by {
                                assert(next[j] == done[j]);
                            }
                        }
                    }
                }
            }
        }
        i += 1;
    }
    proof {
        assert(names@.take(i as int) =~= names@);
    }
    shared
}

/// Completes what is being typed as far as the names that start with it agree;
/// `None` where that adds nothing.
pub fn tab_complete_names(buffer: &str, names: &Vec<&str>) -> (r: Option<String>)
    ensures
        r matches Some(t) ==> is_common_start(names@, buffer@, t@) && t@.len() > buffer@.len(),
        r is None ==> !has_candidate(names@, buffer@) || is_common_start(
            names@,
            buffer@,
            buffer@,
        ),
{
    match common_start_of(names, buffer) {
        None => None,
        Some(t) => {
            let n: usize = t.len();
            proof {
                assert(is_shared(names@, buffer@, buffer@));
                assert(has_prefix(t@, buffer@));
                assert(t@.subrange(0, n as int) =~= t@);
            }
            if n > buffer.unicode_len() {
                Some(text_between(&t, 0, n))
            } else {
                proof {
                    assert(t@ =~= buffer@);
                }
                None
            }
        },
    }
}

} // verus!
