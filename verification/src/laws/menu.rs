//! The menu of the slash commands.
use vstd::prelude::*;
#[allow(unused_imports)]
use vstd::string::*;

use crate::app::dispatch::line_ran;
use crate::app::keyboard::{key_pressed, prompt_renewed, submitted, text_taken};
use crate::app::App;
use crate::command_menu::{entry_name, is_menu, is_menu_of, MenuEntry};
use crate::commands::{command_keys, lists_in_order, skill_keys, unslashed, CommandSpec};
use crate::events::UserAction;
use crate::input_state::{mode_prefix, InputMode};
use crate::keys::{KeyCode, KeyEvent};
use crate::laws::interrupt::prompt_has_the_keyboard;
use crate::laws::prompt::is_plain_key;
use crate::order::{is_sort_order, sort_order_is_complete};
use crate::skill_commands::SkillCommand;

verus! {

/// Whether `s` begins with `p`.
pub open spec fn leads(p: Seq<char>, s: Seq<char>) -> bool {
    p.len() <= s.len() && s.take(p.len() as int) == p
}

/// Whether the name of a command, or one of its aliases, begins with `p`.
pub open spec fn command_begins(c: CommandSpec, p: Seq<char>) -> bool {
    leads(p, c.name@) || exists|i: int|
        0 <= i < c.aliases@.len() && leads(p, (#[trigger] c.aliases@[i])@)
}

/// Whether the name of a skill, or one of its aliases, begins with `p`.
pub open spec fn skill_begins(c: SkillCommand, p: Seq<char>) -> bool {
    leads(p, c.name@) || exists|i: int|
        0 <= i < c.aliases@.len() && leads(p, (#[trigger] c.aliases@[i])@)
}

proof fn beginnings_agree(s: Seq<char>, p: Seq<char>)
    ensures
        leads(p, s) == crate::text::has_prefix(s, p),
{
    if p.len() <= s.len() {
        assert(s.take(p.len() as int) == s.subrange(0, p.len() as int));
    }
}

proof fn command_beginnings_agree(c: CommandSpec, p: Seq<char>)
    ensures
        command_begins(c, p) == c.begins_with(p),
{
    beginnings_agree(c.name@, p);
    assert forall|i: int| 0 <= i < c.aliases@.len() implies leads(p, (#[trigger] c.aliases@[i])@)
        == crate::text::has_prefix(c.aliases@[i]@, p) by {
        beginnings_agree(c.aliases@[i]@, p);
    }
}

proof fn skill_beginnings_agree(c: SkillCommand, p: Seq<char>)
    ensures
        skill_begins(c, p) == c.begins_with(p),
{
    beginnings_agree(c.name@, p);
    assert forall|i: int| 0 <= i < c.aliases@.len() implies leads(p, (#[trigger] c.aliases@[i])@)
        == crate::text::has_prefix(c.aliases@[i]@, p) by {
        beginnings_agree(c.aliases@[i]@, p);
    }
}

proof fn only_the_wanted_stay<T>(s: Seq<T>, wanted: spec_fn(T) -> bool, x: T)
    ensures
        s.filter(wanted).contains(x) <==> s.contains(x) && wanted(x),
    decreases s.len(),
{
    reveal(Seq::filter);
    if s.len() > 0 {
        let front = s.drop_last();
        only_the_wanted_stay(front, wanted, x);
        let kept = front.filter(wanted);
        let all = s.filter(wanted);
        assert(s.contains(x) <==> front.contains(x) || s.last() == x) by {
            if front.contains(x) {
                let i = choose|i: int| 0 <= i < front.len() && front[i] == x;
                assert(s[i] == x);
            }
            if s.contains(x) && s.last() != x {
                let i = choose|i: int| 0 <= i < s.len() && s[i] == x;
                assert(front[i] == x);
            }
            if s.last() == x {
                assert(s[s.len() - 1] == x);
            }
        }
        if wanted(s.last()) {
            assert(all == kept.push(s.last()));
            if kept.contains(x) {
                let i = choose|i: int| 0 <= i < kept.len() && kept[i] == x;
                assert(all[i] == x);
            }
            if s.last() == x {
                assert(all[kept.len() as int] == x);
            }
            if all.contains(x) && s.last() != x {
                let i = choose|i: int| 0 <= i < all.len() && all[i] == x;
                assert(kept[i] == x);
            }
        }
    }
}

proof fn all_are_listed<T>(items: Seq<T>, keys: Seq<Seq<char>>, r: Seq<&T>, x: T)
    requires
        lists_in_order(items, keys, r),
        items.len() == keys.len(),
        keys.len() <= usize::MAX,
    ensures
        r.len() == items.len(),
        items.contains(x) <==> exists|i: int| 0 <= i < r.len() && *(#[trigger] r[i]) == x,
{
    let order = choose|order: Seq<usize>| #[trigger]
        is_sort_order(keys, order) && r.len() == order.len() && forall|i: int|
            0 <= i < r.len() ==> *(#[trigger] r[i]) == items[order[i] as int];
    sort_order_is_complete(keys, order);
    if items.contains(x) {
        let i = choose|i: int| 0 <= i < items.len() && items[i] == x;
        assert(order.contains(i as usize));
        let k = choose|k: int| 0 <= k < order.len() && order[k] == i as usize;
        assert(*r[k] == x);
    }
    if exists|i: int| 0 <= i < r.len() && *(#[trigger] r[i]) == x {
        let i = choose|i: int| 0 <= i < r.len() && *(#[trigger] r[i]) == x;
        assert(items[order[i] as int] == x);
    }
}

/// The menu lists every command that begins with what is typed, by its name or by
/// an alias, and no other.
pub proof fn matching_commands_are_listed(
    a: App,
    typed: Seq<char>,
    entries: Seq<MenuEntry<'_>>,
    c: CommandSpec,
)
    requires
        is_menu(a.commands, typed, entries),
        typed.len() == 0 || typed[0] != '/',
        a.commands.builtins().len() <= usize::MAX,
        a.commands.skills().len() <= usize::MAX,
    ensures
        (exists|i: int|
            0 <= i < entries.len() && (#[trigger] entries[i] matches MenuEntry::Command(d) && *d
                == c)) <==> a.commands.builtins().contains(c) && command_begins(c, typed),
{
    let (cs, ss) = choose|cs: Seq<&CommandSpec>, ss: Seq<&SkillCommand>|
        #![trigger is_menu_of(entries, cs, ss)]
        lists_in_order(
            a.commands.command_hits(typed),
            command_keys(a.commands.command_hits(typed)),
            cs,
        ) && lists_in_order(
            a.commands.skill_hits(typed),
            skill_keys(a.commands.skill_hits(typed)),
            ss,
        ) && is_menu_of(entries, cs, ss);
    let hits = a.commands.command_hits(typed);
    let wanted = |d: CommandSpec| d.begins_with(unslashed(typed));
    a.commands.builtins().lemma_filter_len(wanted);
    only_the_wanted_stay(a.commands.builtins(), wanted, c);
    assert(unslashed(typed) == typed);
    command_beginnings_agree(c, typed);
    all_are_listed(hits, command_keys(hits), cs, c);
    if exists|i: int| 0 <= i < cs.len() && *(#[trigger] cs[i]) == c {
        let i = choose|i: int| 0 <= i < cs.len() && *(#[trigger] cs[i]) == c;
        assert(entries[i] == MenuEntry::Command(cs[i]));
    }
    if exists|i: int|
        0 <= i < entries.len() && (#[trigger] entries[i] matches MenuEntry::Command(d) && *d == c) {
        let i = choose|i: int|
            0 <= i < entries.len() && (#[trigger] entries[i] matches MenuEntry::Command(d) && *d
                == c);
        assert(i < cs.len());
        assert(*cs[i] == c);
    }
}

/// The menu lists every skill that begins with what is typed, by its name or by an
/// alias, and no other.
pub proof fn matching_skills_are_listed(
    a: App,
    typed: Seq<char>,
    entries: Seq<MenuEntry<'_>>,
    c: SkillCommand,
)
    requires
        is_menu(a.commands, typed, entries),
        typed.len() == 0 || typed[0] != '/',
        a.commands.builtins().len() <= usize::MAX,
        a.commands.skills().len() <= usize::MAX,
    ensures
        (exists|i: int|
            0 <= i < entries.len() && (#[trigger] entries[i] matches MenuEntry::Skill(d) && *d
                == c)) <==> a.commands.skills().contains(c) && skill_begins(c, typed),
{
    let (cs, ss) = choose|cs: Seq<&CommandSpec>, ss: Seq<&SkillCommand>|
        #![trigger is_menu_of(entries, cs, ss)]
        lists_in_order(
            a.commands.command_hits(typed),
            command_keys(a.commands.command_hits(typed)),
            cs,
        ) && lists_in_order(
            a.commands.skill_hits(typed),
            skill_keys(a.commands.skill_hits(typed)),
            ss,
        ) && is_menu_of(entries, cs, ss);
    let hits = a.commands.skill_hits(typed);
    let wanted = |d: SkillCommand| d.begins_with(unslashed(typed));
    a.commands.skills().lemma_filter_len(wanted);
    only_the_wanted_stay(a.commands.skills(), wanted, c);
    assert(unslashed(typed) == typed);
    skill_beginnings_agree(c, typed);
    all_are_listed(hits, skill_keys(hits), ss, c);
    if exists|i: int| 0 <= i < ss.len() && *(#[trigger] ss[i]) == c {
        let i = choose|i: int| 0 <= i < ss.len() && *(#[trigger] ss[i]) == c;
        assert(entries[cs.len() + i] == MenuEntry::Skill(ss[i]));
    }
    if exists|i: int|
        0 <= i < entries.len() && (#[trigger] entries[i] matches MenuEntry::Skill(d) && *d == c) {
        let i = choose|i: int|
            0 <= i < entries.len() && (#[trigger] entries[i] matches MenuEntry::Skill(d) && *d
                == c);
        assert(i >= cs.len());
        assert(*ss[i - cs.len()] == c);
    }
}

/// Whether a slash command is being typed.
pub open spec fn command_is_typed(a: App) -> bool {
    prompt_has_the_keyboard(a) && a.prompt.mode == InputMode::Command
}

/// Whether every name in the menu that begins with what is typed begins with `u` too,
/// and there is such a name.
pub open spec fn all_begin_with(
    entries: Seq<MenuEntry<'_>>,
    typed: Seq<char>,
    u: Seq<char>,
) -> bool {
    &&& exists|i: int| 0 <= i < entries.len() && leads(typed, entry_name(#[trigger] entries[i]))
    &&& forall|i: int|
        0 <= i < entries.len() && leads(typed, entry_name(#[trigger] entries[i])) ==> leads(
            u,
            entry_name(entries[i]),
        )
}

/// Tab completes what is typed: it only adds to it, it runs nothing, and every name
/// in the menu that began with what was typed begins with what is there then. It adds
/// as much as can be added like that.
pub proof fn tab_completes_the_name(
    a: App,
    key: KeyEvent,
    b: App,
    r: Option<UserAction>,
) -> (entries: Seq<MenuEntry<'static>>)
    requires
        key_pressed(a, key, b, r),
        command_is_typed(a),
        key.code == KeyCode::Tab,
    ensures
        r is None,
        is_menu(a.commands, a.prompt.buffer@, entries),
        b.prompt.mode == a.prompt.mode,
        b.blocks == a.blocks,
        leads(a.prompt.buffer@, b.prompt.buffer@),
        forall|i: int|
            0 <= i < entries.len() && leads(a.prompt.buffer@, entry_name(#[trigger] entries[i]))
                ==> leads(b.prompt.buffer@, entry_name(entries[i])),
        forall|u: Seq<char>| #[trigger]
            all_begin_with(entries, a.prompt.buffer@, u) ==> leads(u, b.prompt.buffer@),
{
    let typed = a.prompt.buffer@;
    let (entries, mid, taken) = choose|
        entries: Seq<MenuEntry<'static>>,
        mid: App,
        taken: Option<Option<UserAction>>,
    |
        is_menu(a.commands, typed, entries) && #[trigger] crate::app::popups::menu_key(
            a,
            key.code,
            entries,
            mid,
            taken,
        ) && match taken {
            Some(action) => b == mid && r == action,
            None => crate::app::keyboard::chat_key(mid, key, b, r),
        };
    let names = choose|names: Seq<&str>| #[trigger]
        crate::app::popups::are_names(names, entries) && crate::app::popups::name_completed(
            a,
            names,
            b,
        );
    let done = b.prompt.buffer@;
    if done != typed {
        assert(crate::command_menu::is_shared(names, typed, typed));
        assert(crate::text::has_prefix(done, typed));
    } else {
        assert(done.take(typed.len() as int) =~= typed);
    }
    beginnings_agree(done, typed);
    assert forall|i: int|
        0 <= i < entries.len() && leads(typed, entry_name(#[trigger] entries[i])) implies leads(
        done,
        entry_name(entries[i]),
    ) by {
        assert(names[i]@ == entry_name(entries[i]));
        beginnings_agree(names[i]@, typed);
        beginnings_agree(names[i]@, done);
    }
    assert forall|u: Seq<char>| #[trigger] all_begin_with(entries, typed, u) implies leads(
        u,
        done,
    ) by {
        let k = choose|k: int|
            0 <= k < entries.len() && leads(typed, entry_name(#[trigger] entries[k]));
        assert(names[k]@ == entry_name(entries[k]));
        beginnings_agree(names[k]@, typed);
        assert(crate::command_menu::has_candidate(names, typed));
        assert(crate::command_menu::is_shared(names, typed, u)) by {
            assert forall|i: int| 0 <= i < names.len() && crate::text::has_prefix(
                names[i]@,
                typed,
            ) implies crate::text::has_prefix(#[trigger] names[i]@, u) by {
                assert(names[i]@ == entry_name(entries[i]));
                beginnings_agree(names[i]@, typed);
                beginnings_agree(names[i]@, u);
            }
        }
        assert(crate::text::has_prefix(done, u));
        beginnings_agree(done, u);
    }
    entries
}

/// What a key finds while a slash command is being typed: the menu for the text.
proof fn menu_is_found(
    a: App,
    key: KeyEvent,
    b: App,
    r: Option<UserAction>,
) -> (m: (Seq<MenuEntry<'static>>, App, Option<Option<UserAction>>))
    requires
        key_pressed(a, key, b, r),
        command_is_typed(a),
        key.code == KeyCode::Up || key.code == KeyCode::Down || key.code == KeyCode::Enter,
    ensures
        is_menu(a.commands, a.prompt.buffer@, m.0),
        crate::app::popups::menu_key(a, key.code, m.0, m.1, m.2),
        m.2 matches Some(action) ==> b == m.1 && r == action,
        m.2 is None ==> crate::app::keyboard::chat_key(m.1, key, b, r),
{
    choose|entries: Seq<MenuEntry<'static>>, mid: App, taken: Option<Option<UserAction>>|
        is_menu(a.commands, a.prompt.buffer@, entries) && #[trigger] crate::app::popups::menu_key(
            a,
            key.code,
            entries,
            mid,
            taken,
        ) && match taken {
            Some(action) => b == mid && r == action,
            None => crate::app::keyboard::chat_key(mid, key, b, r),
        }
}

/// The arrows go through the menu: down from what is typed to the first entry and on
/// to the last of the eight that are shown, and up again. What is typed stays.
pub proof fn arrows_go_through_the_menu(
    a: App,
    key: KeyEvent,
    b: App,
    r: Option<UserAction>,
) -> (entries: Seq<MenuEntry<'static>>)
    requires
        key_pressed(a, key, b, r),
        command_is_typed(a),
        key.code == KeyCode::Up && a.command_menu_selected is Some || key.code == KeyCode::Down,
        a.command_menu_selected matches Some(n) ==> n < 8,
    ensures
        is_menu(a.commands, a.prompt.buffer@, entries),
        key.code == KeyCode::Up || entries.len() > 0 ==> r is None && b.prompt == a.prompt
            && b.blocks == a.blocks,
        key.code == KeyCode::Up ==> b.command_menu_selected == if a.command_menu_selected->0 == 0 {
            None
        } else {
            Some((a.command_menu_selected->0 - 1) as usize)
        },
        key.code == KeyCode::Down && entries.len() > 0 && a.command_menu_selected is None
            ==> b.command_menu_selected == Some(0usize),
        key.code == KeyCode::Down && (a.command_menu_selected matches Some(n) && n + 1
            < entries.len() && n + 1 < 8) ==> b.command_menu_selected == Some(
            (a.command_menu_selected->0 + 1) as usize,
        ),
        key.code == KeyCode::Down && entries.len() > 0 && (a.command_menu_selected matches Some(n)
            && (n + 1 >= entries.len() || n + 1 >= 8)) ==> b.command_menu_selected
            == a.command_menu_selected,
{
    let m = menu_is_found(a, key, b, r);
    m.0
}

/// Enter runs the command line: the entry that is selected in the menu, and what is
/// typed where none is. The line goes to the history with its slash.
pub proof fn enter_runs_the_command(
    a: App,
    key: KeyEvent,
    b: App,
    r: Option<UserAction>,
) -> (m: (Seq<MenuEntry<'static>>, App, App))
    requires
        key_pressed(a, key, b, r),
        command_is_typed(a),
        key.code == KeyCode::Enter,
        is_plain_key(key),
        a.prompt.buffer@.len() > 0,
    ensures
        is_menu(a.commands, a.prompt.buffer@, m.0),
        ({
            let line = if a.command_menu_selected matches Some(n) && n < m.0.len() {
                entry_name(m.0[a.command_menu_selected->0 as int])
            } else {
                a.prompt.buffer@
            };
            line.len() > 0 ==> m.1.blocks == a.blocks && m.1.commands == a.commands
                && m.1.prompt.buffer@ == line && line_ran(m.1, line, m.2, r) && b.blocks
                == m.2.blocks && b.should_quit == m.2.should_quit && b.active_command_panel
                == m.2.active_command_panel && b.prompt.buffer@.len() == 0 && (m.2.prompt.mode
                != InputMode::CommandInteract && m.2.prompt.history@.len() < 100
                ==> b.prompt.history@.len() == m.2.prompt.history@.len() + 1
                && b.prompt.history@.last()@ == "/"@ + line)
        }),
{
    let m = menu_is_found(a, key, b, r);
    let mid = m.1;
    assert(m.2 is None);
    assert(submitted(mid, b, r));
    if mid.prompt.buffer@.len() > 0 {
        let ran = choose|ran: App| #[trigger]
            text_taken(mid, ran, r) && prompt_renewed(
                ran,
                mode_prefix(mid.prompt.mode) + mid.prompt.buffer@,
                b,
            );
        assert(mid.prompt.mode == InputMode::Command);
        (m.0, mid, ran)
    } else {
        (m.0, mid, mid)
    }
}

} // verus!
