//! File names behind an `@`.
use vstd::prelude::*;
#[allow(unused_imports)]
use vstd::string::*;

use crate::app::keyboard::key_pressed;
use crate::app::popups::{atfile_chosen, atfile_left};
use crate::app::App;
use crate::completion::{
    are_suggestions, at_most, candidate_of, candidate_paths, collected, distinct_paths, file_name,
    forward_slashes, has_path, is_ranking, name_start, path_matches, ranks_ahead, tier,
    CandidateModel, FileNode, FoundModel,
};
use crate::events::UserAction;
use crate::input_state::{refilled, InputMode};
use crate::keys::{KeyCode, KeyEvent};
use crate::laws::interrupt::prompt_has_the_keyboard;
use crate::text::{has_part, has_prefix, is_last_at, last_at, lowercase_of, occurs_at, views};

verus! {

// ---------------------------------------------------------------------------
// Choosing a file
// ---------------------------------------------------------------------------

proof fn last_sign_is_found(head: Seq<char>, query: Seq<char>)
    requires
        !query.contains('@'),
    ensures
        ({
            let s = head + "@"@ + query;
            has_part(s, "@"@) && last_at(s, "@"@) == head.len()
        }),
{
    reveal_strlit("@");
    let s = head + "@"@ + query;
    let at = head.len() as int;
    assert(s.subrange(at, at + 1) =~= "@"@);
    assert(occurs_at(s, "@"@, at));
    assert forall|j: int| at < j implies !occurs_at(s, "@"@, j) by {
        if occurs_at(s, "@"@, j) {
            assert(s.subrange(j, j + 1)[0] == s[j]);
            assert(s[j] == query[j - at - 1]);
        }
    }
    assert(is_last_at(s, "@"@, at));
    let found = last_at(s, "@"@);
    assert(is_last_at(s, "@"@, found));
    assert(occurs_at(s, "@"@, found));
}

/// The file that is chosen takes the place of what was typed behind the last `@`:
/// everything before it stays, for every text, and the cursor stands behind the
/// name.
pub proof fn chosen_file_replaces_the_query(
    a: App,
    head: Seq<char>,
    query: Seq<char>,
    i: int,
    b: App,
)
    requires
        atfile_chosen(a, b),
        a.prompt.buffer@ == head + "@"@ + query,
        !query.contains('@'),
        0 <= i < a.atfile_suggestions@.len(),
        a.atfile_selected is None ==> i == 0,
        a.atfile_selected matches Some(n) ==> i == n,
    ensures
        b.prompt.buffer@ == head + "@"@ + a.atfile_suggestions@[i]@,
        b.prompt.mode == InputMode::Prompt,
        b.prompt.cursor == crate::input_state::byte_pos(
            b.prompt.buffer@,
            b.prompt.buffer@.len() as int,
        ),
        b.prompt.history == a.prompt.history,
        b.atfile_suggestions@.len() == 0,
        b.atfile_selected is None,
        b.blocks == a.blocks,
{
    last_sign_is_found(head, query);
    let mid = choose|mid: App|
        mid == (App { prompt: mid.prompt, ..a }) && refilled(
            a.prompt,
            crate::app::popups::with_file(a.prompt.buffer@, a.atfile_suggestions@[i]@),
            mid.prompt,
        ) && #[trigger] atfile_left(mid, b);
    assert(a.prompt.buffer@.take(head.len() as int) =~= head);
    assert(mid.prompt.is_at(mid.prompt.index()));
    assert(b.prompt.buffer@ =~= head + "@"@ + a.atfile_suggestions@[i]@);
}

/// Enter and Tab both choose the file that is selected, or else the first one.
pub proof fn enter_chooses_the_file(
    a: App,
    key: KeyEvent,
    head: Seq<char>,
    query: Seq<char>,
    i: int,
    b: App,
    r: Option<UserAction>,
)
    requires
        key_pressed(a, key, b, r),
        key.code == KeyCode::Enter || key.code == KeyCode::Tab,
        prompt_has_the_keyboard(a),
        a.prompt.mode == InputMode::AtFile,
        a.prompt.buffer@ == head + "@"@ + query,
        !query.contains('@'),
        0 <= i < a.atfile_suggestions@.len(),
        a.atfile_selected is None ==> i == 0,
        a.atfile_selected matches Some(n) ==> i == n,
    ensures
        r is None,
        b.prompt.buffer@ == head + "@"@ + a.atfile_suggestions@[i]@,
        b.prompt.mode == InputMode::Prompt,
{
    chosen_file_replaces_the_query(a, head, query, i, b);
}

/// While file names are offered, Esc keeps the text as it was typed, and what is
/// typed goes on both in the text and in the query.
pub proof fn offering_files_keeps_the_text(
    a: App,
    key: KeyEvent,
    b: App,
    r: Option<UserAction>,
)
    requires
        key_pressed(a, key, b, r),
        prompt_has_the_keyboard(a),
        a.prompt.mode == InputMode::AtFile,
        !key.modifiers.control,
    ensures
        r is None,
        key.code == KeyCode::Esc ==> b.prompt.buffer@ == a.prompt.buffer@ && b.prompt.mode
            == InputMode::Prompt && b.atfile_suggestions@.len() == 0,
        key.code matches KeyCode::Char(c) ==> b.prompt.buffer@ == a.prompt.buffer@.insert(
            a.prompt.index(),
            c,
        ) && b.atfile_query@ == a.atfile_query@.push(c) && b.prompt.mode == InputMode::AtFile
            && are_suggestions(
            a.around.files@,
            a.atfile_query@.push(c),
            views(b.atfile_suggestions@),
        ),
        b.blocks == a.blocks,
        b.turn == a.turn,
{
}

/// Backspace takes a character off the text and off the query, and off the `@` itself
/// once the query is empty, which ends the search.
pub proof fn query_is_taken_back(
    a: App,
    key: KeyEvent,
    b: App,
    r: Option<UserAction>,
)
    requires
        key_pressed(a, key, b, r),
        prompt_has_the_keyboard(a),
        a.prompt.mode == InputMode::AtFile,
        a.wf(),
        a.prompt.index() > 0,
        key.code == KeyCode::Backspace,
    ensures
        r is None,
        b.prompt.buffer@ == a.prompt.buffer@.remove(a.prompt.index() - 1),
        a.atfile_query@.len() > 0 ==> b.atfile_query@ == a.atfile_query@.drop_last()
            && b.prompt.mode == InputMode::AtFile && are_suggestions(
            a.around.files@,
            a.atfile_query@.drop_last(),
            views(b.atfile_suggestions@),
        ),
        a.atfile_query@.len() == 0 ==> b.prompt.mode == InputMode::Prompt
            && b.atfile_suggestions@.len() == 0,
{
    if a.atfile_query@.len() == 0 {
        let mid = choose|mid: App| #[trigger]
            atfile_left(a, mid) && b == (App { prompt: b.prompt, ..mid })
                && crate::input_state::backspaced(mid.prompt, b.prompt);
        crate::input_state::place_is_kept(a.prompt, mid.prompt);
    }
}

/// The selection stays where it is while it can, goes to the last name where the list
/// has become shorter, and is dropped with the last name. The arrows go through the
/// list name by name.
pub proof fn selection_stays_in_the_list(
    a: App,
    key: KeyEvent,
    b: App,
    r: Option<UserAction>,
    n: usize,
)
    requires
        key_pressed(a, key, b, r),
        prompt_has_the_keyboard(a),
        a.prompt.mode == InputMode::AtFile,
        !key.modifiers.control,
        a.atfile_selected == Some(n),
        n < a.atfile_suggestions@.len(),
    ensures
        key.code is Char && n < b.atfile_suggestions@.len() ==> b.atfile_selected == Some(n),
        key.code is Char && b.atfile_suggestions@.len() == 0 ==> b.atfile_selected is None,
        key.code is Char && 0 < b.atfile_suggestions@.len() <= n ==> b.atfile_selected == Some(
            (b.atfile_suggestions@.len() - 1) as usize,
        ),
        key.code == KeyCode::Up ==> b.atfile_selected == (if n == 0 {
            None
        } else {
            Some((n - 1) as usize)
        }) && b.prompt == a.prompt,
        key.code == KeyCode::Down ==> b.atfile_selected == (if n + 1
            == a.atfile_suggestions@.len() {
            Some(n)
        } else {
            Some((n + 1) as usize)
        }) && b.prompt == a.prompt,
{
}

// ---------------------------------------------------------------------------
// What is suggested
// ---------------------------------------------------------------------------

/// Whether a name is hidden, or that of a directory of build tools.
pub open spec fn is_passed_over(name: Seq<char>) -> bool {
    (name.len() > 0 && name[0] == '.') || name == "target"@ || name == "node_modules"@
}

/// A name with each backslash turned into a slash.
pub open spec fn slashed(name: Seq<char>) -> Seq<char> {
    Seq::new(
        name.len(),
        |k: int|
            if name[k] == '\\' {
                '/'
            } else {
                name[k]
            },
    )
}

/// Whether the nodes of a directory lead to a file of that path, at most `levels`
/// directories further down, through nothing that is passed over.
pub open spec fn leads_to(
    nodes: Seq<FileNode>,
    prefix: Seq<char>,
    levels: int,
    f: FoundModel,
) -> bool
    decreases levels,
{
    levels >= 0 && exists|k: int|
        0 <= k < nodes.len() && match #[trigger] nodes[k] {
            FileNode::File { name, modified } => {
                &&& !is_passed_over(name@)
                &&& f.path == prefix + slashed(name@)
                &&& f.modified == modified
            },
            FileNode::Dir { name, entries } => {
                &&& levels > 0
                &&& !is_passed_over(name@)
                &&& leads_to(entries@, prefix + slashed(name@) + "/"@, levels - 1, f)
            },
        }
}

/// Whether the workspace holds a file of that path that may be suggested.
pub open spec fn is_file(workspace: Seq<FileNode>, path: Seq<char>) -> bool {
    exists|modified: u64| #[trigger]
        leads_to(workspace, seq![], 3, FoundModel { path, modified })
}

spec fn was_found(found: Seq<FoundModel>, path: Seq<char>) -> bool {
    exists|k: int| 0 <= k < found.len() && (#[trigger] found[k]).path == path
}

proof fn slashes_are_slashes(name: Seq<char>)
    ensures
        forward_slashes(name) == slashed(name),
{
    assert(forward_slashes(name) =~= slashed(name));
}

proof fn collected_are_files(
    nodes: Seq<FileNode>,
    prefix: Seq<char>,
    depth: int,
    q: Seq<char>,
    found: Seq<FoundModel>,
    n: int,
)
    requires
        0 <= n <= nodes.len(),
    ensures
        ({
            let all = collected(nodes, prefix, depth, q, found, n);
            &&& all.len() >= found.len()
            &&& forall|i: int| 0 <= i < found.len() ==> #[trigger] all[i] == found[i]
            &&& forall|i: int|
                found.len() <= i < all.len() ==> leads_to(
                    nodes,
                    prefix,
                    3 - depth,
                    #[trigger] all[i],
                ) && (q.len() == 0 || has_part(lowercase_of(all[i].path), q))
        }),
    decreases crate::completion::MAX_DEPTH + 1 - depth, n,
{
    if depth <= crate::completion::MAX_DEPTH && n > 0 {
        collected_are_files(nodes, prefix, depth, q, found, n - 1);
        let earlier = collected(nodes, prefix, depth, q, found, n - 1);
        let all = collected(nodes, prefix, depth, q, found, n);
        match nodes[n - 1] {
            FileNode::File { name, modified } => {
                slashes_are_slashes(name@);
                if all.len() > earlier.len() {
                    assert(leads_to(nodes, prefix, 3 - depth, all.last()));
                }
            },
            FileNode::Dir { name, entries } => {
                slashes_are_slashes(name@);
                if !is_passed_over(name@) {
                    let below = prefix + forward_slashes(name@) + "/"@;
                    collected_are_files(
                        entries@,
                        below,
                        depth + 1,
                        q,
                        earlier,
                        entries@.len() as int,
                    );
                    assert forall|i: int| earlier.len() <= i < all.len() implies leads_to(
                        nodes,
                        prefix,
                        3 - depth,
                        #[trigger] all[i],
                    ) by {
                        assert(leads_to(entries@, below, 2 - depth, all[i]));
                    }
                }
            },
        }
    }
}

proof fn distinct_are_candidates(cs: Seq<CandidateModel>, c: CandidateModel)
    requires
        distinct_paths(cs).contains(c),
    ensures
        cs.contains(c),
    decreases cs.len(),
{
    if cs.len() > 0 {
        let rest = distinct_paths(cs.drop_last());
        let all = distinct_paths(cs);
        let k = choose|k: int| 0 <= k < all.len() && all[k] == c;
        if c == cs.last() {
            assert(cs[cs.len() - 1] == c);
        } else {
            assert(rest[k] == c);
            assert(rest.contains(c));
            distinct_are_candidates(cs.drop_last(), c);
            let j = choose|j: int| 0 <= j < cs.drop_last().len() && cs.drop_last()[j] == c;
            assert(cs[j] == c);
        }
    }
}

proof fn distinct_paths_differ(cs: Seq<CandidateModel>)
    ensures
        forall|i: int, j: int|
            0 <= i < j < distinct_paths(cs).len() ==> (#[trigger] distinct_paths(cs)[i]).path != (
            #[trigger] distinct_paths(cs)[j]).path,
    decreases cs.len(),
{
    if cs.len() > 0 {
        distinct_paths_differ(cs.drop_last());
        let rest = distinct_paths(cs.drop_last());
        let all = distinct_paths(cs);
        assert forall|i: int, j: int| 0 <= i < j < all.len() implies (#[trigger] all[i]).path != (
        #[trigger] all[j]).path by {
            assert(all[i] == rest[i]);
            if j < rest.len() {
                assert(all[j] == rest[j]);
            } else {
                assert(!has_path(rest, all[j].path));
            }
        }
    }
}

/// The part of a path behind its last slash.
pub open spec fn is_last_part(path: Seq<char>, name: Seq<char>) -> bool {
    &&& !name.contains('/')
    &&& path == name || exists|dir: Seq<char>| path == #[trigger] (dir + "/"@) + name
}

proof fn last_part_is_the_name(path: Seq<char>, k: int)
    requires
        0 <= k <= path.len(),
    ensures
        0 <= name_start(path, k) <= k,
        forall|i: int| name_start(path, k) <= i < k ==> path[i] != '/',
        name_start(path, k) > 0 ==> path[name_start(path, k) - 1] == '/',
    decreases k,
{
    if k > 0 && path[k - 1] != '/' {
        last_part_is_the_name(path, k - 1);
    }
}

/// The name of a file is the part of its path behind the last slash.
pub proof fn name_is_the_last_part(path: Seq<char>)
    ensures
        is_last_part(path, file_name(path)),
{
    reveal_strlit("/");
    last_part_is_the_name(path, path.len() as int);
    let at = name_start(path, path.len() as int);
    let name = file_name(path);
    assert forall|i: int| 0 <= i < name.len() implies name[i] != '/' by {
        assert(name[i] == path[at + i]);
    }
    if at == 0 {
        assert(name =~= path);
    } else {
        let dir = path.take(at - 1);
        assert(path =~= (dir + "/"@) + name);
    }
}

/// Every file that is suggested is a file of the workspace, reached through
/// nothing hidden and through no directory of build tools, at most three
/// directories down, whose path holds the query, in whatever letter case. No
/// file is suggested twice, and never more than twelve are.
pub proof fn suggestions_are_matching_files(
    workspace: Seq<FileNode>,
    query: Seq<char>,
    r: Seq<Seq<char>>,
)
    requires
        are_suggestions(workspace, query, r),
    ensures
        r.len() <= 12,
        forall|i: int, j: int| 0 <= i < j < r.len() ==> #[trigger] r[i] != #[trigger] r[j],
        forall|i: int|
            0 <= i < r.len() ==> (lowercase_of(query).len() == 0 || has_part(
                lowercase_of(#[trigger] r[i]),
                lowercase_of(query),
            )),
        forall|i: int| 0 <= i < r.len() ==> is_file(workspace, #[trigger] r[i]),
{
    let q = lowercase_of(query);
    let found = collected(workspace, seq![], 0, q, seq![], workspace.len() as int);
    let cs = found.map_values(|f: FoundModel| candidate_of(f, q));
    let ranked = choose|ranked: Seq<CandidateModel>| #[trigger]
        is_ranking(distinct_paths(cs), ranked) && r == at_most(
            candidate_paths(ranked),
            crate::completion::MAX_ATFILE_SUGGESTIONS as int,
        );
    collected_are_files(workspace, seq![], 0, q, seq![], workspace.len() as int);
    distinct_paths_differ(cs);
    assert forall|i: int| 0 <= i < r.len() implies was_found(found, #[trigger] r[i]) by {
        assert(r[i] == ranked[i].path);
        assert(ranked.contains(ranked[i]));
        distinct_are_candidates(cs, ranked[i]);
        let k = choose|k: int| 0 <= k < cs.len() && cs[k] == ranked[i];
        assert(found[k].path == r[i]);
    }
    assert forall|i: int| 0 <= i < r.len() implies (q.len() == 0 || has_part(
        lowercase_of(#[trigger] r[i]),
        q,
    )) by {
        assert(was_found(found, r[i]));
        let k = choose|k: int| 0 <= k < found.len() && (#[trigger] found[k]).path == r[i];
    }
    assert forall|i: int| 0 <= i < r.len() implies is_file(workspace, #[trigger] r[i]) by {
        assert(was_found(found, r[i]));
        let k = choose|k: int| 0 <= k < found.len() && (#[trigger] found[k]).path == r[i];
        assert(found[k] == (FoundModel { path: r[i], modified: found[k].modified }));
        assert(leads_to(
            workspace,
            seq![],
            3,
            FoundModel { path: r[i], modified: found[k].modified },
        ));
    }
    assert forall|i: int, j: int| 0 <= i < j < r.len() implies #[trigger] r[i]
        != #[trigger] r[j] by {
        assert(ranked.contains(ranked[i]));
        assert(ranked.contains(ranked[j]));
        assert(ranks_ahead(ranked[i], ranked[j]));
        crate::completion::ranks_ahead_is_irreflexive(ranked[i]);
        let d = distinct_paths(cs);
        assert(d.contains(ranked[i]));
        assert(d.contains(ranked[j]));
        let x = choose|x: int| 0 <= x < d.len() && d[x] == ranked[i];
        let y = choose|y: int| 0 <= y < d.len() && d[y] == ranked[j];
        assert(x != y);
        if x < y {
            assert(d[x].path != d[y].path);
        } else {
            assert(d[y].path != d[x].path);
        }
    }
}

/// The number of slashes in a path.
pub open spec fn slash_count(path: Seq<char>) -> nat {
    path.filter(|c: char| c == '/').len()
}

proof fn tier_counts_slashes(path: Seq<char>)
    ensures
        tier(path) == slash_count(path),
    decreases path.len(),
{
    reveal(Seq::filter);
    if path.len() > 0 {
        tier_counts_slashes(path.drop_last());
    }
}

/// Files whose name starts with the query are suggested ahead of the others, and
/// among each of the two, those that lie less deep ahead of those that lie
/// deeper, and at one depth those that were modified later ahead of the others.
pub proof fn suggestions_are_ordered(
    workspace: Seq<FileNode>,
    query: Seq<char>,
    r: Seq<Seq<char>>,
    i: int,
    j: int,
    one: Seq<char>,
    other: Seq<char>,
)
    requires
        are_suggestions(workspace, query, r),
        0 <= i < j < r.len(),
        is_last_part(r[i], one),
        is_last_part(r[j], other),
    ensures
        has_prefix(lowercase_of(other), lowercase_of(query)) ==> has_prefix(
            lowercase_of(one),
            lowercase_of(query),
        ),
        has_prefix(lowercase_of(other), lowercase_of(query)) == has_prefix(
            lowercase_of(one),
            lowercase_of(query),
        ) ==> slash_count(r[i]) <= slash_count(r[j]),
        has_prefix(lowercase_of(other), lowercase_of(query)) == has_prefix(
            lowercase_of(one),
            lowercase_of(query),
        ) && slash_count(r[i]) == slash_count(r[j]) ==> exists|newer: u64, older: u64|
            newer >= older && #[trigger] leads_to(
                workspace,
                seq![],
                3,
                FoundModel { path: r[i], modified: newer },
            ) && #[trigger] leads_to(
                workspace,
                seq![],
                3,
                FoundModel { path: r[j], modified: older },
            ),
{
    let q = lowercase_of(query);
    let found = collected(workspace, seq![], 0, q, seq![], workspace.len() as int);
    let cs = found.map_values(|f: FoundModel| candidate_of(f, q));
    let ranked = choose|ranked: Seq<CandidateModel>| #[trigger]
        is_ranking(distinct_paths(cs), ranked) && r == at_most(
            candidate_paths(ranked),
            crate::completion::MAX_ATFILE_SUGGESTIONS as int,
        );
    assert(r[i] == ranked[i].path);
    assert(r[j] == ranked[j].path);
    assert(ranks_ahead(ranked[i], ranked[j]));
    assert(ranked.contains(ranked[i]));
    assert(ranked.contains(ranked[j]));
    distinct_are_candidates(cs, ranked[i]);
    distinct_are_candidates(cs, ranked[j]);
    let x = choose|x: int| 0 <= x < cs.len() && cs[x] == ranked[i];
    let y = choose|y: int| 0 <= y < cs.len() && cs[y] == ranked[j];
    assert(ranked[i] == candidate_of(found[x], q));
    assert(ranked[j] == candidate_of(found[y], q));
    last_part_is_unique(r[i], one);
    last_part_is_unique(r[j], other);
    tier_counts_slashes(r[i]);
    tier_counts_slashes(r[j]);
    collected_are_files(workspace, seq![], 0, q, seq![], workspace.len() as int);
    assert(found[x] == (FoundModel { path: r[i], modified: found[x].modified }));
    assert(found[y] == (FoundModel { path: r[j], modified: found[y].modified }));
    assert(leads_to(workspace, seq![], 3, found[x]));
    assert(leads_to(workspace, seq![], 3, found[y]));
}

proof fn last_part_is_unique(path: Seq<char>, name: Seq<char>)
    requires
        is_last_part(path, name),
    ensures
        name == file_name(path),
{
    reveal_strlit("/");
    last_part_is_the_name(path, path.len() as int);
    let at = name_start(path, path.len() as int);
    if path == name {
        if at > 0 {
            assert(name[at - 1] == '/');
        }
        assert(path.skip(0) =~= path);
    } else {
        let dir = choose|dir: Seq<char>| path == #[trigger] (dir + "/"@) + name;
        let k = dir.len() + 1;
        assert(path[dir.len() as int] == '/');
        assert(at >= k);
        if at > k {
            assert(path[at - 1] == name[at - 1 - k]);
        }
        assert(path.skip(k as int) =~= name);
    }
}

proof fn earlier_finds_stay(
    nodes: Seq<FileNode>,
    prefix: Seq<char>,
    depth: int,
    q: Seq<char>,
    found: Seq<FoundModel>,
    m: int,
    n: int,
)
    requires
        0 <= m <= n <= nodes.len(),
    ensures
        ({
            let some = collected(nodes, prefix, depth, q, found, m);
            let all = collected(nodes, prefix, depth, q, found, n);
            &&& some.len() <= all.len()
            &&& forall|i: int| 0 <= i < some.len() ==> #[trigger] all[i] == some[i]
        }),
    decreases n - m,
{
    if m < n {
        earlier_finds_stay(nodes, prefix, depth, q, found, m, n - 1);
        let earlier = collected(nodes, prefix, depth, q, found, n - 1);
        if depth <= crate::completion::MAX_DEPTH {
            match nodes[n - 1] {
                FileNode::File { name, modified } => {},
                FileNode::Dir { name, entries } => {
                    collected_are_files(
                        entries@,
                        prefix + forward_slashes(name@) + "/"@,
                        depth + 1,
                        q,
                        earlier,
                        entries@.len() as int,
                    );
                },
            }
        }
    }
}

proof fn files_are_collected(
    nodes: Seq<FileNode>,
    prefix: Seq<char>,
    depth: int,
    q: Seq<char>,
    found: Seq<FoundModel>,
    f: FoundModel,
)
    requires
        0 <= depth,
        leads_to(nodes, prefix, 3 - depth, f),
        path_matches(f.path, q),
        collected(nodes, prefix, depth, q, found, nodes.len() as int).len() < 48,
    ensures
        collected(nodes, prefix, depth, q, found, nodes.len() as int).contains(f),
    decreases 3 - depth,
{
    let k = choose|k: int|
        0 <= k < nodes.len() && match #[trigger] nodes[k] {
            FileNode::File { name, modified } => {
                &&& !is_passed_over(name@)
                &&& f.path == prefix + slashed(name@)
                &&& f.modified == modified
            },
            FileNode::Dir { name, entries } => {
                &&& 3 - depth > 0
                &&& !is_passed_over(name@)
                &&& leads_to(entries@, prefix + slashed(name@) + "/"@, 2 - depth, f)
            },
        };
    let all = collected(nodes, prefix, depth, q, found, nodes.len() as int);
    let earlier = collected(nodes, prefix, depth, q, found, k);
    let now = collected(nodes, prefix, depth, q, found, k + 1);
    earlier_finds_stay(nodes, prefix, depth, q, found, k + 1, nodes.len() as int);
    earlier_finds_stay(nodes, prefix, depth, q, found, k, k + 1);
    match nodes[k] {
        FileNode::File { name, modified } => {
            slashes_are_slashes(name@);
            assert(now.last() == f);
            assert(all[now.len() - 1] == f);
        },
        FileNode::Dir { name, entries } => {
            slashes_are_slashes(name@);
            files_are_collected(
                entries@,
                prefix + slashed(name@) + "/"@,
                depth + 1,
                q,
                earlier,
                f,
            );
            let j = choose|j: int| 0 <= j < now.len() && now[j] == f;
            assert(all[j] == f);
        },
    }
}

proof fn every_path_is_kept(cs: Seq<CandidateModel>, i: int)
    requires
        0 <= i < cs.len(),
    ensures
        has_path(distinct_paths(cs), cs[i].path),
    decreases cs.len(),
{
    let rest = distinct_paths(cs.drop_last());
    let all = distinct_paths(cs);
    if i == cs.len() - 1 {
        if has_path(rest, cs.last().path) {
        } else {
            assert(all[all.len() - 1].path == cs[i].path);
        }
    } else {
        every_path_is_kept(cs.drop_last(), i);
        let k = choose|k: int| 0 <= k < rest.len() && (#[trigger] rest[k]).path == cs[i].path;
        assert(all[k].path == cs[i].path);
    }
}

/// No file is left out as long as there is room: where fewer than twelve files are
/// suggested, and fewer than 48 match at all, every file of the workspace whose
/// path holds the query is among the suggestions.
pub proof fn no_match_is_left_out(
    workspace: Seq<FileNode>,
    query: Seq<char>,
    r: Seq<Seq<char>>,
    f: FoundModel,
)
    requires
        are_suggestions(workspace, query, r),
        r.len() < 12,
        collected(
            workspace,
            seq![],
            0,
            lowercase_of(query),
            seq![],
            workspace.len() as int,
        ).len() < 48,
        leads_to(workspace, seq![], 3, f),
        lowercase_of(query).len() == 0 || has_part(lowercase_of(f.path), lowercase_of(query)),
    ensures
        r.contains(f.path),
{
    let q = lowercase_of(query);
    let found = collected(workspace, seq![], 0, q, seq![], workspace.len() as int);
    let cs = found.map_values(|f: FoundModel| candidate_of(f, q));
    let ranked = choose|ranked: Seq<CandidateModel>| #[trigger]
        is_ranking(distinct_paths(cs), ranked) && r == at_most(
            candidate_paths(ranked),
            crate::completion::MAX_ATFILE_SUGGESTIONS as int,
        );
    files_are_collected(workspace, seq![], 0, q, seq![], f);
    let k = choose|k: int| 0 <= k < found.len() && found[k] == f;
    assert(cs[k].path == f.path);
    every_path_is_kept(cs, k);
    let d = distinct_paths(cs);
    let j = choose|j: int| 0 <= j < d.len() && (#[trigger] d[j]).path == f.path;
    assert(d.contains(d[j]));
    assert(ranked.contains(d[j]));
    let i = choose|i: int| 0 <= i < ranked.len() && ranked[i] == d[j];
    assert(candidate_paths(ranked)[i] == f.path);
    assert(r[i] == f.path);
}

} // verus!
