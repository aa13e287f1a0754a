//! Completing file names and searching the history.
use vstd::prelude::*;
#[allow(unused_imports)]
use vstd::string::*;

use crate::order::{
    before, before_is_irreflexive, before_is_total, before_is_transitive, is_before,
};
use crate::text::{
    chars_of, concat2, concat3, contains_text, has_part, has_prefix, lowercase, lowercase_of,
    occurs_at, same_text, starts_with, text_between, views,
};

verus! {

/// The most files that are suggested.
pub const MAX_ATFILE_SUGGESTIONS: usize = 12;

/// The most history entries that a search shows.
pub const MAX_HSEARCH_RESULTS: usize = 12;

/// The most files that are looked at for suggestions.
pub const MAX_COLLECTED_FILES: usize = 48;

/// The tools that are listed while there is no agent to ask.
pub open spec fn offline_tools() -> Seq<(Seq<char>, Seq<char>)> {
    seq![
        ("Read"@, "Read a file from the workspace"@),
        ("Write"@, "Write a file to the workspace"@),
        ("Edit"@, "Edit a file with exact string replacement"@),
        ("Bash"@, "Run a shell command in the workspace"@),
        ("Grep"@, "Search files for a regex pattern"@),
        ("Glob"@, "Find files matching a glob pattern"@),
    ]
}

/// The tools that are listed while there is no agent to ask.
pub fn default_offline_tool_catalog() -> (r: Vec<(String, String)>)
    ensures
        r@.map_values(|t: (String, String)| (t.0@, t.1@)) == offline_tools(),
{
    let mut tools: Vec<(String, String)> = Vec::new();
    tools.push(("Read".to_owned(), "Read a file from the workspace".to_owned()));
    tools.push(("Write".to_owned(), "Write a file to the workspace".to_owned()));
    tools.push(("Edit".to_owned(), "Edit a file with exact string replacement".to_owned()));
    tools.push(("Bash".to_owned(), "Run a shell command in the workspace".to_owned()));
    tools.push(("Grep".to_owned(), "Search files for a regex pattern".to_owned()));
    tools.push(("Glob".to_owned(), "Find files matching a glob pattern".to_owned()));
    proof {
        assert(tools@.map_values(|t: (String, String)| (t.0@, t.1@)) =~= offline_tools());
    }
    tools
}

// ---------------------------------------------------------------------------
// History search
// ---------------------------------------------------------------------------

/// Of the first `n` entries, those that start with `q`, most recent first.
pub open spec fn prefix_hits(lowered: Seq<Seq<char>>, q: Seq<char>, n: int) -> Seq<usize>
    decreases n,
{
    if n <= 0 {
        seq![]
    } else if has_prefix(lowered[n - 1], q) {
        seq![(n - 1) as usize] + prefix_hits(lowered, q, n - 1)
    } else {
        prefix_hits(lowered, q, n - 1)
    }
}

/// Of the first `n` entries, those that hold `q` further on, most recent
/// first.
pub open spec fn inner_hits(lowered: Seq<Seq<char>>, q: Seq<char>, n: int) -> Seq<usize>
    decreases n,
{
    if n <= 0 {
        seq![]
    } else if !has_prefix(lowered[n - 1], q) && has_part(lowered[n - 1], q) {
        seq![(n - 1) as usize] + inner_hits(lowered, q, n - 1)
    } else {
        inner_hits(lowered, q, n - 1)
    }
}

/// The entries that a search finds, best first.
pub open spec fn all_hits(lowered: Seq<Seq<char>>, q: Seq<char>) -> Seq<usize> {
    prefix_hits(lowered, q, lowered.len() as int) + inner_hits(lowered, q, lowered.len() as int)
}

/// The first elements of a list, at most `max`.
pub open spec fn at_most<T>(s: Seq<T>, max: int) -> Seq<T> {
    if s.len() <= max {
        s
    } else {
        s.take(max)
    }
}

/// The entries that a search shows.
pub open spec fn history_hits(lowered: Seq<Seq<char>>, q: Seq<char>) -> Seq<usize> {
    at_most(all_hits(lowered, q), MAX_HSEARCH_RESULTS as int)
}

/// The history in lower case.
pub open spec fn lowered_history(history: Seq<String>) -> Seq<Seq<char>> {
    history.map_values(|h: String| lowercase_of(h@))
}

/// Ranks lower-case entries against a lower-case query: entries that start
/// with it come first, then those that hold it, most recent first in both
/// groups, and no more than a search shows.
pub fn rank_history(lowered: &Vec<String>, q: &str) -> (r: Vec<usize>)
    ensures
        r@ == history_hits(views(lowered@), q@),
{
    let ghost all = views(lowered@);
    let n: usize = lowered.len();
    let mut out: Vec<usize> = Vec::new();
    let mut rest: Vec<usize> = Vec::new();
    let mut i: usize = n;
    let ghost want_prefix = prefix_hits(all, q@, n as int);
    let ghost want_inner = inner_hits(all, q@, n as int);
    proof {
        assert(out@ + want_prefix =~= want_prefix);
        assert(rest@ + want_inner =~= want_inner);
    }
    while i > 0
        invariant
            i <= n,
            n == lowered@.len(),
            all == views(lowered@),
            want_prefix == prefix_hits(all, q@, n as int),
            want_inner == inner_hits(all, q@, n as int),
            out@ + prefix_hits(all, q@, i as int) == want_prefix,
            rest@ + inner_hits(all, q@, i as int) == want_inner,
        decreases i,
    {
        let ghost before_out = out@;
        let ghost before_rest = rest@;
        i -= 1;
        proof {
            assert(all[i as int] == lowered@[i as int]@);
        }
        if starts_with(lowered[i].as_str(), q) {
            out.push(i);
            proof {
                assert(out@ + prefix_hits(all, q@, i as int) =~= before_out + prefix_hits(
                    all,
                    q@,
                    i + 1,
                ));
            }
        } else if contains_text(lowered[i].as_str(), q) {
            rest.push(i);
            proof {
                assert(rest@ + inner_hits(all, q@, i as int) =~= before_rest + inner_hits(
                    all,
                    q@,
                    i + 1,
                ));
            }
        }
    }
    proof {
        assert(out@ + seq![] =~= out@);
        assert(rest@ + seq![] =~= rest@);
    }
    out.append(&mut rest);
    out.truncate(MAX_HSEARCH_RESULTS);
    out
}

/// Searches the history without regard to letter case.
pub fn search_history(history: &[String], query: &str) -> (r: Vec<usize>)
    ensures
        r@ == history_hits(lowered_history(history@), lowercase_of(query@)),
{
    let q: String = lowercase(query);
    let mut lowered: Vec<String> = Vec::new();
    let mut i: usize = 0;
    while i < history.len()
        invariant
            i <= history@.len(),
            lowered@.len() == i,
            forall|j: int|
                0 <= j < i ==> (#[trigger] lowered@[j])@ == lowercase_of(history@[j]@),
        decreases history@.len() - i,
    {
        lowered.push(lowercase(history[i].as_str()));
        i += 1;
    }
    proof {
        assert(views(lowered@) =~= lowered_history(history@));
    }
    rank_history(&lowered, q.as_str())
}

proof fn lemma_prefix_hits(lowered: Seq<Seq<char>>, q: Seq<char>, n: int)
    requires
        0 <= n <= lowered.len(),
        lowered.len() <= usize::MAX,
    ensures
        forall|i: int|
            0 <= i < prefix_hits(lowered, q, n).len() ==> {
                let h = #[trigger] prefix_hits(lowered, q, n)[i];
                h < n && has_prefix(lowered[h as int], q)
            },
        forall|i: int, j: int|
            0 <= i < j < prefix_hits(lowered, q, n).len() ==> #[trigger] prefix_hits(
                lowered,
                q,
                n,
            )[i] > #[trigger] prefix_hits(lowered, q, n)[j],
        forall|h: usize|
            h < n && has_prefix(#[trigger] lowered[h as int], q) ==> prefix_hits(
                lowered,
                q,
                n,
            ).contains(h),
    decreases n,
{
    if n > 0 {
        lemma_prefix_hits(lowered, q, n - 1);
        let shorter = prefix_hits(lowered, q, n - 1);
        let hits = prefix_hits(lowered, q, n);
        if has_prefix(lowered[n - 1], q) {
            assert forall|i: int| 0 <= i < hits.len() implies ({
                let h = #[trigger] hits[i];
                h < n && has_prefix(lowered[h as int], q)
            }) by {
                if i > 0 {
                    assert(hits[i] == shorter[i - 1]);
                }
            }
            assert forall|i: int, j: int| 0 <= i < j < hits.len() implies #[trigger] hits[i]
                > #[trigger] hits[j] by {
                assert(hits[j] == shorter[j - 1]);
                if i > 0 {
                    assert(hits[i] == shorter[i - 1]);
                }
            }
            assert forall|h: usize|
                h < n && has_prefix(#[trigger] lowered[h as int], q) implies hits.contains(
                h,
            ) by {
                if h == n - 1 {
                    assert(hits[0] == h);
                } else {
                    assert(shorter.contains(h));
                    let k = choose|k: int| 0 <= k < shorter.len() && shorter[k] == h;
                    assert(hits[k + 1] == h);
                }
            }
        }
    }
}

proof fn lemma_inner_hits(lowered: Seq<Seq<char>>, q: Seq<char>, n: int)
    requires
        0 <= n <= lowered.len(),
        lowered.len() <= usize::MAX,
    ensures
        forall|i: int|
            0 <= i < inner_hits(lowered, q, n).len() ==> {
                let h = #[trigger] inner_hits(lowered, q, n)[i];
                h < n && !has_prefix(lowered[h as int], q) && has_part(lowered[h as int], q)
            },
        forall|i: int, j: int|
            0 <= i < j < inner_hits(lowered, q, n).len() ==> #[trigger] inner_hits(
                lowered,
                q,
                n,
            )[i] > #[trigger] inner_hits(lowered, q, n)[j],
        forall|h: usize|
            h < n && !has_prefix(#[trigger] lowered[h as int], q) && has_part(
                lowered[h as int],
                q,
            ) ==> inner_hits(lowered, q, n).contains(h),
    decreases n,
{
    if n > 0 {
        lemma_inner_hits(lowered, q, n - 1);
        let shorter = inner_hits(lowered, q, n - 1);
        let hits = inner_hits(lowered, q, n);
        if !has_prefix(lowered[n - 1], q) && has_part(lowered[n - 1], q) {
            assert forall|i: int| 0 <= i < hits.len() implies ({
                let h = #[trigger] hits[i];
                h < n && !has_prefix(lowered[h as int], q) && has_part(lowered[h as int], q)
            }) by {
                if i > 0 {
                    assert(hits[i] == shorter[i - 1]);
                }
            }
            assert forall|i: int, j: int| 0 <= i < j < hits.len() implies #[trigger] hits[i]
                > #[trigger] hits[j] by {
                assert(hits[j] == shorter[j - 1]);
                if i > 0 {
                    assert(hits[i] == shorter[i - 1]);
                }
            }
            assert forall|h: usize|
                h < n && !has_prefix(#[trigger] lowered[h as int], q) && has_part(
                    lowered[h as int],
                    q,
                ) implies hits.contains(h) by {
                if h == n - 1 {
                    assert(hits[0] == h);
                } else {
                    assert(shorter.contains(h));
                    let k = choose|k: int| 0 <= k < shorter.len() && shorter[k] == h;
                    assert(hits[k + 1] == h);
                }
            }
        }
    }
}

/// What a history search shows: at most twelve entries, each of which holds
/// the query; entries that start with the query before the others; and within
/// either group the more recent entry first. No entry is left out as long as
/// there is room.
pub proof fn history_hits_are_ranked(lowered: Seq<Seq<char>>, q: Seq<char>)
    requires
        lowered.len() <= usize::MAX,
    ensures
        history_hits(lowered, q).len() <= MAX_HSEARCH_RESULTS,
        forall|i: int|
            0 <= i < history_hits(lowered, q).len() ==> {
                let h = #[trigger] history_hits(lowered, q)[i];
                h < lowered.len() && has_part(lowered[h as int], q)
            },
        forall|i: int, j: int|
            0 <= i < j < history_hits(lowered, q).len() ==> {
                let a = #[trigger] history_hits(lowered, q)[i];
                let b = #[trigger] history_hits(lowered, q)[j];
                let pa = has_prefix(lowered[a as int], q);
                let pb = has_prefix(lowered[b as int], q);
                (pa && !pb) || (pa == pb && a > b)
            },
        history_hits(lowered, q).len() < MAX_HSEARCH_RESULTS ==> forall|h: usize|
            h < lowered.len() && has_part(#[trigger] lowered[h as int], q) ==> history_hits(
                lowered,
                q,
            ).contains(h),
        forall|h: usize, i: int|
            h < lowered.len() && has_part(lowered[h as int], q) && !history_hits(
                lowered,
                q,
            ).contains(h) && 0 <= i < history_hits(lowered, q).len() ==> {
                let a = #[trigger] history_hits(lowered, q)[i];
                let pa = has_prefix(lowered[a as int], q);
                let ph = has_prefix(#[trigger] lowered[h as int], q);
                (pa && !ph) || (pa == ph && a > h)
            },
{
    let n = lowered.len() as int;
    lemma_prefix_hits(lowered, q, n);
    lemma_inner_hits(lowered, q, n);
    let p = prefix_hits(lowered, q, n);
    let t = inner_hits(lowered, q, n);
    let all = all_hits(lowered, q);
    let r = history_hits(lowered, q);
    assert forall|i: int| 0 <= i < r.len() implies ({
        let h = #[trigger] r[i];
        h < lowered.len() && has_part(lowered[h as int], q)
    }) by {
        if i < p.len() {
            assert(r[i] == p[i]);
            assert(occurs_at(lowered[p[i] as int], q, 0));
        } else {
            assert(r[i] == t[i - p.len()]);
        }
    }
    assert forall|i: int, j: int| 0 <= i < j < r.len() implies ({
        let a = #[trigger] r[i];
        let b = #[trigger] r[j];
        let pa = has_prefix(lowered[a as int], q);
        let pb = has_prefix(lowered[b as int], q);
        (pa && !pb) || (pa == pb && a > b)
    }) by {
        if j < p.len() {
            assert(r[i] == p[i] && r[j] == p[j]);
        } else if i < p.len() {
            assert(r[i] == p[i] && r[j] == t[j - p.len()]);
        } else {
            assert(r[i] == t[i - p.len()] && r[j] == t[j - p.len()]);
        }
    }
    if r.len() < MAX_HSEARCH_RESULTS {
        assert forall|h: usize|
            h < lowered.len() && has_part(#[trigger] lowered[h as int], q) implies r.contains(
            h,
        ) by {
            if has_prefix(lowered[h as int], q) {
                let k = choose|k: int| 0 <= k < p.len() && p[k] == h;
                assert(p.contains(h));
                assert(r[k] == h);
            } else {
                assert(t.contains(h));
                let k = choose|k: int| 0 <= k < t.len() && t[k] == h;
                assert(r[p.len() + k] == h);
            }
        }
    }
    assert forall|h: usize, i: int|
        h < lowered.len() && has_part(lowered[h as int], q) && !r.contains(h) && 0 <= i
            < r.len() implies ({
        let a = #[trigger] r[i];
        let pa = has_prefix(lowered[a as int], q);
        let ph = has_prefix(#[trigger] lowered[h as int], q);
        (pa && !ph) || (pa == ph && a > h)
    }) by {
        if has_prefix(lowered[h as int], q) {
            assert(p.contains(h));
            let k = choose|k: int| 0 <= k < p.len() && p[k] == h;
            if k < r.len() {
                assert(r[k] == h);
            }
            assert(r[i] == p[i]);
        } else {
            assert(t.contains(h));
            let k = choose|k: int| 0 <= k < t.len() && t[k] == h;
            if p.len() + k < r.len() {
                assert(r[p.len() + k] == h);
            }
            if i < p.len() {
                assert(r[i] == p[i]);
            } else {
                assert(r[i] == t[i - p.len()]);
            }
        }
    }
}

// ---------------------------------------------------------------------------
// File suggestions
// ---------------------------------------------------------------------------

/// A file or a directory of the workspace.
#[derive(Debug)]
pub enum FileNode {
    /// A file, and when it was last modified, in seconds since some fixed time.
    File { name: String, modified: u64 },
    Dir { name: String, entries: Vec<FileNode> },
}

/// A file that was found: its path below the workspace, and when it was last
/// modified.
#[derive(Clone, Debug, PartialEq, Eq)]
pub struct FoundFile {
    pub path: String,
    pub modified: u64,
}

/// The model of a file that was found.
pub struct FoundModel {
    pub path: Seq<char>,
    pub modified: u64,
}

impl View for FoundFile {
    type V = FoundModel;

    open spec fn view(&self) -> FoundModel {
        FoundModel { path: self.path@, modified: self.modified }
    }
}

/// The models of a list of files.
pub open spec fn found_models(files: Seq<FoundFile>) -> Seq<FoundModel> {
    files.map_values(|f: FoundFile| f@)
}

/// The deepest level of directories that is looked into, the workspace itself
/// being level 0.
pub const MAX_DEPTH: usize = 3;

/// Whether a name is passed over: hidden ones, and the large directories of
/// build tools.
pub open spec fn is_skipped(name: Seq<char>) -> bool {
    (name.len() > 0 && name[0] == '.') || name == "target"@ || name == "node_modules"@
}

/// Whether a name is passed over.
pub fn skips_name(name: &str) -> (r: bool)
    ensures
        r == is_skipped(name@),
{
    if same_text(name, "target") || same_text(name, "node_modules") {
        return true;
    }
    let n: usize = name.unicode_len();
    n > 0 && name.get_char(0) == '.'
}

/// A name as part of a path with forward slashes.
pub open spec fn forward_slashes(name: Seq<char>) -> Seq<char> {
    name.map_values(
        |c: char|
            if c == '\\' {
                '/'
            } else {
                c
            },
    )
}

fn with_forward_slashes(name: &str) -> (r: String)
    ensures
        r@ == forward_slashes(name@),
{
    let v: Vec<char> = chars_of(name);
    let mut out: String = String::new();
    let mut i: usize = 0;
    proof {
        assert(forward_slashes(v@.take(0)) =~= seq![]);
    }
    while i < v.len()
        invariant
            i <= v@.len(),
            v@ == name@,
            out@ == forward_slashes(v@.take(i as int)),
        decreases v@.len() - i,
    {
        let c: char = v[i];
        if c == '\\' {
            out.push('/');
        } else {
            out.push(c);
        }
        i += 1;
        proof {
            assert(v@.take(i as int) =~= v@.take(i - 1).push(c));
            assert(forward_slashes(v@.take(i as int)) =~= out@);
        }
    }
    proof {
        assert(v@.take(i as int) == v@);
    }
    out
}

/// Whether a path is collected for the query.
pub open spec fn path_matches(path: Seq<char>, query: Seq<char>) -> bool {
    query.len() == 0 || has_part(lowercase_of(path), query)
}

/// The files that are collected from the first `n` nodes of a directory on top
/// of those found before: the files below it, with forward slashes, that match
/// the query, as many as there is room for.
pub open spec fn collected(
    nodes: Seq<FileNode>,
    prefix: Seq<char>,
    depth: int,
    query: Seq<char>,
    found: Seq<FoundModel>,
    n: int,
) -> Seq<FoundModel>
    decreases MAX_DEPTH + 1 - depth, n,
{
    if depth > MAX_DEPTH || n <= 0 {
        found
    } else {
        let earlier = collected(nodes, prefix, depth, query, found, n - 1);
        match nodes[n - 1] {
            FileNode::File { name, modified } => {
                let path = prefix + forward_slashes(name@);
                if !is_skipped(name@) && path_matches(path, query) && earlier.len()
                    < MAX_COLLECTED_FILES {
                    earlier.push(FoundModel { path, modified })
                } else {
                    earlier
                }
            },
            FileNode::Dir { name, entries } => if is_skipped(name@) {
                earlier
            } else {
                collected(
                    entries@,
                    prefix + forward_slashes(name@) + "/"@,
                    depth + 1,
                    query,
                    earlier,
                    entries@.len() as int,
                )
            },
        }
    }
}

/// Collects the files below a directory that match the lower-case query.
/// `prefix` is the path of the directory, with a slash at its end unless it is
/// the workspace itself.
pub fn collect_files(
    nodes: &Vec<FileNode>,
    prefix: &str,
    depth: usize,
    query: &str,
    out: &mut Vec<FoundFile>,
)
    ensures
        found_models(final(out)@) == collected(
            nodes@,
            prefix@,
            depth as int,
            query@,
            found_models(old(out)@),
            nodes@.len() as int,
        ),
    decreases MAX_DEPTH + 1 - depth,
{
    if depth > MAX_DEPTH {
        return ;
    }
    let ghost start = found_models(out@);
    let mut i: usize = 0;
    while i < nodes.len()
        invariant
            i <= nodes@.len(),
            depth <= MAX_DEPTH,
            found_models(out@) == collected(
                nodes@,
                prefix@,
                depth as int,
                query@,
                start,
                i as int,
            ),
        decreases nodes@.len() - i,
    {
        let ghost earlier = found_models(out@);
        match &nodes[i] {
            FileNode::File { name, modified } => {
                let tail: String = with_forward_slashes(name.as_str());
                let path: String = concat2(prefix, tail.as_str());
                let hit: bool = query.is_empty() || {
                    let lower: String = lowercase(path.as_str());
                    contains_text(lower.as_str(), query)
                };
                if !skips_name(name.as_str()) && hit && out.len() < MAX_COLLECTED_FILES {
                    let found: FoundFile = FoundFile { path, modified: *modified };
                    let ghost model = found@;
                    out.push(found);
                    proof {
                        assert(found_models(out@) =~= earlier.push(model));
                    }
                }
            },
            FileNode::Dir { name, entries } => {
                if !skips_name(name.as_str()) {
                    let tail: String = with_forward_slashes(name.as_str());
                    let below: String = concat3(prefix, tail.as_str(), "/");
                    collect_files(entries, below.as_str(), depth + 1, query, out);
                }
            },
        }
        i += 1;
    }
}

/// The start of the last part of the first `k` characters of a path.
pub open spec fn name_start(path: Seq<char>, k: int) -> int
    decreases k,
{
    if k <= 0 {
        0
    } else if path[k - 1] == '/' {
        k
    } else {
        name_start(path, k - 1)
    }
}

/// The last part of a path.
pub open spec fn file_name(path: Seq<char>) -> Seq<char> {
    path.skip(name_start(path, path.len() as int))
}

fn file_name_of(path: &str) -> (r: String)
    ensures
        r@ == file_name(path@),
{
    let v: Vec<char> = chars_of(path);
    let n: usize = v.len();
    let mut i: usize = n;
    while i > 0 && v[i - 1] != '/'
        invariant
            i <= n,
            n == v@.len(),
            name_start(v@, i as int) == name_start(v@, n as int),
        decreases i,
    {
        i -= 1;
    }
    proof {
        assert(v@.subrange(i as int, n as int) =~= v@.skip(i as int));
    }
    text_between(&v, i, n)
}

/// Whether the last part of a path starts with the lower-case query.
pub open spec fn is_named(path: Seq<char>, q: Seq<char>) -> bool {
    has_prefix(lowercase_of(file_name(path)), q)
}

/// The depth of a path: the number of directories above the file.
pub open spec fn tier(path: Seq<char>) -> nat
    decreases path.len(),
{
    if path.len() == 0 {
        0
    } else if path.last() == '/' {
        tier(path.drop_last()) + 1
    } else {
        tier(path.drop_last())
    }
}

fn tier_of(path: &str) -> (r: usize)
    ensures
        r == tier(path@),
{
    let v: Vec<char> = chars_of(path);
    let n: usize = v.len();
    let mut count: usize = 0;
    let mut i: usize = 0;
    while i < n
        invariant
            i <= n,
            n == v@.len(),
            count <= i,
            count == tier(v@.take(i as int)),
        decreases n - i,
    {
        proof {
            assert(v@.take(i + 1).drop_last() =~= v@.take(i as int));
            assert(v@.take(i + 1).last() == v@[i as int]);
        }
        if v[i] == '/' {
            count += 1;
        }
        i += 1;
    }
    proof {
        assert(v@.take(i as int) =~= v@);
    }
    count
}

/// A file that may be suggested: whether its name starts with the query, its
/// depth, when it was modified, and its path.
#[derive(Clone, Debug)]
pub struct Candidate {
    pub named: bool,
    pub tier: usize,
    pub modified: u64,
    pub path: String,
}

/// The model of a candidate.
pub struct CandidateModel {
    pub named: bool,
    pub tier: nat,
    pub modified: u64,
    pub path: Seq<char>,
}

impl View for Candidate {
    type V = CandidateModel;

    open spec fn view(&self) -> CandidateModel {
        CandidateModel {
            named: self.named,
            tier: self.tier as nat,
            modified: self.modified,
            path: self.path@,
        }
    }
}

/// The models of a list of candidates.
pub open spec fn candidate_models(cs: Seq<Candidate>) -> Seq<CandidateModel> {
    cs.map_values(|c: Candidate| c@)
}

/// The candidate that a file is for a lower-case query.
pub open spec fn candidate_of(f: FoundModel, q: Seq<char>) -> CandidateModel {
    CandidateModel {
        named: is_named(f.path, q),
        tier: tier(f.path),
        modified: f.modified,
        path: f.path,
    }
}

/// Whether one candidate is suggested ahead of another: those whose name starts
/// with the query come first, then the less deep ones, within one depth the
/// newest ones, and else the alphabet decides.
pub open spec fn ranks_ahead(a: CandidateModel, b: CandidateModel) -> bool {
    if a.named != b.named {
        a.named
    } else if a.tier != b.tier {
        a.tier < b.tier
    } else if a.modified != b.modified {
        a.modified > b.modified
    } else {
        before(a.path, b.path)
    }
}

/// No candidate ranks ahead of itself.
pub proof fn ranks_ahead_is_irreflexive(a: CandidateModel)
    ensures
        !ranks_ahead(a, a),
{
    before_is_irreflexive(a.path);
}

/// Ranking ahead is transitive.
pub proof fn ranks_ahead_is_transitive(a: CandidateModel, b: CandidateModel, c: CandidateModel)
    requires
        ranks_ahead(a, b),
        ranks_ahead(b, c),
    ensures
        ranks_ahead(a, c),
{
    if a.named == b.named && b.named == c.named && a.tier == b.tier && b.tier == c.tier
        && a.modified == b.modified && b.modified == c.modified {
        before_is_transitive(a.path, b.path, c.path);
    }
}

/// Of two different candidates one ranks ahead of the other.
pub proof fn ranks_ahead_is_total(a: CandidateModel, b: CandidateModel)
    ensures
        a == b || ranks_ahead(a, b) || ranks_ahead(b, a),
{
    before_is_total(a.path, b.path);
}

/// The candidates without those whose path came before.
pub open spec fn distinct_paths(cs: Seq<CandidateModel>) -> Seq<CandidateModel>
    decreases cs.len(),
{
    if cs.len() == 0 {
        seq![]
    } else {
        let rest = distinct_paths(cs.drop_last());
        if has_path(rest, cs.last().path) {
            rest
        } else {
            rest.push(cs.last())
        }
    }
}

/// Whether one of the candidates has the path.
pub open spec fn has_path(cs: Seq<CandidateModel>, path: Seq<char>) -> bool {
    exists|i: int| 0 <= i < cs.len() && (#[trigger] cs[i]).path == path
}

/// Whether every candidate ranks ahead of those behind it.
pub open spec fn is_ranked(cs: Seq<CandidateModel>) -> bool {
    forall|i: int, j: int|
        0 <= i < j < cs.len() ==> ranks_ahead(#[trigger] cs[i], #[trigger] cs[j])
}

/// Whether `ranked` holds the candidates in the order in which they are
/// suggested.
pub open spec fn is_ranking(cs: Seq<CandidateModel>, ranked: Seq<CandidateModel>) -> bool {
    &&& is_ranked(ranked)
    &&& forall|c: CandidateModel| #[trigger] ranked.contains(c) <==> cs.contains(c)
}

/// The paths of a list of candidates.
pub open spec fn candidate_paths(cs: Seq<CandidateModel>) -> Seq<Seq<char>> {
    cs.map_values(|c: CandidateModel| c.path)
}

/// Whether `r` is what is suggested out of the candidates: each path once, in
/// their ranking, and no more than there is room for.
pub open spec fn are_picked(cs: Seq<CandidateModel>, r: Seq<Seq<char>>) -> bool {
    exists|ranked: Seq<CandidateModel>| #[trigger]
        is_ranking(distinct_paths(cs), ranked) && r == at_most(
            candidate_paths(ranked),
            MAX_ATFILE_SUGGESTIONS as int,
        )
}

fn goes_ahead(a: &Candidate, b: &Candidate) -> (r: bool)
    ensures
        r == ranks_ahead(a@, b@),
{
    if a.named != b.named {
        a.named
    } else if a.tier != b.tier {
        a.tier < b.tier
    } else if a.modified != b.modified {
        a.modified > b.modified
    } else {
        is_before(a.path.as_str(), b.path.as_str())
    }
}

proof fn lemma_ranked_insert(s: Seq<CandidateModel>, p: int, c: CandidateModel)
    requires
        is_ranked(s),
        0 <= p <= s.len(),
        forall|i: int| 0 <= i < p ==> ranks_ahead(#[trigger] s[i], c),
        p < s.len() ==> ranks_ahead(c, s[p]),
    ensures
        is_ranked(s.insert(p, c)),
        forall|x: CandidateModel| #[trigger]
            s.insert(p, c).contains(x) <==> s.contains(x) || x == c,
{
    let t = s.insert(p, c);
    assert forall|i: int, j: int| 0 <= i < j < t.len() implies ranks_ahead(
        #[trigger] t[i],
        #[trigger] t[j],
    ) by {
        if i == p && j - 1 > p {
            ranks_ahead_is_transitive(c, s[p], s[j - 1]);
        }
    }
    assert forall|x: CandidateModel| #[trigger] t.contains(x) <==> s.contains(x) || x == c by {
        if s.contains(x) {
            let i = choose|i: int| 0 <= i < s.len() && s[i] == x;
            assert(t[if i < p { i } else { i + 1 }] == x);
        }
        if x == c {
            assert(t[p] == x);
        }
        if t.contains(x) {
            let i = choose|i: int| 0 <= i < t.len() && t[i] == x;
            if i < p {
                assert(s[i] == x);
            } else if i > p {
                assert(s[i - 1] == x);
            }
        }
    }
}

/// The ranking of candidates is unique.
pub proof fn ranking_is_unique(
    cs: Seq<CandidateModel>,
    a: Seq<CandidateModel>,
    b: Seq<CandidateModel>,
)
    requires
        is_ranking(cs, a),
        is_ranking(cs, b),
    ensures
        a == b,
    decreases a.len(),
{
    if a.len() == 0 {
        if b.len() > 0 {
            assert(b.contains(b[0]));
            assert(a.contains(b[0]));
        }
        assert(a =~= b);
    } else {
        assert(a.contains(a[0]));
        assert(b.contains(a[0]));
        let j = choose|j: int| 0 <= j < b.len() && b[j] == a[0];
        assert(b.contains(b[0]));
        assert(a.contains(b[0]));
        let k = choose|k: int| 0 <= k < a.len() && a[k] == b[0];
        if j > 0 && k > 0 {
            assert(ranks_ahead(b[0], b[j]));
            assert(ranks_ahead(a[0], a[k]));
            ranks_ahead_is_transitive(a[0], b[0], a[0]);
            ranks_ahead_is_irreflexive(a[0]);
        }
        assert(a[0] == b[0]);
        let ra = a.skip(1);
        let rb = b.skip(1);
        lemma_ranked_tail(a);
        lemma_ranked_tail(b);
        assert forall|x: CandidateModel| #[trigger] rb.contains(x) <==> ra.contains(x) by {
            assert(ra.contains(x) <==> a.contains(x) && x != a[0]);
            assert(rb.contains(x) <==> b.contains(x) && x != b[0]);
        }
        assert(is_ranking(ra, ra));
        assert(is_ranking(ra, rb));
        ranking_is_unique(ra, ra, rb);
        assert(a =~= seq![a[0]] + ra);
        assert(b =~= seq![b[0]] + rb);
    }
}

proof fn lemma_ranked_tail(a: Seq<CandidateModel>)
    requires
        is_ranked(a),
        a.len() > 0,
    ensures
        is_ranked(a.skip(1)),
        forall|x: CandidateModel| #[trigger]
            a.skip(1).contains(x) <==> a.contains(x) && x != a[0],
{
    let t = a.skip(1);
    assert forall|i: int, j: int| 0 <= i < j < t.len() implies ranks_ahead(
        #[trigger] t[i],
        #[trigger] t[j],
    ) by {
        assert(t[i] == a[i + 1] && t[j] == a[j + 1]);
    }
    assert forall|x: CandidateModel| #[trigger] t.contains(x) <==> a.contains(x) && x != a[0] by {
        if t.contains(x) {
            let i = choose|i: int| 0 <= i < t.len() && t[i] == x;
            assert(a[i + 1] == x);
            assert(ranks_ahead(a[0], a[i + 1]));
            ranks_ahead_is_irreflexive(x);
        }
        if a.contains(x) && x != a[0] {
            let i = choose|i: int| 0 <= i < a.len() && a[i] == x;
            assert(t[i - 1] == x);
        }
    }
}

/// Puts a candidate in its place among ranked ones.
fn insert_ranked(ranked: &mut Vec<Candidate>, c: Candidate)
    requires
        is_ranked(candidate_models(old(ranked)@)),
        !has_path(candidate_models(old(ranked)@), c@.path),
    ensures
        is_ranked(candidate_models(final(ranked)@)),
        forall|x: CandidateModel| #[trigger]
            candidate_models(final(ranked)@).contains(x) <==> candidate_models(
                old(ranked)@,
            ).contains(x) || x == c@,
{
    let ghost before_models = candidate_models(ranked@);
    let mut p: usize = 0;
    while p < ranked.len() && goes_ahead(&ranked[p], &c)
        invariant
            p <= ranked@.len(),
            before_models == candidate_models(ranked@),
            forall|i: int| 0 <= i < p ==> ranks_ahead(#[trigger] before_models[i], c@),
        decreases ranked@.len() - p,
    {
        p += 1;
    }
    let ghost model = c@;
    proof {
        if p < ranked@.len() {
            assert(before_models[p as int] == ranked@[p as int]@);
            assert(before_models[p as int].path != model.path);
            ranks_ahead_is_total(model, before_models[p as int]);
        }
        lemma_ranked_insert(before_models, p as int, model);
    }
    ranked.insert(p, c);
    proof {
        assert(candidate_models(ranked@) =~= before_models.insert(p as int, model));
    }
}

fn holds_path(cs: &Vec<Candidate>, path: &str) -> (r: bool)
    ensures
        r == has_path(candidate_models(cs@), path@),
{
    let ghost models = candidate_models(cs@);
    let mut i: usize = 0;
    while i < cs.len()
        invariant
            i <= cs@.len(),
            models == candidate_models(cs@),
            forall|j: int| 0 <= j < i ==> (#[trigger] models[j]).path != path@,
        decreases cs@.len() - i,
    {
        proof {
            assert(models[i as int] == cs@[i as int]@);
        }
        if same_text(cs[i].path.as_str(), path) {
            return true;
        }
        i += 1;
    }
    false
}

/// Picks suggestions out of the candidates: each path once, in their ranking,
/// and no more than there is room for.
pub fn rank_files(candidates: &Vec<Candidate>) -> (r: Vec<String>)
    ensures
        are_picked(candidate_models(candidates@), views(r@)),
        r@.len() <= MAX_ATFILE_SUGGESTIONS,
{
    let ghost all = candidate_models(candidates@);
    let mut ranked: Vec<Candidate> = Vec::new();
    let mut i: usize = 0;
    proof {
        assert(all.take(0) =~= seq![]);
        assert(candidate_models(ranked@) =~= seq![]);
    }
    while i < candidates.len()
        invariant
            i <= candidates@.len(),
            all == candidate_models(candidates@),
            is_ranking(distinct_paths(all.take(i as int)), candidate_models(ranked@)),
        decreases candidates@.len() - i,
    {
        let ghost kept = distinct_paths(all.take(i as int));
        let ghost models = candidate_models(ranked@);
        let ghost next = candidates@[i as int]@;
        proof {
            assert(all.take(i + 1).drop_last() =~= all.take(i as int));
            assert(all.take(i + 1).last() == next);
            lemma_same_paths(kept, models, next.path);
        }
        if !holds_path(&ranked, candidates[i].path.as_str()) {
            let c: Candidate = Candidate {
                named: candidates[i].named,
                tier: candidates[i].tier,
                modified: candidates[i].modified,
                path: candidates[i].path.clone(),
            };
            insert_ranked(&mut ranked, c);
            proof {
                assert forall|x: CandidateModel| #[trigger]
                    candidate_models(ranked@).contains(x) <==> kept.push(next).contains(x) by {
                    assert(kept.push(next).contains(x) <==> kept.contains(x) || x == next) by {
                        if kept.contains(x) {
                            let k = choose|k: int| 0 <= k < kept.len() && kept[k] == x;
                            assert(kept.push(next)[k] == x);
                        }
                        assert(kept.push(next)[kept.len() as int] == next);
                        if kept.push(next).contains(x) && x != next {
                            let k = choose|k: int|
                                0 <= k < kept.push(next).len() && kept.push(next)[k] == x;
                            assert(kept[k] == x);
                        }
                    }
                }
            }
        }
        i += 1;
    }
    let ghost models = candidate_models(ranked@);
    proof {
        assert(all.take(i as int) =~= all);
    }
    let mut out: Vec<String> = Vec::new();
    let n: usize = ranked.len();
    let mut k: usize = 0;
    while k < n && k < MAX_ATFILE_SUGGESTIONS
        invariant
            k <= n,
            n == ranked@.len(),
            k <= MAX_ATFILE_SUGGESTIONS,
            out@.len() == k,
            models == candidate_models(ranked@),
            forall|j: int| 0 <= j < k ==> (#[trigger] out@[j])@ == models[j].path,
        decreases n - k,
    {
        out.push(ranked[k].path.clone());
        k += 1;
    }
    proof {
        assert(views(out@) =~= at_most(
            candidate_paths(models),
            MAX_ATFILE_SUGGESTIONS as int,
        ));
    }
    out
}

proof fn lemma_same_paths(a: Seq<CandidateModel>, b: Seq<CandidateModel>, path: Seq<char>)
    requires
        forall|c: CandidateModel| #[trigger] b.contains(c) <==> a.contains(c),
    ensures
        has_path(a, path) == has_path(b, path),
{
    if has_path(a, path) {
        let i = choose|i: int| 0 <= i < a.len() && (#[trigger] a[i]).path == path;
        assert(a.contains(a[i]));
        assert(b.contains(a[i]));
        let j = choose|j: int| 0 <= j < b.len() && b[j] == a[i];
        assert(b[j].path == path);
    }
    if has_path(b, path) {
        let i = choose|i: int| 0 <= i < b.len() && (#[trigger] b[i]).path == path;
        assert(b.contains(b[i]));
        assert(a.contains(b[i]));
        let j = choose|j: int| 0 <= j < a.len() && a[j] == b[i];
        assert(a[j].path == path);
    }
}

/// Whether `r` is what is suggested for a query: the matching files of the
/// workspace, each once. Those whose name starts with the query come first;
/// less deep files come before deeper ones, and within one depth the newest
/// ones come first.
pub open spec fn are_suggestions(
    workspace: Seq<FileNode>,
    query: Seq<char>,
    r: Seq<Seq<char>>,
) -> bool {
    let q = lowercase_of(query);
    let found = collected(workspace, seq![], 0, q, seq![], workspace.len() as int);
    are_picked(found.map_values(|f: FoundModel| candidate_of(f, q)), r)
}

/// Suggests files of the workspace for what was typed behind an `@`.
pub fn glob_workspace_files(workspace: &Vec<FileNode>, query: &str) -> (r: Vec<String>)
    ensures
        are_suggestions(workspace@, query@, views(r@)),
        r@.len() <= MAX_ATFILE_SUGGESTIONS,
{
    let q: String = lowercase(query);
    let mut found: Vec<FoundFile> = Vec::new();
    proof {
        reveal_strlit("");
        assert(found_models(found@) =~= seq![]);
        assert(""@ =~= seq![]);
    }
    collect_files(workspace, "", 0, q.as_str(), &mut found);
    let ghost all = found_models(found@);
    let mut candidates: Vec<Candidate> = Vec::new();
    let mut i: usize = 0;
    while i < found.len()
        invariant
            i <= found@.len(),
            all == found_models(found@),
            candidates@.len() == i,
            forall|j: int|
                0 <= j < i ==> (#[trigger] candidates@[j])@ == candidate_of(all[j], q@),
        decreases found@.len() - i,
    {
        let name: String = file_name_of(found[i].path.as_str());
        let lower: String = lowercase(name.as_str());
        candidates.push(
            Candidate {
                named: starts_with(lower.as_str(), q.as_str()),
                tier: tier_of(found[i].path.as_str()),
                modified: found[i].modified,
                path: found[i].path.clone(),
            },
        );
        proof {
            assert(all[i as int] == found@[i as int]@);
        }
        i += 1;
    }
    proof {
        assert(candidate_models(candidates@) =~= all.map_values(
            |f: FoundModel| candidate_of(f, q@),
        ));
    }
    rank_files(&candidates)
}

/// A history search ignores letter case, in the query and in the history.
pub proof fn search_ignores_letter_case(
    history: Seq<String>,
    other: Seq<String>,
    p: Seq<char>,
    q: Seq<char>,
)
    requires
        history.len() == other.len(),
        forall|i: int|
            0 <= i < history.len() ==> lowercase_of((#[trigger] history[i])@) == lowercase_of(
                other[i]@,
            ),
        lowercase_of(p) == lowercase_of(q),
    ensures
        history_hits(lowered_history(history), lowercase_of(p)) == history_hits(
            lowered_history(other),
            lowercase_of(q),
        ),
{
    assert(lowered_history(history) =~= lowered_history(other));
}

} // verus!
