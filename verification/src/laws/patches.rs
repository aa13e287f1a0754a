//! What is shown of patches and of the arguments of tools.
use vstd::prelude::*;
#[allow(unused_imports)]
use vstd::string::*;

use crate::json::{text_document, JsonModel};
use crate::laws::lists::{picked, picked_from_one, picked_in_a_row};
use crate::model::{DiffLineKind, DiffLineModel};
use crate::render::{clamped, patch_after, patch_of, preview, with_hunk};
use crate::text::{joined, lines, trim, trim_start};

verus! {

/// Whether a line names the file of a section: its mark, and the path behind it.
pub open spec fn opens_section(line: Seq<char>, path: Seq<char>) -> bool {
    line == "*** Update File: "@ + path || line == "*** Add File: "@ + path
}

/// Whether a line is none that names a file.
pub open spec fn is_inside(line: Seq<char>) -> bool {
    forall|path: Seq<char>| !#[trigger] opens_section(line, path)
}

/// The lines of all hunks in a row.
pub open spec fn all_lines(hunks: Seq<Seq<DiffLineModel>>) -> Seq<DiffLineModel>
    decreases hunks.len(),
{
    if hunks.len() == 0 {
        seq![]
    } else {
        all_lines(hunks.drop_last()) + hunks.last()
    }
}

/// The text of a line of that kind.
pub open spec fn of_kind(kind: DiffLineKind) -> spec_fn(DiffLineModel) -> Option<Seq<char>> {
    |l: DiffLineModel|
        if l.kind == kind {
            Some(l.text)
        } else {
            None
        }
}

/// What stands behind a mark at the start of a line. The anchor of a hunk counts as a
/// line that stays, unless it is blank.
pub open spec fn marked(mark: char) -> spec_fn(Seq<char>) -> Option<Seq<char>> {
    |line: Seq<char>|
        if line.len() > 0 && line[0] == mark {
            Some(line.skip(1))
        } else if mark == ' ' && line.len() >= 2 && line[0] == '@' && line[1] == '@' && trim_start(
            line.skip(2),
        ).len() > 0 {
            Some(trim_start(line.skip(2)))
        } else {
            None
        }
}

proof fn sections_agree(line: Seq<char>)
    ensures
        is_inside(line) <==> crate::render::section_path(line) is None,
        forall|path: Seq<char>| #[trigger]
            opens_section(line, path) ==> crate::render::section_path(line) == Some(trim(path)),
{
    let u = "*** Update File: "@;
    let d = "*** Add File: "@;
    reveal_strlit("*** Update File: ");
    reveal_strlit("*** Add File: ");
    assert forall|path: Seq<char>| #[trigger] opens_section(line, path) implies
        crate::render::section_path(line) == Some(trim(path)) by {
        if line == u + path {
            assert(line.subrange(0, u.len() as int) =~= u);
            assert(line.skip(u.len() as int) =~= path);
        } else {
            assert(line.subrange(0, d.len() as int) =~= d);
            assert(line.skip(d.len() as int) =~= path);
            assert(line[4] == 'A' && u[4] == 'U');
            if crate::text::has_prefix(line, u) {
                assert(line.subrange(0, u.len() as int)[4] == line[4]);
            }
        }
    }
    if crate::render::section_path(line) is Some {
        if crate::text::has_prefix(line, u) {
            let path = line.skip(u.len() as int);
            assert(line =~= u + path);
            assert(opens_section(line, path));
        } else {
            let path = line.skip(d.len() as int);
            assert(line =~= d + path);
            assert(opens_section(line, path));
        }
    }
}

proof fn nothing_is_read_before(ls: Seq<Seq<char>>, n: int)
    requires
        0 <= n <= ls.len(),
        forall|k: int| 0 <= k < n ==> is_inside(#[trigger] ls[k]),
    ensures
        patch_after(ls, n) == patch_after(ls, 0),
    decreases n,
{
    if n > 0 {
        nothing_is_read_before(ls, n - 1);
        sections_agree(ls[n - 1]);
    }
}

proof fn nothing_is_read_behind(ls: Seq<Seq<char>>, n: int, m: int)
    requires
        0 <= n <= m <= ls.len(),
        patch_after(ls, n).closed,
    ensures
        patch_after(ls, m) == patch_after(ls, n),
    decreases m - n,
{
    if n < m {
        nothing_is_read_behind(ls, n, m - 1);
    }
}

proof fn lines_of_the_hunks(hunks: Seq<Seq<DiffLineModel>>, current: Seq<DiffLineModel>)
    ensures
        all_lines(with_hunk(hunks, current)) == all_lines(hunks) + current,
{
    if current.len() > 0 {
        assert(hunks.push(current).drop_last() =~= hunks);
    } else {
        assert(all_lines(hunks) + current =~= all_lines(hunks));
    }
}

/// What is read inside of the section: the marked lines, in their order.
proof fn marked_lines_are_read(
    ls: Seq<Seq<char>>,
    i: int,
    n: int,
    path: Seq<char>,
    kind: DiffLineKind,
    mark: char,
)
    requires
        0 <= i < n <= ls.len(),
        forall|k: int| 0 <= k < i ==> is_inside(#[trigger] ls[k]),
        opens_section(ls[i], path),
        forall|k: int| i < k < n ==> is_inside(#[trigger] ls[k]),
        kind == DiffLineKind::Add && mark == '+' || kind == DiffLineKind::Remove && mark == '-'
            || kind == DiffLineKind::Context && mark == ' ',
    ensures
        patch_after(ls, n).path == Some(trim(path)),
        !patch_after(ls, n).closed,
        picked(
            all_lines(patch_after(ls, n).hunks) + patch_after(ls, n).current,
            of_kind(kind),
        ) == picked(ls.subrange(i + 1, n), marked(mark)),
        forall|h: int|
            0 <= h < patch_after(ls, n).hunks.len() ==> (#[trigger] patch_after(
                ls,
                n,
            ).hunks[h]).len() > 0,
    decreases n,
{
    let q = patch_after(ls, n);
    if n == i + 1 {
        nothing_is_read_before(ls, i);
        sections_agree(ls[i]);
        assert(all_lines(q.hunks) + q.current =~= Seq::<DiffLineModel>::empty());
        assert(ls.subrange(i + 1, n) =~= Seq::<Seq<char>>::empty());
    } else {
        marked_lines_are_read(ls, i, n - 1, path, kind, mark);
        let p = patch_after(ls, n - 1);
        let line = ls[n - 1];
        sections_agree(line);
        assert(q == crate::render::patch_step(p, line));
        let before = ls.subrange(i + 1, n - 1);
        assert(ls.subrange(i + 1, n) =~= before + seq![line]);
        picked_in_a_row(before, seq![line], marked(mark));
        picked_from_one(line, marked(mark));
        reveal_strlit("*** Begin Patch");
        reveal_strlit("*** End Patch");
        reveal_strlit("*** End of File");
        reveal_strlit("@@");
        let old_lines = all_lines(p.hunks) + p.current;
        if crate::render::is_frame(line) {
            assert(line[0] == '*') by {
                if crate::text::has_prefix(line, "*** Begin Patch"@) {
                    assert(line.subrange(0, 15)[0] == line[0]);
                } else if crate::text::has_prefix(line, "*** End Patch"@) {
                    assert(line.subrange(0, 13)[0] == line[0]);
                } else {
                    assert(line.subrange(0, 15)[0] == line[0]);
                }
            }
        } else if crate::text::has_prefix(line, "@@"@) {
            assert(line.subrange(0, 2)[0] == line[0]);
            assert(line.subrange(0, 2)[1] == line[1]);
            let anchor = crate::render::anchor_lines(line);
            lines_of_the_hunks(p.hunks, p.current);
            assert(all_lines(q.hunks) + q.current == old_lines + anchor);
            picked_in_a_row(old_lines, anchor, of_kind(kind));
            if anchor.len() > 0 {
                picked_from_one(anchor[0], of_kind(kind));
                assert(anchor =~= seq![anchor[0]]);
            } else {
                assert(anchor =~= Seq::<DiffLineModel>::empty());
            }
        } else if let Some(l) = crate::render::diff_line(line) {
            if line[0] == '@' && line.len() >= 2 && line[1] == '@' {
                assert(line.subrange(0, 2) =~= "@@"@);
            }
            assert(all_lines(q.hunks) + q.current =~= old_lines + seq![l]);
            picked_in_a_row(old_lines, seq![l], of_kind(kind));
            picked_from_one(l, of_kind(kind));
        } else if line.len() >= 2 && line[0] == '@' && line[1] == '@' {
            assert(line.subrange(0, 2) =~= "@@"@);
        }
        assert(picked(before, marked(mark)) + Seq::<Seq<char>>::empty() =~= picked(
            before,
            marked(mark),
        ));
        assert(picked(old_lines, of_kind(kind)) + Seq::<Seq<char>>::empty() =~= picked(
            old_lines,
            of_kind(kind),
        ));
    }
}

/// A patch is shown under the first file that it names, and what is shown as added,
/// as removed and as kept is just what the lines of that file's section add, remove
/// and keep, in their order. What follows for other files is left out, and no hunk is empty.
pub proof fn changes_are_shown(
    input: Seq<char>,
    i: int,
    j: int,
    path: Seq<char>,
    r: (Seq<char>, Seq<Seq<DiffLineModel>>),
)
    requires
        0 <= i < j <= lines(input).len(),
        forall|k: int| 0 <= k < i ==> is_inside(#[trigger] lines(input)[k]),
        opens_section(lines(input)[i], path),
        forall|k: int| i < k < j ==> is_inside(#[trigger] lines(input)[k]),
        j < lines(input).len() ==> !is_inside(lines(input)[j]),
        patch_of(input) == Some(r),
    ensures
        r.0 == trim(path),
        picked(all_lines(r.1), of_kind(DiffLineKind::Add)) == picked(
            lines(input).subrange(i + 1, j),
            marked('+'),
        ),
        picked(all_lines(r.1), of_kind(DiffLineKind::Remove)) == picked(
            lines(input).subrange(i + 1, j),
            marked('-'),
        ),
        picked(all_lines(r.1), of_kind(DiffLineKind::Context)) == picked(
            lines(input).subrange(i + 1, j),
            marked(' '),
        ),
        forall|h: int| 0 <= h < r.1.len() ==> (#[trigger] r.1[h]).len() > 0,
{
    let ls = lines(input);
    marked_lines_are_read(ls, i, j, path, DiffLineKind::Add, '+');
    marked_lines_are_read(ls, i, j, path, DiffLineKind::Remove, '-');
    marked_lines_are_read(ls, i, j, path, DiffLineKind::Context, ' ');
    let p = patch_after(ls, j);
    let q = patch_after(ls, ls.len() as int);
    if j < ls.len() {
        sections_agree(ls[j]);
        assert(patch_after(ls, j + 1) == crate::render::patch_step(p, ls[j]));
        nothing_is_read_behind(ls, j + 1, ls.len() as int);
    }
    assert(q.hunks == p.hunks && q.current == p.current && q.path == p.path);
    lines_of_the_hunks(p.hunks, p.current);
}

/// A file is shown where its section changes anything.
pub proof fn changed_file_is_shown(input: Seq<char>, i: int, j: int, path: Seq<char>)
    requires
        0 <= i < j <= lines(input).len(),
        forall|k: int| 0 <= k < i ==> is_inside(#[trigger] lines(input)[k]),
        opens_section(lines(input)[i], path),
        forall|k: int| i < k < j ==> is_inside(#[trigger] lines(input)[k]),
        j < lines(input).len() ==> !is_inside(lines(input)[j]),
        picked(lines(input).subrange(i + 1, j), marked('+')).len() > 0 || picked(
            lines(input).subrange(i + 1, j),
            marked('-'),
        ).len() > 0,
    ensures
        patch_of(input) is Some,
{
    let ls = lines(input);
    marked_lines_are_read(ls, i, j, path, DiffLineKind::Add, '+');
    marked_lines_are_read(ls, i, j, path, DiffLineKind::Remove, '-');
    let p = patch_after(ls, j);
    if j < ls.len() {
        sections_agree(ls[j]);
        assert(patch_after(ls, j + 1) == crate::render::patch_step(p, ls[j]));
        nothing_is_read_behind(ls, j + 1, ls.len() as int);
    }
    lines_of_the_hunks(p.hunks, p.current);
}

/// Nothing is shown of a text that names no file.
pub proof fn patch_without_a_file_is_not_shown(input: Seq<char>)
    requires
        forall|k: int| 0 <= k < lines(input).len() ==> is_inside(#[trigger] lines(input)[k]),
    ensures
        patch_of(input) is None,
{
    nothing_is_read_before(lines(input), lines(input).len() as int);
}

// ---------------------------------------------------------------------------
// Arguments
// ---------------------------------------------------------------------------

/// Cutting leaves a short text as it is, and of a long one its beginning, with an
/// ellipsis for the rest.
pub proof fn long_texts_are_cut(head: Seq<char>, tail: Seq<char>, max: int)
    requires
        max == head.len() + 1,
        tail.len() > 1,
    ensures
        clamped(head + tail, max) == head + seq!['…'],
        clamped(head, max) == head,
        clamped(head.push('.'), max) == head.push('.'),
{
    reveal_strlit("…");
    assert((head + tail).take(max - 1) =~= head);
    assert("…"@ =~= seq!['…']);
}

/// How a text is shown as an argument.
pub open spec fn as_argument(key: Seq<char>, text: Seq<char>) -> Seq<char> {
    key + seq!['='] + seq!['"'] + text + seq!['"']
}

/// The arguments of a call are shown by their names and values, the first two of them:
/// short texts in quotes, and with a space between the two.
pub proof fn arguments_are_shown(
    arguments: Seq<char>,
    members: Seq<(Seq<char>, Seq<char>)>,
    first: Seq<char>,
    second: Seq<char>,
)
    requires
        text_document(arguments) == Some(JsonModel::Object(members)),
        members.len() >= 1,
        text_document(members[0].1) == Some(JsonModel::Text(first)),
        first.len() <= 30,
        members.len() >= 2 ==> text_document(members[1].1) == Some(JsonModel::Text(second)),
        second.len() <= 30,
        members[0].0.len() + first.len() + 3 + (if members.len() >= 2 {
            members[1].0.len() + second.len() + 4
        } else {
            0
        }) <= 60,
    ensures
        members.len() == 1 ==> preview(arguments) == as_argument(members[0].0, first),
        members.len() >= 2 ==> preview(arguments) == as_argument(members[0].0, first) + seq![' ']
            + as_argument(members[1].0, second),
{
    reveal_strlit("=");
    reveal_strlit("\"");
    reveal_strlit(" ");
    let args = crate::render::shown_args(members);
    let parts = args.map_values(
        |a: (Seq<char>, crate::render::ArgValueModel)| crate::render::arg_preview(a.0, a.1),
    );
    assert(parts[0] =~= as_argument(members[0].0, first));
    if members.len() >= 2 {
        assert(parts.len() == 2);
        assert(parts[1] =~= as_argument(members[1].0, second));
        assert(parts.drop_last().len() == 1);
        assert(joined(parts.drop_last(), " "@) == parts[0]);
        assert(joined(parts, " "@) == parts[0] + " "@ + parts[1]);
        assert(" "@ =~= seq![' ']);
    } else {
        assert(parts.len() == 1);
        assert(joined(parts, " "@) == parts[0]);
    }
}

} // verus!
