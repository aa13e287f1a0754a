//! Texts and white space.
use vstd::prelude::*;
#[allow(unused_imports)]
use vstd::string::*;

use crate::text::{
    is_white, lines, lines_of_line_and_rest, lines_of_single_line, trim, trim_end, trim_start,
    without_cr,
};

verus! {

/// Whether a text is made of white space only.
pub open spec fn all_white(s: Seq<char>) -> bool {
    forall|k: int| 0 <= k < s.len() ==> is_white(#[trigger] s[k])
}

/// Whether `t` is `s` without the white space at its two ends.
pub open spec fn is_stripped(
    s: Seq<char>,
    t: Seq<char>,
    before: Seq<char>,
    after: Seq<char>,
) -> bool {
    &&& s == before + t + after
    &&& all_white(before)
    &&& all_white(after)
    &&& t.len() > 0 ==> !is_white(t[0]) && !is_white(t.last())
}

proof fn start_is_stripped(s: Seq<char>) -> (before: Seq<char>)
    ensures
        s == before + trim_start(s),
        all_white(before),
        trim_start(s).len() > 0 ==> !is_white(trim_start(s)[0]),
    decreases s.len(),
{
    if s.len() > 0 && is_white(s[0]) {
        let rest = start_is_stripped(s.skip(1));
        let before = seq![s[0]] + rest;
        assert(s =~= before + trim_start(s)) by {
            assert(s =~= seq![s[0]] + s.skip(1));
        }
        before
    } else {
        assert(s =~= Seq::<char>::empty() + trim_start(s));
        Seq::empty()
    }
}

proof fn end_is_stripped(s: Seq<char>) -> (after: Seq<char>)
    ensures
        s == trim_end(s) + after,
        all_white(after),
        trim_end(s).len() > 0 ==> !is_white(trim_end(s).last()) && trim_end(s)[0] == s[0],
    decreases s.len(),
{
    if s.len() > 0 && is_white(s.last()) {
        let rest = end_is_stripped(s.drop_last());
        let after = rest.push(s.last());
        assert(s =~= trim_end(s) + after) by {
            assert(s =~= s.drop_last().push(s.last()));
        }
        after
    } else {
        assert(s =~= trim_end(s) + Seq::<char>::empty());
        Seq::empty()
    }
}

/// Trimming takes the white space away from both ends of a text, and nothing
/// else.
pub proof fn trimming_strips_white_space(s: Seq<char>) -> (ends: (Seq<char>, Seq<char>))
    ensures
        is_stripped(s, trim(s), ends.0, ends.1),
{
    let before = start_is_stripped(s);
    let after = end_is_stripped(trim_start(s));
    assert(s =~= before + trim(s) + after);
    (before, after)
}

/// A text is trimmed to nothing if and only if it is white space only.
pub proof fn blank_is_trimmed_to_nothing(s: Seq<char>)
    ensures
        trim(s).len() == 0 <==> all_white(s),
{
    let (before, after) = trimming_strips_white_space(s);
    if trim(s).len() == 0 {
        assert forall|k: int| 0 <= k < s.len() implies is_white(#[trigger] s[k]) by {
            if k < before.len() {
                assert(s[k] == before[k]);
            } else {
                assert(s[k] == after[k - before.len()]);
            }
        }
    } else {
        assert(s[before.len() as int] == trim(s)[0]);
    }
}

/// A text is split where its lines end: with a line feed, or with a carriage return and
/// a line feed, neither of which is part of the line. A line feed at the very end
/// starts no line.
pub proof fn lines_are_split(line: Seq<char>, rest: Seq<char>)
    requires
        !line.contains('\n'),
        line.len() == 0 || line.last() != '\r',
    ensures
        lines(line + seq!['\n'] + rest) == seq![line] + lines(rest),
        lines(line + seq!['\r', '\n'] + rest) == seq![line] + lines(rest),
        lines(line + seq!['\n']) == seq![line],
        line.len() > 0 ==> lines(line) == seq![line],
        lines(Seq::<char>::empty()).len() == 0,
{
    reveal_strlit("\n");
    assert("\n"@ =~= seq!['\n']);
    lines_of_line_and_rest(line, rest);
    assert(without_cr(line) == line);
    let ended = line.push('\r');
    assert(!ended.contains('\n')) by {
        if ended.contains('\n') {
            let i = choose|i: int| 0 <= i < ended.len() && ended[i] == '\n';
            assert(line[i] == '\n');
        }
    }
    lines_of_line_and_rest(ended, rest);
    assert(ended.drop_last() =~= line);
    assert(ended + seq!['\n'] + rest =~= line + seq!['\r', '\n'] + rest);
    lines_of_line_and_rest(line, Seq::empty());
    assert(line + seq!['\n'] + Seq::<char>::empty() =~= line + seq!['\n']);
    assert(lines(Seq::<char>::empty()) =~= Seq::<Seq<char>>::empty());
    assert(seq![line] + Seq::<Seq<char>>::empty() =~= seq![line]);
    if line.len() > 0 {
        lines_of_single_line(line);
    }
}

} // verus!
