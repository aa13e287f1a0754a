//! Strings as sequences of characters: the vocabulary that the other modules'
//! contracts are written in, and the verified functions that compute it.
use vstd::prelude::*;
#[allow(unused_imports)]
use vstd::string::*;

verus! {

// ---------------------------------------------------------------------------
// Functions of std
// ---------------------------------------------------------------------------

/// `String::push` of std: the character goes to the end of the string.
pub assume_specification[ String::push ](s: &mut String, c: char)
    ensures
        final(s)@ == old(s)@.push(c),
;

/// The characters with the Unicode property `White_Space`.
pub open spec fn is_white(c: char) -> bool {
    ||| '\u{9}' <= c <= '\u{d}'
    ||| c == ' '
    ||| c == '\u{85}'
    ||| c == '\u{a0}'
    ||| c == '\u{1680}'
    ||| '\u{2000}' <= c <= '\u{200a}'
    ||| c == '\u{2028}'
    ||| c == '\u{2029}'
    ||| c == '\u{202f}'
    ||| c == '\u{205f}'
    ||| c == '\u{3000}'
}

/// `char::is_whitespace` of std: whether the character has the Unicode
/// property `White_Space`.
pub assume_specification[ char::is_whitespace ](c: char) -> (r: bool)
    ensures
        r == is_white(c),
;

/// The Unicode lower-case form of a text, as `str::to_lowercase` gives it.
pub uninterp spec fn lowercase_of(s: Seq<char>) -> Seq<char>;

/// `str::to_lowercase` of std. Its result is named by `lowercase_of`; of a
/// text made of ASCII characters only, it is the text with `A` to `Z` replaced
/// by `a` to `z`.
#[verifier::external_body]
pub(crate) fn lowercase(s: &str) -> (r: String)
    ensures
        r@ == lowercase_of(s@),
        vstd::utf8::is_ascii_chars(s@) ==> r@ == s@.map_values(|c: char| ascii_lower(c)),
{
    s.to_lowercase()
}

/// A text as the `Debug` format of std shows it.
pub uninterp spec fn debug_of(s: Seq<char>) -> Seq<char>;

/// Whether a character is a tab, a line feed, a carriage return or a printable
/// ASCII character.
pub open spec fn is_plain_char(c: char) -> bool {
    c == '\t' || c == '\n' || c == '\r' || ' ' <= c <= '~'
}

/// Whether a text is made of plain characters only.
pub open spec fn is_plain(s: Seq<char>) -> bool {
    forall|i: int| 0 <= i < s.len() ==> is_plain_char(#[trigger] s[i])
}

/// A plain character as it stands between quotation marks.
pub open spec fn escaped_char(c: char) -> Seq<char> {
    if c == '"' {
        "\\\""@
    } else if c == '\\' {
        "\\\\"@
    } else if c == '\n' {
        "\\n"@
    } else if c == '\r' {
        "\\r"@
    } else if c == '\t' {
        "\\t"@
    } else {
        seq![c]
    }
}

/// A plain text as it stands between quotation marks.
pub open spec fn escaped(s: Seq<char>) -> Seq<char>
    decreases s.len(),
{
    if s.len() == 0 {
        seq![]
    } else {
        escaped(s.drop_last()) + escaped_char(s.last())
    }
}

/// A plain text in quotation marks.
pub open spec fn quoted(s: Seq<char>) -> Seq<char> {
    "\""@ + escaped(s) + "\""@
}

/// `Debug` of `str` in std, through `format!` with `{:?}`. Its result is named
/// by `debug_of`; of a text made of printable ASCII characters, tabs, line feeds
/// and carriage returns only, it is the text in quotation marks, with a
/// backslash before quotation marks and backslashes and with `\t`, `\n` and
/// `\r` for the others. How any other character is shown rests on std's tables
/// of what is printable.
#[verifier::external_body]
pub(crate) fn debug_form(s: &str) -> (r: String)
    ensures
        r@ == debug_of(s@),
        is_plain(s@) ==> r@ == quoted(s@),
{
    format!("{:?}", s)
}

// ---------------------------------------------------------------------------
// Building
// ---------------------------------------------------------------------------

/// The views of a list of strings.
pub open spec fn views(v: Seq<String>) -> Seq<Seq<char>> {
    v.map_values(|s: String| s@)
}

/// The characters of `s`.
pub fn chars_of(s: &str) -> (r: Vec<char>)
    ensures
        r@ == s@,
{
    let mut out: Vec<char> = Vec::new();
    for c in it: s.chars()
        invariant
            out@ == s@.take(it.index()),
            it.seq() == s@,
    {
        out.push(c);
    }
    out
}

/// The characters from `from` up to, but without, `to` as a string.
pub fn text_between(v: &Vec<char>, from: usize, to: usize) -> (r: String)
    requires
        from <= to <= v@.len(),
    ensures
        r@ == v@.subrange(from as int, to as int),
{
    let mut out: String = String::new();
    let mut i: usize = from;
    while i < to
        invariant
            from <= i <= to <= v@.len(),
            out@ == v@.subrange(from as int, i as int),
        decreases to - i,
    {
        out.push(v[i]);
        i += 1;
        proof {
            assert(v@.subrange(from as int, i as int) == v@.subrange(
                from as int,
                i - 1,
            ).push(v@[i - 1]));
        }
    }
    out
}

/// `a` followed by `b`.
pub fn concat2(a: &str, b: &str) -> (r: String)
    ensures
        r@ == a@ + b@,
{
    a.to_owned().concat(b)
}

/// `a`, `b` and `c` in a row.
pub fn concat3(a: &str, b: &str, c: &str) -> (r: String)
    ensures
        r@ == a@ + b@ + c@,
{
    a.to_owned().concat(b).concat(c)
}

/// `a`, `b`, `c` and `d` in a row.
pub fn concat4(a: &str, b: &str, c: &str, d: &str) -> (r: String)
    ensures
        r@ == a@ + b@ + c@ + d@,
{
    a.to_owned().concat(b).concat(c).concat(d)
}

/// `a`, `b`, `c`, `d` and `e` in a row.
pub fn concat5(a: &str, b: &str, c: &str, d: &str, e: &str) -> (r: String)
    ensures
        r@ == a@ + b@ + c@ + d@ + e@,
{
    a.to_owned().concat(b).concat(c).concat(d).concat(e)
}

/// The parts, with `sep` between each two of them.
pub open spec fn joined(parts: Seq<Seq<char>>, sep: Seq<char>) -> Seq<char>
    decreases parts.len(),
{
    if parts.len() == 0 {
        Seq::empty()
    } else if parts.len() == 1 {
        parts[0]
    } else {
        joined(parts.drop_last(), sep) + sep + parts.last()
    }
}

/// The strings of `parts`, with `sep` between each two of them.
pub fn join(parts: &Vec<String>, sep: &str) -> (r: String)
    ensures
        r@ == joined(views(parts@), sep@),
{
    let mut out: String = String::new();
    let mut i: usize = 0;
    while i < parts.len()
        invariant
            i <= parts@.len(),
            out@ == joined(views(parts@).take(i as int), sep@),
        decreases parts@.len() - i,
    {
        if i > 0 {
            out.append(sep);
        }
        out.append(parts[i].as_str());
        proof {
            let next = views(parts@).take(i + 1);
            assert(next.drop_last() == views(parts@).take(i as int));
            assert(next.last() == parts@[i as int]@);
            if i == 0 {
                assert(out@ == parts@[0]@);
            }
        }
        i += 1;
    }
    proof {
        assert(views(parts@).take(i as int) == views(parts@));
    }
    out
}

// ---------------------------------------------------------------------------
// Comparing and searching
// ---------------------------------------------------------------------------

/// Whether the two texts are the same.
pub fn same_text(a: &str, b: &str) -> (r: bool)
    ensures
        r == (a@ == b@),
{
    let x: String = a.to_owned();
    let y: String = b.to_owned();
    x == y
}

/// Whether `p` stands in `s` at position `i`.
pub open spec fn occurs_at(s: Seq<char>, p: Seq<char>, i: int) -> bool {
    &&& 0 <= i
    &&& i + p.len() <= s.len()
    &&& s.subrange(i, i + p.len()) == p
}

/// Whether `s` starts with `p`.
pub open spec fn has_prefix(s: Seq<char>, p: Seq<char>) -> bool {
    occurs_at(s, p, 0)
}

/// Whether `s` ends with `p`.
pub open spec fn has_suffix(s: Seq<char>, p: Seq<char>) -> bool {
    occurs_at(s, p, s.len() - p.len())
}

/// Whether `p` stands in `s` at some position.
pub open spec fn has_part(s: Seq<char>, p: Seq<char>) -> bool {
    exists|i: int| occurs_at(s, p, i)
}

/// Whether `p` stands in `s` at position `i`.
pub fn matches_at(s: &Vec<char>, p: &Vec<char>, i: usize) -> (r: bool)
    ensures
        r == occurs_at(s@, p@, i as int),
{
    if i > s.len() || p.len() > s.len() - i {
        return false;
    }
    let n: usize = s.len();
    let mut k: usize = 0;
    while k < p.len()
        invariant
            k <= p@.len(),
            n == s@.len(),
            i + p@.len() <= n,
            forall|j: int| 0 <= j < k ==> s@[i + j] == p@[j],
        decreases p@.len() - k,
    {
        if s[i + k] != p[k] {
            proof {
                assert(s@.subrange(i as int, i + p@.len())[k as int] != p@[k as int]);
            }
            return false;
        }
        k += 1;
    }
    proof {
        assert(s@.subrange(i as int, i + p@.len()) =~= p@);
    }
    true
}

/// Whether `s` starts with `p`.
pub fn starts_with(s: &str, p: &str) -> (r: bool)
    ensures
        r == has_prefix(s@, p@),
{
    let sv: Vec<char> = chars_of(s);
    let pv: Vec<char> = chars_of(p);
    matches_at(&sv, &pv, 0)
}

/// The first position at which `p` stands in `s`.
pub fn find_text(s: &Vec<char>, p: &Vec<char>) -> (r: Option<usize>)
    ensures
        r matches Some(i) ==> occurs_at(s@, p@, i as int) && forall|j: int|
            0 <= j < i ==> !occurs_at(s@, p@, j),
        r is None ==> !has_part(s@, p@),
{
    let mut i: usize = 0;
    loop
        invariant
            i <= s@.len(),
            forall|j: int| 0 <= j < i ==> !occurs_at(s@, p@, j),
        decreases s@.len() - i,
    {
        if matches_at(s, p, i) {
            return Some(i);
        }
        if i >= s.len() {
            return None;
        }
        i += 1;
    }
}

/// The last position at which `p` stands in `s`.
pub open spec fn last_at(s: Seq<char>, p: Seq<char>) -> int {
    choose|i: int| is_last_at(s, p, i)
}

/// Whether `p` stands in `s` at `i`, and nowhere further on.
pub open spec fn is_last_at(s: Seq<char>, p: Seq<char>, i: int) -> bool {
    occurs_at(s, p, i) && forall|j: int| i < j ==> !occurs_at(s, p, j)
}

/// The last position at which `p` stands in `s`.
pub fn rfind_text(s: &Vec<char>, p: &Vec<char>) -> (r: Option<usize>)
    ensures
        r is Some <==> has_part(s@, p@),
        r matches Some(i) ==> i == last_at(s@, p@) && occurs_at(s@, p@, i as int),
{
    let mut i: usize = s.len();
    loop
        invariant
            i <= s@.len(),
            forall|j: int| i < j ==> !occurs_at(s@, p@, j),
        decreases i,
    {
        if matches_at(s, p, i) {
            proof {
                assert(is_last_at(s@, p@, i as int));
                assert(is_last_at(s@, p@, last_at(s@, p@)));
            }
            return Some(i);
        }
        if i == 0 {
            return None;
        }
        i -= 1;
    }
}

/// Whether `p` stands somewhere in `s`.
pub fn contains_text(s: &str, p: &str) -> (r: bool)
    ensures
        r == has_part(s@, p@),
{
    let sv: Vec<char> = chars_of(s);
    let pv: Vec<char> = chars_of(p);
    match find_text(&sv, &pv) {
        Some(_) => true,
        None => false,
    }
}

// ---------------------------------------------------------------------------
// ASCII letter case
// ---------------------------------------------------------------------------

/// `A` to `Z` become `a` to `z`; every other character stays.
pub open spec fn ascii_lower(c: char) -> char {
    if 'A' <= c <= 'Z' {
        (c as u32 + 32) as char
    } else {
        c
    }
}

/// The text with each character lowered in the ASCII sense.
pub open spec fn ascii_lowered(s: Seq<char>) -> Seq<char> {
    s.map_values(|c: char| ascii_lower(c))
}

/// Lowers one character in the ASCII sense.
pub fn lower_ascii_char(c: char) -> (r: char)
    ensures
        r == ascii_lower(c),
{
    if 'A' <= c && c <= 'Z' {
        let code: u8 = c as u8;
        proof {
            assert(c as u32 + 32 <= 122);
        }
        (code + 32) as char
    } else {
        c
    }
}

/// The characters of `v`, each lowered in the ASCII sense.
pub fn lower_ascii_chars(v: &Vec<char>) -> (r: Vec<char>)
    ensures
        r@ == ascii_lowered(v@),
{
    let mut out: Vec<char> = Vec::new();
    let mut i: usize = 0;
    while i < v.len()
        invariant
            i <= v@.len(),
            out@ == ascii_lowered(v@.take(i as int)),
        decreases v@.len() - i,
    {
        out.push(lower_ascii_char(v[i]));
        i += 1;
        proof {
            assert(ascii_lowered(v@.take(i as int)) =~= ascii_lowered(v@.take(i - 1)).push(
                ascii_lower(v@[i - 1]),
            ));
        }
    }
    proof {
        assert(v@.take(i as int) == v@);
    }
    out
}

/// Whether the two texts are the same up to the case of ASCII letters.
pub fn same_ignoring_ascii_case(a: &str, b: &str) -> (r: bool)
    ensures
        r == (ascii_lowered(a@) == ascii_lowered(b@)),
{
    let x: Vec<char> = lower_ascii_chars(&chars_of(a));
    let y: Vec<char> = lower_ascii_chars(&chars_of(b));
    if x.len() != y.len() {
        return false;
    }
    let same: bool = matches_at(&x, &y, 0);
    proof {
        assert(x@.subrange(0, x@.len() as int) == x@);
    }
    same
}

// ---------------------------------------------------------------------------
// Trimming
// ---------------------------------------------------------------------------

/// The text without its leading white space.
pub open spec fn trim_start(s: Seq<char>) -> Seq<char>
    decreases s.len(),
{
    if s.len() > 0 && is_white(s[0]) {
        trim_start(s.skip(1))
    } else {
        s
    }
}

/// The text without its trailing white space.
pub open spec fn trim_end(s: Seq<char>) -> Seq<char>
    decreases s.len(),
{
    if s.len() > 0 && is_white(s.last()) {
        trim_end(s.drop_last())
    } else {
        s
    }
}

/// The text without white space at either end.
pub open spec fn trim(s: Seq<char>) -> Seq<char> {
    trim_end(trim_start(s))
}

/// The number of leading white-space characters from position `from` on.
fn skip_white(v: &Vec<char>, from: usize) -> (r: usize)
    requires
        from <= v@.len(),
    ensures
        from <= r <= v@.len(),
        v@.skip(r as int) == trim_start(v@.skip(from as int)),
        r < v@.len() ==> !is_white(v@[r as int]),
{
    let mut i: usize = from;
    while i < v.len() && v[i].is_whitespace()
        invariant
            from <= i <= v@.len(),
            trim_start(v@.skip(i as int)) == trim_start(v@.skip(from as int)),
        decreases v@.len() - i,
    {
        proof {
            assert(v@.skip(i as int).skip(1) == v@.skip(i + 1));
        }
        i += 1;
    }
    i
}

/// The end of `v` from `from` on once trailing white space is left out.
fn cut_white(v: &Vec<char>, from: usize) -> (r: usize)
    requires
        from <= v@.len(),
    ensures
        from <= r <= v@.len(),
        v@.subrange(from as int, r as int) == trim_end(v@.skip(from as int)),
{
    let mut i: usize = v.len();
    proof {
        assert(v@.subrange(from as int, i as int) == v@.skip(from as int));
    }
    while i > from && v[i - 1].is_whitespace()
        invariant
            from <= i <= v@.len(),
            trim_end(v@.subrange(from as int, i as int)) == trim_end(v@.skip(from as int)),
        decreases i,
    {
        proof {
            assert(v@.subrange(from as int, i as int).drop_last() == v@.subrange(
                from as int,
                i - 1,
            ));
        }
        i -= 1;
    }
    i
}

/// The text without white space at either end.
pub fn trimmed(v: &Vec<char>) -> (r: String)
    ensures
        r@ == trim(v@),
{
    let a: usize = skip_white(v, 0);
    let b: usize = cut_white(v, a);
    proof {
        assert(v@.skip(0) == v@);
    }
    text_between(v, a, b)
}

/// The text without its leading white space.
pub fn trimmed_start(v: &Vec<char>) -> (r: String)
    ensures
        r@ == trim_start(v@),
{
    let a: usize = skip_white(v, 0);
    proof {
        assert(v@.skip(0) == v@);
        assert(v@.subrange(a as int, v@.len() as int) == v@.skip(a as int));
    }
    text_between(v, a, v.len())
}

/// Whether the text is made of white space only.
pub fn is_blank(s: &str) -> (r: bool)
    ensures
        r == (trim(s@).len() == 0),
{
    let v: Vec<char> = chars_of(s);
    let t: String = trimmed(&v);
    t.as_str().is_empty()
}

// ---------------------------------------------------------------------------
// Lines and words
// ---------------------------------------------------------------------------

/// The first position of `c` in `s` at or after `from`, or the length of `s`.
pub open spec fn next_char(s: Seq<char>, c: char, from: int) -> int
    decreases s.len() - from,
{
    if from < 0 || from >= s.len() {
        s.len() as int
    } else if s[from] == c {
        from
    } else {
        next_char(s, c, from + 1)
    }
}

/// A line as it stands before a line feed: one carriage return at its end is
/// part of the line ending.
pub open spec fn without_cr(s: Seq<char>) -> Seq<char> {
    if s.len() > 0 && s.last() == '\r' {
        s.drop_last()
    } else {
        s
    }
}

/// The lines of a text from position `from` on. A line ends with a line feed,
/// or a carriage return and a line feed; the ending of the last line is
/// optional and line endings are not part of the lines.
pub open spec fn lines_from(s: Seq<char>, from: int) -> Seq<Seq<char>>
    decreases s.len() - from,
{
    if from < 0 || from >= s.len() {
        Seq::empty()
    } else {
        let end = next_char(s, '\n', from);
        if end >= s.len() {
            seq![s.subrange(from, s.len() as int)]
        } else if end < from {
            Seq::empty()
        } else {
            seq![without_cr(s.subrange(from, end))] + lines_from(s, end + 1)
        }
    }
}

/// The lines of a text.
pub open spec fn lines(s: Seq<char>) -> Seq<Seq<char>> {
    lines_from(s, 0)
}

proof fn lemma_next_char_range(s: Seq<char>, c: char, from: int)
    requires
        0 <= from <= s.len(),
    ensures
        from <= next_char(s, c, from) <= s.len(),
    decreases s.len() - from,
{
    if from < s.len() && s[from] != c {
        lemma_next_char_range(s, c, from + 1);
    }
}

/// The first position of `c` at or after `from`, or the length.
pub fn find_char(v: &Vec<char>, c: char, from: usize) -> (r: usize)
    requires
        from <= v@.len(),
    ensures
        r == next_char(v@, c, from as int),
        from <= r <= v@.len(),
{
    let mut i: usize = from;
    while i < v.len() && v[i] != c
        invariant
            from <= i <= v@.len(),
            next_char(v@, c, i as int) == next_char(v@, c, from as int),
        decreases v@.len() - i,
    {
        i += 1;
    }
    i
}

/// The lines of the text.
pub fn lines_of(s: &str) -> (r: Vec<String>)
    ensures
        views(r@) == lines(s@),
{
    let v: Vec<char> = chars_of(s);
    let mut out: Vec<String> = Vec::new();
    let mut i: usize = 0;
    while i < v.len()
        invariant
            i <= v@.len(),
            v@ == s@,
            views(out@) + lines_from(s@, i as int) == lines(s@),
        decreases v@.len() - i,
    {
        let end: usize = find_char(&v, '\n', i);
        let ghost before = out@;
        if end >= v.len() {
            out.push(text_between(&v, i, end));
            proof {
                assert(lines_from(s@, i as int) == seq![s@.subrange(i as int, s@.len() as int)]);
                assert(lines_from(s@, end as int) == Seq::<Seq<char>>::empty());
                assert(views(out@) =~= views(before).push(s@.subrange(i as int, s@.len() as int)));
                assert(views(out@) + lines_from(s@, end as int) =~= views(before) + lines_from(
                    s@,
                    i as int,
                ));
            }
            i = end;
        } else {
            let mut stop: usize = end;
            if stop > i && v[stop - 1] == '\r' {
                stop = stop - 1;
            }
            out.push(text_between(&v, i, stop));
            proof {
                let line = s@.subrange(i as int, end as int);
                if stop < end {
                    assert(line.drop_last() == s@.subrange(i as int, stop as int));
                }
                assert(without_cr(line) == s@.subrange(i as int, stop as int));
                assert(lines_from(s@, i as int) == seq![without_cr(line)] + lines_from(
                    s@,
                    end + 1,
                ));
                assert(views(out@) =~= views(before).push(without_cr(line)));
                assert(views(out@) + lines_from(s@, end + 1) =~= views(before) + lines_from(
                    s@,
                    i as int,
                ));
            }
            i = end + 1;
        }
    }
    proof {
        assert(lines_from(s@, i as int) == Seq::<Seq<char>>::empty());
        assert(views(out@) + Seq::<Seq<char>>::empty() =~= views(out@));
    }
    out
}

proof fn lemma_next_char_shift(s: Seq<char>, c: char, from: int, at: int)
    requires
        0 <= from <= at <= s.len(),
    ensures
        next_char(s, c, at) == from + next_char(s.skip(from), c, at - from),
    decreases s.len() - at,
{
    if at < s.len() && s[at] != c {
        lemma_next_char_shift(s, c, from, at + 1);
    }
}

proof fn lemma_lines_shift(s: Seq<char>, from: int, at: int)
    requires
        0 <= from <= at <= s.len(),
    ensures
        lines_from(s, at) == lines_from(s.skip(from), at - from),
    decreases s.len() - at,
{
    let t = s.skip(from);
    if at < s.len() {
        lemma_next_char_shift(s, '\n', from, at);
        lemma_next_char_range(s, '\n', at);
        let end = next_char(s, '\n', at);
        if end < s.len() {
            lemma_lines_shift(s, from, end + 1);
            assert(s.subrange(at, end) =~= t.subrange(at - from, end - from));
        } else {
            assert(s.subrange(at, s.len() as int) =~= t.subrange(at - from, t.len() as int));
        }
    }
}

proof fn lemma_next_char_skips(s: Seq<char>, c: char, from: int, to: int)
    requires
        0 <= from <= to <= s.len(),
        forall|i: int| from <= i < to ==> s[i] != c,
        to < s.len() ==> s[to] == c,
    ensures
        next_char(s, c, from) == to,
    decreases to - from,
{
    if from < to {
        lemma_next_char_skips(s, c, from + 1, to);
    }
}

/// The lines of a text that starts with a line and a line feed: that line, and
/// then the lines of what follows.
pub proof fn lines_of_line_and_rest(a: Seq<char>, b: Seq<char>)
    requires
        !a.contains('\n'),
    ensures
        lines(a + "\n"@ + b) == seq![without_cr(a)] + lines(b),
{
    reveal_strlit("\n");
    let s = a + "\n"@ + b;
    let n = a.len() as int;
    assert forall|i: int| 0 <= i < n implies s[i] != '\n' by {
        assert(s[i] == a[i]);
        assert(a.contains(a[i]));
    }
    assert(s[n] == '\n');
    lemma_next_char_skips(s, '\n', 0, n);
    assert(s.subrange(0, n) =~= a);
    lemma_lines_shift(s, n + 1, n + 1);
    assert(s.skip(n + 1) =~= b);
}

/// A text that holds no line feed is its own only line, unless it is empty.
pub proof fn lines_of_single_line(a: Seq<char>)
    requires
        !a.contains('\n'),
    ensures
        lines(a) == if a.len() == 0 {
            Seq::<Seq<char>>::empty()
        } else {
            seq![a]
        },
{
    if a.len() > 0 {
        assert forall|i: int| 0 <= i < a.len() implies a[i] != '\n' by {
            assert(a.contains(a[i]));
        }
        lemma_next_char_skips(a, '\n', 0, a.len() as int);
        assert(a.subrange(0, a.len() as int) =~= a);
    }
}

proof fn lemma_joined_first(parts: Seq<Seq<char>>, sep: Seq<char>)
    requires
        parts.len() >= 2,
    ensures
        joined(parts, sep) == parts[0] + sep + joined(parts.skip(1), sep),
    decreases parts.len(),
{
    let front = parts.drop_last();
    if parts.len() == 2 {
        assert(front =~= seq![parts[0]]);
        assert(parts.skip(1) =~= seq![parts[1]]);
        assert(joined(front, sep) == parts[0]);
    } else {
        lemma_joined_first(front, sep);
        assert(front.skip(1) =~= parts.skip(1).drop_last());
        assert(joined(parts, sep) =~= parts[0] + sep + joined(parts.skip(1), sep));
    }
}

/// Texts that are joined by line feeds come back as lines: the `i`-th line is
/// the `i`-th text, as long as the texts up to it hold no line feed, and it is
/// not cut short by the line ending behind it or lost for being empty at the
/// very end.
pub proof fn joined_lines_come_back(parts: Seq<Seq<char>>, i: int)
    requires
        0 <= i < parts.len(),
        forall|j: int| 0 <= j <= i ==> !(#[trigger] parts[j]).contains('\n'),
        i + 1 < parts.len() ==> without_cr(parts[i]) == parts[i],
        i + 1 == parts.len() ==> parts[i].len() > 0,
    ensures
        i < lines(joined(parts, "\n"@)).len(),
        lines(joined(parts, "\n"@))[i] == parts[i],
    decreases i,
{
    if parts.len() == 1 {
        lines_of_single_line(parts[0]);
    } else {
        let rest = parts.skip(1);
        lemma_joined_first(parts, "\n"@);
        lines_of_line_and_rest(parts[0], joined(rest, "\n"@));
        if i > 0 {
            assert forall|j: int| 0 <= j <= i - 1 implies !(#[trigger] rest[j]).contains(
                '\n',
            ) by {
                assert(rest[j] == parts[j + 1]);
            }
            joined_lines_come_back(rest, i - 1);
        }
    }
}

/// The words of a text from position `from` on: the longest stretches without
/// white space.
pub open spec fn words_from(s: Seq<char>, from: int) -> Seq<Seq<char>>
    decreases s.len() - from,
{
    if from < 0 || from >= s.len() {
        Seq::empty()
    } else if is_white(s[from]) {
        words_from(s, from + 1)
    } else {
        let end = word_end(s, from);
        if end <= from || end > s.len() {
            Seq::empty()
        } else {
            seq![s.subrange(from, end)] + words_from(s, end)
        }
    }
}

/// The first position at or after `from` that holds white space, or the
/// length of the text.
pub open spec fn word_end(s: Seq<char>, from: int) -> int
    decreases s.len() - from,
{
    if from < 0 || from >= s.len() {
        s.len() as int
    } else if is_white(s[from]) {
        from
    } else {
        word_end(s, from + 1)
    }
}

/// The words of a text.
pub open spec fn words(s: Seq<char>) -> Seq<Seq<char>> {
    words_from(s, 0)
}

fn find_word_end(v: &Vec<char>, from: usize) -> (r: usize)
    requires
        from < v@.len(),
        !is_white(v@[from as int]),
    ensures
        r == word_end(v@, from as int),
        from < r <= v@.len(),
{
    let n: usize = v.len();
    let mut i: usize = from + 1;
    while i < n && !v[i].is_whitespace()
        invariant
            n == v@.len(),
            from < i <= v@.len(),
            word_end(v@, i as int) == word_end(v@, from as int),
        decreases v@.len() - i,
    {
        i += 1;
    }
    i
}

/// The words of the text.
pub fn words_of(s: &str) -> (r: Vec<String>)
    ensures
        views(r@) == words(s@),
{
    let v: Vec<char> = chars_of(s);
    let mut out: Vec<String> = Vec::new();
    let mut i: usize = 0;
    while i < v.len()
        invariant
            i <= v@.len(),
            v@ == s@,
            views(out@) + words_from(s@, i as int) == words(s@),
        decreases v@.len() - i,
    {
        if v[i].is_whitespace() {
            i += 1;
        } else {
            let end: usize = find_word_end(&v, i);
            let ghost before = out@;
            out.push(text_between(&v, i, end));
            proof {
                let word = s@.subrange(i as int, end as int);
                assert(words_from(s@, i as int) == seq![word] + words_from(s@, end as int));
                assert(views(out@) =~= views(before).push(word));
                assert(views(out@) + words_from(s@, end as int) =~= views(before) + words_from(
                    s@,
                    i as int,
                ));
            }
            i = end;
        }
    }
    proof {
        assert(words_from(s@, i as int) == Seq::<Seq<char>>::empty());
        assert(views(out@) + Seq::<Seq<char>>::empty() =~= views(out@));
    }
    out
}

// ---------------------------------------------------------------------------
// Replacing
// ---------------------------------------------------------------------------

/// The text from position `from` on, with each `pat` replaced by `with`: the
/// places are taken from left to right and do not overlap.
pub open spec fn replaced_from(s: Seq<char>, pat: Seq<char>, with: Seq<char>, from: int) -> Seq<
    char,
>
    decreases s.len() - from,
{
    if from < 0 || from >= s.len() {
        Seq::empty()
    } else if pat.len() > 0 && occurs_at(s, pat, from) {
        with + replaced_from(s, pat, with, from + pat.len())
    } else {
        seq![s[from]] + replaced_from(s, pat, with, from + 1)
    }
}

/// The text with each `pat` replaced by `with`.
pub open spec fn replaced(s: Seq<char>, pat: Seq<char>, with: Seq<char>) -> Seq<char> {
    replaced_from(s, pat, with, 0)
}

/// The text with each `pat` replaced by `with`.
pub fn replace_text(s: &str, pat: &str, with: &str) -> (r: String)
    requires
        pat@.len() > 0,
    ensures
        r@ == replaced(s@, pat@, with@),
{
    let sv: Vec<char> = chars_of(s);
    let pv: Vec<char> = chars_of(pat);
    let mut out: String = String::new();
    let mut i: usize = 0;
    while i < sv.len()
        invariant
            i <= sv@.len(),
            sv@ == s@,
            pv@ == pat@,
            pat@.len() > 0,
            out@ + replaced_from(s@, pat@, with@, i as int) == replaced(s@, pat@, with@),
        decreases sv@.len() - i,
    {
        let ghost before = out@;
        if matches_at(&sv, &pv, i) {
            out.append(with);
            proof {
                let rest = replaced_from(s@, pat@, with@, i + pat@.len());
                assert(out@ + rest =~= before + (with@ + rest));
            }
            i = i + pv.len();
        } else {
            out.push(sv[i]);
            proof {
                let rest = replaced_from(s@, pat@, with@, i + 1);
                assert(out@ + rest =~= before + (seq![s@[i as int]] + rest));
            }
            i += 1;
        }
    }
    proof {
        assert(out@ + Seq::<char>::empty() =~= out@);
    }
    out
}

// ---------------------------------------------------------------------------
// Numbers
// ---------------------------------------------------------------------------

/// The digit character of `d`.
pub open spec fn digit_char(d: nat) -> char {
    (d + 48) as char
}

/// The decimal digits of a number.
pub open spec fn decimal(n: nat) -> Seq<char>
    decreases n,
{
    if n < 10 {
        seq![digit_char(n)]
    } else {
        decimal(n / 10).push(digit_char(n % 10))
    }
}

fn digit(d: u64) -> (r: char)
    requires
        d < 10,
    ensures
        r == digit_char(d as nat),
{
    (d as u8 + 48) as char
}

/// The decimal digits of the number.
pub fn number_text(n: u64) -> (r: String)
    ensures
        r@ == decimal(n as nat),
    decreases n,
{
    if n < 10 {
        let mut out: String = String::new();
        out.push(digit(n));
        proof {
            assert(out@ =~= seq![digit_char(n as nat)]);
        }
        out
    } else {
        let mut out: String = number_text(n / 10);
        out.push(digit(n % 10));
        out
    }
}

/// Whether the character is a decimal digit.
pub open spec fn is_digit(c: char) -> bool {
    '0' <= c <= '9'
}

/// Whether the text is made of decimal digits only.
pub open spec fn all_digits(s: Seq<char>) -> bool {
    forall|i: int| 0 <= i < s.len() ==> is_digit(#[trigger] s[i])
}

/// The number that a text of decimal digits stands for.
pub open spec fn digits_value(s: Seq<char>) -> nat
    decreases s.len(),
{
    if s.len() == 0 {
        0
    } else {
        digits_value(s.drop_last()) * 10 + (s.last() as nat - 48) as nat
    }
}

/// The digits of a number text, without a leading plus sign.
pub open spec fn unsigned_digits(s: Seq<char>) -> Seq<char> {
    if s.len() > 0 && s[0] == '+' {
        s.skip(1)
    } else {
        s
    }
}

/// The value of a number text: an optional plus sign and at least one decimal
/// digit, within the range of `u32`.
pub open spec fn u32_value(s: Seq<char>) -> Option<u32> {
    let d = unsigned_digits(s);
    if d.len() > 0 && all_digits(d) && digits_value(d) <= u32::MAX {
        Some(digits_value(d) as u32)
    } else {
        None
    }
}

proof fn lemma_digits_value_grows(s: Seq<char>, k: int)
    requires
        0 <= k <= s.len(),
    ensures
        digits_value(s.take(k)) <= digits_value(s),
    decreases s.len() - k,
{
    if k < s.len() {
        lemma_digits_value_grows(s, k + 1);
        assert(s.take(k + 1).drop_last() == s.take(k));
        assert(digits_value(s.take(k + 1)) == digits_value(s.take(k)) * 10 + (s.take(
            k + 1,
        ).last() as nat - 48) as nat);
    } else {
        assert(s.take(k) == s);
    }
}

/// Reads a number text.
pub fn parse_u32(s: &str) -> (r: Option<u32>)
    ensures
        r == u32_value(s@),
{
    let v: Vec<char> = chars_of(s);
    let mut from: usize = 0;
    if v.len() > 0 && v[0] == '+' {
        from = 1;
    }
    let ghost d = unsigned_digits(s@);
    proof {
        assert(d == s@.skip(from as int));
    }
    if from >= v.len() {
        return None;
    }
    let mut value: u32 = 0;
    let mut i: usize = from;
    while i < v.len()
        invariant
            from <= i <= v@.len(),
            v@ == s@,
            d == s@.skip(from as int),
            all_digits(d.take(i - from)),
            value == digits_value(d.take(i - from)),
            d.len() > 0,
            d == unsigned_digits(s@),
        decreases v@.len() - i,
    {
        let c: char = v[i];
        proof {
            assert(d[i - from] == c);
        }
        if !('0' <= c && c <= '9') {
            proof {
                assert(!is_digit(d[i - from]));
            }
            return None;
        }
        let step: u32 = c as u32 - 48;
        proof {
            assert(d.take(i - from + 1).drop_last() == d.take(i - from));
            assert(d.take(i - from + 1).last() == c);
            lemma_digits_value_grows(d, i - from + 1);
        }
        if value > 429496729 || (value == 429496729 && step > 5) {
            proof {
                assert(digits_value(d.take(i - from + 1)) > u32::MAX);
            }
            return None;
        }
        value = value * 10 + step;
        i += 1;
    }
    proof {
        assert(d.take(i - from) == d);
    }
    Some(value)
}

// ---------------------------------------------------------------------------
// Columns
// ---------------------------------------------------------------------------

/// `n` spaces.
pub open spec fn spaces(n: int) -> Seq<char> {
    Seq::new(if n > 0 { n as nat } else { 0 }, |i: int| ' ')
}

/// The text, filled up with spaces on the right to `width` characters.
pub open spec fn padded_right(s: Seq<char>, width: int) -> Seq<char> {
    s + spaces(width - s.len())
}

/// The text, filled up with spaces on the left to `width` characters.
pub open spec fn padded_left(s: Seq<char>, width: int) -> Seq<char> {
    spaces(width - s.len()) + s
}

fn space_run(n: usize) -> (r: String)
    ensures
        r@ == spaces(n as int),
{
    let mut out: String = String::new();
    let mut i: usize = 0;
    while i < n
        invariant
            i <= n,
            out@ == spaces(i as int),
        decreases n - i,
    {
        out.push(' ');
        i += 1;
        proof {
            assert(spaces(i as int) =~= spaces(i - 1).push(' '));
        }
    }
    out
}

/// The text, filled up with spaces on the right to `width` characters.
pub fn pad_right(s: &str, width: usize) -> (r: String)
    ensures
        r@ == padded_right(s@, width as int),
{
    let n: usize = s.unicode_len();
    let fill: String = space_run(width.saturating_sub(n));
    proof {
        assert(spaces(width.saturating_sub(n) as int) =~= spaces(width - n));
    }
    concat2(s, fill.as_str())
}

/// The text, filled up with spaces on the left to `width` characters.
pub fn pad_left(s: &str, width: usize) -> (r: String)
    ensures
        r@ == padded_left(s@, width as int),
{
    let n: usize = s.unicode_len();
    let fill: String = space_run(width.saturating_sub(n));
    proof {
        assert(spaces(width.saturating_sub(n) as int) =~= spaces(width - n));
    }
    concat2(fill.as_str(), s)
}

/// A number comes back from its decimal digits.
pub proof fn decimal_comes_back(n: nat)
    ensures
        decimal(n).len() > 0,
        all_digits(decimal(n)),
        digits_value(decimal(n)) == n,
    decreases n,
{
    if n < 10 {
        assert(decimal(n).drop_last() =~= Seq::<char>::empty());
        assert(digits_value(decimal(n).drop_last()) == 0);
    } else {
        decimal_comes_back(n / 10);
        assert(decimal(n).drop_last() =~= decimal(n / 10));
    }
}

/// The first word of a text that begins with a number, and then white space if
/// anything, is the number.
pub proof fn first_word_of_number(n: nat, rest: Seq<char>)
    requires
        rest.len() > 0 ==> is_white(rest[0]),
    ensures
        words(decimal(n) + rest).len() > 0,
        words(decimal(n) + rest)[0] == decimal(n),
        n <= u32::MAX ==> u32_value(decimal(n)) == Some(n as u32),
{
    decimal_comes_back(n);
    let s = decimal(n) + rest;
    word_ends_with_the_digits(n, rest, 0);
    assert(is_digit(decimal(n)[0]));
    assert(s.subrange(0, decimal(n).len() as int) =~= decimal(n));
}

proof fn word_ends_with_the_digits(n: nat, rest: Seq<char>, from: int)
    requires
        rest.len() > 0 ==> is_white(rest[0]),
        0 <= from <= decimal(n).len(),
    ensures
        word_end(decimal(n) + rest, from) == decimal(n).len(),
    decreases decimal(n).len() - from,
{
    if from < decimal(n).len() {
        decimal_comes_back(n);
        assert(is_digit(decimal(n)[from]));
        word_ends_with_the_digits(n, rest, from + 1);
    }
}

} // verus!
