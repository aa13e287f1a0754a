//! The models of a local Ollama instance.
use vstd::prelude::*;
#[allow(unused_imports)]
use vstd::string::*;

use crate::json::{text_document, JsonModel};
use crate::ollama_probe::{
    body_found, header_end, is_header_end, known_window, listed_names, member, model_names, picks,
    planned, probed, string_member, switches_off, ModelSpec, OllamaPickerModels, ProbePlan,
};
use crate::order::before;
use crate::text::{ascii_lowered, next_char};

verus! {

/// The blank line between the headers of a response and its body.
pub open spec fn blank_line() -> Seq<u8> {
    seq![13u8, 10u8, 13u8, 10u8]
}

/// Whether `s` holds `part` at position `i`.
pub open spec fn holds_at(s: Seq<u8>, part: Seq<u8>, i: int) -> bool {
    0 <= i && i + part.len() <= s.len() && s.subrange(i, i + part.len()) == part
}

proof fn blank_lines_agree(raw: Seq<u8>, i: int)
    ensures
        holds_at(raw, blank_line(), i) == header_end(raw, i),
{
    if 0 <= i && i + 4 <= raw.len() {
        let part = raw.subrange(i, i + 4);
        assert(part[0] == raw[i] && part[1] == raw[i + 1] && part[2] == raw[i + 2] && part[3]
            == raw[i + 3]);
        if header_end(raw, i) {
            assert(part =~= blank_line());
        }
    }
}

/// The body of a response is all that stands behind its first blank line, and a
/// response without one has no body.
pub proof fn body_stands_behind_the_blank_line(
    head: Seq<u8>,
    body: Seq<u8>,
    r: Option<Seq<u8>>,
    raw: Seq<u8>,
    s: Option<Seq<u8>>,
)
    requires
        forall|i: int|
            0 <= i < head.len() ==> !#[trigger] holds_at(
                head + blank_line() + body,
                blank_line(),
                i,
            ),
        body_found(head + blank_line() + body, r),
        forall|i: int| !#[trigger] holds_at(raw, blank_line(), i),
        body_found(raw, s),
    ensures
        r == Some(body),
        s is None,
{
    let all = head + blank_line() + body;
    let n = head.len() as int;
    assert(all.subrange(n, n + 4) =~= blank_line());
    blank_lines_agree(all, n);
    assert(header_end(all, n));
    let i = choose|i: int| is_header_end(all, i) && r->0 == all.skip(i + 4);
    if i < n {
        blank_lines_agree(all, i);
        assert(holds_at(all, blank_line(), i));
    }
    assert(i == n);
    assert(all.skip(n + 4) =~= body);
    if s is Some {
        let k = choose|k: int| header_end(raw, k);
        blank_lines_agree(raw, k);
        assert(holds_at(raw, blank_line(), k));
    }
}

proof fn lowered_letters(v: Seq<char>)
    ensures
        ascii_lowered(v).len() == v.len(),
        forall|i: int|
            0 <= i < v.len() ==> #[trigger] ascii_lowered(v)[i] == crate::text::ascii_lower(v[i]),
{
}

proof fn lowered_letter(c: char, d: char)
    requires
        d == 'o' || d == 'f' || d == 'a' || d == 'l' || d == 's' || d == 'e',
    ensures
        crate::text::ascii_lower(c) == d <==> c == d || d == 'o' && c == 'O' || d == 'f' && c == 'F'
            || d == 'a' && c == 'A' || d == 'l' && c == 'L' || d == 's' && c == 'S' || d == 'e'
            && c == 'E',
{
}

/// Probing is switched off by `off`, `0` and `false`, in whatever letter case, and by
/// nothing else.
pub proof fn probing_is_switched_off(v: Seq<char>)
    ensures
        !switches_off(None),
        switches_off(Some(v)) <==> v == seq!['0'] || v.len() == 3 && (v[0] == 'o' || v[0] == 'O')
            && (v[1] == 'f' || v[1] == 'F') && (v[2] == 'f' || v[2] == 'F') || v.len() == 5 && (v[0]
            == 'f' || v[0] == 'F') && (v[1] == 'a' || v[1] == 'A') && (v[2] == 'l' || v[2] == 'L')
            && (v[3] == 's' || v[3] == 'S') && (v[4] == 'e' || v[4] == 'E'),
{
    reveal_strlit("off");
    reveal_strlit("0");
    reveal_strlit("false");
    let low = ascii_lowered(v);
    lowered_letters(v);
    let off = ascii_lowered("off"@);
    let zero = ascii_lowered("0"@);
    let no = ascii_lowered("false"@);
    assert(off =~= seq!['o', 'f', 'f']);
    assert(zero =~= seq!['0']);
    assert(no =~= seq!['f', 'a', 'l', 's', 'e']);
    if v.len() == 3 {
        lowered_letter(v[0], 'o');
        lowered_letter(v[1], 'f');
        lowered_letter(v[2], 'f');
        assert(low == off <==> low[0] == 'o' && low[1] == 'f' && low[2] == 'f') by {
            if low[0] == 'o' && low[1] == 'f' && low[2] == 'f' {
                assert(low =~= off);
            }
        }
    }
    if v.len() == 5 {
        lowered_letter(v[0], 'f');
        lowered_letter(v[1], 'a');
        lowered_letter(v[2], 'l');
        lowered_letter(v[3], 's');
        lowered_letter(v[4], 'e');
        assert(low == no <==> low[0] == 'f' && low[1] == 'a' && low[2] == 'l' && low[3] == 's'
            && low[4] == 'e') by {
            if low[0] == 'f' && low[1] == 'a' && low[2] == 'l' && low[3] == 's' && low[4] == 'e' {
                assert(low =~= no);
            }
        }
    }
    if v.len() == 1 {
        assert(low == zero <==> v == seq!['0']) by {
            assert(low[0] == crate::text::ascii_lower(v[0]));
            if v[0] == '0' {
                assert(v =~= seq!['0']);
                assert(low =~= zero);
            }
            if low == zero {
                assert(low[0] == '0');
                assert(v[0] == '0');
                assert(v =~= seq!['0']);
            }
        }
    }
}

/// The instance is asked unless probing is off or the latest answer is less than
/// thirty seconds old, which then is shown again.
pub proof fn instance_is_asked(disabled: bool, age: Option<u64>)
    ensures
        planned(disabled, age) == ProbePlan::Bundled <==> disabled,
        planned(disabled, age) == ProbePlan::Cached <==> !disabled && age is Some && age->0
            < 30_000_000_000,
        planned(disabled, age) == ProbePlan::Probe <==> !disabled && (age is None || age->0
            >= 30_000_000_000),
{
}

/// Only an instance that gave an answer with a body counts as reached.
pub proof fn silent_instance_is_unreachable(
    raw: Option<Seq<u8>>,
    bundled: Seq<ModelSpec>,
    r: OllamaPickerModels,
)
    requires
        probed(raw, bundled, r),
    ensures
        raw is None ==> r is Unreachable,
        raw is Some && (exists|i: int| #[trigger] holds_at(raw->0, blank_line(), i)) ==> r is Local,
        raw is Some && (forall|i: int| !#[trigger] holds_at(raw->0, blank_line(), i)) ==> r
            is Unreachable,
{
    if raw is Some {
        let bytes = raw->0;
        if exists|i: int| holds_at(bytes, blank_line(), i) {
            let i = choose|i: int| holds_at(bytes, blank_line(), i);
            blank_lines_agree(bytes, i);
            assert(header_end(bytes, i));
        }
        if exists|i: int| header_end(bytes, i) {
            let i = choose|i: int| header_end(bytes, i);
            blank_lines_agree(bytes, i);
            assert(holds_at(bytes, blank_line(), i));
        }
    }
}

/// Each model that the instance lists is offered, once, and no other; the models are
/// in alphabetical order, and none has a price.
pub proof fn listed_models_are_offered(
    names: Seq<Seq<char>>,
    bundled: Seq<ModelSpec>,
    r: Seq<ModelSpec>,
    name: Seq<char>,
)
    requires
        picks(names, bundled, r),
    ensures
        names.contains(name) <==> exists|i: int| 0 <= i < r.len() && (#[trigger] r[i]).name@ == name,
        forall|i: int, j: int|
            0 <= i < j < r.len() ==> before((#[trigger] r[i]).name@, (#[trigger] r[j]).name@),
        forall|i: int| 0 <= i < r.len() ==> (#[trigger] r[i]).pricing is None,
{
    let all = model_names(r);
    assert(all.contains(name) <==> names.contains(name));
    if all.contains(name) {
        let i = choose|i: int| 0 <= i < all.len() && all[i] == name;
        assert(r[i].name@ == name);
    }
    if exists|i: int| 0 <= i < r.len() && (#[trigger] r[i]).name@ == name {
        let i = choose|i: int| 0 <= i < r.len() && (#[trigger] r[i]).name@ == name;
        assert(all[i] == name);
    }
    assert forall|i: int, j: int| 0 <= i < j < r.len() implies before(
        (#[trigger] r[i]).name@,
        (#[trigger] r[j]).name@,
    ) by {
        assert(all[i] == r[i].name@ && all[j] == r[j].name@);
    }
}

proof fn tag_is_found(base: Seq<char>, tag: Seq<char>, i: int)
    requires
        0 <= i <= base.len(),
        !base.contains(':'),
    ensures
        next_char(base + seq![':'] + tag, ':', i) == base.len(),
        next_char(base, ':', i) == base.len(),
    decreases base.len() - i,
{
    if i < base.len() {
        assert((base + seq![':'] + tag)[i] == base[i]);
        assert(base.contains(base[i]));
        tag_is_found(base, tag, i + 1);
    } else {
        assert((base + seq![':'] + tag)[i] == ':');
    }
}

/// A model has the context window of the bundled model that it is a tag of, and
/// without one the usual window: the tag makes no difference.
pub proof fn tag_does_not_matter(
    bundled: Seq<ModelSpec>,
    base: Seq<char>,
    tag: Seq<char>,
    k: int,
)
    requires
        !base.contains(':'),
        0 <= k <= bundled.len(),
        forall|i: int| 0 <= i < k ==> (#[trigger] bundled[i]).name@ != base,
        k < bundled.len() ==> bundled[k].name@ == base,
    ensures
        known_window(bundled, base + seq![':'] + tag) == known_window(bundled, base),
        k < bundled.len() ==> known_window(bundled, base) == bundled[k].context_window,
        k == bundled.len() ==> known_window(bundled, base) == 32768,
    decreases k,
{
    let name = base + seq![':'] + tag;
    tag_is_found(base, tag, 0);
    assert(name.take(base.len() as int) =~= base);
    assert(base.take(base.len() as int) =~= base);
    if k > 0 {
        let rest = bundled.skip(1);
        assert forall|i: int| 0 <= i < k - 1 implies (#[trigger] rest[i]).name@ != base by {
            assert(rest[i] == bundled[i + 1]);
        }
        assert(bundled[0].name@ != base);
        tag_does_not_matter(rest, base, tag, k - 1);
    }
}

/// A member is found by its key: the first one that goes by it, and none where none
/// does.
pub proof fn first_member_is_found(
    members: Seq<(Seq<char>, Seq<char>)>,
    key: Seq<char>,
    k: int,
)
    requires
        0 <= k <= members.len(),
        forall|i: int| 0 <= i < k ==> (#[trigger] members[i]).0 != key,
        k < members.len() ==> members[k].0 == key,
    ensures
        k < members.len() ==> member(members, key) == Some(members[k].1),
        k == members.len() ==> member(members, key) is None,
    decreases k,
{
    if k > 0 {
        let rest = members.skip(1);
        assert forall|i: int| 0 <= i < k - 1 implies (#[trigger] rest[i]).0 != key by {
            assert(rest[i] == members[i + 1]);
        }
        assert(members[0].0 != key);
        first_member_is_found(rest, key, k - 1);
    }
}

/// The name of a listed model: the text in its `name`, and without one the text in
/// its `model`; none where neither is there or it is empty.
pub open spec fn name_in(item: Seq<char>) -> Option<Seq<char>> {
    let d = text_document(item);
    let found = if string_member(d, "name"@) is Some {
        string_member(d, "name"@)
    } else {
        string_member(d, "model"@)
    };
    if found is Some && found->0.len() > 0 {
        found
    } else {
        None
    }
}

/// The names of the listed models are those that their items hold, in the order of
/// the items, and the items without one are passed over.
pub proof fn names_are_listed(items: Seq<Seq<char>>)
    ensures
        listed_names(items) == crate::laws::lists::picked(items, |item: Seq<char>| name_in(item)),
    decreases items.len(),
{
    if items.len() > 0 {
        names_are_listed(items.drop_last());
    } else {
        assert(listed_names(items) =~= crate::laws::lists::picked(
            items,
            |item: Seq<char>| name_in(item),
        ));
    }
}

/// A member holds a text only where its JSON is a string.
pub proof fn only_strings_are_texts(
    members: Seq<(Seq<char>, Seq<char>)>,
    key: Seq<char>,
    k: int,
)
    requires
        0 <= k < members.len(),
        forall|i: int| 0 <= i < k ==> (#[trigger] members[i]).0 != key,
        members[k].0 == key,
    ensures
        string_member(Some(JsonModel::Object(members)), key) == match text_document(members[k].1) {
            Some(JsonModel::Text(s)) => Some(s),
            _ => None,
        },
{
    first_member_is_found(members, key, k);
}

} // verus!
