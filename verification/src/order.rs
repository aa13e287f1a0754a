//! The alphabetical order of texts, and stable sorting by it.
use vstd::prelude::*;
#[allow(unused_imports)]
use vstd::string::*;

use crate::text::{chars_of, views};

verus! {

/// Whether `a` comes strictly before `b`: the two are read character by
/// character, the smaller code point wins, and a proper prefix comes first.
pub open spec fn before(a: Seq<char>, b: Seq<char>) -> bool
    decreases a.len(),
{
    if b.len() == 0 {
        false
    } else if a.len() == 0 {
        true
    } else if a[0] == b[0] {
        before(a.skip(1), b.skip(1))
    } else {
        a[0] < b[0]
    }
}

/// No text comes before itself.
pub proof fn before_is_irreflexive(a: Seq<char>)
    ensures
        !before(a, a),
    decreases a.len(),
{
    if a.len() > 0 {
        before_is_irreflexive(a.skip(1));
    }
}

/// Of three texts in order, the first comes before the third.
pub proof fn before_is_transitive(a: Seq<char>, b: Seq<char>, c: Seq<char>)
    requires
        before(a, b),
        before(b, c),
    ensures
        before(a, c),
    decreases a.len(),
{
    if a.len() > 0 && a[0] == b[0] && b[0] == c[0] {
        before_is_transitive(a.skip(1), b.skip(1), c.skip(1));
    }
}

/// Of two different texts, one comes before the other.
pub proof fn before_is_total(a: Seq<char>, b: Seq<char>)
    ensures
        a == b || before(a, b) || before(b, a),
    decreases a.len(),
{
    if a.len() == 0 {
        if b.len() == 0 {
            assert(a =~= b);
        }
    } else if b.len() > 0 && a[0] == b[0] {
        before_is_total(a.skip(1), b.skip(1));
        if a.skip(1) == b.skip(1) {
            assert(a =~= seq![a[0]] + a.skip(1));
            assert(b =~= seq![b[0]] + b.skip(1));
        }
    }
}

/// Whether `a` comes strictly before `b`.
pub fn is_before(a: &str, b: &str) -> (r: bool)
    ensures
        r == before(a@, b@),
{
    let x: Vec<char> = chars_of(a);
    let y: Vec<char> = chars_of(b);
    let mut i: usize = 0;
    proof {
        assert(x@.skip(0) == x@);
        assert(y@.skip(0) == y@);
    }
    while i < x.len() && i < y.len() && x[i] == y[i]
        invariant
            i <= x@.len(),
            i <= y@.len(),
            x@ == a@,
            y@ == b@,
            before(x@.skip(i as int), y@.skip(i as int)) == before(a@, b@),
        decreases x@.len() - i,
    {
        proof {
            assert(x@.skip(i as int).skip(1) == x@.skip(i + 1));
            assert(y@.skip(i as int).skip(1) == y@.skip(i + 1));
        }
        i += 1;
    }
    if i >= y.len() {
        false
    } else if i >= x.len() {
        true
    } else {
        x[i] < y[i]
    }
}

/// Whether position `i` of `keys` goes before position `j` in the stable
/// alphabetical order.
pub open spec fn goes_before(keys: Seq<Seq<char>>, i: int, j: int) -> bool {
    before(keys[i], keys[j]) || (keys[i] == keys[j] && i < j)
}

/// Whether `order` lists every position of `keys` once, in the stable
/// alphabetical order of the keys.
pub open spec fn is_sort_order(keys: Seq<Seq<char>>, order: Seq<usize>) -> bool {
    &&& order.len() == keys.len()
    &&& forall|i: int| 0 <= i < order.len() ==> 0 <= (#[trigger] order[i]) < keys.len()
    &&& forall|i: int, j: int|
        0 <= i < j < order.len() ==> goes_before(
            keys,
            #[trigger] order[i] as int,
            #[trigger] order[j] as int,
        )
}

proof fn goes_before_is_transitive(keys: Seq<Seq<char>>, i: int, j: int, k: int)
    requires
        goes_before(keys, i, j),
        goes_before(keys, j, k),
    ensures
        goes_before(keys, i, k),
{
    if before(keys[i], keys[j]) && before(keys[j], keys[k]) {
        before_is_transitive(keys[i], keys[j], keys[k]);
    }
}

proof fn goes_before_is_irreflexive(keys: Seq<Seq<char>>, i: int)
    ensures
        !goes_before(keys, i, i),
{
    before_is_irreflexive(keys[i]);
}

/// There is one stable alphabetical order of a list of keys, and no other.
pub proof fn sort_order_is_unique(keys: Seq<Seq<char>>, a: Seq<usize>, b: Seq<usize>)
    requires
        is_sort_order(keys, a),
        is_sort_order(keys, b),
    ensures
        a == b,
{
    sort_order_is_complete(keys, a);
    sort_order_is_complete(keys, b);
    if exists|i: int| 0 <= i < a.len() && a[i] != b[i] {
        let i0 = choose|i: int| 0 <= i < a.len() && a[i] != b[i];
        let i = first_difference(a, b, i0);
        // `a[i]` stands in `b` after position `i`, and `b[i]` in `a` after it.
        let j = choose|j: int| 0 <= j < b.len() && b[j] == a[i];
        let k = choose|k: int| 0 <= k < a.len() && a[k] == b[i];
        assert(b.contains(a[i]));
        assert(a.contains(b[i]));
        if j < i {
            assert(a[j] == b[j]);
            goes_before_is_irreflexive(keys, a[i] as int);
            assert(goes_before(keys, a[j] as int, a[i] as int));
        }
        if k < i {
            assert(b[k] == a[k]);
            goes_before_is_irreflexive(keys, b[i] as int);
            assert(goes_before(keys, b[k] as int, b[i] as int));
        }
        assert(goes_before(keys, b[i] as int, b[j] as int));
        assert(goes_before(keys, a[i] as int, a[k] as int));
        goes_before_is_transitive(keys, a[i] as int, b[i] as int, a[i] as int);
        goes_before_is_irreflexive(keys, a[i] as int);
    }
    assert(a =~= b);
}

proof fn first_difference(a: Seq<usize>, b: Seq<usize>, i: int) -> (k: int)
    requires
        a.len() == b.len(),
        0 <= i < a.len(),
        a[i] != b[i],
    ensures
        0 <= k <= i,
        a[k] != b[k],
        forall|j: int| 0 <= j < k ==> a[j] == b[j],
    decreases i,
{
    if exists|j: int| 0 <= j < i && a[j] != b[j] {
        let j = choose|j: int| 0 <= j < i && a[j] != b[j];
        first_difference(a, b, j)
    } else {
        i
    }
}

/// A sort order leaves no position out.
pub proof fn sort_order_is_complete(keys: Seq<Seq<char>>, order: Seq<usize>)
    requires
        is_sort_order(keys, order),
    ensures
        forall|p: usize| p < keys.len() ==> #[trigger] order.contains(p),
        order.no_duplicates(),
{
    assert forall|i: int, j: int| 0 <= i < j < order.len() implies order[i] != order[j] by {
        if order[i] == order[j] {
            goes_before_is_irreflexive(keys, order[i] as int);
        }
    }
    assert(order.no_duplicates());
    let n = keys.len();
    let ints = order.map_values(|x: usize| x as int);
    let found = ints.to_set();
    let all = vstd::set_lib::set_int_range(0, n as int);
    ints.unique_seq_to_set();
    vstd::set_lib::lemma_int_range(0, n as int);
    assert(found.subset_of(all)) by {
        assert forall|x: int| found.contains(x) implies all.contains(x) by {
            let i = choose|i: int| 0 <= i < ints.len() && ints[i] == x;
            assert(order[i] as int == x);
        }
    }
    vstd::set_lib::lemma_subset_equality(found, all);
    assert forall|p: usize| p < keys.len() implies #[trigger] order.contains(p) by {
        assert(all.contains(p as int));
        assert(found.contains(p as int));
        let i = choose|i: int| 0 <= i < ints.len() && ints[i] == p as int;
        assert(order[i] == p);
    }
}

/// The positions of the keys in the stable alphabetical order.
pub open spec fn sorted_positions(keys: Seq<Seq<char>>) -> Seq<usize> {
    choose|order: Seq<usize>| is_sort_order(keys, order)
}

/// The items in the stable alphabetical order of their keys.
pub open spec fn sorted_by<T>(items: Seq<T>, keys: Seq<Seq<char>>) -> Seq<T> {
    sorted_positions(keys).map_values(|i: usize| items[i as int])
}

/// The stable alphabetical order of the keys.
pub fn sort_order(keys: &Vec<String>) -> (r: Vec<usize>)
    ensures
        is_sort_order(views(keys@), r@),
        r@ == sorted_positions(views(keys@)),
{
    let mut order: Vec<usize> = Vec::new();
    let mut n: usize = 0;
    let ghost ks = views(keys@);
    while n < keys.len()
        invariant
            n <= keys@.len(),
            ks == views(keys@),
            order@.len() == n,
            forall|i: int| 0 <= i < order@.len() ==> 0 <= (#[trigger] order@[i]) < n,
            forall|i: int, j: int|
                0 <= i < j < order@.len() ==> goes_before(
                    ks,
                    #[trigger] order@[i] as int,
                    #[trigger] order@[j] as int,
                ),
        decreases keys@.len() - n,
    {
        let mut p: usize = 0;
        while p < order.len() && !is_before(keys[n].as_str(), keys[order[p]].as_str())
            invariant
                p <= order@.len(),
                n < keys@.len(),
                ks == views(keys@),
                order@.len() == n,
                forall|i: int| 0 <= i < order@.len() ==> 0 <= (#[trigger] order@[i]) < n,
                forall|i: int|
                    0 <= i < p ==> goes_before(ks, #[trigger] order@[i] as int, n as int),
            decreases order@.len() - p,
        {
            proof {
                before_is_total(ks[n as int], ks[order@[p as int] as int]);
            }
            p += 1;
        }
        let ghost o = order@;
        order.insert(p, n);
        proof {
            assert(order@ == o.insert(p as int, n));
            assert forall|i: int, j: int| 0 <= i < j < order@.len() implies goes_before(
                ks,
                #[trigger] order@[i] as int,
                #[trigger] order@[j] as int,
            ) by {
                if i == p {
                    let q = order@[j] as int;
                    assert(q == o[j - 1]);
                    if j - 1 > p {
                        assert(goes_before(ks, o[p as int] as int, o[j - 1] as int));
                        assert(goes_before(ks, n as int, o[p as int] as int));
                        goes_before_is_transitive(ks, n as int, o[p as int] as int, q);
                    }
                } else if j == p {
                    assert(order@[i] == o[i]);
                } else {
                    let a = if i < p { i } else { i - 1 };
                    let b = if j < p { j } else { j - 1 };
                    assert(order@[i] == o[a] && order@[j] == o[b]);
                }
            }
        }
        n += 1;
    }
    proof {
        assert(is_sort_order(ks, order@));
        sort_order_is_unique(ks, order@, sorted_positions(ks));
    }
    order
}

// ---------------------------------------------------------------------------
// Sorting with each text once
// ---------------------------------------------------------------------------

/// Whether a list is in strict alphabetical order.
pub open spec fn strictly_sorted(s: Seq<Seq<char>>) -> bool {
    forall|i: int, j: int| 0 <= i < j < s.len() ==> before(#[trigger] s[i], #[trigger] s[j])
}

/// Whether `r` holds each text of `s` once, in alphabetical order.
pub open spec fn is_sorted_set(s: Seq<Seq<char>>, r: Seq<Seq<char>>) -> bool {
    &&& strictly_sorted(r)
    &&& forall|x: Seq<char>| #[trigger] r.contains(x) <==> s.contains(x)
}

proof fn lemma_contains_push(s: Seq<Seq<char>>, a: Seq<char>, x: Seq<char>)
    ensures
        s.push(a).contains(x) <==> s.contains(x) || x == a,
{
    if s.contains(x) {
        let i = choose|i: int| 0 <= i < s.len() && s[i] == x;
        assert(s.push(a)[i] == x);
    }
    assert(s.push(a)[s.len() as int] == a);
    if s.push(a).contains(x) && x != a {
        let i = choose|i: int| 0 <= i < s.push(a).len() && s.push(a)[i] == x;
        assert(s[i] == x);
    }
}

proof fn lemma_contains_insert(s: Seq<Seq<char>>, p: int, a: Seq<char>, x: Seq<char>)
    requires
        0 <= p <= s.len(),
    ensures
        s.insert(p, a).contains(x) <==> s.contains(x) || x == a,
{
    let t = s.insert(p, a);
    if s.contains(x) {
        let i = choose|i: int| 0 <= i < s.len() && s[i] == x;
        assert(t[if i < p { i } else { i + 1 }] == x);
    }
    assert(t[p] == a);
    if t.contains(x) && x != a {
        let i = choose|i: int| 0 <= i < t.len() && t[i] == x;
        assert(s[if i < p { i } else { i - 1 }] == x);
    }
}

proof fn lemma_sorted_insert(s: Seq<Seq<char>>, p: int, a: Seq<char>)
    requires
        0 <= p <= s.len(),
        strictly_sorted(s),
        forall|i: int| 0 <= i < p ==> before(#[trigger] s[i], a),
        p < s.len() ==> !before(s[p], a) && s[p] != a,
    ensures
        strictly_sorted(s.insert(p, a)),
{
    let t = s.insert(p, a);
    if p < s.len() {
        before_is_total(s[p], a);
    }
    assert forall|i: int, j: int| 0 <= i < j < t.len() implies before(
        #[trigger] t[i],
        #[trigger] t[j],
    ) by {
        if j < p {
            assert(t[i] == s[i] && t[j] == s[j]);
        } else if j == p {
            assert(t[i] == s[i]);
        } else if i > p {
            assert(t[i] == s[i - 1] && t[j] == s[j - 1]);
        } else if i == p {
            assert(t[j] == s[j - 1]);
            if j - 1 > p {
                before_is_transitive(a, s[p], s[j - 1]);
            }
        } else {
            assert(t[i] == s[i] && t[j] == s[j - 1]);
        }
    }
}

/// There is one list that holds each text of `s` once in alphabetical order,
/// and no other.
pub proof fn sorted_set_is_unique(s: Seq<Seq<char>>, a: Seq<Seq<char>>, b: Seq<Seq<char>>)
    requires
        is_sorted_set(s, a),
        is_sorted_set(s, b),
    ensures
        a == b,
    decreases a.len(),
{
    if a.len() == 0 {
        if b.len() > 0 {
            assert(b.contains(b[0]));
            assert(a.contains(b[0]));
        }
        assert(a =~= b);
    } else {
        assert(a.contains(a[0]));
        assert(b.contains(a[0]));
        let j = choose|j: int| 0 <= j < b.len() && b[j] == a[0];
        assert(b.contains(b[0]));
        assert(a.contains(b[0]));
        let k = choose|k: int| 0 <= k < a.len() && a[k] == b[0];
        if j > 0 && k > 0 {
            assert(before(b[0], b[j]));
            assert(before(a[0], a[k]));
            before_is_transitive(a[0], b[0], a[0]);
            before_is_irreflexive(a[0]);
        }
        assert(a[0] == b[0]);
        let ra = a.skip(1);
        let rb = b.skip(1);
        lemma_tail_set(a);
        lemma_tail_set(b);
        assert forall|x: Seq<char>| #[trigger] rb.contains(x) <==> ra.contains(x) by {
            assert(ra.contains(x) <==> a.contains(x) && x != a[0]);
            assert(rb.contains(x) <==> b.contains(x) && x != b[0]);
        }
        assert(is_sorted_set(ra, ra));
        assert(is_sorted_set(ra, rb));
        sorted_set_is_unique(ra, ra, rb);
        assert(a =~= seq![a[0]] + ra);
        assert(b =~= seq![b[0]] + rb);
    }
}

proof fn lemma_tail_set(a: Seq<Seq<char>>)
    requires
        strictly_sorted(a),
        a.len() > 0,
    ensures
        strictly_sorted(a.skip(1)),
        forall|x: Seq<char>| #[trigger] a.skip(1).contains(x) <==> a.contains(x) && x != a[0],
{
    let t = a.skip(1);
    assert forall|i: int, j: int| 0 <= i < j < t.len() implies before(
        #[trigger] t[i],
        #[trigger] t[j],
    ) by {
        assert(t[i] == a[i + 1] && t[j] == a[j + 1]);
    }
    assert forall|x: Seq<char>| #[trigger] t.contains(x) <==> a.contains(x) && x != a[0] by {
        if t.contains(x) {
            let i = choose|i: int| 0 <= i < t.len() && t[i] == x;
            assert(a[i + 1] == x);
            assert(before(a[0], a[i + 1]));
            before_is_irreflexive(x);
        }
        if a.contains(x) && x != a[0] {
            let i = choose|i: int| 0 <= i < a.len() && a[i] == x;
            assert(t[i - 1] == x);
        }
    }
}

/// The texts of `items`, each once, in alphabetical order.
pub fn sorted_unique(items: &Vec<String>) -> (r: Vec<String>)
    ensures
        is_sorted_set(views(items@), views(r@)),
{
    let mut out: Vec<String> = Vec::new();
    let mut n: usize = 0;
    let ghost all = views(items@);
    proof {
        assert(all.take(0) =~= seq![]);
        assert(views(out@) =~= seq![]);
    }
    while n < items.len()
        invariant
            n <= items@.len(),
            all == views(items@),
            is_sorted_set(all.take(n as int), views(out@)),
        decreases items@.len() - n,
    {
        let item: &str = items[n].as_str();
        let ghost key = item@;
        let mut p: usize = 0;
        while p < out.len() && is_before(out[p].as_str(), item)
            invariant
                p <= out@.len(),
                key == item@,
                forall|i: int| 0 <= i < p ==> before(#[trigger] views(out@)[i], key),
            decreases out@.len() - p,
        {
            p += 1;
            proof {
                assert(views(out@)[p - 1] == out@[p - 1]@);
            }
        }
        let ghost old_texts = views(out@);
        let present: bool = p < out.len() && crate::text::same_text(out[p].as_str(), item);
        proof {
            assert(all[n as int] == key);
            assert(all.take(n + 1) =~= all.take(n as int).push(key));
            if p < out@.len() {
                assert(old_texts[p as int] == out@[p as int]@);
            }
        }
        if present {
            proof {
                assert(old_texts.contains(key));
                assert forall|x: Seq<char>| #[trigger]
                    views(out@).contains(x) <==> all.take(n + 1).contains(x) by {
                    lemma_contains_push(all.take(n as int), key, x);
                }
            }
        } else {
            out.insert(p, items[n].clone());
            proof {
                assert(views(out@) =~= old_texts.insert(p as int, key));
                lemma_sorted_insert(old_texts, p as int, key);
                assert forall|x: Seq<char>| #[trigger]
                    views(out@).contains(x) <==> all.take(n + 1).contains(x) by {
                    lemma_contains_push(all.take(n as int), key, x);
                    lemma_contains_insert(old_texts, p as int, key, x);
                }
            }
        }
        n += 1;
    }
    proof {
        assert(all.take(n as int) == all);
    }
    out
}

} // verus!
