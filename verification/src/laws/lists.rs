//! What is picked from a list.
use vstd::prelude::*;

verus! {

/// What the items of a list hold of what is looked for, in their order.
pub open spec fn picked<T, U>(s: Seq<T>, pick: spec_fn(T) -> Option<U>) -> Seq<U>
    decreases s.len(),
{
    if s.len() == 0 {
        seq![]
    } else {
        match pick(s.last()) {
            Some(x) => picked(s.drop_last(), pick).push(x),
            None => picked(s.drop_last(), pick),
        }
    }
}

/// What is picked from two lists in a row.
pub proof fn picked_in_a_row<T, U>(s: Seq<T>, t: Seq<T>, pick: spec_fn(T) -> Option<U>)
    ensures
        picked(s + t, pick) == picked(s, pick) + picked(t, pick),
    decreases t.len(),
{
    if t.len() == 0 {
        assert(s + t =~= s);
        assert(picked(s, pick) + picked(t, pick) =~= picked(s, pick));
    } else {
        picked_in_a_row(s, t.drop_last(), pick);
        assert((s + t).drop_last() =~= s + t.drop_last());
        assert((s + t).last() == t.last());
        match pick(t.last()) {
            Some(x) => {
                assert((picked(s, pick) + picked(t.drop_last(), pick)).push(x) =~= picked(s, pick)
                    + picked(t.drop_last(), pick).push(x));
            },
            None => {},
        }
    }
}

/// What is picked from a list of one.
pub proof fn picked_from_one<T, U>(x: T, pick: spec_fn(T) -> Option<U>)
    ensures
        picked(seq![x], pick) == match pick(x) {
            Some(y) => seq![y],
            None => seq![],
        },
{
    assert(seq![x].drop_last() =~= Seq::<T>::empty());
    assert(picked(seq![x].drop_last(), pick) =~= Seq::<U>::empty());
    match pick(x) {
        Some(y) => {
            assert(Seq::<U>::empty().push(y) =~= seq![y]);
        },
        None => {},
    }
}

/// Nothing is picked where no item holds anything.
pub proof fn nothing_picked<T, U>(s: Seq<T>, pick: spec_fn(T) -> Option<U>)
    requires
        forall|i: int| 0 <= i < s.len() ==> pick(#[trigger] s[i]) is None,
    ensures
        picked(s, pick) == Seq::<U>::empty(),
    decreases s.len(),
{
    if s.len() > 0 {
        nothing_picked(s.drop_last(), pick);
        assert(pick(s[s.len() - 1]) is None);
    }
}

/// The same is picked from lists whose items hold the same.
pub proof fn picked_alike<S, T, U>(
    s: Seq<S>,
    f: spec_fn(S) -> Option<U>,
    t: Seq<T>,
    g: spec_fn(T) -> Option<U>,
)
    requires
        s.len() == t.len(),
        forall|i: int| 0 <= i < s.len() ==> f(#[trigger] s[i]) == g(t[i]),
    ensures
        picked(s, f) == picked(t, g),
    decreases s.len(),
{
    if s.len() > 0 {
        assert(f(s[s.len() - 1]) == g(t[t.len() - 1]));
        assert forall|i: int| 0 <= i < s.len() - 1 implies f(#[trigger] s.drop_last()[i]) == g(
            t.drop_last()[i],
        ) by {
            assert(f(s[i]) == g(t[i]));
        }
        picked_alike(s.drop_last(), f, t.drop_last(), g);
    }
}

} // verus!
