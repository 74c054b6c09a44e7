//! Facts about filtered and mapped sequences that the laws of the store rest
//! on.

use vstd::prelude::*;

verus! {

/// No two elements of `s` have the same key.
pub open spec fn distinct_keys<A, K>(s: Seq<A>, key: spec_fn(A) -> K) -> bool {
    forall|i: int, j: int| 0 <= i < j < s.len() ==> key(s[i]) != key(s[j])
}

/// A sequence is its front with its last element pushed back on.
pub proof fn lemma_front_and_last<A>(s: Seq<A>)
    requires
        s.len() > 0,
    ensures
        s == s.drop_last().push(s.last()),
{
    assert(s =~= s.drop_last().push(s.last()));
}

/// Filtering an empty sequence leaves it empty.
pub proof fn lemma_filter_empty<A>(s: Seq<A>, p: spec_fn(A) -> bool)
    requires
        s.len() == 0,
    ensures
        s.filter(p) == Seq::<A>::empty(),
{
    s.lemma_filter_len(p);
    assert(s.filter(p) =~= Seq::<A>::empty());
}

/// A filter that every element passes changes nothing.
pub proof fn lemma_filter_all<A>(s: Seq<A>, p: spec_fn(A) -> bool)
    requires
        forall|i: int| 0 <= i < s.len() ==> p(#[trigger] s[i]),
    ensures
        s.filter(p) == s,
    decreases s.len(),
{
    if s.len() == 0 {
        lemma_filter_empty(s, p);
        assert(s =~= Seq::<A>::empty());
    } else {
        let front = s.drop_last();
        lemma_front_and_last(s);
        assert forall|i: int| 0 <= i < front.len() implies p(#[trigger] front[i]) by {
            assert(front[i] == s[i]);
        }
        lemma_filter_all(front, p);
        front.lemma_filter_push(s.last(), p);
    }
}

/// A filter that no element passes leaves nothing.
pub proof fn lemma_filter_none<A>(s: Seq<A>, p: spec_fn(A) -> bool)
    requires
        forall|i: int| 0 <= i < s.len() ==> !p(#[trigger] s[i]),
    ensures
        s.filter(p) == Seq::<A>::empty(),
    decreases s.len(),
{
    if s.len() == 0 {
        lemma_filter_empty(s, p);
    } else {
        let front = s.drop_last();
        lemma_front_and_last(s);
        assert forall|i: int| 0 <= i < front.len() implies !p(#[trigger] front[i]) by {
            assert(front[i] == s[i]);
        }
        lemma_filter_none(front, p);
        front.lemma_filter_push(s.last(), p);
    }
}

/// Every element that a filter lets through passes it and stood in the
/// sequence, and every element of the sequence that passes is let through.
pub proof fn lemma_filter_members<A>(s: Seq<A>, p: spec_fn(A) -> bool)
    ensures
        forall|k: int|
            0 <= k < s.filter(p).len() ==> p(#[trigger] s.filter(p)[k]) && s.contains(
                s.filter(p)[k],
            ),
        forall|i: int| 0 <= i < s.len() && p(s[i]) ==> s.filter(p).contains(#[trigger] s[i]),
    decreases s.len(),
{
    if s.len() == 0 {
        lemma_filter_empty(s, p);
    } else {
        let front = s.drop_last();
        let last = s.last();
        lemma_front_and_last(s);
        lemma_filter_members(front, p);
        front.lemma_filter_push(last, p);
        let kept = s.filter(p);
        let kept_front = front.filter(p);
        assert forall|k: int| 0 <= k < kept.len() implies p(#[trigger] kept[k]) && s.contains(
            kept[k],
        ) by {
            if k < kept_front.len() {
                assert(kept[k] == kept_front[k]);
                let i = choose|i: int| 0 <= i < front.len() && front[i] == kept_front[k];
                assert(s[i] == kept[k]);
            } else {
                assert(kept[k] == last);
                assert(s[s.len() - 1] == last);
            }
        }
        assert forall|i: int| 0 <= i < s.len() && p(s[i]) implies kept.contains(
            #[trigger] s[i],
        ) by {
            if i < front.len() {
                assert(front[i] == s[i]);
                let k = choose|k: int| 0 <= k < kept_front.len() && kept_front[k] == front[i];
                assert(kept[k] == s[i]);
            } else {
                assert(kept[kept.len() - 1] == s[i]);
            }
        }
    }
}

/// Two filters can be applied in either order.
pub proof fn lemma_filter_commute<A>(s: Seq<A>, p: spec_fn(A) -> bool, q: spec_fn(A) -> bool)
    ensures
        s.filter(p).filter(q) == s.filter(q).filter(p),
    decreases s.len(),
{
    if s.len() == 0 {
        lemma_filter_empty(s, p);
        lemma_filter_empty(s, q);
        lemma_filter_empty(s.filter(p), q);
        lemma_filter_empty(s.filter(q), p);
    } else {
        let front = s.drop_last();
        let last = s.last();
        lemma_front_and_last(s);
        lemma_filter_commute(front, p, q);
        front.lemma_filter_push(last, p);
        front.lemma_filter_push(last, q);
        front.filter(p).lemma_filter_push(last, q);
        front.filter(q).lemma_filter_push(last, p);
    }
}

/// A filter that exactly one element fails removes that element.
pub proof fn lemma_filter_drops_one<A>(s: Seq<A>, p: spec_fn(A) -> bool, i: int)
    requires
        0 <= i < s.len(),
        !p(s[i]),
        forall|j: int| 0 <= j < s.len() && j != i ==> p(#[trigger] s[j]),
    ensures
        s.filter(p) == s.remove(i),
    decreases s.len(),
{
    let front = s.drop_last();
    let last = s.last();
    lemma_front_and_last(s);
    front.lemma_filter_push(last, p);
    if i == s.len() - 1 {
        assert forall|j: int| 0 <= j < front.len() implies p(#[trigger] front[j]) by {
            assert(front[j] == s[j]);
        }
        lemma_filter_all(front, p);
        assert(s.remove(i) =~= front);
    } else {
        assert(front[i] == s[i]);
        assert forall|j: int| 0 <= j < front.len() && j != i implies p(#[trigger] front[j]) by {
            assert(front[j] == s[j]);
        }
        lemma_filter_drops_one(front, p, i);
        assert(s.remove(i) =~= front.remove(i).push(last));
    }
}

/// A filter commutes with a map that does not change what the filter looks
/// at.
pub proof fn lemma_filter_map<A>(s: Seq<A>, f: spec_fn(A) -> A, p: spec_fn(A) -> bool)
    requires
        forall|x: A| p(#[trigger] f(x)) == p(x),
    ensures
        s.map_values(f).filter(p) == s.filter(p).map_values(f),
    decreases s.len(),
{
    if s.len() == 0 {
        lemma_filter_empty(s, p);
        lemma_filter_empty(s.map_values(f), p);
        assert(s.filter(p).map_values(f) =~= Seq::<A>::empty());
    } else {
        let front = s.drop_last();
        let last = s.last();
        lemma_front_and_last(s);
        lemma_filter_map(front, f, p);
        assert(s.map_values(f) =~= front.map_values(f).push(f(last)));
        front.map_values(f).lemma_filter_push(f(last), p);
        front.lemma_filter_push(last, p);
        if p(last) {
            assert(front.filter(p).push(last).map_values(f) =~= front.filter(p).map_values(
                f,
            ).push(f(last)));
        }
    }
}

/// A map that changes one element only is an update of that element.
pub proof fn lemma_map_one<A>(s: Seq<A>, f: spec_fn(A) -> A, i: int)
    requires
        0 <= i < s.len(),
        forall|j: int| 0 <= j < s.len() && j != i ==> f(#[trigger] s[j]) == s[j],
    ensures
        s.map_values(f) == s.update(i, f(s[i])),
{
    assert(s.map_values(f) =~= s.update(i, f(s[i])));
}

/// A map that changes no element changes nothing.
pub proof fn lemma_map_none<A>(s: Seq<A>, f: spec_fn(A) -> A)
    requires
        forall|j: int| 0 <= j < s.len() ==> f(#[trigger] s[j]) == s[j],
    ensures
        s.map_values(f) == s,
{
    assert(s.map_values(f) =~= s);
}

/// What a filter lets through of a sequence with distinct keys has distinct
/// keys.
pub proof fn lemma_filter_distinct<A, K>(s: Seq<A>, p: spec_fn(A) -> bool, key: spec_fn(A) -> K)
    requires
        distinct_keys(s, key),
    ensures
        distinct_keys(s.filter(p), key),
    decreases s.len(),
{
    if s.len() == 0 {
        lemma_filter_empty(s, p);
    } else {
        let front = s.drop_last();
        let last = s.last();
        lemma_front_and_last(s);
        assert(distinct_keys(front, key)) by {
            assert forall|i: int, j: int| 0 <= i < j < front.len() implies key(front[i]) != key(
                front[j],
            ) by {
                assert(front[i] == s[i] && front[j] == s[j]);
            }
        }
        lemma_filter_distinct(front, p, key);
        lemma_filter_members(front, p);
        front.lemma_filter_push(last, p);
        let kept = s.filter(p);
        let kept_front = front.filter(p);
        assert forall|a: int, b: int| 0 <= a < b < kept.len() implies key(kept[a]) != key(
            kept[b],
        ) by {
            if b < kept_front.len() {
                assert(kept[a] == kept_front[a] && kept[b] == kept_front[b]);
            } else {
                assert(kept[b] == last);
                assert(kept[a] == kept_front[a]);
                let i = choose|i: int| 0 <= i < front.len() && front[i] == kept_front[a];
                assert(s[i] == kept[a]);
                assert(s[s.len() - 1] == last);
            }
        }
    }
}

} // verus!
