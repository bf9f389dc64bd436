//! Looking through lists from the front.

use vstd::prelude::*;

verus! {

/// The first element of `s` that satisfies `wanted`.
pub open spec fn first<T>(s: Seq<T>, wanted: spec_fn(T) -> bool) -> Option<T>
    decreases s.len(),
{
    if s.len() == 0 {
        None
    } else if wanted(s[0]) {
        Some(s[0])
    } else {
        first(s.skip(1), wanted)
    }
}

/// An element that satisfies `wanted`, with none before it, is the first.
pub proof fn lemma_first_found<T>(s: Seq<T>, wanted: spec_fn(T) -> bool, i: int)
    requires
        0 <= i < s.len(),
        wanted(s[i]),
        forall|j: int| 0 <= j < i ==> !wanted(#[trigger] s[j]),
    ensures
        first(s, wanted) == Some(s[i]),
    decreases s.len(),
{
    if i > 0 {
        assert(!wanted(s[0]));
        let rest = s.skip(1);
        assert forall|j: int| 0 <= j < i - 1 implies !wanted(#[trigger] rest[j]) by {
            assert(rest[j] == s[j + 1]);
        }
        lemma_first_found(rest, wanted, i - 1);
    }
}

/// Where no element satisfies `wanted`, there is no first.
pub proof fn lemma_first_missing<T>(s: Seq<T>, wanted: spec_fn(T) -> bool)
    requires
        forall|j: int| 0 <= j < s.len() ==> !wanted(#[trigger] s[j]),
    ensures
        first(s, wanted) is None,
    decreases s.len(),
{
    if s.len() > 0 {
        assert(!wanted(s[0]));
        let rest = s.skip(1);
        assert forall|j: int| 0 <= j < rest.len() implies !wanted(#[trigger] rest[j]) by {
            assert(rest[j] == s[j + 1]);
        }
        lemma_first_missing(rest, wanted);
    }
}

/// What `first` finds is an element that satisfies `wanted`, and it finds one if there is one.
pub proof fn lemma_first<T>(s: Seq<T>, wanted: spec_fn(T) -> bool)
    ensures
        match first(s, wanted) {
            Some(x) => wanted(x) && s.contains(x),
            None => forall|j: int| 0 <= j < s.len() ==> !wanted(#[trigger] s[j]),
        },
    decreases s.len(),
{
    if s.len() > 0 && !wanted(s[0]) {
        let rest = s.skip(1);
        lemma_first(rest, wanted);
        match first(s, wanted) {
            Some(x) => {
                let j = choose|j: int| 0 <= j < rest.len() && rest[j] == x;
                assert(s[j + 1] == x);
            },
            None => {
                assert forall|j: int| 0 <= j < s.len() implies !wanted(#[trigger] s[j]) by {
                    if j > 0 {
                        assert(rest[j - 1] == s[j]);
                    }
                }
            },
        }
    } else if s.len() > 0 {
        assert(s.contains(s[0]));
    }
}

/// Where just one element satisfies `wanted`, it is all that is left.
pub proof fn lemma_filter_one<T>(s: Seq<T>, wanted: spec_fn(T) -> bool, k: int)
    requires
        0 <= k < s.len(),
        wanted(s[k]),
        forall|j: int| 0 <= j < s.len() && j != k ==> !wanted(#[trigger] s[j]),
    ensures
        s.filter(wanted) == seq![s[k]],
    decreases s.len(),
{
    reveal(Seq::filter);
    let rest = s.drop_last();
    assert forall|j: int| 0 <= j < rest.len() && j != k implies !wanted(#[trigger] rest[j]) by {
        assert(rest[j] == s[j]);
    }
    if k == s.len() - 1 {
        lemma_filter_none(rest, wanted);
        assert(s.filter(wanted) =~= seq![s[k]]);
    } else {
        assert(!wanted(s[s.len() - 1]));
        assert(rest[k] == s[k]);
        lemma_filter_one(rest, wanted, k);
    }
}

/// Where no element satisfies `wanted`, nothing is left.
pub proof fn lemma_filter_none<T>(s: Seq<T>, wanted: spec_fn(T) -> bool)
    requires
        forall|j: int| 0 <= j < s.len() ==> !wanted(#[trigger] s[j]),
    ensures
        s.filter(wanted) == Seq::<T>::empty(),
    decreases s.len(),
{
    reveal(Seq::filter);
    if s.len() > 0 {
        let rest = s.drop_last();
        assert(!wanted(s[s.len() - 1]));
        assert forall|j: int| 0 <= j < rest.len() implies !wanted(#[trigger] rest[j]) by {
            assert(rest[j] == s[j]);
        }
        lemma_filter_none(rest, wanted);
    }
}

/// Where two elements satisfy `wanted`, at least two are left.
pub proof fn lemma_filter_two<T>(s: Seq<T>, wanted: spec_fn(T) -> bool, j: int, k: int)
    requires
        0 <= j < k < s.len(),
        wanted(s[j]),
        wanted(s[k]),
    ensures
        s.filter(wanted).len() >= 2,
    decreases s.len(),
{
    reveal(Seq::filter);
    let rest = s.drop_last();
    if k == s.len() - 1 {
        assert(rest[j] == s[j]);
        lemma_filter_some(rest, wanted, j);
    } else {
        assert(rest[j] == s[j] && rest[k] == s[k]);
        lemma_filter_two(rest, wanted, j, k);
    }
}

/// Where an element satisfies `wanted`, at least one is left.
pub proof fn lemma_filter_some<T>(s: Seq<T>, wanted: spec_fn(T) -> bool, j: int)
    requires
        0 <= j < s.len(),
        wanted(s[j]),
    ensures
        s.filter(wanted).len() >= 1,
    decreases s.len(),
{
    reveal(Seq::filter);
    let rest = s.drop_last();
    if j < s.len() - 1 {
        assert(rest[j] == s[j]);
        lemma_filter_some(rest, wanted, j);
    }
}

} // verus!
