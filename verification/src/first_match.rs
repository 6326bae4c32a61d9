//! The first element of a sequence that meets a predicate, and what a filter
//! leaves of a sequence.
use vstd::prelude::*;

verus! {

/// `i` is the position of the first element of `s` that meets `p`.
pub open spec fn is_first_match<T>(s: Seq<T>, p: spec_fn(T) -> bool, i: int) -> bool {
    &&& 0 <= i < s.len()
    &&& p(s[i])
    &&& forall|j: int| 0 <= j < i ==> !p(#[trigger] s[j])
}

/// The position of the first element of `s` that meets `p`, if there is one.
pub open spec fn first_match<T>(s: Seq<T>, p: spec_fn(T) -> bool) -> Option<int> {
    if exists|i: int| is_first_match(s, p, i) {
        Some(choose|i: int| is_first_match(s, p, i))
    } else {
        None
    }
}

/// A position that is a first match is the first match.
pub proof fn lemma_first_match_is<T>(s: Seq<T>, p: spec_fn(T) -> bool, i: int)
    requires
        is_first_match(s, p, i),
    ensures
        first_match(s, p) == Some(i),
{
    let k = choose|k: int| is_first_match(s, p, k);
    if k < i {
        assert(!p(s[k]));
    } else if i < k {
        assert(!p(s[i]));
    }
}

/// Where no element meets `p` there is no first match.
pub proof fn lemma_first_match_none<T>(s: Seq<T>, p: spec_fn(T) -> bool)
    requires
        forall|j: int| 0 <= j < s.len() ==> !p(#[trigger] s[j]),
    ensures
        first_match(s, p) is None,
{
}

/// What `first_match` returns: a first match, or `None` where nothing matches.
pub proof fn lemma_first_match_result<T>(s: Seq<T>, p: spec_fn(T) -> bool)
    ensures
        match first_match(s, p) {
            Some(i) => is_first_match(s, p, i),
            None => forall|j: int| 0 <= j < s.len() ==> !p(#[trigger] s[j]),
        },
{
    if exists|i: int| is_first_match(s, p, i) {
    } else {
        assert forall|j: int| 0 <= j < s.len() implies !p(#[trigger] s[j]) by {
            lemma_no_match_before(s, p, j + 1);
        }
    }
}

/// The first match of a sequence with one more element at its end: that of
/// the sequence, else the new element where it meets `p`.
pub proof fn lemma_first_match_push<T>(s: Seq<T>, p: spec_fn(T) -> bool, last: T)
    ensures
        first_match(s.push(last), p) == match first_match(s, p) {
            Some(i) => Some(i),
            None => if p(last) {
                Some(s.len() as int)
            } else {
                None
            },
        },
{
    lemma_first_match_result(s, p);
    match first_match(s, p) {
        Some(i) => {
            assert forall|j: int| 0 <= j < i implies !p(#[trigger] s.push(last)[j]) by {
                assert(s.push(last)[j] == s[j]);
            }
            assert(s.push(last)[i] == s[i]);
            lemma_first_match_is(s.push(last), p, i);
        },
        None => {
            assert forall|j: int| 0 <= j < s.len() implies !p(#[trigger] s.push(last)[j]) by {
                assert(s.push(last)[j] == s[j]);
            }
            if p(last) {
                assert(s.push(last)[s.len() as int] == last);
                lemma_first_match_is(s.push(last), p, s.len() as int);
            } else {
                lemma_first_match_none(s.push(last), p);
            }
        },
    }
}

/// Where `s` has no first match, no element before position `n` meets `p`.
proof fn lemma_no_match_before<T>(s: Seq<T>, p: spec_fn(T) -> bool, n: int)
    requires
        0 <= n <= s.len(),
        !exists|i: int| is_first_match(s, p, i),
    ensures
        forall|j: int| 0 <= j < n ==> !p(#[trigger] s[j]),
    decreases n,
{
    if n > 0 {
        lemma_no_match_before(s, p, n - 1);
        if p(s[n - 1]) {
            assert(is_first_match(s, p, n - 1));
        }
    }
}

/// Where no element of a sequence meets a predicate, none is left by the
/// filter.
pub proof fn lemma_filter_none<T>(s: Seq<T>, p: spec_fn(T) -> bool)
    requires
        forall|j: int| 0 <= j < s.len() ==> !p(#[trigger] s[j]),
    ensures
        s.filter(p) == Seq::<T>::empty(),
    decreases s.len(),
{
    reveal(Seq::filter);
    if s.len() > 0 {
        assert forall|j: int| 0 <= j < s.drop_last().len() implies !p(
            #[trigger] s.drop_last()[j],
        ) by {
            assert(s.drop_last()[j] == s[j]);
        }
        lemma_filter_none(s.drop_last(), p);
        assert(!p(s[s.len() - 1]));
    }
}

/// The first element that a filter leaves is the first that meets the
/// predicate.
pub proof fn lemma_filter_first<T>(s: Seq<T>, p: spec_fn(T) -> bool, i: int)
    requires
        is_first_match(s, p, i),
    ensures
        s.filter(p).len() > 0,
        s.filter(p)[0] == s[i],
    decreases s.len(),
{
    reveal(Seq::filter);
    if i == s.len() - 1 {
        assert forall|j: int| 0 <= j < s.drop_last().len() implies !p(
            #[trigger] s.drop_last()[j],
        ) by {
            assert(s.drop_last()[j] == s[j]);
        }
        lemma_filter_none(s.drop_last(), p);
    } else {
        assert(is_first_match(s.drop_last(), p, i)) by {
            assert(s.drop_last()[i] == s[i]);
            assert forall|j: int| 0 <= j < i implies !p(#[trigger] s.drop_last()[j]) by {
                assert(s.drop_last()[j] == s[j]);
            }
        }
        lemma_filter_first(s.drop_last(), p, i);
    }
}

/// Every element that a filter leaves is an element that meets the
/// predicate.
pub proof fn lemma_filter_element<T>(s: Seq<T>, p: spec_fn(T) -> bool, k: int) -> (i: int)
    requires
        0 <= k < s.filter(p).len(),
    ensures
        0 <= i < s.len(),
        s[i] == s.filter(p)[k],
        p(s[i]),
    decreases s.len(),
{
    reveal(Seq::filter);
    if p(s.last()) && k == s.drop_last().filter(p).len() {
        s.len() - 1
    } else {
        lemma_filter_element(s.drop_last(), p, k)
    }
}

} // verus!
