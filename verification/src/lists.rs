//! "First element satisfying a predicate", the selection rule of every lookup in the store.
use vstd::prelude::*;

verus! {

/// Index of the first element of `s` satisfying `p`, if any.
pub open spec fn first_where<T>(s: Seq<T>, p: spec_fn(T) -> bool) -> Option<int>
    decreases s.len(),
{
    if s.len() == 0 {
        None
    } else if p(s[0]) {
        Some(0)
    } else {
        match first_where(s.drop_first(), p) {
            Some(i) => Some(i + 1),
            None => None,
        }
    }
}

/// If no element before `i` satisfies `p` and `s[i]` does, the first match is at `i`.
pub proof fn lemma_first_where_found<T>(s: Seq<T>, p: spec_fn(T) -> bool, i: int)
    requires
        0 <= i < s.len(),
        p(s[i]),
        forall|k: int| 0 <= k < i ==> !p(s[k]),
    ensures
        first_where(s, p) == Some(i),
    decreases i,
{
    if i > 0 {
        lemma_first_where_found(s.drop_first(), p, i - 1);
    }
}

/// If no element satisfies `p`, there is no first match.
pub proof fn lemma_first_where_none<T>(s: Seq<T>, p: spec_fn(T) -> bool)
    requires
        forall|k: int| 0 <= k < s.len() ==> !p(s[k]),
    ensures
        first_where(s, p) is None,
    decreases s.len(),
{
    if s.len() > 0 {
        lemma_first_where_none(s.drop_first(), p);
    }
}

/// A first match satisfies `p`, lies in range, and nothing before it satisfies `p`.
pub proof fn lemma_first_where_props<T>(s: Seq<T>, p: spec_fn(T) -> bool)
    ensures
        match first_where(s, p) {
            Some(i) => 0 <= i < s.len() && p(s[i]) && forall|k: int| 0 <= k < i ==> !p(s[k]),
            None => forall|k: int| 0 <= k < s.len() ==> !p(s[k]),
        },
    decreases s.len(),
{
    if s.len() > 0 {
        lemma_first_where_props(s.drop_first(), p);
        match first_where(s.drop_first(), p) {
            Some(i) => {
                assert forall|k: int| 0 <= k < i + 1 && !p(s[0]) implies !p(#[trigger] s[k]) by {
                    if k > 0 {
                        assert(s[k] == s.drop_first()[k - 1]);
                    }
                }
            },
            None => {
                assert forall|k: int| 0 <= k < s.len() && !p(s[0]) implies !p(#[trigger] s[k]) by {
                    if k > 0 {
                        assert(s[k] == s.drop_first()[k - 1]);
                    }
                }
            },
        }
    }
}

/// Whether some element satisfies `p`.
pub open spec fn any_where<T>(s: Seq<T>, p: spec_fn(T) -> bool) -> bool {
    first_where(s, p) is Some
}

/// The elements of `s` satisfying `p`, in order.
pub open spec fn keep<T>(s: Seq<T>, p: spec_fn(T) -> bool) -> Seq<T>
    decreases s.len(),
{
    if s.len() == 0 {
        Seq::empty()
    } else if p(s.last()) {
        keep(s.drop_last(), p).push(s.last())
    } else {
        keep(s.drop_last(), p)
    }
}

/// Keeping from a prefix one element longer.
pub proof fn lemma_keep_step<T>(s: Seq<T>, p: spec_fn(T) -> bool, i: int)
    requires
        0 <= i < s.len(),
    ensures
        keep(s.subrange(0, i + 1), p) == if p(s[i]) {
            keep(s.subrange(0, i), p).push(s[i])
        } else {
            keep(s.subrange(0, i), p)
        },
{
    assert(s.subrange(0, i + 1).drop_last() =~= s.subrange(0, i));
}

/// Keeping never lengthens a sequence.
pub proof fn lemma_keep_len<T>(s: Seq<T>, p: spec_fn(T) -> bool)
    ensures
        keep(s, p).len() <= s.len(),
    decreases s.len(),
{
    if s.len() > 0 {
        lemma_keep_len(s.drop_last(), p);
    }
}

} // verus!
