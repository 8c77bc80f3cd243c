//! First-match selection over a sequence, shared by group lookup, asset
//! matching and old-file discovery.

use vstd::prelude::*;

verus! {

/// The index of the first element of `s` satisfying `f`, if any.
pub open spec fn first_where<A>(s: Seq<A>, f: spec_fn(A) -> bool) -> Option<int>
    decreases s.len(),
{
    if s.len() == 0 {
        None
    } else if f(s[0]) {
        Some(0int)
    } else {
        match first_where(s.drop_first(), f) {
            None => None,
            Some(j) => Some(j + 1),
        }
    }
}

/// `first_where` returns an index that satisfies `f` and is minimal, or
/// reports that no index satisfies `f`.
pub proof fn lemma_first_where_holds<A>(s: Seq<A>, f: spec_fn(A) -> bool)
    ensures
        match first_where(s, f) {
            Some(i) => 0 <= i < s.len() && f(s[i]) && forall|j: int| 0 <= j < i ==> !f(s[j]),
            None => forall|j: int| 0 <= j < s.len() ==> !f(s[j]),
        },
    decreases s.len(),
{
    if s.len() == 0 {
    } else if f(s[0]) {
    } else {
        lemma_first_where_holds(s.drop_first(), f);
        match first_where(s.drop_first(), f) {
            Some(i2) => {
                assert(first_where(s, f) == Some(i2 + 1));
                assert(s.drop_first()[i2] == s[i2 + 1]);
                assert forall|j: int| 0 <= j < i2 + 1 implies !f(s[j]) by {
                    if j > 0 {
                        assert(s.drop_first()[j - 1] == s[j]);
                    }
                }
            },
            None => {
                assert forall|j: int| 0 <= j < s.len() implies !f(s[j]) by {
                    if j > 0 {
                        assert(s.drop_first()[j - 1] == s[j]);
                    }
                }
            },
        }
    }
}

/// If `i` satisfies `f` and no smaller index does, then `i` is the first match.
pub proof fn lemma_first_where_at<A>(s: Seq<A>, f: spec_fn(A) -> bool, i: int)
    requires
        0 <= i < s.len(),
        f(s[i]),
        forall|j: int| 0 <= j < i ==> !f(s[j]),
    ensures
        first_where(s, f) == Some(i),
    decreases s.len(),
{
    if i == 0 {
    } else {
        assert(!f(s[0]));
        assert(s.drop_first()[i - 1] == s[i]);
        assert forall|j: int| 0 <= j < i - 1 implies !f(s.drop_first()[j]) by {
            assert(s.drop_first()[j] == s[j + 1]);
        }
        lemma_first_where_at(s.drop_first(), f, i - 1);
    }
}

/// If no index satisfies `f`, there is no first match.
pub proof fn lemma_first_where_none<A>(s: Seq<A>, f: spec_fn(A) -> bool)
    requires
        forall|j: int| 0 <= j < s.len() ==> !f(s[j]),
    ensures
        first_where(s, f) is None,
    decreases s.len(),
{
    if s.len() == 0 {
    } else {
        assert(!f(s[0]));
        assert forall|j: int| 0 <= j < s.drop_first().len() implies !f(s.drop_first()[j]) by {
            assert(s.drop_first()[j] == s[j + 1]);
        }
        lemma_first_where_none(s.drop_first(), f);
    }
}

} // verus!
