//! The first of a sequence of candidates.

use vstd::prelude::*;

verus! {

/// The first candidate that is there, if any is.
pub open spec fn first_some<T>(candidates: Seq<Option<T>>) -> Option<T>
    decreases candidates.len(),
{
    if candidates.len() == 0 {
        None
    } else if candidates[0] is Some {
        candidates[0]
    } else {
        first_some(candidates.drop_first())
    }
}

/// A candidate with none before it is the first.
pub proof fn lemma_first_some_at<T>(candidates: Seq<Option<T>>, at: int)
    requires
        0 <= at < candidates.len(),
        candidates[at] is Some,
        forall|k: int| 0 <= k < at ==> candidates[k] is None,
    ensures
        first_some(candidates) == candidates[at],
    decreases at,
{
    if at > 0 {
        let rest = candidates.drop_first();
        assert forall|k: int| 0 <= k < at - 1 implies rest[k] is None by {
            assert(rest[k] == candidates[k + 1]);
        }
        lemma_first_some_at(rest, at - 1);
    }
}

/// Where no candidate is there, there is no first.
pub proof fn lemma_first_some_none<T>(candidates: Seq<Option<T>>)
    requires
        forall|k: int| 0 <= k < candidates.len() ==> candidates[k] is None,
    ensures
        first_some(candidates) is None,
    decreases candidates.len(),
{
    if candidates.len() > 0 {
        let rest = candidates.drop_first();
        assert forall|k: int| 0 <= k < rest.len() implies rest[k] is None by {
            assert(rest[k] == candidates[k + 1]);
        }
        lemma_first_some_none(rest);
    }
}

/// The first candidate is one of the candidates, and none stands before it.
pub proof fn lemma_first_some_is_candidate<T>(candidates: Seq<Option<T>>)
    ensures
        first_some(candidates) is Some ==> exists|at: int|
            0 <= at < candidates.len() && candidates[at] == first_some(candidates) && forall|
                k: int,
            |
                0 <= k < at ==> candidates[k] is None,
        first_some(candidates) is None ==> forall|k: int|
            0 <= k < candidates.len() ==> candidates[k] is None,
    decreases candidates.len(),
{
    if candidates.len() > 0 {
        if candidates[0] is Some {
            assert(candidates[0] == first_some(candidates));
        } else {
            let rest = candidates.drop_first();
            lemma_first_some_is_candidate(rest);
            if first_some(rest) is Some {
                let at = choose|at: int|
                    0 <= at < rest.len() && rest[at] == first_some(rest) && forall|k: int|
                        0 <= k < at ==> rest[k] is None;
                assert(candidates[at + 1] == first_some(candidates));
                assert forall|k: int| 0 <= k < at + 1 implies candidates[k] is None by {
                    if k > 0 {
                        assert(rest[k - 1] == candidates[k]);
                    }
                }
            } else {
                assert forall|k: int| 0 <= k < candidates.len() implies candidates[k] is None by {
                    if k > 0 {
                        assert(rest[k - 1] == candidates[k]);
                    }
                }
            }
        }
    }
}

/// A candidate added at the end is the first only where there was none.
pub proof fn lemma_first_some_push<T>(candidates: Seq<Option<T>>, last: Option<T>)
    ensures
        first_some(candidates.push(last)) == if first_some(candidates) is Some {
            first_some(candidates)
        } else {
            last
        },
    decreases candidates.len(),
{
    let all = candidates.push(last);
    if candidates.len() == 0 {
        assert(all.drop_first() =~= Seq::<Option<T>>::empty());
        assert(first_some(all.drop_first()) is None);
    } else {
        assert(all.drop_first() =~= candidates.drop_first().push(last));
        lemma_first_some_push(candidates.drop_first(), last);
    }
}

} // verus!
