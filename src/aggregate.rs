//! Gathering the series of several fetches, leniently or strictly.
use crate::feed::views;
use crate::model::{MangaInfo, MangaModel};
use vstd::prelude::*;

verus! {

/// The series of the fetches that succeeded, in the order of the fetches.
pub open spec fn successes<E>(outcomes: Seq<Result<MangaInfo, E>>) -> Seq<MangaModel>
    decreases outcomes.len(),
{
    if outcomes.len() == 0 {
        Seq::empty()
    } else {
        match outcomes.last() {
            Ok(m) => successes(outcomes.drop_last()).push(m@),
            Err(_) => successes(outcomes.drop_last()),
        }
    }
}

/// Where the first failed fetch stands, if one failed.
pub open spec fn first_failure<E>(outcomes: Seq<Result<MangaInfo, E>>) -> Option<int> {
    if exists|i: int| 0 <= i < outcomes.len() && (#[trigger] outcomes[i]) is Err {
        Some(
            choose|i: int|
                0 <= i < outcomes.len() && (#[trigger] outcomes[i]) is Err && forall|j: int|
                    0 <= j < i ==> (#[trigger] outcomes[j]) is Ok,
        )
    } else {
        None
    }
}

/// Keeps the series of the fetches that succeeded, in their order, and drops
/// the failures.
pub fn collect_lenient<E>(outcomes: Vec<Result<MangaInfo, E>>) -> (r: Vec<MangaInfo>)
    ensures
        views(r@) == successes(outcomes@),
{
    let ghost all = outcomes@;
    let mut rest = outcomes;
    let mut r: Vec<MangaInfo> = Vec::new();
    let mut i: usize = 0;
    let n = rest.len();
    while i < n
        invariant
            n == all.len(),
            i <= n,
            rest@ == all.subrange(i as int, n as int),
            views(r@) == successes(all.subrange(0, i as int)),
        decreases n - i,
    {
        let outcome = rest.remove(0);
        proof {
            assert(outcome == all[i as int]);
            assert(all.subrange(0, i + 1).drop_last() =~= all.subrange(0, i as int));
            assert(rest@ =~= all.subrange(i + 1, n as int));
        }
        match outcome {
            Ok(m) => {
                r.push(m);
                assert(views(r@) =~= successes(all.subrange(0, i as int)).push(m@));
            },
            Err(_) => {},
        }
        i = i + 1;
    }
    assert(all.subrange(0, n as int) =~= all);
    r
}

/// The series of all fetches where every one succeeded; else the error of the
/// first that failed, and no series.
pub fn collect_strict<E>(outcomes: Vec<Result<MangaInfo, E>>) -> (r: Result<Vec<MangaInfo>, E>)
    ensures
        match first_failure(outcomes@) {
            None => r matches Ok(v) && views(v@) == successes(outcomes@) && v@.len()
                == outcomes@.len(),
            Some(k) => r is Err && outcomes@[k] == Err::<MangaInfo, E>(r->Err_0),
        },
{
    let ghost all = outcomes@;
    let mut rest = outcomes;
    let mut r: Vec<MangaInfo> = Vec::new();
    let mut i: usize = 0;
    let n = rest.len();
    while i < n
        invariant
            n == all.len(),
            all == outcomes@,
            i <= n,
            rest@ == all.subrange(i as int, n as int),
            r@.len() == i,
            views(r@) == successes(all.subrange(0, i as int)),
            forall|j: int| 0 <= j < i ==> (#[trigger] all[j]) is Ok,
        decreases n - i,
    {
        let outcome = rest.remove(0);
        proof {
            assert(outcome == all[i as int]);
            assert(all.subrange(0, i + 1).drop_last() =~= all.subrange(0, i as int));
            assert(rest@ =~= all.subrange(i + 1, n as int));
        }
        match outcome {
            Ok(m) => {
                r.push(m);
                assert(views(r@) =~= successes(all.subrange(0, i as int)).push(m@));
            },
            Err(e) => {
                proof {
                    assert(all[i as int] is Err);
                    assert(forall|j: int| 0 <= j < i ==> (#[trigger] all[j]) is Ok);
                    let k = first_failure(all)->0;
                    assert(0 <= k < all.len() && all[k] is Err && forall|j: int|
                        0 <= j < k ==> (#[trigger] all[j]) is Ok);
                    assert(k == i) by {
                        if k < i {
                            assert(all[k] is Ok);
                        } else if k > i {
                            assert(all[i as int] is Ok);
                        }
                    }
                    assert(all[k] == Err::<MangaInfo, E>(e));
                }
                return Err(e);
            },
        }
        i = i + 1;
    }
    assert(all.subrange(0, n as int) =~= all);
    assert(first_failure(all) is None);
    Ok(r)
}

} // verus!
