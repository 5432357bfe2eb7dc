//! Answering a list of requests in order, stopping at the first that fails.

use vstd::prelude::*;

verus! {

/// All the values in order if every outcome is a value, else the first error.
pub open spec fn collect<T>(outcomes: Seq<Result<T, Seq<char>>>) -> Result<Seq<T>, Seq<char>>
    decreases outcomes.len(),
{
    if outcomes.len() == 0 {
        Ok(Seq::empty())
    } else {
        match collect(outcomes.drop_last()) {
            Err(what) => Err(what),
            Ok(values) => match outcomes.last() {
                Err(what) => Err(what),
                Ok(value) => Ok(values.push(value)),
            },
        }
    }
}

/// Where every outcome is a value, the result holds each of them at the
/// place of its request.
pub proof fn lemma_collect_keeps_order<T>(outcomes: Seq<Result<T, Seq<char>>>)
    requires
        forall|i: int| 0 <= i < outcomes.len() ==> outcomes[i] is Ok,
    ensures
        collect(outcomes) == Ok::<Seq<T>, Seq<char>>(
            Seq::new(outcomes.len(), |i: int| outcomes[i]->Ok_0),
        ),
    decreases outcomes.len(),
{
    if outcomes.len() > 0 {
        lemma_collect_keeps_order(outcomes.drop_last());
        let all = Seq::new(outcomes.len(), |i: int| outcomes[i]->Ok_0);
        let front = Seq::new(outcomes.drop_last().len(), |i: int| outcomes.drop_last()[i]->Ok_0);
        assert(front.push(outcomes.last()->Ok_0) =~= all);
    } else {
        assert(Seq::new(outcomes.len(), |i: int| outcomes[i]->Ok_0) =~= Seq::<T>::empty());
    }
}

/// Where outcome `k` is an error and none before it is, the result is that
/// error, whatever comes after.
pub proof fn lemma_collect_fails_fast<T>(outcomes: Seq<Result<T, Seq<char>>>, k: int)
    requires
        0 <= k < outcomes.len(),
        outcomes[k] is Err,
        forall|i: int| 0 <= i < k ==> outcomes[i] is Ok,
    ensures
        collect(outcomes) == Err::<Seq<T>, Seq<char>>(outcomes[k]->Err_0),
    decreases outcomes.len(),
{
    if k == outcomes.len() - 1 {
        lemma_collect_keeps_order(outcomes.drop_last());
    } else {
        lemma_collect_fails_fast(outcomes.drop_last(), k);
    }
}

/// A result of values has one value for each request, and every outcome was
/// a value.
pub proof fn lemma_collect_ok<T>(outcomes: Seq<Result<T, Seq<char>>>)
    requires
        collect(outcomes) is Ok,
    ensures
        collect(outcomes)->Ok_0.len() == outcomes.len(),
        forall|i: int| 0 <= i < outcomes.len() ==> outcomes[i] == Ok::<T, Seq<char>>(
            #[trigger] collect(outcomes)->Ok_0[i],
        ),
    decreases outcomes.len(),
{
    if outcomes.len() > 0 {
        lemma_collect_ok(outcomes.drop_last());
    }
}

/// The error of the outcomes up to `k` is the error of them all.
pub proof fn lemma_collect_error_stays<T>(outcomes: Seq<Result<T, Seq<char>>>, k: int)
    requires
        0 <= k <= outcomes.len(),
        collect(outcomes.take(k)) is Err,
    ensures
        collect(outcomes) == collect(outcomes.take(k)),
    decreases outcomes.len() - k,
{
    if k == outcomes.len() {
        assert(outcomes.take(k) =~= outcomes);
    } else {
        assert(outcomes.take(k + 1).drop_last() =~= outcomes.take(k));
        lemma_collect_error_stays(outcomes, k + 1);
    }
}

} // verus!
