//! The first entry of a sequence that holds a value, and the outcome of a
//! run of steps that stops at the first failure.

use vstd::prelude::*;

verus! {

/// The first entry at or after index `i` that is `Some`, or `None` if there
/// is no such entry.
pub open spec fn first_some_from<T>(s: Seq<Option<T>>, i: int) -> Option<T>
    decreases s.len() - i,
{
    if i < 0 || i >= s.len() {
        None
    } else if s[i] is Some {
        s[i]
    } else {
        first_some_from(s, i + 1)
    }
}

/// The first entry of `s` that is `Some`, or `None` if every entry is `None`.
pub open spec fn first_some<T>(s: Seq<Option<T>>) -> Option<T> {
    first_some_from(s, 0)
}

/// Entries that are `None` do not matter: the search may start behind them.
pub proof fn lemma_first_some_skips_none<T>(s: Seq<Option<T>>, i: int, k: int)
    requires
        0 <= i <= k <= s.len(),
        forall|j: int| i <= j < k ==> s[j] is None,
    ensures
        first_some_from(s, i) == first_some_from(s, k),
    decreases k - i,
{
    if i < k {
        lemma_first_some_skips_none(s, i + 1, k);
    }
}

/// An entry that is `Some` and has only `None` before it is the result.
pub proof fn lemma_first_some_at<T>(s: Seq<Option<T>>, k: int)
    requires
        0 <= k < s.len(),
        s[k] is Some,
        forall|j: int| 0 <= j < k ==> s[j] is None,
    ensures
        first_some(s) == s[k],
{
    lemma_first_some_skips_none(s, 0, k);
}

/// The search from `i` finds nothing exactly when every entry from `i` on is
/// `None`; what it finds is an entry at some index `k >= i` with only `None`
/// between `i` and `k`. Returns that `k` (or the length, if there is none).
pub proof fn lemma_first_some_from_index<T>(s: Seq<Option<T>>, i: int) -> (k: int)
    requires
        0 <= i <= s.len(),
    ensures
        i <= k <= s.len(),
        forall|j: int| i <= j < k ==> s[j] is None,
        first_some_from(s, i) is Some <==> k < s.len(),
        k < s.len() ==> s[k] is Some && first_some_from(s, i) == s[k],
    decreases s.len() - i,
{
    if i >= s.len() {
        i
    } else if s[i] is Some {
        i
    } else {
        lemma_first_some_from_index(s, i + 1)
    }
}

/// The error of an outcome, if it is one.
pub open spec fn error_of<T, E>(outcome: Result<T, E>) -> Option<E> {
    match outcome {
        Ok(_) => None,
        Err(e) => Some(e),
    }
}

/// The errors of a run of outcomes, index by index.
pub open spec fn errors_of<T, E>(outcomes: Seq<Result<T, E>>) -> Seq<Option<E>> {
    outcomes.map_values(|outcome: Result<T, E>| error_of(outcome))
}

/// The values of a run of outcomes, index by index.
pub open spec fn values_of<T, E>(outcomes: Seq<Result<T, E>>) -> Seq<T>
    recommends
        forall|i: int| 0 <= i < outcomes.len() ==> outcomes[i] is Ok,
{
    outcomes.map_values(|outcome: Result<T, E>| outcome->Ok_0)
}

/// What a run of steps gives when it stops at the first failure: the first
/// error in the order of the steps, or, if no step fails, every value in
/// that order.
pub open spec fn all_or_first_error<T, E>(outcomes: Seq<Result<T, E>>) -> Result<Seq<T>, E> {
    match first_some(errors_of(outcomes)) {
        Some(e) => Err(e),
        None => Ok(values_of(outcomes)),
    }
}

/// A run succeeds exactly when each of its steps does, and then it keeps
/// every value at the index of its step.
pub proof fn lemma_all_ok<T, E>(outcomes: Seq<Result<T, E>>)
    ensures
        all_or_first_error(outcomes) is Ok <==> forall|i: int|
            0 <= i < outcomes.len() ==> outcomes[i] is Ok,
        all_or_first_error(outcomes) matches Ok(values) ==> values.len() == outcomes.len()
            && forall|i: int|
            0 <= i < outcomes.len() ==> outcomes[i] == Ok::<T, E>(#[trigger] values[i]),
{
    let errors = errors_of(outcomes);
    let k = lemma_first_some_from_index(errors, 0);
    if k == outcomes.len() {
        assert forall|i: int| 0 <= i < outcomes.len() implies outcomes[i] is Ok by {
            assert(errors[i] is None);
        }
    }
}

/// A run fails with the error of its first failing step.
pub proof fn lemma_first_error<T, E>(outcomes: Seq<Result<T, E>>, k: int)
    requires
        0 <= k < outcomes.len(),
        outcomes[k] is Err,
        forall|j: int| 0 <= j < k ==> outcomes[j] is Ok,
    ensures
        all_or_first_error(outcomes) == Err::<Seq<T>, E>(outcomes[k]->Err_0),
{
    lemma_first_some_at(errors_of(outcomes), k);
}

} // verus!
