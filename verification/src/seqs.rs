//! Sequence notions shared by the contracts: element-wise views, the first
//! index at which a flag is raised, and all-or-first-failure collection.

use vstd::prelude::*;

verus! {

/// The views of the items of a sequence, in order.
pub open spec fn views<X: View>(items: Seq<X>) -> Seq<X::V> {
    Seq::new(items.len(), |i: int| items[i]@)
}

/// The view of a result: that of its value, or that of its error.
pub open spec fn result_view<A: View, E: View>(r: Result<A, E>) -> Result<A::V, E::V> {
    match r {
        Ok(a) => Ok(a@),
        Err(e) => Err(e@),
    }
}

/// The view of a result that carries a vector: the views of its items, or
/// that of its error.
pub open spec fn results_view<A: View, E: View>(r: Result<Vec<A>, E>) -> Result<Seq<A::V>, E::V> {
    match r {
        Ok(items) => Ok(views(items@)),
        Err(e) => Err(e@),
    }
}

/// `flags[i]` is true and no flag before it is.
pub open spec fn is_first_true(flags: Seq<bool>, i: int) -> bool {
    &&& 0 <= i < flags.len()
    &&& flags[i]
    &&& forall|j: int| 0 <= j < i ==> !flags[j]
}

/// The first index at which `flags` is true, if there is one.
pub open spec fn first_true(flags: Seq<bool>) -> Option<int> {
    if exists|i: int| is_first_true(flags, i) {
        Some(choose|i: int| is_first_true(flags, i))
    } else {
        None
    }
}

/// At most one index is the first.
pub proof fn lemma_first_true_at(flags: Seq<bool>, i: int)
    requires
        is_first_true(flags, i),
    ensures
        first_true(flags) == Some(i),
{
    // Of two first indices, the later one would see the earlier flag raised.
    let k = choose|k: int| is_first_true(flags, k);
    if k < i {
        assert(!flags[k]);
    } else if i < k {
        assert(!flags[i]);
    }
}

/// Some flag before `bound` is true exactly when a first one exists there.
proof fn lemma_first_true_below(flags: Seq<bool>, bound: int)
    requires
        0 <= bound <= flags.len(),
    ensures
        (exists|i: int| is_first_true(flags, i) && i < bound) || (forall|j: int|
            0 <= j < bound ==> !flags[j]),
    decreases bound,
{
    if bound > 0 {
        lemma_first_true_below(flags, bound - 1);
        if !(exists|i: int| is_first_true(flags, i) && i < bound - 1) {
            if flags[bound - 1] {
                assert(is_first_true(flags, bound - 1));
            }
        }
    }
}

/// What `first_true` returns: the first true index, or `None` where every
/// flag is false.
pub proof fn lemma_first_true(flags: Seq<bool>)
    ensures
        match first_true(flags) {
            Some(i) => is_first_true(flags, i),
            None => forall|j: int| 0 <= j < flags.len() ==> !flags[j],
        },
{
    lemma_first_true_below(flags, flags.len() as int);
}

/// The flags that mark the failures among `results`.
pub open spec fn failures<A, E>(results: Seq<Result<A, E>>) -> Seq<bool> {
    Seq::new(results.len(), |i: int| results[i] is Err)
}

/// All values where every result is `Ok`; otherwise the first error.
pub open spec fn collect<A, E>(results: Seq<Result<A, E>>) -> Result<Seq<A>, E> {
    match first_true(failures(results)) {
        Some(i) => Err(results[i]->Err_0),
        None => Ok(Seq::new(results.len(), |i: int| results[i]->Ok_0)),
    }
}

/// `collect` fails with the error at `i` where nothing fails before `i`.
pub proof fn lemma_collect_err<A, E>(results: Seq<Result<A, E>>, i: int)
    requires
        0 <= i < results.len(),
        results[i] is Err,
        forall|j: int| 0 <= j < i ==> results[j] is Ok,
    ensures
        collect(results) == Err::<Seq<A>, E>(results[i]->Err_0),
{
    lemma_first_true_at(failures(results), i);
}

/// `collect` succeeds where nothing fails.
pub proof fn lemma_collect_ok<A, E>(results: Seq<Result<A, E>>)
    requires
        forall|j: int| 0 <= j < results.len() ==> results[j] is Ok,
    ensures
        collect(results) == Ok::<Seq<A>, E>(Seq::new(results.len(), |i: int| results[i]->Ok_0)),
{
    lemma_first_true(failures(results));
}

/// `collect` fails exactly where some result does, and then with the error of
/// the first that does.
pub proof fn lemma_collect<A, E>(results: Seq<Result<A, E>>)
    ensures
        match first_true(failures(results)) {
            Some(i) => is_first_true(failures(results), i) && collect(results) == Err::<Seq<A>, E>(
                results[i]->Err_0,
            ),
            None => (forall|j: int| 0 <= j < results.len() ==> (#[trigger] results[j]) is Ok)
                && collect(results) is Ok,
        },
{
    lemma_first_true(failures(results));
    if first_true(failures(results)) is None {
        assert forall|j: int| 0 <= j < results.len() implies (#[trigger] results[j]) is Ok by {
            assert(!failures(results)[j]);
        }
    }
}

/// The number of items in the groups before the group at `g`.
pub open spec fn items_before<A>(groups: Seq<Seq<A>>, g: int) -> int
    decreases g,
{
    if g <= 0 {
        0
    } else {
        items_before(groups, g - 1) + groups[g - 1].len()
    }
}

/// Dropping the first group shifts every later group by its length.
proof fn lemma_items_before_rest<A>(groups: Seq<Seq<A>>, g: int)
    requires
        0 <= g < groups.len(),
    ensures
        items_before(groups, g + 1) == groups[0].len() + items_before(groups.drop_first(), g),
    decreases g,
{
    if g > 0 {
        lemma_items_before_rest(groups, g - 1);
    } else {
        assert(items_before(groups, 0) == 0);
    }
}

/// Every item of a flattened sequence stands in one of its groups, at the
/// place that the lengths of the groups before it give.
pub proof fn lemma_flatten_origin<A>(groups: Seq<Seq<A>>, m: int)
    requires
        0 <= m < groups.flatten().len(),
    ensures
        exists|g: int, j: int|
            0 <= g < groups.len() && 0 <= j < groups[g].len() && m == items_before(groups, g) + j
                && groups.flatten()[m] == #[trigger] groups[g][j],
    decreases groups.len(),
{
    if groups.len() > 0 {
        let first = groups.first();
        let rest = groups.drop_first();
        if m < first.len() {
            assert(groups.flatten()[m] == groups[0][m]);
        } else {
            lemma_flatten_origin(rest, m - first.len());
            let (g, j) = choose|g: int, j: int|
                0 <= g < rest.len() && 0 <= j < rest[g].len() && m - first.len() == items_before(
                    rest,
                    g,
                ) + j && rest.flatten()[m - first.len()] == #[trigger] rest[g][j];
            lemma_items_before_rest(groups, g);
        }
    }
}

/// Where some result fails, `collect` fails, with the error of the first
/// result that does.
pub proof fn lemma_collect_fails<A, E>(results: Seq<Result<A, E>>, k: int)
    requires
        0 <= k < results.len(),
        results[k] is Err,
    ensures
        first_true(failures(results)) matches Some(i) && 0 <= i <= k && results[i] is Err
            && collect(results) == Err::<Seq<A>, E>(results[i]->Err_0),
{
    lemma_first_true(failures(results));
    assert(failures(results)[k]);
}

} // verus!
