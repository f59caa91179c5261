//! Folding over a sequence until the first failure.

use vstd::prelude::*;

verus! {

/// Folds `step` over `items` from the left, starting from `init`. The first
/// failure of `step` is the result, and what follows it is not looked at.
pub open spec fn try_fold<S, A, E>(
    items: Seq<A>,
    init: S,
    step: spec_fn(S, A) -> Result<S, E>,
) -> Result<S, E>
    decreases items.len(),
{
    if items.len() == 0 {
        Ok(init)
    } else {
        match try_fold(items.drop_last(), init, step) {
            Ok(state) => step(state, items.last()),
            Err(e) => Err(e),
        }
    }
}

/// Folding one element more applies `step` once more, unless the fold has
/// failed before.
pub proof fn lemma_try_fold_next<S, A, E>(
    items: Seq<A>,
    init: S,
    step: spec_fn(S, A) -> Result<S, E>,
    i: int,
)
    requires
        0 <= i < items.len(),
    ensures
        try_fold(items.take(i + 1), init, step) == match try_fold(items.take(i), init, step) {
            Ok(state) => step(state, items[i]),
            Err(e) => Err(e),
        },
{
    assert(items.take(i + 1).drop_last() =~= items.take(i));
}

/// A fold that has failed on a prefix fails on the whole in the same way.
pub proof fn lemma_try_fold_failed<S, A, E>(
    items: Seq<A>,
    init: S,
    step: spec_fn(S, A) -> Result<S, E>,
    k: int,
)
    requires
        0 <= k <= items.len(),
        try_fold(items.take(k), init, step) is Err,
    ensures
        try_fold(items, init, step) == try_fold(items.take(k), init, step),
    decreases items.len() - k,
{
    if k == items.len() {
        assert(items.take(k) =~= items);
    } else {
        lemma_try_fold_next(items, init, step, k);
        lemma_try_fold_failed(items, init, step, k + 1);
    }
}

/// A fold over the whole sequence is the fold over its prefix of full length.
pub proof fn lemma_try_fold_all<S, A, E>(
    items: Seq<A>,
    init: S,
    step: spec_fn(S, A) -> Result<S, E>,
)
    ensures
        try_fold(items.take(items.len() as int), init, step) == try_fold(items, init, step),
{
    assert(items.take(items.len() as int) =~= items);
}

/// The step of a fold that maps each element by `f` and gathers the results.
pub open spec fn map_step<A, B, E>(f: spec_fn(A) -> Result<B, E>) -> spec_fn(Seq<B>, A) -> Result<
    Seq<B>,
    E,
> {
    |gathered: Seq<B>, item: A|
        match f(item) {
            Ok(mapped) => Ok(gathered.push(mapped)),
            Err(e) => Err(e),
        }
}

/// Maps each element by `f`, in order. The result holds one value for each
/// element, unless `f` fails: then the first failure is the result.
pub open spec fn try_map<A, B, E>(items: Seq<A>, f: spec_fn(A) -> Result<B, E>) -> Result<
    Seq<B>,
    E,
> {
    try_fold(items, Seq::empty(), map_step(f))
}

/// Where the mapping succeeds, the result holds the value of each element
/// at the element's index.
pub proof fn lemma_try_map_ok<A, B, E>(items: Seq<A>, f: spec_fn(A) -> Result<B, E>)
    requires
        try_map(items, f) is Ok,
    ensures
        try_map(items, f)->Ok_0.len() == items.len(),
        forall|i: int|
            0 <= i < items.len() ==> #[trigger] f(items[i]) == Ok::<B, E>(
                try_map(items, f)->Ok_0[i],
            ),
    decreases items.len(),
{
    if items.len() > 0 {
        let shorter = items.drop_last();
        lemma_try_map_ok(shorter, f);
        let mapped = try_map(items, f)->Ok_0;
        assert forall|i: int| 0 <= i < items.len() implies #[trigger] f(items[i]) == Ok::<B, E>(
            mapped[i],
        ) by {
            if i < shorter.len() {
                assert(shorter[i] == items[i]);
                assert(f(shorter[i]) == Ok::<B, E>(try_map(shorter, f)->Ok_0[i]));
            }
        }
    }
}

/// Where `f` succeeds on every element, the mapping succeeds.
pub proof fn lemma_try_map_total<A, B, E>(items: Seq<A>, f: spec_fn(A) -> Result<B, E>)
    requires
        forall|i: int| 0 <= i < items.len() ==> #[trigger] f(items[i]) is Ok,
    ensures
        try_map(items, f) is Ok,
    decreases items.len(),
{
    if items.len() > 0 {
        lemma_try_map_total(items.drop_last(), f);
        assert(f(items[items.len() - 1]) is Ok);
    }
}

/// Where the mapping fails, it fails as `f` does on the first element on
/// which `f` fails.
pub proof fn lemma_try_map_failed<A, B, E>(items: Seq<A>, f: spec_fn(A) -> Result<B, E>) -> (at:
    int)
    requires
        try_map(items, f) is Err,
    ensures
        0 <= at < items.len(),
        f(items[at]) == Err::<B, E>(try_map(items, f)->Err_0),
        forall|i: int| 0 <= i < at ==> #[trigger] f(items[i]) is Ok,
    decreases items.len(),
{
    let shorter = items.drop_last();
    if try_map(shorter, f) is Err {
        let at = lemma_try_map_failed(shorter, f);
        assert forall|i: int| 0 <= i < at implies #[trigger] f(items[i]) is Ok by {
            assert(shorter[i] == items[i]);
            assert(f(shorter[i]) is Ok);
        }
        assert(shorter[at] == items[at]);
        at
    } else {
        lemma_try_map_ok(shorter, f);
        let at = items.len() - 1;
        assert forall|i: int| 0 <= i < at implies #[trigger] f(items[i]) is Ok by {
            assert(shorter[i] == items[i]);
            assert(f(shorter[i]) is Ok);
        }
        at
    }
}

} // verus!
