//! How a conversion pass over a batch is executed: the strategy value and
//! the single generic map-over-the-batch utility every backend runs
//! through.

use vstd::prelude::*;
use vstd::pervasive::VecAdditionalExecFns;

verus! {

/// Declares `scoped_threadpool::Pool` so a strategy value can own one.
/// Relied on only as an opaque worker-pool handle: the verified library
/// calls into it solely through the fan-out below.
#[verifier::external_type_specification]
#[verifier::external_body]
pub struct ExPool(scoped_threadpool::Pool);

/// The execution policy threaded through every batch conversion.  Either
/// policy rewrites each slot of the batch from that same slot, so output
/// order equals input order; the policy decides only how the loop over
/// the batch is driven.
pub enum MultithreadingStrategy {
    /// Transform the batch on the calling thread, point by point.
    SingleCore,
    /// Fan the per-point work out over the owned worker pool and join
    /// before returning.  The pool is owned by the caller and may be
    /// reused across passes, but each pass borrows it exclusively.
    MultiCore(scoped_threadpool::Pool),
}

/// Applies `transform` to every point of the batch in place, on the
/// calling thread: slot `i` of the result is a value `transform` may
/// return for slot `i` of the input, for every slot, and the length is
/// kept.
pub fn map_batch_sequential<F: Fn((u64, u64)) -> (u64, u64)>(data: &mut Vec<(u64, u64)>, transform: F)
    requires
        forall|p: (u64, u64)| #[trigger] call_requires(transform, (p,)),
    ensures
        final(data)@.len() == old(data)@.len(),
        forall|i: int|
            0 <= i < old(data)@.len() ==> call_ensures(
                transform,
                (old(data)@[i],),
                #[trigger] final(data)@[i],
            ),
{
    let n = data.len();
    let mut i: usize = 0;
    while i < n
        invariant
            forall|p: (u64, u64)| #[trigger] call_requires(transform, (p,)),
            data@.len() == n,
            n == old(data)@.len(),
            i <= n,
            forall|j: int|
                0 <= j < i ==> call_ensures(transform, (old(data)@[j],), #[trigger] data@[j]),
            forall|j: int| i <= j < n ==> #[trigger] data@[j] == old(data)@[j],
        decreases n - i,
    {
        let p = data[i];
        let q = transform(p);
        data.set(i, q);
        i = i + 1;
    }
}

/// Fans the per-point work out across the worker pool, one spawned unit
/// per slot, and joins every worker before returning.
///
/// Relies on `scoped_threadpool::Pool::scoped` and `Scope::execute`: the
/// scoped call does not return until every spawned unit has run, each
/// unit rewrites exactly its own slot with one call of `transform` on
/// that slot's input, and the loop spawning the units cannot stand
/// outside the scoped closure because the scope handle only exists
/// within it.
#[verifier::external_body]
fn map_batch_pooled<F: Fn((u64, u64)) -> (u64, u64) + Sync>(
    pool: &mut scoped_threadpool::Pool,
    data: &mut Vec<(u64, u64)>,
    transform: F,
)
    requires
        forall|p: (u64, u64)| #[trigger] call_requires(transform, (p,)),
    ensures
        final(data)@.len() == old(data)@.len(),
        forall|i: int|
            0 <= i < old(data)@.len() ==> call_ensures(
                transform,
                (old(data)@[i],),
                #[trigger] final(data)@[i],
            ),
{
    let transform = &transform;
    pool.scoped(|scope| {
        for point in data.iter_mut() {
            scope.execute(move || {
                *point = transform(*point);
            });
        }
    });
}

/// The one batch-execution utility: applies `transform` to every point of
/// the batch in place, sequentially or fanned out over the strategy's
/// worker pool.  Under either strategy the length is kept and slot `i` of
/// the result is a value `transform` may return for slot `i` of the
/// input; a pooled strategy keeps its pool for later passes.
pub fn map_batch<F: Fn((u64, u64)) -> (u64, u64) + Sync>(
    strategy: &mut MultithreadingStrategy,
    data: &mut Vec<(u64, u64)>,
    transform: F,
)
    requires
        forall|p: (u64, u64)| #[trigger] call_requires(transform, (p,)),
    ensures
        final(data)@.len() == old(data)@.len(),
        forall|i: int|
            0 <= i < old(data)@.len() ==> call_ensures(
                transform,
                (old(data)@[i],),
                #[trigger] final(data)@[i],
            ),
        (*final(strategy) is SingleCore) == (*old(strategy) is SingleCore),
{
    match strategy {
        MultithreadingStrategy::SingleCore => map_batch_sequential(data, transform),
        MultithreadingStrategy::MultiCore(pool) => map_batch_pooled(pool, data, transform),
    }
}

/// Order preservation across execution strategies: two batch passes over
/// the same input, each satisfying the batch contract — whichever strategy
/// drove each pass — give the same output sequence, slot by slot, whenever
/// the transform's contract admits a single output per input.
pub proof fn lemma_batch_strategy_agreement<F: Fn((u64, u64)) -> (u64, u64)>(
    transform: F,
    input: Seq<(u64, u64)>,
    first: Seq<(u64, u64)>,
    second: Seq<(u64, u64)>,
)
    requires
        first.len() == input.len(),
        second.len() == input.len(),
        forall|i: int|
            0 <= i < input.len() ==> call_ensures(transform, (input[i],), #[trigger] first[i]),
        forall|i: int|
            0 <= i < input.len() ==> call_ensures(transform, (input[i],), #[trigger] second[i]),
        forall|p: (u64, u64), q1: (u64, u64), q2: (u64, u64)|
            #[trigger] call_ensures(transform, (p,), q1) && #[trigger] call_ensures(
                transform,
                (p,),
                q2,
            ) ==> q1 == q2,
    ensures
        first == second,
{
    assert forall|i: int| 0 <= i < input.len() implies first[i] == second[i] by {
        assert(call_ensures(transform, (input[i],), first[i]));
        assert(call_ensures(transform, (input[i],), second[i]));
    }
    assert(first =~= second);
}

} // verus!
