//! Pools the per-feed workers' outputs. Workers that failed contribute
//! nothing; per-worker order is kept; an empty pool is fatal to the run,
//! since there is nothing to display.
use vstd::prelude::*;

verus! {

/// The run has no candidate at all to display.
#[derive(Debug)]
pub struct EmptyPoolError {}

/// Sum of the per-worker output counts.
pub open spec fn spec_pool_size(results: Seq<Seq<Seq<char>>>) -> nat
    decreases results.len(),
{
    if results.len() == 0 {
        0
    } else {
        spec_pool_size(results.drop_last()) + results.last().len()
    }
}

/// Law: the pool is exactly the workers' outputs laid end to end, so its size
/// is the sum of the per-worker counts — a worker that failed sends an empty
/// output and adds nothing.
pub proof fn lemma_pool_size(results: Seq<Seq<Seq<char>>>)
    ensures
        results.flatten().len() == spec_pool_size(results),
    decreases results.len(),
{
    if results.len() == 0 {
        assert(results.flatten() =~= Seq::<Seq<char>>::empty());
    } else {
        lemma_pool_size(results.drop_last());
        Seq::lemma_flatten_push(results.drop_last(), results.last());
        assert(results.drop_last().push(results.last()) =~= results);
    }
}

/// Drains every worker's output into one pool, in worker order, keeping each
/// worker's own order. Fails exactly when no worker produced anything.
pub fn aggregate(results: &Vec<Vec<String>>) -> (r: Result<Vec<String>, EmptyPoolError>)
    ensures
        r is Ok <==> results.deep_view().flatten().len() > 0,
        (match r {
            Ok(pool) => pool.deep_view() == results.deep_view().flatten(),
            Err(_) => true,
        }),
{
    let mut pool: Vec<String> = Vec::new();
    let mut i: usize = 0;
    proof {
        assert(results.deep_view().take(0) =~= Seq::<Seq<Seq<char>>>::empty());
        assert(pool.deep_view() =~= results.deep_view().take(0).flatten());
    }
    while i < results.len()
        invariant
            i <= results@.len(),
            results.deep_view().len() == results@.len(),
            pool.deep_view() == results.deep_view().take(i as int).flatten(),
        decreases results@.len() - i,
    {
        let worker = &results[i];
        proof {
            assert(results.deep_view()[i as int] == results@[i as int].deep_view());
        }
        let mut j: usize = 0;
        while j < worker.len()
            invariant
                j <= worker@.len(),
                worker.deep_view().len() == worker@.len(),
                pool.deep_view() == results.deep_view().take(i as int).flatten()
                    + worker.deep_view().take(j as int),
            decreases worker@.len() - j,
        {
            let ghost pre = pool.deep_view();
            pool.push(worker[j].clone());
            proof {
                assert(pool.deep_view() =~= pre.push(worker@[j as int]@));
                assert(worker.deep_view()[j as int] == worker@[j as int]@);
                assert(worker.deep_view().take(j + 1) =~= worker.deep_view().take(j as int).push(
                    worker@[j as int]@,
                ));
                assert(pool.deep_view() =~= results.deep_view().take(i as int).flatten()
                    + worker.deep_view().take(j + 1));
            }
            j += 1;
        }
        proof {
            assert(worker.deep_view().take(worker@.len() as int) =~= worker.deep_view());
            Seq::lemma_flatten_push(results.deep_view().take(i as int), worker.deep_view());
            assert(results.deep_view().take(i as int).push(worker.deep_view())
                =~= results.deep_view().take(i + 1));
            assert(pool.deep_view() =~= results.deep_view().take(i + 1).flatten());
        }
        i += 1;
    }
    proof {
        assert(results.deep_view().take(results@.len() as int) =~= results.deep_view());
    }
    if pool.len() == 0 {
        proof {
            assert(pool.deep_view().len() == pool@.len());
        }
        Err(EmptyPoolError {})
    } else {
        proof {
            assert(pool.deep_view().len() == pool@.len());
        }
        Ok(pool)
    }
}

} // verus!
