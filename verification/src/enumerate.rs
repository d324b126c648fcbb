//! The decisions of the full-table enumeration, and its central law.
//!
//! Full-table enumeration farms ascending indices out to a fixed pool of
//! workers; each worker repeatedly reads by index until the remote
//! signals the end of the table, and pushes every record and every error
//! to a shared results collection.  The channels and threads that carry
//! the indices live with the caller; the per-outcome decision of a worker
//! is verified here, and so is the law that the pool's merged successes
//! are exactly a sequential enumeration's, in whatever order they arrive.

use vstd::prelude::*;

use vstd::seq_lib::group_to_multiset_ensures;

use crate::engine::ReadByIdxResult;
use crate::errors::Error;
use crate::errors::ReadSettingError;

verus! {

/// What a worker does with the outcome of one read-by-index call: what
/// to push to the results collection, and whether to keep pulling
/// indices.  A record is pushed and the worker continues; an error is
/// pushed as itself — never dropped — and the worker continues; the
/// end-of-table signal pushes nothing, is no error, and stops the
/// worker's lane.
pub fn worker_step(outcome: Result<Option<ReadByIdxResult>, ReadSettingError>) -> (r: (
    Option<Result<ReadByIdxResult, Error<ReadSettingError>>>,
    bool,
))
    ensures
        match outcome {
            Ok(Some(rec)) => r.0 == Some(
                Result::<ReadByIdxResult, Error<ReadSettingError>>::Ok(rec),
            ) && r.1,
            Ok(None) => r.0 is None && !r.1,
            Err(e) => r.0 == Some(
                Result::<ReadByIdxResult, Error<ReadSettingError>>::Err(Error::Failed(e)),
            ) && r.1,
        },
{
    match outcome {
        Ok(Some(rec)) => (Some(Ok(rec)), true),
        Ok(None) => (None, false),
        Err(e) => (Some(Err(Error::Failed(e))), true),
    }
}

/// The law of the merged enumeration.  `table` is the remote's table as a
/// sequential enumeration would list it, index by index from zero;
/// `pulled` are the indices the pool's workers were answered a record
/// for, concatenated across workers in any order.  The index generator
/// hands each index to exactly one worker, so `pulled` has no duplicates;
/// a worker stops only at the end-of-table signal, and the generator
/// counts through every index, so every index of the table is pulled.
/// Under exactly those conditions the records the pool collected are the
/// sequential enumeration's records, as an unordered collection.
pub proof fn lemma_pool_matches_sequential(table: Seq<ReadByIdxResult>, pulled: Seq<int>)
    requires
        pulled.no_duplicates(),
        forall|k: int| #![trigger pulled[k]] 0 <= k < pulled.len() ==> 0 <= pulled[k] < table.len(),
        forall|i: int| 0 <= i < table.len() ==> pulled.contains(i),
    ensures
        pulled.map_values(|i: int| table[i]).to_multiset() == table.to_multiset(),
    decreases table.len(),
{
    broadcast use group_to_multiset_ensures;

    let f = |i: int| table[i];
    if table.len() == 0 {
        assert(pulled.len() == 0) by {
            if pulled.len() > 0 {
                assert(0 <= pulled[0] < table.len());
            }
        }
        assert(pulled.map_values(f) =~= Seq::<ReadByIdxResult>::empty());
        assert(pulled.map_values(f).to_multiset() =~= table.to_multiset());
    } else {
        let l = table.len() - 1;
        assert(pulled.contains(l));
        let p = choose|p: int| 0 <= p < pulled.len() && pulled[p] == l;
        let rest = pulled.remove(p);
        let table2 = table.drop_last();
        let f2 = |i: int| table2[i];

        assert(rest.no_duplicates()) by {
            assert forall|i: int, j: int|
                0 <= i < rest.len() && 0 <= j < rest.len() && i != j implies rest[i]
                != rest[j] by {
                let i0 = if i < p {
                    i
                } else {
                    i + 1
                };
                let j0 = if j < p {
                    j
                } else {
                    j + 1
                };
                assert(rest[i] == pulled[i0]);
                assert(rest[j] == pulled[j0]);
            }
        }
        assert forall|k: int| 0 <= k < rest.len() implies 0 <= #[trigger] rest[k] < l by {
            let k0 = if k < p {
                k
            } else {
                k + 1
            };
            assert(rest[k] == pulled[k0]);
            assert(pulled[k0] != pulled[p]);
        }
        assert forall|i: int| 0 <= i < l implies rest.contains(i) by {
            assert(pulled.contains(i));
            let k = choose|k: int| 0 <= k < pulled.len() && pulled[k] == i;
            if k < p {
                assert(rest[k] == i);
            } else {
                assert(rest[k - 1] == i);
            }
        }
        lemma_pool_matches_sequential(table2, rest);

        assert(rest.map_values(f2) =~= rest.map_values(f)) by {
            assert forall|k: int| 0 <= k < rest.len() implies rest.map_values(f2)[k]
                == rest.map_values(f)[k] by {
                assert(table2[rest[k]] == table[rest[k]]);
            }
        }
        assert(pulled.map_values(f).remove(p) =~= rest.map_values(f));
        assert(pulled.map_values(f)[p] == table[l]);
        assert(pulled.map_values(f).remove(p).to_multiset() =~= pulled.map_values(
            f,
        ).to_multiset().remove(table[l]));
        assert(pulled.map_values(f).contains(table[l])) by {
            assert(pulled.map_values(f)[p] == table[l]);
        }
        assert(pulled.map_values(f).to_multiset().count(table[l]) > 0);
        assert(pulled.map_values(f).to_multiset() =~= rest.map_values(f).to_multiset().insert(
            table[l],
        ));
        assert(table2.push(table[l]) =~= table);
        assert(table.to_multiset() =~= table2.to_multiset().insert(table[l]));
    }
}

} // verus!
