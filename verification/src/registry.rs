//! The registry cache: an in-memory mirror of the persistent model table.
//!
//! The cache is refreshed wholesale: a refresh either replaces the contents
//! with exactly what the store returned or, on a storage failure, leaves them
//! untouched — never a partial replacement. The caller performs the store
//! round trips (they suspend; nothing here does) and feeds each outcome to
//! the decision functions below, which own the consistency policy.

use vstd::prelude::*;

use crate::errors::StorageError;
use crate::model::ModelSpec;
use crate::model::ModelSpecView;
use crate::model::models_view;

verus! {

/// Contents of the cache after a refresh whose fetch ended with `ok`:
/// the fetched list on success, the prior contents on failure.
pub open spec fn refresh_step(
    cache: Seq<ModelSpecView>,
    ok: bool,
    fetched: Seq<ModelSpecView>,
) -> Seq<ModelSpecView> {
    if ok {
        fetched
    } else {
        cache
    }
}

/// In-memory list of model descriptors, mirror of the persistent table.
/// One instance is shared per server under a mutual-exclusion lock held only
/// for a copy or a swap; each locked access is one call below.
pub struct RegistryCache {
    models: Vec<ModelSpec>,
}

impl View for RegistryCache {
    type V = Seq<ModelSpecView>;

    closed spec fn view(&self) -> Seq<ModelSpecView> {
        models_view(self.models@)
    }
}

impl RegistryCache {
    /// A server starts with an empty cache; the contents arrive with the
    /// first successful refresh.
    pub fn new() -> (r: RegistryCache)
        ensures
            r@ == Seq::<ModelSpecView>::empty(),
    {
        RegistryCache { models: Vec::new() }
    }

    /// Snapshot read: a copy of the current contents, taken in full. The
    /// caller streams from the copy after releasing the lock, so no consumer
    /// ever observes the lock held across I/O.
    pub fn list(&self) -> (r: Vec<ModelSpec>)
        ensures
            models_view(r@) == self@,
            r@.len() == self@.len(),
    {
        let r = self.models.clone();
        proof {
            assert(models_view(r@) =~= self@);
        }
        r
    }

    /// Completes a refresh: `fetched` is the outcome of the full-table read.
    /// On success the contents become exactly the fetched list (atomic swap);
    /// on failure they stay untouched and the error propagates.
    pub fn apply_refresh(&mut self, fetched: Result<Vec<ModelSpec>, StorageError>) -> (r: Result<
        (),
        StorageError,
    >)
        ensures
            final(self)@ == refresh_step(old(self)@, fetched is Ok, fetched_models(fetched)),
            fetched is Ok <==> r is Ok,
            fetched matches Err(e) ==> r == Err::<(), StorageError>(e),
    {
        match fetched {
            Ok(models) => {
                self.models = models;
                Ok(())
            },
            Err(e) => Err(e),
        }
    }

    /// Completes a refresh at startup, where a storage failure is reported
    /// for logging but must not abort: the cache simply stays as it was.
    pub fn startup_refresh(&mut self, fetched: Result<Vec<ModelSpec>, StorageError>) -> (r: Option<
        StorageError,
    >)
        ensures
            final(self)@ == refresh_step(old(self)@, fetched is Ok, fetched_models(fetched)),
            fetched is Ok <==> r is None,
            fetched matches Err(e) ==> r == Some(e),
    {
        match self.apply_refresh(fetched) {
            Ok(()) => None,
            Err(e) => Some(e),
        }
    }

    /// Completes a batch addition after a successful insert of `rows` rows:
    /// the mandated refresh ran and ended in `fetched`. On a fetch failure
    /// the cache stays stale (untouched) and the error propagates; only on a
    /// successful refresh does the call report the row count.
    pub fn finish_add_batch(
        &mut self,
        rows: u64,
        fetched: Result<Vec<ModelSpec>, StorageError>,
    ) -> (r: Result<u64, StorageError>)
        ensures
            final(self)@ == refresh_step(old(self)@, fetched is Ok, fetched_models(fetched)),
            fetched is Ok ==> r == Ok::<u64, StorageError>(rows),
            fetched matches Err(e) ==> r == Err::<u64, StorageError>(e),
    {
        match self.apply_refresh(fetched) {
            Ok(()) => Ok(rows),
            Err(e) => Err(e),
        }
    }
}

/// Abstract contents of a fetch outcome (empty on failure; only read under
/// `is Ok`).
pub open spec fn fetched_models(fetched: Result<Vec<ModelSpec>, StorageError>) -> Seq<
    ModelSpecView,
> {
    match fetched {
        Ok(models) => models_view(models@),
        Err(_) => Seq::empty(),
    }
}

/// What to do once the batched insert of an `add_batch` has ended: refresh
/// the cache on success, abort with the storage error on failure — the cache
/// is never touched on an aborted batch.
#[derive(Debug, PartialEq, Eq)]
pub enum AddBatchAction {
    /// The insert wrote `rows` rows; run the full-table refresh next.
    Refresh { rows: u64 },
    /// The insert failed; the batch is over and the error propagates.
    Abort { error: StorageError },
}

/// Decision taken between the two store round trips of an `add_batch`.
pub fn plan_after_insert(insert_result: Result<u64, StorageError>) -> (r: AddBatchAction)
    ensures
        insert_result matches Ok(rows) ==> r == (AddBatchAction::Refresh { rows }),
        insert_result matches Err(e) ==> r == (AddBatchAction::Abort { error: e }),
{
    match insert_result {
        Ok(rows) => AddBatchAction::Refresh { rows },
        Err(error) => AddBatchAction::Abort { error },
    }
}

/// Law: a refresh is an atomic swap. A reader serialized against a single
/// refresh (the lock admits one party at a time) observes the cache either as
/// it stood before the refresh or as the full fetched list — never a mixture
/// of the two, whatever the fetch outcome was.
pub proof fn lemma_snapshot_never_torn(
    cache: Seq<ModelSpecView>,
    ok: bool,
    fetched: Seq<ModelSpecView>,
    observed: Seq<ModelSpecView>,
)
    requires
        observed == cache || observed == refresh_step(cache, ok, fetched),
    ensures
        observed == cache || observed == fetched,
{
}

/// Law: a failed batch addition leaves a subsequent snapshot identical to
/// the contents just before the call. If the insert itself failed the cache
/// is never touched at all (`plan_after_insert` aborts before any refresh);
/// if the insert succeeded but the mandated refresh failed, the swap does
/// not happen — stated here — and `list` copies the prior contents exactly.
pub proof fn lemma_failed_add_batch_keeps_snapshot(
    cache: Seq<ModelSpecView>,
    fetched: Seq<ModelSpecView>,
)
    ensures
        refresh_step(cache, false, fetched) == cache,
{
}

/// Contents of the persistent table after a run of successful batched
/// inserts starting from an empty table: each insert appends its batch.
pub open spec fn store_after(batches: Seq<Seq<ModelSpecView>>) -> Seq<ModelSpecView>
    decreases batches.len(),
{
    if batches.len() == 0 {
        Seq::empty()
    } else {
        store_after(batches.drop_last()) + batches.last()
    }
}

/// Total number of descriptors across all batches.
pub open spec fn total_added(batches: Seq<Seq<ModelSpecView>>) -> nat
    decreases batches.len(),
{
    if batches.len() == 0 {
        0
    } else {
        total_added(batches.drop_last()) + batches.last().len()
    }
}

/// No two descriptors of the list share a model id.
pub open spec fn unique_ids(s: Seq<ModelSpecView>) -> bool {
    forall|i: int, j: int|
        0 <= i < j < s.len() ==> s[i].model_id != s[j].model_id
}

/// No two descriptors anywhere in the batches share a model id.
pub open spec fn disjoint_batch_ids(batches: Seq<Seq<ModelSpecView>>) -> bool {
    forall|i: int, k: int, j: int, l: int|
        #![trigger batches[i][k].model_id, batches[j][l].model_id]
        0 <= i < batches.len() && 0 <= k < batches[i].len() && 0 <= j < batches.len() && 0 <= l
            < batches[j].len() && (i != j || k != l) ==> batches[i][k].model_id
            != batches[j][l].model_id
}

/// Law: after any run of successful `add_batch` calls with pairwise-disjoint
/// model ids, starting from an empty table, a refreshed cache — which equals
/// the table by `finish_add_batch`'s contract — holds exactly the union of
/// the added descriptors: each one exactly once, no duplicate ids, and a
/// count equal to the total added.
pub proof fn lemma_disjoint_batches_union(batches: Seq<Seq<ModelSpecView>>)
    requires
        disjoint_batch_ids(batches),
    ensures
        store_after(batches).len() == total_added(batches),
        unique_ids(store_after(batches)),
        forall|m: ModelSpecView| #[trigger]
            store_after(batches).contains(m) <==> exists|i: int|
                0 <= i < batches.len() && #[trigger] batches[i].contains(m),
    decreases batches.len(),
{
    if batches.len() == 0 {
        assert forall|m: ModelSpecView| #[trigger]
            store_after(batches).contains(m) <==> exists|i: int|
                0 <= i < batches.len() && #[trigger] batches[i].contains(m) by {
            if store_after(batches).contains(m) {
                let a = choose|a: int|
                    0 <= a < store_after(batches).len() && store_after(batches)[a] == m;
            }
        }
    } else {
        let pre = batches.drop_last();
        let last = batches.last();
        let n = batches.len() - 1;
        assert(disjoint_batch_ids(pre)) by {
            assert forall|i: int, k: int, j: int, l: int|
                #![trigger pre[i][k].model_id, pre[j][l].model_id]
                0 <= i < pre.len() && 0 <= k < pre[i].len() && 0 <= j < pre.len() && 0 <= l
                    < pre[j].len() && (i != j || k != l) implies pre[i][k].model_id
                != pre[j][l].model_id by {
                assert(batches[i][k].model_id != batches[j][l].model_id);
            }
        }
        lemma_disjoint_batches_union(pre);
        let whole = store_after(batches);
        let head = store_after(pre);
        assert(whole == head + last);

        assert forall|m: ModelSpecView| #[trigger]
            whole.contains(m) <==> exists|i: int|
                0 <= i < batches.len() && #[trigger] batches[i].contains(m) by {
            if whole.contains(m) {
                let a = choose|a: int| 0 <= a < whole.len() && whole[a] == m;
                if a < head.len() {
                    assert(head.contains(m));
                    let i = choose|i: int| 0 <= i < pre.len() && #[trigger] pre[i].contains(m);
                    assert(batches[i].contains(m));
                } else {
                    assert(last[a - head.len()] == m);
                    assert(batches[n].contains(m));
                }
            }
            if exists|i: int| 0 <= i < batches.len() && #[trigger] batches[i].contains(m) {
                let i = choose|i: int| 0 <= i < batches.len() && #[trigger] batches[i].contains(m);
                let k = choose|k: int| 0 <= k < batches[i].len() && batches[i][k] == m;
                if i < n {
                    assert(pre[i].contains(m));
                    assert(head.contains(m));
                    let a = choose|a: int| 0 <= a < head.len() && head[a] == m;
                    assert(whole[a] == m);
                } else {
                    assert(whole[head.len() + k] == m);
                }
                assert(whole.contains(m));
            }
        }

        assert forall|a: int, b: int| 0 <= a < b < whole.len() implies whole[a].model_id
            != whole[b].model_id by {
            let h = head.len() as int;
            if b < h {
                assert(head[a].model_id != head[b].model_id);
            } else if a >= h {
                assert(batches[n][a - h].model_id != batches[n][b - h].model_id);
            } else {
                let m = head[a];
                assert(head.contains(m));
                let i = choose|i: int| 0 <= i < pre.len() && #[trigger] pre[i].contains(m);
                let k = choose|k: int| 0 <= k < pre[i].len() && pre[i][k] == m;
                assert(batches[i][k].model_id != batches[n][b - h].model_id);
            }
        }
    }
}

} // verus!
