//! The destructive batch executor: empties and then deletes each bucket of a
//! confirmed selection, in selection order, isolating failures so that one
//! bucket's failure never blocks attempts on the remaining buckets.
//!
//! The executor is a state machine over plain values. The surrounding binary
//! asks it for the next backend operation with [`BatchExecutor::next_action`],
//! performs that operation against the storage backend, and reports the
//! result back through one of the `on_*` methods. Every transition is
//! verified: per-bucket outcomes are recorded exactly once and in selection
//! order, a bucket whose empty stage fails is never sent to the delete stage,
//! and a finished run has attempted exactly one empty operation per bucket.

use vstd::prelude::*;

verus! {

/// One deletable unit within a bucket: a key together with the version id of
/// one revision of the object under that key.
#[derive(Clone, Debug, PartialEq, Eq)]
pub struct ObjectVersion {
    pub key: String,
    pub version_id: String,
}

/// The stage of a bucket's processing in which a failure occurred.
#[derive(Clone, Copy, Debug, PartialEq, Eq, Structural)]
pub enum Stage {
    /// Enumerating and deleting the bucket's object versions.
    Empty,
    /// Deleting the bucket itself.
    Delete,
}

/// Per-bucket result, collected across the batch for final reporting.
#[derive(Clone, Debug, PartialEq, Eq)]
pub enum RunOutcome {
    /// The bucket was emptied and deleted.
    Success,
    /// Processing the bucket failed at `stage`; later buckets are still
    /// attempted.
    Failure { stage: Stage, reason: String },
}

/// Where the executor stands within the bucket it is currently processing.
#[derive(Debug)]
pub enum Phase {
    /// Waiting for the listing of the current bucket's object versions.
    Listing,
    /// Deleting the listed versions one at a time; `pos` is the index of the
    /// version whose deletion is in flight.
    Emptying { versions: Vec<ObjectVersion>, pos: usize },
    /// The current bucket is empty; waiting for its deletion.
    Removing,
    /// Every bucket of the selection has been processed.
    Finished,
}

/// The backend operation the executor wants performed next.
#[derive(Clone, Debug, PartialEq, Eq)]
pub enum ExecAction {
    /// List every object version in `bucket`.
    ListVersions { bucket: String },
    /// Delete one object version from `bucket`.
    DeleteObject { bucket: String, key: String, version_id: String },
    /// Delete `bucket` itself.
    DeleteBucket { bucket: String },
    /// Nothing is left to do.
    Finished,
}

/// The batch executor. `buckets` is the confirmed selection; `idx` is the
/// index of the bucket currently being processed; `outcomes[i]` is the
/// recorded result for `buckets[i]`. `empty_attempts` counts completed
/// empty stages and `delete_attempts` completed bucket-deletion calls.
pub struct BatchExecutor {
    pub buckets: Vec<String>,
    pub idx: usize,
    pub phase: Phase,
    pub outcomes: Vec<RunOutcome>,
    pub empty_attempts: usize,
    pub delete_attempts: usize,
}

impl BatchExecutor {
    /// The executor's invariant: one outcome per completed bucket, the
    /// current position in bounds, `Finished` exactly when every bucket is
    /// done, and the attempt counters tied to the position.
    pub open spec fn wf(self) -> bool {
        &&& self.idx as int <= self.buckets@.len()
        &&& self.outcomes@.len() == self.idx as int
        &&& (self.phase is Finished <==> self.idx as int == self.buckets@.len())
        &&& (match self.phase {
            Phase::Emptying { versions, pos } => pos < versions@.len(),
            _ => true,
        })
        &&& self.empty_attempts as int == self.idx as int + (
        if self.phase is Listing || self.phase is Finished {
            0int
        } else {
            1int
        })
        &&& self.delete_attempts as int <= self.idx as int
    }

    /// A fresh executor for a confirmed selection: positioned on the first
    /// bucket (or already finished when the selection is empty), with no
    /// outcome recorded and no operation attempted yet.
    pub fn new(buckets: Vec<String>) -> (e: BatchExecutor)
        ensures
            e.wf(),
            e.buckets == buckets,
            e.idx == 0,
            e.outcomes@ =~= Seq::<RunOutcome>::empty(),
            e.empty_attempts == 0,
            e.delete_attempts == 0,
            buckets@.len() == 0 ==> e.phase is Finished,
            buckets@.len() > 0 ==> e.phase is Listing,
    {
        let phase = if buckets.len() == 0 {
            Phase::Finished
        } else {
            Phase::Listing
        };
        BatchExecutor {
            buckets,
            idx: 0,
            phase,
            outcomes: Vec::new(),
            empty_attempts: 0,
            delete_attempts: 0,
        }
    }

    /// True once every bucket of the selection has been processed.
    pub fn is_finished(&self) -> (r: bool)
        ensures
            r == (self.phase is Finished),
    {
        match self.phase {
            Phase::Finished => true,
            _ => false,
        }
    }

    /// The backend operation to perform next, determined by the phase: list
    /// the current bucket's versions, delete the version at the current
    /// position, delete the current bucket, or nothing.
    pub fn next_action(&self) -> (a: ExecAction)
        requires
            self.wf(),
        ensures
            self.phase is Listing ==> a == (ExecAction::ListVersions {
                bucket: self.buckets@[self.idx as int],
            }),
            (self.phase matches Phase::Emptying { versions, pos } ==> a == (ExecAction::DeleteObject {
                bucket: self.buckets@[self.idx as int],
                key: versions@[pos as int].key,
                version_id: versions@[pos as int].version_id,
            })),
            self.phase is Removing ==> a == (ExecAction::DeleteBucket {
                bucket: self.buckets@[self.idx as int],
            }),
            self.phase is Finished ==> a == ExecAction::Finished,
    {
        match &self.phase {
            Phase::Listing => ExecAction::ListVersions { bucket: self.buckets[self.idx].clone() },
            Phase::Emptying { versions, pos } => ExecAction::DeleteObject {
                bucket: self.buckets[self.idx].clone(),
                key: versions[*pos].key.clone(),
                version_id: versions[*pos].version_id.clone(),
            },
            Phase::Removing => ExecAction::DeleteBucket { bucket: self.buckets[self.idx].clone() },
            Phase::Finished => ExecAction::Finished,
        }
    }

    /// The listing of the current bucket's versions arrived. An empty bucket
    /// goes straight to the delete stage with zero object deletions and no
    /// outcome recorded; otherwise deletion starts at the first version.
    /// Running the empty stage on an already-empty bucket therefore issues no
    /// deletions and records no error, however often it is repeated.
    pub fn on_versions_listed(&mut self, versions: Vec<ObjectVersion>)
        requires
            old(self).wf(),
            old(self).phase is Listing,
        ensures
            final(self).wf(),
            final(self).buckets == old(self).buckets,
            final(self).idx == old(self).idx,
            final(self).outcomes == old(self).outcomes,
            final(self).empty_attempts == old(self).empty_attempts + 1,
            final(self).delete_attempts == old(self).delete_attempts,
            versions@.len() == 0 ==> final(self).phase is Removing,
            versions@.len() > 0 ==> (final(self).phase matches Phase::Emptying { versions: v, pos }
                && v == versions && pos == 0),
    {
        let n: usize = self.buckets.len();
        proof {
            assert(self.idx < n);
        }
        self.empty_attempts = self.empty_attempts + 1;
        if versions.len() == 0 {
            self.phase = Phase::Removing;
        } else {
            self.phase = Phase::Emptying { versions, pos: 0 };
        }
    }

    /// Listing the current bucket's versions failed: the bucket's empty stage
    /// is over, a `Failure` at the `Empty` stage is recorded for it, its
    /// delete stage is skipped, and the executor moves on to the next bucket.
    pub fn on_list_failed(&mut self, reason: String)
        requires
            old(self).wf(),
            old(self).phase is Listing,
        ensures
            final(self).wf(),
            final(self).buckets == old(self).buckets,
            final(self).idx == old(self).idx + 1,
            final(self).outcomes@ == old(self).outcomes@.push(RunOutcome::Failure {
                stage: Stage::Empty,
                reason,
            }),
            final(self).empty_attempts == old(self).empty_attempts + 1,
            final(self).delete_attempts == old(self).delete_attempts,
            (final(self).idx as int) < final(self).buckets@.len() ==> final(self).phase is Listing,
            (final(self).idx as int) == final(self).buckets@.len() ==> final(self).phase is Finished,
    {
        let n: usize = self.buckets.len();
        proof {
            assert(self.idx < n);
        }
        self.empty_attempts = self.empty_attempts + 1;
        self.outcomes.push(RunOutcome::Failure { stage: Stage::Empty, reason });
        self.idx = self.idx + 1;
        self.phase = if self.idx == self.buckets.len() {
            Phase::Finished
        } else {
            Phase::Listing
        };
    }

    /// One object version of the current bucket was deleted: move to the next
    /// version, or to the bucket's delete stage once all are gone.
    pub fn on_object_deleted(&mut self)
        requires
            old(self).wf(),
            old(self).phase is Emptying,
        ensures
            final(self).wf(),
            final(self).buckets == old(self).buckets,
            final(self).idx == old(self).idx,
            final(self).outcomes == old(self).outcomes,
            final(self).empty_attempts == old(self).empty_attempts,
            final(self).delete_attempts == old(self).delete_attempts,
            (old(self).phase matches Phase::Emptying { versions, pos } ==> {
                &&& pos + 1 < versions@.len() ==> (final(self).phase matches Phase::Emptying {
                    versions: v2,
                    pos: p2,
                } && v2 == versions && p2 == pos + 1)
                &&& pos + 1 == versions@.len() ==> final(self).phase is Removing
            }),
    {
        let done = match &self.phase {
            Phase::Emptying { versions, pos } => versions.len() == *pos + 1,
            _ => false,
        };
        if done {
            self.phase = Phase::Removing;
        } else {
            match &mut self.phase {
                Phase::Emptying { versions: _, pos } => {
                    *pos = *pos + 1;
                },
                _ => {},
            }
        }
    }

    /// Deleting one object version failed: the bucket's empty stage is over,
    /// a `Failure` at the `Empty` stage is recorded, the bucket's delete
    /// stage is skipped, and the executor moves on to the next bucket.
    pub fn on_object_delete_failed(&mut self, reason: String)
        requires
            old(self).wf(),
            old(self).phase is Emptying,
        ensures
            final(self).wf(),
            final(self).buckets == old(self).buckets,
            final(self).idx == old(self).idx + 1,
            final(self).outcomes@ == old(self).outcomes@.push(RunOutcome::Failure {
                stage: Stage::Empty,
                reason,
            }),
            final(self).empty_attempts == old(self).empty_attempts,
            final(self).delete_attempts == old(self).delete_attempts,
            (final(self).idx as int) < final(self).buckets@.len() ==> final(self).phase is Listing,
            (final(self).idx as int) == final(self).buckets@.len() ==> final(self).phase is Finished,
    {
        self.outcomes.push(RunOutcome::Failure { stage: Stage::Empty, reason });
        self.idx = self.idx + 1;
        self.phase = if self.idx == self.buckets.len() {
            Phase::Finished
        } else {
            Phase::Listing
        };
    }

    /// The current bucket was deleted: record `Success` for it and move on to
    /// the next bucket.
    pub fn on_bucket_deleted(&mut self)
        requires
            old(self).wf(),
            old(self).phase is Removing,
        ensures
            final(self).wf(),
            final(self).buckets == old(self).buckets,
            final(self).idx == old(self).idx + 1,
            final(self).outcomes@ == old(self).outcomes@.push(RunOutcome::Success),
            final(self).empty_attempts == old(self).empty_attempts,
            final(self).delete_attempts == old(self).delete_attempts + 1,
            (final(self).idx as int) < final(self).buckets@.len() ==> final(self).phase is Listing,
            (final(self).idx as int) == final(self).buckets@.len() ==> final(self).phase is Finished,
    {
        self.delete_attempts = self.delete_attempts + 1;
        self.outcomes.push(RunOutcome::Success);
        self.idx = self.idx + 1;
        self.phase = if self.idx == self.buckets.len() {
            Phase::Finished
        } else {
            Phase::Listing
        };
    }

    /// Deleting the current bucket failed: record a `Failure` at the `Delete`
    /// stage for it and move on to the next bucket.
    pub fn on_bucket_delete_failed(&mut self, reason: String)
        requires
            old(self).wf(),
            old(self).phase is Removing,
        ensures
            final(self).wf(),
            final(self).buckets == old(self).buckets,
            final(self).idx == old(self).idx + 1,
            final(self).outcomes@ == old(self).outcomes@.push(RunOutcome::Failure {
                stage: Stage::Delete,
                reason,
            }),
            final(self).empty_attempts == old(self).empty_attempts,
            final(self).delete_attempts == old(self).delete_attempts + 1,
            (final(self).idx as int) < final(self).buckets@.len() ==> final(self).phase is Listing,
            (final(self).idx as int) == final(self).buckets@.len() ==> final(self).phase is Finished,
    {
        self.delete_attempts = self.delete_attempts + 1;
        self.outcomes.push(RunOutcome::Failure { stage: Stage::Delete, reason });
        self.idx = self.idx + 1;
        self.phase = if self.idx == self.buckets.len() {
            Phase::Finished
        } else {
            Phase::Listing
        };
    }

    /// Hand out the per-bucket outcomes of a finished run, one per bucket and
    /// in selection order.
    pub fn into_outcomes(self) -> (r: Vec<RunOutcome>)
        requires
            self.wf(),
            self.phase is Finished,
        ensures
            r == self.outcomes,
            r@.len() == self.buckets@.len(),
    {
        self.outcomes
    }
}

/// Law: a bucket-deletion call is only ever issued — the executor only asks
/// for `DeleteBucket` — once the empty stage of that same bucket has been
/// attempted and completed without failure.
pub proof fn lemma_delete_only_after_empty_attempt(e: BatchExecutor)
    requires
        e.wf(),
        e.phase is Removing,
    ensures
        e.empty_attempts == e.idx + 1,
{
}

/// Law: a finished run has attempted exactly one empty operation per bucket
/// of the selection, at most one delete operation per bucket, and has
/// recorded exactly one outcome per bucket. Together with the transition
/// contracts above — each failure moves the executor to the next bucket, not
/// out of the run — this pins the executor's accounting: no bucket is skipped
/// because an earlier one failed, and none is processed twice.
pub proof fn lemma_batch_accounting(e: BatchExecutor)
    requires
        e.wf(),
        e.phase is Finished,
    ensures
        e.empty_attempts == e.buckets@.len(),
        e.delete_attempts <= e.buckets@.len(),
        e.outcomes@.len() == e.buckets@.len(),
{
}

} // verus!
