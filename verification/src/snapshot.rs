//! The snapshot that requests are bound to. A request takes the current
//! snapshot once, when it starts, and reads from that one until it ends; a
//! refresh replaces the current snapshot as a whole and leaves the ones that
//! were handed out as they are.

use std::sync::Arc;
use vstd::prelude::*;

verus! {

/// Calls `Arc::clone`, which hands out another pointer to the same value.
#[verifier::external_body]
fn share<S>(snapshot: &Arc<S>) -> (shared: Arc<S>)
    ensures
        shared == *snapshot,
{
    Arc::clone(snapshot)
}

/// The snapshot that the next request is bound to, given the one before a
/// refresh and what came of reopening the store: the fresh one, or the one
/// before where the store could not be reopened.
pub open spec fn after_refresh<S>(current: S, reopened: Option<S>) -> S {
    match reopened {
        Some(fresh) => fresh,
        None => current,
    }
}

/// The snapshot that the next request is bound to after a run of refreshes,
/// given the first snapshot and what came of each reopening, in order.
pub open spec fn serving<S>(first: S, outcomes: Seq<Option<S>>) -> S
    decreases outcomes.len(),
{
    if outcomes.len() == 0 {
        first
    } else {
        after_refresh(serving(first, outcomes.drop_last()), outcomes.last())
    }
}

/// After a run of refreshes the next request is bound to the snapshot of the
/// last reopening that gave one, whatever failed after it, and to the first
/// snapshot where no reopening gave one.
pub proof fn serves_the_latest_snapshot<S>(first: S, outcomes: Seq<Option<S>>)
    ensures
        (forall|i: int| 0 <= i < outcomes.len() ==> outcomes[i] is None) ==> serving(
            first,
            outcomes,
        ) == first,
        forall|k: int|
            0 <= k < outcomes.len() && (#[trigger] outcomes[k]) is Some && (forall|j: int|
                k < j < outcomes.len() ==> outcomes[j] is None) ==> serving(first, outcomes)
                == outcomes[k]->0,
    decreases outcomes.len(),
{
    if outcomes.len() > 0 {
        let before = outcomes.drop_last();
        serves_the_latest_snapshot(first, before);
        assert forall|k: int|
            0 <= k < outcomes.len() && (#[trigger] outcomes[k]) is Some && (forall|j: int|
                k < j < outcomes.len() ==> outcomes[j] is None) implies serving(first, outcomes)
            == outcomes[k]->0 by {
            if k < outcomes.len() - 1 {
                assert(outcomes[outcomes.len() - 1] is None);
                assert(before[k] == outcomes[k]);
                assert(forall|j: int| k < j < before.len() ==> before[j] == outcomes[j]);
            }
        }
        if forall|i: int| 0 <= i < outcomes.len() ==> outcomes[i] is None {
            assert(outcomes[outcomes.len() - 1] is None);
            assert(forall|i: int| 0 <= i < before.len() ==> before[i] == outcomes[i]);
        }
    }
}

/// The owner of the current snapshot.
pub struct SnapshotManager<S> {
    current: Arc<S>,
}

impl<S> SnapshotManager<S> {
    /// The snapshot that the next request is bound to.
    pub closed spec fn snapshot(&self) -> S {
        *self.current
    }

    /// A manager that serves a first snapshot. There is no manager without one.
    pub fn new(first: S) -> (manager: SnapshotManager<S>)
        ensures
            manager.snapshot() == first,
    {
        SnapshotManager { current: Arc::new(first) }
    }

    /// The current snapshot, for one request to hold until it ends.
    pub fn current(&self) -> (bound: Arc<S>)
        ensures
            *bound == self.snapshot(),
    {
        share(&self.current)
    }

    /// Takes in what came of reopening the store: a fresh snapshot becomes the
    /// current one; without one the current one stays. Says whether a snapshot
    /// was published.
    pub fn refresh(&mut self, reopened: Option<S>) -> (published: bool)
        ensures
            published == (reopened is Some),
            final(self).snapshot() == after_refresh(old(self).snapshot(), reopened),
    {
        match reopened {
            Some(fresh) => {
                self.current = Arc::new(fresh);
                true
            },
            None => false,
        }
    }
}

} // verus!
