//! The queue of high-risk operations that wait for a local decision.
//!
//! An operation the policy flags with `RequireApproval` waits here, keyed by
//! its operation id, until a local user approves or denies it; a connected
//! transport never releases it. An approval whose decision could not be
//! persisted puts the operation back, but never over an entry that was
//! decided again meanwhile; a revoked session takes all its waiting
//! operations with it.

use vstd::prelude::*;

use crate::capability::Capability;
use crate::ids::{OperationId, SessionId, WorkspaceId};
use crate::operation::OperationRequest;
use crate::risk::RiskLevel;

verus! {

/// A high-risk operation waiting for local approval.
#[derive(Debug, Clone)]
pub struct PendingOperation {
    pub request: OperationRequest,
    pub capability: Capability,
    pub risk: RiskLevel,
}

/// What a listing of the queue shows of one waiting operation.
#[derive(Debug, Clone, PartialEq, Eq)]
pub struct PendingSummary {
    pub operation_id: OperationId,
    pub session_id: SessionId,
    pub workspace_id: WorkspaceId,
    pub tool_name: String,
    pub risk: RiskLevel,
}

/// The listing entry of a waiting operation, as plain values.
pub struct SummaryView {
    pub operation_id: OperationId,
    pub session_id: SessionId,
    pub workspace_id: WorkspaceId,
    pub tool_name: Seq<char>,
    pub risk: RiskLevel,
}

impl View for PendingSummary {
    type V = SummaryView;

    open spec fn view(&self) -> SummaryView {
        SummaryView {
            operation_id: self.operation_id,
            session_id: self.session_id,
            workspace_id: self.workspace_id,
            tool_name: self.tool_name@,
            risk: self.risk,
        }
    }
}

/// The listing entry of `p`.
pub open spec fn summary_of(p: PendingOperation) -> SummaryView {
    SummaryView {
        operation_id: p.request.operation_id,
        session_id: p.request.session_id,
        workspace_id: p.request.workspace_id,
        tool_name: p.request.tool_name@,
        risk: p.risk,
    }
}

/// The queue after `p` is put back: unchanged where its id is already
/// waiting, else with `p` added.
pub open spec fn requeued(
    queue: Map<OperationId, PendingOperation>,
    p: PendingOperation,
) -> Map<OperationId, PendingOperation> {
    if queue.contains_key(p.request.operation_id) {
        queue
    } else {
        queue.insert(p.request.operation_id, p)
    }
}

/// The queue without the operations of session `session_id`.
pub open spec fn without_session(
    queue: Map<OperationId, PendingOperation>,
    session_id: SessionId,
) -> Map<OperationId, PendingOperation> {
    queue.restrict(queue.dom().filter(|id: OperationId| queue[id].request.session_id != session_id))
}

/// Waiting operations, keyed by operation id.
pub struct PendingOperations {
    entries: Vec<PendingOperation>,
    model: Ghost<Map<OperationId, PendingOperation>>,
}

impl PendingOperations {
    #[verifier::type_invariant]
    spec fn well_formed(self) -> bool {
        &&& forall|i: int|
            0 <= i < self.entries.len() ==> {
                &&& self.model@.contains_key(#[trigger] self.entries@[i].request.operation_id)
                &&& self.model@[self.entries@[i].request.operation_id] == self.entries@[i]
            }
        &&& forall|id: OperationId|
            #[trigger] self.model@.contains_key(id) ==> exists|i: int|
                0 <= i < self.entries.len() && self.entries@[i].request.operation_id == id
        &&& forall|i: int, j: int|
            0 <= i < self.entries.len() && 0 <= j < self.entries.len() && i != j
                ==> self.entries@[i].request.operation_id != self.entries@[j].request.operation_id
    }

    /// The waiting operations, keyed by operation id.
    pub closed spec fn view(&self) -> Map<OperationId, PendingOperation> {
        self.model@
    }

    /// An empty queue.
    pub fn new() -> (q: PendingOperations)
        ensures
            q.view() == Map::<OperationId, PendingOperation>::empty(),
    {
        PendingOperations { entries: Vec::new(), model: Ghost(Map::empty()) }
    }

    /// The number of waiting operations.
    pub fn len(&self) -> (n: usize)
        ensures
            n == self.view().len(),
    {
        proof {
            use_type_invariant(self);
            self.lemma_model_len();
        }
        self.entries.len()
    }

    proof fn lemma_model_len(&self)
        requires
            self.well_formed(),
        ensures
            self.model@.dom().finite(),
            self.model@.len() == self.entries.len(),
    {
        let ids = Seq::new(
            self.entries.len() as nat,
            |i: int| self.entries@[i].request.operation_id,
        );
        assert forall|i: int, j: int| 0 <= i < ids.len() && 0 <= j < ids.len() && i != j implies ids[i]
            != ids[j] by {}
        ids.unique_seq_to_set();
        assert(ids.to_set() =~= self.model@.dom()) by {
            assert forall|id: OperationId| self.model@.dom().contains(id) implies ids.to_set().contains(
                id,
            ) by {
                let i = choose|i: int|
                    0 <= i < self.entries.len() && self.entries@[i].request.operation_id == id;
                assert(ids[i] == id);
            }
            assert forall|id: OperationId| ids.to_set().contains(id) implies self.model@.dom().contains(
                id,
            ) by {
                let i = choose|i: int| 0 <= i < ids.len() && ids[i] == id;
                assert(self.model@.contains_key(self.entries@[i].request.operation_id));
            }
        }
    }

    /// The position of operation `id` in the entries, if it waits.
    fn position(&self, id: OperationId) -> (r: Option<usize>)
        requires
            self.well_formed(),
        ensures
            match r {
                Some(i) => i < self.entries.len() && self.entries@[i as int].request.operation_id
                    == id,
                None => !self.model@.contains_key(id),
            },
    {
        let mut i: usize = 0;
        while i < self.entries.len()
            invariant
                i <= self.entries.len(),
                forall|j: int| 0 <= j < i ==> self.entries@[j].request.operation_id != id,
            decreases self.entries.len() - i,
        {
            if self.entries[i].request.operation_id == id {
                return Some(i);
            }
            i = i + 1;
        }
        proof {
            if self.model@.contains_key(id) {
                let j = choose|j: int|
                    0 <= j < self.entries.len() && self.entries@[j].request.operation_id == id;
                assert(self.entries@[j].request.operation_id != id);
            }
        }
        None
    }

    /// Whether operation `id` is waiting.
    pub fn contains(&self, id: OperationId) -> (r: bool)
        ensures
            r == self.view().contains_key(id),
    {
        proof {
            use_type_invariant(self);
        }
        match self.position(id) {
            Some(i) => {
                proof {
                    assert(self.model@.contains_key(self.entries@[i as int].request.operation_id));
                }
                true
            },
            None => false,
        }
    }

    /// Puts `p` in the queue under its operation id, replacing an entry
    /// already waiting under that id.
    pub fn insert(&mut self, p: PendingOperation)
        ensures
            final(self).view() == old(self).view().insert(p.request.operation_id, p),
    {
        proof {
            use_type_invariant(&*self);
        }
        let id = p.request.operation_id;
        let ghost old_model = self.model@;
        let ghost new_model = old_model.insert(id, p);
        match self.position(id) {
            Some(i) => {
                let mut current = PendingOperations::new();
                std::mem::swap(&mut current, self);
                let PendingOperations { entries: mut entries, model: _ } = current;
                let ghost old_entries = entries@;
                entries.set(i, p);
                proof {
                    assert forall|j: int| 0 <= j < entries.len() implies {
                        &&& new_model.contains_key(#[trigger] entries@[j].request.operation_id)
                        &&& new_model[entries@[j].request.operation_id] == entries@[j]
                    } by {
                        if j != i {
                            assert(old_entries[j].request.operation_id != id);
                        }
                    }
                    assert forall|k: OperationId| #[trigger] new_model.contains_key(k) implies exists|
                        j: int,
                    |
                        0 <= j < entries.len() && entries@[j].request.operation_id == k by {
                        if k == id {
                            assert(entries@[i as int].request.operation_id == k);
                        } else {
                            let j = choose|j: int|
                                0 <= j < old_entries.len() && old_entries[j].request.operation_id
                                    == k;
                            assert(j != i);
                            assert(entries@[j].request.operation_id == k);
                        }
                    }
                }
                *self = PendingOperations { entries, model: Ghost(new_model) };
            },
            None => {
                let mut current = PendingOperations::new();
                std::mem::swap(&mut current, self);
                let PendingOperations { entries: mut entries, model: _ } = current;
                let ghost old_entries = entries@;
                entries.push(p);
                proof {
                    assert forall|j: int| 0 <= j < entries.len() implies {
                        &&& new_model.contains_key(#[trigger] entries@[j].request.operation_id)
                        &&& new_model[entries@[j].request.operation_id] == entries@[j]
                    } by {
                        if j < old_entries.len() {
                            assert(old_model.contains_key(old_entries[j].request.operation_id));
                        }
                    }
                    assert forall|k: OperationId| #[trigger] new_model.contains_key(k) implies exists|
                        j: int,
                    |
                        0 <= j < entries.len() && entries@[j].request.operation_id == k by {
                        if k == id {
                            assert(entries@[old_entries.len() as int].request.operation_id == k);
                        } else {
                            let j = choose|j: int|
                                0 <= j < old_entries.len() && old_entries[j].request.operation_id
                                    == k;
                            assert(entries@[j].request.operation_id == k);
                        }
                    }
                    assert forall|a: int, b: int|
                        0 <= a < entries.len() && 0 <= b < entries.len() && a != b implies entries@[a].request.operation_id
                        != entries@[b].request.operation_id by {
                        if a == old_entries.len() {
                            assert(old_model.contains_key(old_entries[b].request.operation_id));
                        } else if b == old_entries.len() {
                            assert(old_model.contains_key(old_entries[a].request.operation_id));
                        }
                    }
                }
                *self = PendingOperations { entries, model: Ghost(new_model) };
            },
        }
    }

    /// Takes operation `id` out of the queue, if it waits: the entry is
    /// handed to the caller and the rest of the queue stays as it was.
    pub fn take(&mut self, id: OperationId) -> (r: Option<PendingOperation>)
        ensures
            r is Some <==> old(self).view().contains_key(id),
            r is Some ==> r->Some_0 == old(self).view()[id] && r->Some_0.request.operation_id == id,
            final(self).view() == old(self).view().remove(id),
    {
        proof {
            use_type_invariant(&*self);
        }
        match self.position(id) {
            None => {
                proof {
                    assert(self.model@.remove(id) =~= self.model@);
                }
                None
            },
            Some(i) => {
                let ghost old_model = self.model@;
                let mut current = PendingOperations::new();
                std::mem::swap(&mut current, self);
                let PendingOperations { entries: mut entries, model: _ } = current;
                let ghost old_entries = entries@;
                let ghost new_model = old_model.remove(id);
                let p = entries.remove(i);
                proof {
                    assert(old_model.contains_key(old_entries[i as int].request.operation_id));
                    assert forall|j: int| 0 <= j < entries.len() implies {
                        &&& new_model.contains_key(#[trigger] entries@[j].request.operation_id)
                        &&& new_model[entries@[j].request.operation_id] == entries@[j]
                    } by {
                        if j < i {
                            assert(entries@[j] == old_entries[j]);
                            assert(old_model.contains_key(old_entries[j].request.operation_id));
                        } else {
                            assert(entries@[j] == old_entries[j + 1]);
                            assert(old_model.contains_key(old_entries[j + 1].request.operation_id));
                        }
                    }
                    assert forall|k: OperationId| #[trigger] new_model.contains_key(k) implies exists|
                        j: int,
                    |
                        0 <= j < entries.len() && entries@[j].request.operation_id == k by {
                        let j = choose|j: int|
                            0 <= j < old_entries.len() && old_entries[j].request.operation_id == k;
                        assert(j != i);
                        if j < i {
                            assert(entries@[j].request.operation_id == k);
                        } else {
                            assert(entries@[j - 1].request.operation_id == k);
                        }
                    }
                    assert forall|a: int, b: int|
                        0 <= a < entries.len() && 0 <= b < entries.len() && a != b implies entries@[a].request.operation_id
                        != entries@[b].request.operation_id by {
                        let oa = if a < i {
                            a
                        } else {
                            a + 1
                        };
                        let ob = if b < i {
                            b
                        } else {
                            b + 1
                        };
                        assert(entries@[a] == old_entries[oa]);
                        assert(entries@[b] == old_entries[ob]);
                    }
                }
                *self = PendingOperations { entries, model: Ghost(new_model) };
                Some(p)
            },
        }
    }

    /// Puts back an operation whose approval could not be recorded. An
    /// entry already waiting under its id, decided again meanwhile, is
    /// never overwritten.
    pub fn requeue(&mut self, p: PendingOperation)
        ensures
            final(self).view() == requeued(old(self).view(), p),
    {
        if !self.contains(p.request.operation_id) {
            self.insert(p);
        }
    }

    /// Removes every waiting operation of session `session_id` and returns
    /// their ids, each once.
    pub fn remove_for_session(&mut self, session_id: SessionId) -> (removed: Vec<OperationId>)
        ensures
            final(self).view() == without_session(old(self).view(), session_id),
            forall|k: int|
                0 <= k < removed.len() ==> old(self).view().contains_key(#[trigger] removed@[k])
                    && old(self).view()[removed@[k]].request.session_id == session_id,
            forall|id: OperationId|
                old(self).view().contains_key(id) && old(self).view()[id].request.session_id
                    == session_id ==> #[trigger] removed@.contains(id),
            removed@.no_duplicates(),
    {
        proof {
            use_type_invariant(&*self);
        }
        let ghost old_model = self.model@;
        let mut current = PendingOperations::new();
        std::mem::swap(&mut current, self);
        let PendingOperations { entries: mut entries, model: _ } = current;
        let ghost old_entries = entries@;
        let ghost target = without_session(old_model, session_id);
        let mut kept: Vec<PendingOperation> = Vec::new();
        let mut removed: Vec<OperationId> = Vec::new();
        let ghost mut i: int = 0;
        let ghost mut kept_src: Seq<int> = Seq::empty();
        let ghost mut removed_src: Seq<int> = Seq::empty();
        while entries.len() > 0
            invariant
                0 <= i <= old_entries.len(),
                entries@ == old_entries.subrange(i, old_entries.len() as int),
                forall|a: int|
                    0 <= a < old_entries.len() ==> {
                        &&& old_model.contains_key(#[trigger] old_entries[a].request.operation_id)
                        &&& old_model[old_entries[a].request.operation_id] == old_entries[a]
                    },
                forall|a: int, b: int|
                    0 <= a < old_entries.len() && 0 <= b < old_entries.len() && a != b
                        ==> old_entries[a].request.operation_id
                        != old_entries[b].request.operation_id,
                kept_src.len() == kept.len(),
                forall|k: int|
                    0 <= k < kept.len() ==> 0 <= #[trigger] kept_src[k] < i && old_entries[kept_src[k]]
                        == kept@[k] && old_entries[kept_src[k]].request.session_id != session_id,
                forall|a: int|
                    0 <= a < i && old_entries[a].request.session_id != session_id ==> exists|k: int|
                        0 <= k < kept.len() && #[trigger] kept@[k] == old_entries[a],
                removed_src.len() == removed.len(),
                forall|k: int|
                    0 <= k < removed.len() ==> 0 <= #[trigger] removed_src[k] < i
                        && old_entries[removed_src[k]].request.operation_id == removed@[k]
                        && old_entries[removed_src[k]].request.session_id == session_id,
                forall|a: int|
                    0 <= a < i && old_entries[a].request.session_id == session_id
                        ==> removed@.contains(old_entries[a].request.operation_id),
                forall|k: int, l: int|
                    0 <= k < kept.len() && 0 <= l < kept.len() && k != l
                        ==> kept@[k].request.operation_id != kept@[l].request.operation_id,
                removed@.no_duplicates(),
                forall|k: int, a: int|
                    0 <= k < removed.len() && i <= a < old_entries.len()
                        ==> removed@[k] != old_entries[a].request.operation_id,
                forall|k: int, a: int|
                    0 <= k < kept.len() && i <= a < old_entries.len()
                        ==> kept@[k].request.operation_id != old_entries[a].request.operation_id,
            decreases entries.len(),
        {
            let entry = entries.remove(0);
            let ghost kept_before = kept@;
            let ghost removed_before = removed@;
            proof {
                assert(entry == old_entries[i]);
            }
            let entry_kept = entry.request.session_id != session_id;
            if !entry_kept {
                removed.push(entry.request.operation_id);
            } else {
                kept.push(entry);
            }
            proof {
                let prev = i;
                i = i + 1;
                if entry_kept {
                    kept_src = kept_src.push(prev);
                }
                if !entry_kept {
                    removed_src = removed_src.push(prev);
                }
                assert forall|a: int|
                    0 <= a < i && old_entries[a].request.session_id != session_id implies exists|k: int|
                    0 <= k < kept.len() && #[trigger] kept@[k] == old_entries[a] by {
                    if a < prev {
                        let k = choose|k: int| 0 <= k < kept_before.len() && kept_before[k] == old_entries[a];
                        assert(kept@[k] == old_entries[a]);
                    } else {
                        assert(kept@[kept.len() - 1] == old_entries[a]);
                    }
                }
                assert forall|a: int|
                    0 <= a < i && old_entries[a].request.session_id == session_id implies removed@.contains(
                    old_entries[a].request.operation_id,
                ) by {
                    if a < prev {
                        let k = choose|k: int|
                            0 <= k < removed_before.len() && removed_before[k]
                                == old_entries[a].request.operation_id;
                        assert(removed@[k] == old_entries[a].request.operation_id);
                    } else {
                        assert(removed@[removed.len() - 1] == old_entries[a].request.operation_id);
                    }
                }
                assert(entries@ =~= old_entries.subrange(i, old_entries.len() as int));
            }
        }
        proof {
            assert forall|j: int| 0 <= j < kept.len() implies {
                &&& target.contains_key(#[trigger] kept@[j].request.operation_id)
                &&& target[kept@[j].request.operation_id] == kept@[j]
            } by {
                let a = kept_src[j];
                assert(old_model.contains_key(old_entries[a].request.operation_id));
            }
            assert forall|k: OperationId| #[trigger] target.contains_key(k) implies exists|j: int|
                0 <= j < kept.len() && kept@[j].request.operation_id == k by {
                let a = choose|a: int|
                    0 <= a < old_entries.len() && old_entries[a].request.operation_id == k;
                assert(old_model[k] == old_entries[a]);
                let j = choose|j: int| 0 <= j < kept.len() && kept@[j] == old_entries[a];
                assert(kept@[j].request.operation_id == k);
            }
            assert forall|k: int|
                0 <= k < removed.len() implies old_model.contains_key(#[trigger] removed@[k])
                && old_model[removed@[k]].request.session_id == session_id by {
                let a = removed_src[k];
                assert(old_model.contains_key(old_entries[a].request.operation_id));
            }
            assert forall|id: OperationId|
                old_model.contains_key(id) && old_model[id].request.session_id
                    == session_id implies #[trigger] removed@.contains(id) by {
                let a = choose|a: int|
                    0 <= a < old_entries.len() && old_entries[a].request.operation_id == id;
                assert(old_model[id] == old_entries[a]);
            }
        }
        *self = PendingOperations { entries: kept, model: Ghost(target) };
        removed
    }

    /// A listing of the waiting operations: one entry per operation.
    pub fn summaries(&self) -> (list: Vec<PendingSummary>)
        ensures
            list.len() == self.view().len(),
            forall|k: int|
                0 <= k < list.len() ==> self.view().contains_key(#[trigger] list@[k].operation_id)
                    && list@[k]@ == summary_of(self.view()[list@[k].operation_id]),
            forall|id: OperationId|
                #[trigger] self.view().contains_key(id) ==> exists|k: int|
                    0 <= k < list.len() && list@[k].operation_id == id,
    {
        proof {
            use_type_invariant(self);
            self.lemma_model_len();
        }
        let mut list: Vec<PendingSummary> = Vec::new();
        let mut i: usize = 0;
        while i < self.entries.len()
            invariant
                self.well_formed(),
                i <= self.entries.len(),
                list.len() == i,
                forall|k: int|
                    0 <= k < i ==> list@[k].operation_id == self.entries@[k].request.operation_id
                        && #[trigger] list@[k]@ == summary_of(self.entries@[k]),
            decreases self.entries.len() - i,
        {
            let e = &self.entries[i];
            let s = PendingSummary {
                operation_id: e.request.operation_id,
                session_id: e.request.session_id,
                workspace_id: e.request.workspace_id,
                tool_name: e.request.tool_name.clone(),
                risk: e.risk,
            };
            list.push(s);
            proof {
                assert(list@[i as int]@ == summary_of(self.entries@[i as int]));
            }
            i = i + 1;
        }
        proof {
            assert forall|k: int|
                0 <= k < list.len() implies self.model@.contains_key(#[trigger] list@[k].operation_id)
                && list@[k]@ == summary_of(self.model@[list@[k].operation_id]) by {
                assert(list@[k]@ == summary_of(self.entries@[k]));
                assert(self.model@.contains_key(self.entries@[k].request.operation_id));
            }
            assert forall|id: OperationId| #[trigger] self.model@.contains_key(id) implies exists|
                k: int,
            |
                0 <= k < list.len() && list@[k].operation_id == id by {
                let a = choose|a: int|
                    0 <= a < self.entries.len() && self.entries@[a].request.operation_id == id;
                assert(list@[a].operation_id == id);
            }
        }
        list
    }
}

/// Putting back the operation just taken out restores the queue exactly.
pub proof fn lemma_take_then_requeue_restores(queue: Map<OperationId, PendingOperation>, id: OperationId)
    requires
        queue.contains_key(id),
        queue[id].request.operation_id == id,
    ensures
        requeued(queue.remove(id), queue[id]) == queue,
{
    assert(requeued(queue.remove(id), queue[id]) =~= queue);
}

/// Putting back an operation never overwrites one already waiting under
/// the same id.
pub proof fn lemma_requeue_never_overwrites(queue: Map<OperationId, PendingOperation>, p: PendingOperation)
    requires
        queue.contains_key(p.request.operation_id),
    ensures
        requeued(queue, p) == queue,
{
}

/// After a session's operations are removed, none of that session waits,
/// and every other session's operations wait unchanged.
pub proof fn lemma_revoked_session_leaves_nothing_waiting(
    queue: Map<OperationId, PendingOperation>,
    session_id: SessionId,
    id: OperationId,
)
    ensures
        without_session(queue, session_id).contains_key(id) ==> without_session(queue, session_id)[id].request.session_id
            != session_id,
        queue.contains_key(id) && queue[id].request.session_id != session_id ==> without_session(
            queue,
            session_id,
        ).contains_key(id) && without_session(queue, session_id)[id] == queue[id],
{
}

} // verus!
