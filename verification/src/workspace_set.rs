//! An ordered set of workspace ids.
//!
//! Members are kept in increasing order of their ULID value, which is the
//! order in which ids of one kind sort; walking the set therefore visits
//! members from the oldest id to the newest.

use vstd::prelude::*;

use crate::ids::WorkspaceId;

verus! {

/// A set of workspace ids, kept sorted by id value without duplicates.
#[derive(Debug, PartialEq, Eq, Hash)]
pub struct WorkspaceIdSet {
    items: Vec<WorkspaceId>,
}

/// `items` is strictly increasing by id value.
pub open spec fn strictly_sorted(items: Seq<WorkspaceId>) -> bool {
    forall|i: int, j: int| 0 <= i < j < items.len() ==> items[i].value() < items[j].value()
}

impl View for WorkspaceIdSet {
    type V = Set<WorkspaceId>;

    closed spec fn view(&self) -> Set<WorkspaceId> {
        self.items@.to_set()
    }
}

impl WorkspaceIdSet {
    #[verifier::type_invariant]
    closed spec fn sorted(self) -> bool {
        strictly_sorted(self.items@)
    }

    /// The members, in increasing id order.
    pub closed spec fn members(self) -> Seq<WorkspaceId> {
        self.items@
    }

    /// The members in order are sorted, distinct, and exactly the set.
    proof fn lemma_members(self)
        requires
            strictly_sorted(self.items@),
        ensures
            strictly_sorted(self.members()),
            forall|w: WorkspaceId| #[trigger] self@.contains(w) <==> self.members().contains(w),
            self@.finite(),
            self@.len() == self.members().len(),
    {
        lemma_sorted_no_duplicates(self.items@);
        self.items@.unique_seq_to_set();
    }

    /// The empty set.
    pub fn new() -> (s: WorkspaceIdSet)
        ensures
            s@ == Set::<WorkspaceId>::empty(),
    {
        let s = WorkspaceIdSet { items: Vec::new() };
        assert(s.items@.to_set() =~= Set::<WorkspaceId>::empty());
        s
    }

    /// The set holding exactly `ids`.
    pub fn from_slice(ids: &[WorkspaceId]) -> (s: WorkspaceIdSet)
        ensures
            s@ == ids@.to_set(),
    {
        let mut s = WorkspaceIdSet::new();
        let mut i: usize = 0;
        while i < ids.len()
            invariant
                i <= ids@.len(),
                s@ == ids@.subrange(0, i as int).to_set(),
            decreases ids@.len() - i,
        {
            s.insert(ids[i]);
            assert(ids@.subrange(0, i + 1) =~= ids@.subrange(0, i as int).push(ids@[i as int]));
            proof {
                ids@.subrange(0, i as int).lemma_push_to_set_commute(ids@[i as int]);
            }
            i = i + 1;
        }
        assert(ids@.subrange(0, ids@.len() as int) =~= ids@);
        s
    }

    /// A copy holding the same members.
    pub fn duplicate(&self) -> (s: WorkspaceIdSet)
        ensures
            s@ == self@,
            s.members() == self.members(),
    {
        proof {
            use_type_invariant(self);
        }
        let mut items: Vec<WorkspaceId> = Vec::new();
        let mut i: usize = 0;
        while i < self.items.len()
            invariant
                i <= self.items@.len(),
                items@ == self.items@.subrange(0, i as int),
            decreases self.items@.len() - i,
        {
            items.push(self.items[i]);
            assert(items@ =~= self.items@.subrange(0, i + 1));
            i = i + 1;
        }
        assert(items@ =~= self.items@);
        WorkspaceIdSet { items }
    }

    /// Number of members.
    pub fn len(&self) -> (n: usize)
        ensures
            n == self@.len(),
    {
        proof {
            use_type_invariant(self);
            self.lemma_members();
        }
        self.items.len()
    }

    /// Whether the set has no members.
    pub fn is_empty(&self) -> (r: bool)
        ensures
            r == (self@ == Set::<WorkspaceId>::empty()),
    {
        proof {
            use_type_invariant(self);
            self.lemma_members();
            if self.items@.len() > 0 {
                assert(self@.contains(self.items@[0]));
            }
        }
        let r = self.items.len() == 0;
        if r {
            assert(self@ =~= Set::<WorkspaceId>::empty());
        }
        r
    }

    /// Whether `id` is a member.
    pub fn contains(&self, id: &WorkspaceId) -> (r: bool)
        ensures
            r == self@.contains(*id),
    {
        proof {
            use_type_invariant(self);
            self.lemma_members();
        }
        let mut i: usize = 0;
        while i < self.items.len()
            invariant
                i <= self.items@.len(),
                forall|j: int| 0 <= j < i ==> self.items@[j] != *id,
            decreases self.items@.len() - i,
        {
            if self.items[i] == *id {
                assert(self.members()[i as int] == *id);
                return true;
            }
            i = i + 1;
        }
        false
    }

    /// Adds `id`; returns whether it was newly added.
    pub fn insert(&mut self, id: WorkspaceId) -> (added: bool)
        ensures
            final(self)@ == old(self)@.insert(id),
            added == !old(self)@.contains(id),
    {
        proof {
            use_type_invariant(&*self);
            self.lemma_members();
        }
        let ghost before = self.items@;
        let n = self.items.len();
        let mut pos: usize = 0;
        while pos < n && self.items[pos].as_ulid() < id.as_ulid()
            invariant
                pos <= n == self.items@.len(),
                self.items@ == before,
                forall|j: int| 0 <= j < pos ==> self.items@[j].value() < id.value(),
            decreases n - pos,
        {
            pos = pos + 1;
        }
        if pos < n && self.items[pos] == id {
            assert(self.members()[pos as int] == id);
            assert(old(self)@.insert(id) =~= old(self)@);
            return false;
        }
        proof {
            assert forall|j: int| 0 <= j < before.len() implies before[j] != id by {
                if j >= pos && before[j] == id {
                    if j > pos {
                        assert(before[pos as int].value() < before[j].value());
                    }
                    WorkspaceId::lemma_value_determines(before[pos as int], id);
                }
            }
            assert forall|j: int| pos <= j < before.len() implies id.value() < before[j].value() by {
                assert(id.value() <= before[pos as int].value());
                if id.value() == before[pos as int].value() {
                    WorkspaceId::lemma_value_determines(before[pos as int], id);
                }
            }
        }
        let mut items: Vec<WorkspaceId> = Vec::new();
        std::mem::swap(&mut items, &mut self.items);
        items.insert(pos, id);
        proof {
            let after = items@;
            assert(after =~= before.subrange(0, pos as int).push(id) + before.subrange(pos as int, before.len() as int));
            assert(strictly_sorted(after)) by {
                assert forall|i: int, j: int| 0 <= i < j < after.len() implies after[i].value() < after[j].value() by {
                    if j < pos {
                    } else if j == pos {
                        assert(after[i] == before[i]);
                    } else if i < pos {
                        assert(after[i] == before[i]);
                        assert(after[j] == before[j - 1]);
                    } else if i == pos {
                        assert(after[j] == before[j - 1]);
                    } else {
                        assert(after[i] == before[i - 1]);
                        assert(after[j] == before[j - 1]);
                    }
                }
            }
            assert forall|w: WorkspaceId| after.contains(w) <==> old(self)@.insert(id).contains(w) by {
                if after.contains(w) {
                    let k = choose|k: int| 0 <= k < after.len() && after[k] == w;
                    if k < pos {
                        assert(before[k] == w);
                    } else if k > pos {
                        assert(before[k - 1] == w);
                    }
                }
                if before.contains(w) {
                    let k = choose|k: int| 0 <= k < before.len() && before[k] == w;
                    if k < pos {
                        assert(after[k] == w);
                    } else {
                        assert(after[k + 1] == w);
                    }
                }
                if w == id {
                    assert(after[pos as int] == w);
                }
            }
        }
        self.items = items;
        assert(self@ =~= old(self)@.insert(id));
        true
    }

    /// The member of `self` with the smallest id that `other` lacks, if any.
    pub fn first_missing_from(&self, other: &WorkspaceIdSet) -> (missing: Option<WorkspaceId>)
        ensures
            missing is None <==> self@.subset_of(other@),
            missing matches Some(w) ==> {
                &&& self@.contains(w)
                &&& !other@.contains(w)
                &&& forall|v: WorkspaceId|
                    #[trigger] self@.contains(v) && v.value() < w.value() ==> other@.contains(v)
            },
    {
        proof {
            use_type_invariant(self);
            self.lemma_members();
        }
        let mut i: usize = 0;
        while i < self.items.len()
            invariant
                i <= self.items@.len(),
                strictly_sorted(self.items@),
                forall|j: int| 0 <= j < i ==> other@.contains(#[trigger] self.items@[j]),
            decreases self.items@.len() - i,
        {
            let w = self.items[i];
            if !other.contains(&w) {
                proof {
                    assert(self@.contains(w));
                    assert forall|v: WorkspaceId| #[trigger]
                        self@.contains(v) && v.value() < w.value() implies other@.contains(v) by {
                        let k = choose|k: int| 0 <= k < self.items@.len() && self.items@[k] == v;
                        if k >= i {
                            if k > i {
                                assert(self.items@[i as int].value() < self.items@[k].value());
                            }
                        }
                    }
                }
                return Some(w);
            }
            i = i + 1;
        }
        proof {
            assert forall|v: WorkspaceId| self@.contains(v) implies other@.contains(v) by {
                let k = choose|k: int| 0 <= k < self.items@.len() && self.items@[k] == v;
            }
        }
        None
    }

    /// Whether every member of `self` is in `other`.
    pub fn is_subset(&self, other: &WorkspaceIdSet) -> (r: bool)
        ensures
            r == self@.subset_of(other@),
    {
        self.first_missing_from(other).is_none()
    }

    /// The members in increasing id order.
    pub fn to_vec(&self) -> (v: Vec<WorkspaceId>)
        ensures
            v@ == self.members(),
    {
        self.duplicate().items
    }
}

impl Clone for WorkspaceIdSet {
    fn clone(&self) -> (s: Self)
        ensures
            s@ == self@,
    {
        self.duplicate()
    }
}

impl Default for WorkspaceIdSet {
    fn default() -> (s: Self)
        ensures
            s@ == Set::<WorkspaceId>::empty(),
    {
        WorkspaceIdSet::new()
    }
}

/// A strictly sorted sequence has no repeated member.
pub proof fn lemma_sorted_no_duplicates(items: Seq<WorkspaceId>)
    requires
        strictly_sorted(items),
    ensures
        items.no_duplicates(),
{
    assert forall|i: int, j: int| 0 <= i < items.len() && 0 <= j < items.len() && i != j implies items[i]
        != items[j] by {
        if i < j {
            assert(items[i].value() < items[j].value());
        } else {
            assert(items[j].value() < items[i].value());
        }
    }
}

} // verus!
