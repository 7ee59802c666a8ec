//! An in-memory secret store for tests and tooling: device keys kept in the
//! process only, never written anywhere.

use vstd::prelude::*;

use crate::identity::{SecretStoreError, SigningKeyMaterial};
use crate::ids::DeviceId;

verus! {

/// Device keys held in memory, one per device.
pub struct InMemorySecretStore {
    keys: Vec<KeyEntry>,
    model: Ghost<Map<DeviceId, Seq<u8>>>,
}

/// One stored key.
struct KeyEntry {
    device_id: DeviceId,
    key: SigningKeyMaterial,
}

impl InMemorySecretStore {
    #[verifier::type_invariant]
    spec fn well_formed(self) -> bool {
        &&& forall|i: int|
            0 <= i < self.keys.len() ==> {
                &&& self.model@.contains_key(#[trigger] self.keys@[i].device_id)
                &&& self.model@[self.keys@[i].device_id] == self.keys@[i].key.bytes()
            }
        &&& forall|id: DeviceId|
            #[trigger] self.model@.contains_key(id) ==> exists|i: int|
                0 <= i < self.keys.len() && self.keys@[i].device_id == id
        &&& forall|i: int, j: int|
            0 <= i < self.keys.len() && 0 <= j < self.keys.len() && i != j ==> self.keys@[i].device_id
                != self.keys@[j].device_id
    }

    /// The stored key bytes, by device.
    pub closed spec fn view(&self) -> Map<DeviceId, Seq<u8>> {
        self.model@
    }

    fn assemble(
        keys: Vec<KeyEntry>,
        model: Ghost<Map<DeviceId, Seq<u8>>>,
    ) -> (s: InMemorySecretStore)
        requires
            forall|j: int|
                0 <= j < keys.len() ==> {
                    &&& model@.contains_key(#[trigger] keys@[j].device_id)
                    &&& model@[keys@[j].device_id] == keys@[j].key.bytes()
                },
            forall|k: DeviceId|
                #[trigger] model@.contains_key(k) ==> exists|j: int|
                    0 <= j < keys.len() && keys@[j].device_id == k,
            forall|a: int, b: int|
                0 <= a < keys.len() && 0 <= b < keys.len() && a != b ==> keys@[a].device_id != keys@[b].device_id,
        ensures
            s.view() == model@,
    {
        proof {
            let built = InMemorySecretStore { keys: keys, model: model };
            assert(built.keys == keys);
            assert(built.model == model);
        }
        InMemorySecretStore { keys, model }
    }

    /// An empty store.
    pub fn new() -> (s: InMemorySecretStore)
        ensures
            s.view() == Map::<DeviceId, Seq<u8>>::empty(),
    {
        InMemorySecretStore { keys: Vec::new(), model: Ghost(Map::empty()) }
    }

    fn position(&self, device_id: &DeviceId) -> (r: Option<usize>)
        requires
            self.well_formed(),
        ensures
            match r {
                Some(i) => i < self.keys.len() && self.keys@[i as int].device_id == *device_id,
                None => !self.model@.contains_key(*device_id),
            },
    {
        let mut i: usize = 0;
        while i < self.keys.len()
            invariant
                i <= self.keys.len(),
                forall|j: int| 0 <= j < i ==> self.keys@[j].device_id != *device_id,
            decreases self.keys.len() - i,
        {
            if self.keys[i].device_id == *device_id {
                return Some(i);
            }
            i = i + 1;
        }
        proof {
            if self.model@.contains_key(*device_id) {
                let j = choose|j: int| 0 <= j < self.keys.len() && self.keys@[j].device_id == *device_id;
                assert(self.keys@[j].device_id != *device_id);
            }
        }
        None
    }

    /// Keeps `key` as the device's key, replacing any earlier one.
    pub fn store_device_key(&mut self, device_id: &DeviceId, key: &SigningKeyMaterial) -> (r: Result<
        (),
        SecretStoreError,
    >)
        ensures
            r is Ok,
            final(self).view() == old(self).view().insert(*device_id, key.bytes()),
    {
        proof {
            use_type_invariant(&*self);
        }
        let id = *device_id;
        let ghost old_model = self.model@;
        let ghost new_model = old_model.insert(id, key.bytes());
        let pos = self.position(device_id);
        let mut current = InMemorySecretStore::new();
        std::mem::swap(&mut current, self);
        let InMemorySecretStore { keys: mut keys, model: _ } = current;
        let ghost old_keys = keys@;
        match pos {
            Some(i) => {
                keys.set(i, KeyEntry { device_id: id, key: key.clone() });
                proof {
                    assert forall|a: int, b: int|
                        0 <= a < keys.len() && 0 <= b < keys.len() && a != b implies keys@[a].device_id
                        != keys@[b].device_id by {
                        assert(keys@[a].device_id == old_keys[a].device_id);
                        assert(keys@[b].device_id == old_keys[b].device_id);
                    }
                    assert forall|j: int| 0 <= j < keys.len() implies {
                        &&& new_model.contains_key(#[trigger] keys@[j].device_id)
                        &&& new_model[keys@[j].device_id] == keys@[j].key.bytes()
                    } by {
                        if j != i {
                            assert(old_model.contains_key(old_keys[j].device_id));
                        }
                    }
                    assert forall|k: DeviceId| #[trigger] new_model.contains_key(k) implies exists|
                        j: int,
                    | 0 <= j < keys.len() && keys@[j].device_id == k by {
                        if k == id {
                            assert(keys@[i as int].device_id == k);
                        } else {
                            let j = choose|j: int| 0 <= j < old_keys.len() && old_keys[j].device_id == k;
                            assert(keys@[j].device_id == k);
                        }
                    }
                }
            },
            None => {
                keys.push(KeyEntry { device_id: id, key: key.clone() });
                proof {
                    assert forall|j: int| 0 <= j < keys.len() implies {
                        &&& new_model.contains_key(#[trigger] keys@[j].device_id)
                        &&& new_model[keys@[j].device_id] == keys@[j].key.bytes()
                    } by {
                        if j < old_keys.len() {
                            assert(old_model.contains_key(old_keys[j].device_id));
                        }
                    }
                    assert forall|k: DeviceId| #[trigger] new_model.contains_key(k) implies exists|
                        j: int,
                    | 0 <= j < keys.len() && keys@[j].device_id == k by {
                        if k == id {
                            assert(keys@[old_keys.len() as int].device_id == k);
                        } else {
                            let j = choose|j: int| 0 <= j < old_keys.len() && old_keys[j].device_id == k;
                            assert(keys@[j].device_id == k);
                        }
                    }
                    assert forall|a: int, b: int|
                        0 <= a < keys.len() && 0 <= b < keys.len() && a != b implies keys@[a].device_id
                        != keys@[b].device_id by {
                        if a == old_keys.len() {
                            assert(old_model.contains_key(old_keys[b].device_id));
                        } else if b == old_keys.len() {
                            assert(old_model.contains_key(old_keys[a].device_id));
                        }
                    }
                }
            },
        }
        *self = InMemorySecretStore::assemble(keys, Ghost(new_model));
        Ok(())
    }

    /// The device's key, if one is stored.
    pub fn load_device_key(&self, device_id: &DeviceId) -> (r: Result<
        Option<SigningKeyMaterial>,
        SecretStoreError,
    >)
        ensures
            r is Ok,
            r->Ok_0 is Some <==> self.view().contains_key(*device_id),
            r->Ok_0 is Some ==> r->Ok_0->Some_0.bytes() == self.view()[*device_id],
    {
        proof {
            use_type_invariant(self);
        }
        match self.position(device_id) {
            Some(i) => {
                proof {
                    assert(self.model@.contains_key(self.keys@[i as int].device_id));
                }
                Ok(Some(self.keys[i].key.clone()))
            },
            None => Ok(None),
        }
    }

    /// Forgets the device's key; forgetting a key that is not stored is
    /// not an error.
    pub fn delete_device_key(&mut self, device_id: &DeviceId) -> (r: Result<(), SecretStoreError>)
        ensures
            r is Ok,
            final(self).view() == old(self).view().remove(*device_id),
    {
        proof {
            use_type_invariant(&*self);
        }
        match self.position(device_id) {
            None => {
                proof {
                    assert(self.model@.remove(*device_id) =~= self.model@);
                }
                Ok(())
            },
            Some(i) => {
                let ghost old_model = self.model@;
                let ghost new_model = old_model.remove(*device_id);
                let mut current = InMemorySecretStore::new();
                std::mem::swap(&mut current, self);
                let InMemorySecretStore { keys: mut keys, model: _ } = current;
                let ghost old_keys = keys@;
                let _removed = keys.remove(i);
                proof {
                    assert forall|j: int| 0 <= j < keys.len() implies {
                        &&& new_model.contains_key(#[trigger] keys@[j].device_id)
                        &&& new_model[keys@[j].device_id] == keys@[j].key.bytes()
                    } by {
                        let oj = if j < i {
                            j
                        } else {
                            j + 1
                        };
                        assert(keys@[j] == old_keys[oj]);
                        assert(old_model.contains_key(old_keys[oj].device_id));
                    }
                    assert forall|k: DeviceId| #[trigger] new_model.contains_key(k) implies exists|
                        j: int,
                    | 0 <= j < keys.len() && keys@[j].device_id == k by {
                        let j = choose|j: int| 0 <= j < old_keys.len() && old_keys[j].device_id == k;
                        assert(j != i);
                        if j < i {
                            assert(keys@[j].device_id == k);
                        } else {
                            assert(keys@[j - 1].device_id == k);
                        }
                    }
                    assert forall|a: int, b: int|
                        0 <= a < keys.len() && 0 <= b < keys.len() && a != b implies keys@[a].device_id
                        != keys@[b].device_id by {
                        let oa = if a < i {
                            a
                        } else {
                            a + 1
                        };
                        let ob = if b < i {
                            b
                        } else {
                            b + 1
                        };
                        assert(keys@[a] == old_keys[oa]);
                        assert(keys@[b] == old_keys[ob]);
                    }
                }
                *self = InMemorySecretStore::assemble(keys, Ghost(new_model));
                Ok(())
            },
        }
    }
}

/// What a load gives back of a store: the key just stored for a device;
/// and a store for one device leaves every other device's key as it was.
pub proof fn lemma_load_returns_what_was_stored(
    keys: Map<DeviceId, Seq<u8>>,
    device_id: DeviceId,
    other: DeviceId,
    key: Seq<u8>,
)
    ensures
        keys.insert(device_id, key).contains_key(device_id),
        keys.insert(device_id, key)[device_id] == key,
        other != device_id ==> (keys.insert(device_id, key).contains_key(other) == keys.contains_key(
            other,
        ) && (keys.contains_key(other) ==> keys.insert(device_id, key)[other] == keys[other])),
{
}

/// After a delete, nothing is loaded for that device.
pub proof fn lemma_deleted_key_is_gone(keys: Map<DeviceId, Seq<u8>>, device_id: DeviceId)
    ensures
        !keys.remove(device_id).contains_key(device_id),
{
}

} // verus!
