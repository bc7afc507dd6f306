//! The evidence store: record type, error type, and the three operations
//! `submit_evidence`, `get_evidence` and `delete_evidence`.

use vstd::prelude::*;
use std::collections::HashMap;

verus! {

/// A stored unit of evidence: identifier, owner identity, payload bytes,
/// and the logical timestamp captured at creation.
pub struct Evidence {
    pub id: u64,
    pub owner: String,
    pub data: Vec<u8>,
    pub timestamp: u64,
}

/// The mathematical model of an [`Evidence`] record: the same four fields
/// with the owner as a character sequence and the payload as a byte sequence.
pub ghost struct RecordModel {
    pub id: u64,
    pub owner: Seq<char>,
    pub data: Seq<u8>,
    pub timestamp: u64,
}

impl View for Evidence {
    type V = RecordModel;

    open spec fn view(&self) -> RecordModel {
        RecordModel {
            id: self.id,
            owner: self.owner@,
            data: self.data@,
            timestamp: self.timestamp,
        }
    }
}

impl Clone for Evidence {
    /// A clone carries the same identifier, owner, payload and timestamp.
    fn clone(&self) -> (r: Self)
        ensures
            r@ == self@,
    {
        let data = self.data.clone();
        proof {
            assert(data@ =~= self.data@);
        }
        Evidence {
            id: self.id,
            owner: self.owner.clone(),
            data,
            timestamp: self.timestamp,
        }
    }
}

/// Why a submission or deletion was refused.
#[derive(Clone, Copy, Debug, PartialEq, Eq, Structural)]
pub enum StoreError {
    /// The caller identity does not match the relevant owner identity.
    Unauthorized,
    /// The referenced identifier is not present in the store.
    NotFound,
}

impl StoreError {
    /// The human-readable message exposed at the transport boundary.
    pub fn message(&self) -> (r: String)
        ensures
            *self == StoreError::Unauthorized ==> r@ == "Caller is not the owner"@,
            *self == StoreError::NotFound ==> r@ == "Evidence not found"@,
    {
        match self {
            StoreError::Unauthorized => "Caller is not the owner".to_string(),
            StoreError::NotFound => "Evidence not found".to_string(),
        }
    }
}

/// The record store: a map from identifier to record, and the counter from
/// which the next identifier is allocated.
pub struct EvidenceStore {
    evidence: HashMap<u64, Evidence>,
    next_id: u64,
}

impl View for EvidenceStore {
    type V = Map<u64, RecordModel>;

    /// The store is modelled as the map from each present identifier to the
    /// model of the record stored under it.
    closed spec fn view(&self) -> Map<u64, RecordModel> {
        Map::new(
            |k: u64| self.evidence@.contains_key(k),
            |k: u64| self.evidence@[k]@,
        )
    }
}

impl EvidenceStore {
    /// The identifier the next successful submission will receive.
    pub closed spec fn next_id(self) -> u64 {
        self.next_id
    }

    /// Well-formedness: every stored record carries its own key as its `id`,
    /// and every present identifier was allocated below the counter.
    pub open spec fn wf(self) -> bool {
        forall|k: u64| #[trigger] self@.contains_key(k) ==> self@[k].id == k && k < self.next_id()
    }

    /// A fresh, empty store whose first allocated identifier will be 0.
    pub fn new() -> (s: EvidenceStore)
        ensures
            s@ == Map::<u64, RecordModel>::empty(),
            s.next_id() == 0,
            s.wf(),
    {
        let s = EvidenceStore { evidence: HashMap::new(), next_id: 0 };
        proof {
            assert(s@ =~= Map::<u64, RecordModel>::empty());
        }
        s
    }
}

/// The state change a successful submission makes: `id` is the old counter
/// value, the counter advances by exactly 1, and the map gains exactly the
/// record `{ id, owner, data, timestamp }` under key `id`.
pub open spec fn submit_granted(
    pre: EvidenceStore,
    post: EvidenceStore,
    owner: Seq<char>,
    data: Seq<u8>,
    timestamp: u64,
    id: u64,
) -> bool {
    &&& id == pre.next_id()
    &&& post.next_id() == pre.next_id() + 1
    &&& post@ == pre@.insert(id, RecordModel { id, owner, data, timestamp })
}

/// The state change a successful deletion makes: the record under `id` was
/// present and owned by `caller`, and the map loses exactly that entry while
/// the counter keeps its value.
pub open spec fn delete_granted(
    pre: EvidenceStore,
    post: EvidenceStore,
    caller: Seq<char>,
    id: u64,
) -> bool {
    &&& pre@.contains_key(id)
    &&& pre@[id].owner == caller
    &&& post@ == pre@.remove(id)
    &&& post.next_id() == pre.next_id()
}

impl EvidenceStore {
    /// Submit a record under `claimed_owner`. Succeeds, with the freshly
    /// allocated identifier, exactly when the caller identity equals the
    /// claimed owner; on a mismatch the store is left untouched.
    pub fn submit_evidence(
        &mut self,
        caller: &String,
        claimed_owner: String,
        data: Vec<u8>,
        timestamp: u64,
    ) -> (r: Result<u64, StoreError>)
        requires
            old(self).wf(),
            old(self).next_id() < u64::MAX,
        ensures
            final(self).wf(),
            caller@ != claimed_owner@ ==> {
                &&& r == Err::<u64, StoreError>(StoreError::Unauthorized)
                &&& *final(self) == *old(self)
            },
            caller@ == claimed_owner@ ==> {
                &&& r == Ok::<u64, StoreError>(old(self).next_id())
                &&& !old(self)@.contains_key(old(self).next_id())
                &&& submit_granted(
                    *old(self),
                    *final(self),
                    claimed_owner@,
                    data@,
                    timestamp,
                    old(self).next_id(),
                )
            },
    {
        let authorized = *caller == claimed_owner;
        if !authorized {
            return Err(StoreError::Unauthorized);
        }
        let id = self.next_id;
        let ghost rec = RecordModel { id, owner: claimed_owner@, data: data@, timestamp };
        let record = Evidence { id, owner: claimed_owner, data, timestamp };
        self.evidence.insert(id, record);
        self.next_id = self.next_id + 1;
        proof {
            assert(self@ =~= old(self)@.insert(id, rec));
        }
        Ok(id)
    }

    /// The counter value: the identifier the next successful submission will
    /// receive. Lets a caller see whether the identifier space is exhausted
    /// before submitting.
    pub fn upcoming_id(&self) -> (r: u64)
        ensures
            r == self.next_id(),
    {
        self.next_id
    }

    /// Look up a record by identifier. Returns a copy of the record when the
    /// identifier is present and nothing otherwise; absence is not an error,
    /// and no ownership check is made (reads are deliberately unrestricted).
    pub fn get_evidence(&self, id: u64) -> (r: Option<Evidence>)
        ensures
            match r {
                Some(e) => self@.contains_key(id) && e@ == self@[id],
                None => !self@.contains_key(id),
            },
    {
        match self.evidence.get(&id) {
            Some(e) => Some(e.clone()),
            None => None,
        }
    }

    /// Delete the record under `id`. Fails with `NotFound` when no such
    /// record exists and with `Unauthorized` when the caller is not its
    /// owner; in either failure the store is left untouched. On success
    /// exactly that entry is removed and the counter keeps its value, so the
    /// freed identifier is never reissued.
    pub fn delete_evidence(&mut self, caller: &String, id: u64) -> (r: Result<(), StoreError>)
        requires
            old(self).wf(),
        ensures
            final(self).wf(),
            !old(self)@.contains_key(id) ==> {
                &&& r == Err::<(), StoreError>(StoreError::NotFound)
                &&& *final(self) == *old(self)
            },
            old(self)@.contains_key(id) && old(self)@[id].owner != caller@ ==> {
                &&& r == Err::<(), StoreError>(StoreError::Unauthorized)
                &&& *final(self) == *old(self)
            },
            old(self)@.contains_key(id) && old(self)@[id].owner == caller@ ==> {
                &&& r == Ok::<(), StoreError>(())
                &&& delete_granted(*old(self), *final(self), caller@, id)
            },
    {
        match self.evidence.get(&id) {
            Some(e) => {
                let owned_by_caller = e.owner == *caller;
                if !owned_by_caller {
                    return Err(StoreError::Unauthorized);
                }
            },
            None => {
                return Err(StoreError::NotFound);
            },
        }
        self.evidence.remove(&id);
        proof {
            assert(self@ =~= old(self)@.remove(id));
        }
        Ok(())
    }
}

impl Default for EvidenceStore {
    /// The default store is the fresh, empty store.
    fn default() -> (s: Self)
        ensures
            s@ == Map::<u64, RecordModel>::empty(),
            s.next_id() == 0,
            s.wf(),
    {
        EvidenceStore::new()
    }
}

} // verus!
