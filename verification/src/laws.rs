//! Laws of the store, stated over the transition predicates and views that
//! the operations' own contracts use, and proved once for all inputs.

use vstd::prelude::*;
use crate::store::{delete_granted, submit_granted, EvidenceStore, RecordModel};

verus! {

/// Identifiers of successive successful submissions are consecutive: the
/// second is exactly one more than the first, and on a fresh store (counter
/// at 0) the first submission receives identifier 0.
pub proof fn lemma_submit_ids_consecutive(
    s0: EvidenceStore,
    s1: EvidenceStore,
    s2: EvidenceStore,
    owner1: Seq<char>,
    data1: Seq<u8>,
    timestamp1: u64,
    id1: u64,
    owner2: Seq<char>,
    data2: Seq<u8>,
    timestamp2: u64,
    id2: u64,
)
    requires
        submit_granted(s0, s1, owner1, data1, timestamp1, id1),
        submit_granted(s1, s2, owner2, data2, timestamp2, id2),
    ensures
        id2 == id1 + 1,
        s0.next_id() == 0 ==> id1 == 0,
{
}

/// A successful submission makes its record retrievable: the store maps the
/// returned identifier to exactly the submitted owner, payload and timestamp.
pub proof fn lemma_submitted_record_present(
    pre: EvidenceStore,
    post: EvidenceStore,
    owner: Seq<char>,
    data: Seq<u8>,
    timestamp: u64,
    id: u64,
)
    requires
        submit_granted(pre, post, owner, data, timestamp, id),
    ensures
        post@.contains_key(id),
        post@[id] == (RecordModel { id, owner, data, timestamp }),
        post@[id].owner == owner,
        post@[id].data == data,
{
}

/// A successful submission never overwrites: on a well-formed store the
/// allocated identifier was absent, so every previously present record is
/// still present and unchanged afterwards.
pub proof fn lemma_submit_preserves_records(
    pre: EvidenceStore,
    post: EvidenceStore,
    owner: Seq<char>,
    data: Seq<u8>,
    timestamp: u64,
    id: u64,
)
    requires
        pre.wf(),
        submit_granted(pre, post, owner, data, timestamp, id),
    ensures
        !pre@.contains_key(id),
        forall|k: u64| #[trigger] pre@.contains_key(k) ==> post@.contains_key(k) && post@[k] == pre@[k],
{
}

/// A successful deletion removes exactly the named record: the identifier is
/// absent afterwards, and every other record is untouched.
pub proof fn lemma_deleted_record_absent(
    pre: EvidenceStore,
    post: EvidenceStore,
    caller: Seq<char>,
    id: u64,
)
    requires
        delete_granted(pre, post, caller, id),
    ensures
        !post@.contains_key(id),
        forall|k: u64| k != id && #[trigger] pre@.contains_key(k) ==> post@.contains_key(k)
            && post@[k] == pre@[k],
{
}

/// A denied deletion changes nothing: when the store comes out as it went in,
/// the targeted record is still present and unchanged.
pub proof fn lemma_denied_delete_keeps_record(
    pre: EvidenceStore,
    post: EvidenceStore,
    id: u64,
)
    requires
        pre@.contains_key(id),
        post == pre,
    ensures
        post@.contains_key(id),
        post@[id] == pre@[id],
{
}

/// A freed identifier is never reissued: a submission that follows the
/// deletion of the record under `id` on a well-formed store allocates a
/// strictly larger identifier.
pub proof fn lemma_deleted_id_not_reused(
    s0: EvidenceStore,
    s1: EvidenceStore,
    s2: EvidenceStore,
    caller: Seq<char>,
    deleted: u64,
    owner: Seq<char>,
    data: Seq<u8>,
    timestamp: u64,
    id: u64,
)
    requires
        s0.wf(),
        delete_granted(s0, s1, caller, deleted),
        submit_granted(s1, s2, owner, data, timestamp, id),
    ensures
        id > deleted,
{
    assert(s0@.contains_key(deleted));
}

} // verus!
