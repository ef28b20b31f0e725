//! What the receipt of a dispatching transaction tells of the message.

use vstd::prelude::*;
use crate::event_kind::EventKind;
use crate::hash::H256;
use crate::log::Log;

verus! {

/// The record at `at` carries the signature of `DispatchId`.
pub open spec fn announces_message(logs: Seq<Log>, at: int) -> bool {
    logs[at]@.topics[0] == EventKind::DispatchId.signature_bytes()
}

/// The record at `at` is the first that carries the signature of `DispatchId`.
pub open spec fn first_announcement(logs: Seq<Log>, at: int) -> bool {
    &&& 0 <= at < logs.len()
    &&& announces_message(logs, at)
    &&& forall|j: int| 0 <= j < at ==> !announces_message(logs, j)
}

/// The records can be searched for a message identifier: every record up to the first that
/// carries the signature of `DispatchId` has a first topic, and that record has a topic
/// after its signature.
pub open spec fn searchable(logs: Seq<Log>) -> bool {
    forall|i: int|
        0 <= i < logs.len() && (forall|j: int| 0 <= j < i ==> !announces_message(logs, j)) ==> {
            &&& (#[trigger] logs[i])@.has_signature()
            &&& announces_message(logs, i) ==> logs[i]@.topics.len() >= 2
        }
}

/// Whether the records can be searched for a message identifier.
pub fn can_find_dispatched_message_id(logs: &Vec<Log>) -> (can: bool)
    ensures
        can == searchable(logs@),
{
    let mut i: usize = 0;
    while i < logs.len()
        invariant
            i <= logs@.len(),
            forall|j: int| 0 <= j < i ==> !announces_message(logs@, j),
            forall|j: int| 0 <= j < i ==> (#[trigger] logs@[j])@.has_signature(),
        decreases logs@.len() - i,
    {
        if logs[i].topics.len() == 0 {
            return false;
        }
        if logs[i].topics[0] == EventKind::DispatchId.signature() {
            let has_id = logs[i].topics.len() >= 2;
            assert(first_announcement(logs@, i as int));
            assert(searchable(logs@) == has_id) by {
                if has_id {
                    assert forall|k: int|
                        0 <= k < logs@.len() && (forall|j: int|
                            0 <= j < k ==> !announces_message(logs@, j)) implies {
                        &&& (#[trigger] logs@[k])@.has_signature()
                        &&& announces_message(logs@, k) ==> logs@[k]@.topics.len() >= 2
                    } by {
                        if k > i {
                            assert(!announces_message(logs@, i as int));
                        }
                    }
                }
            }
            return has_id;
        }
        i += 1;
    }
    true
}

/// The identifier of the message that a transaction dispatched: the topic after the
/// signature in the first record of the receipt that carries the signature of `DispatchId`.
pub fn find_dispatched_message_id(logs: &Vec<Log>) -> (id: Option<H256>)
    requires
        searchable(logs@),
    ensures
        match id {
            Some(hash) => exists|at: int|
                first_announcement(logs@, at) && hash@ == logs@[at]@.topics[1],
            None => forall|at: int| 0 <= at < logs@.len() ==> !announces_message(logs@, at),
        },
{
    let mut i: usize = 0;
    while i < logs.len()
        invariant
            i <= logs@.len(),
            searchable(logs@),
            forall|j: int| 0 <= j < i ==> !announces_message(logs@, j),
        decreases logs@.len() - i,
    {
        assert(logs@[i as int]@.has_signature());
        if logs[i].topics[0] == EventKind::DispatchId.signature() {
            assert(first_announcement(logs@, i as int));
            return Some(logs[i].topics[1]);
        }
        i += 1;
    }
    None
}

} // verus!
