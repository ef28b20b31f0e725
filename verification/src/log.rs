//! A log record as the chain reports it.

use vstd::prelude::*;
use crate::hash::H256;

verus! {

/// One entry of a contract's event log.
///
/// The record of an event that a contract declares carries the event's signature as its
/// first topic. Block number and log index are absent while the record's transaction is not
/// yet part of a block.
#[derive(Clone, Debug)]
pub struct Log {
    /// The topics, the event signature first.
    pub topics: Vec<H256>,
    /// The payload: the values that the event does not index.
    pub data: Vec<u8>,
    /// Number of the block that holds the record.
    pub block_number: Option<u64>,
    /// Hash of the transaction that emitted the record.
    pub transaction_hash: Option<H256>,
    /// Position of the record within its block.
    pub log_index: Option<u64>,
}

/// What a log record holds, as plain values.
pub ghost struct LogView {
    /// The topics, each as its 32 bytes.
    pub topics: Seq<Seq<u8>>,
    /// The payload.
    pub data: Seq<u8>,
    /// Number of the block that holds the record.
    pub block_number: Option<u64>,
    /// Hash of the transaction that emitted the record, as its 32 bytes.
    pub transaction_hash: Option<Seq<u8>>,
    /// Position of the record within its block.
    pub log_index: Option<u64>,
}

/// The bytes of an optional hash.
pub open spec fn optional_hash_view(hash: Option<H256>) -> Option<Seq<u8>> {
    match hash {
        Some(h) => Some(h@),
        None => None,
    }
}

impl View for Log {
    type V = LogView;

    open spec fn view(&self) -> LogView {
        LogView {
            topics: Seq::new(self.topics@.len(), |i: int| self.topics@[i]@),
            data: self.data@,
            block_number: self.block_number,
            transaction_hash: optional_hash_view(self.transaction_hash),
            log_index: self.log_index,
        }
    }
}

impl LogView {
    /// A record can name its event only where it has a first topic.
    pub open spec fn has_signature(self) -> bool {
        self.topics.len() > 0
    }

    /// Every topic is 32 bytes wide.
    pub open spec fn wf(self) -> bool {
        &&& forall|i: int| 0 <= i < self.topics.len() ==> (#[trigger] self.topics[i]).len() == 32
        &&& self.transaction_hash matches Some(h) ==> h.len() == 32
    }
}

impl Log {
    /// Whether the record has a first topic, and so an event signature.
    pub fn has_signature(&self) -> (present: bool)
        ensures
            present == self@.has_signature(),
    {
        self.topics.len() > 0
    }

    /// The view of a record is always well formed.
    pub proof fn lemma_view_wf(self)
        ensures
            self@.wf(),
    {
    }
}

} // verus!
