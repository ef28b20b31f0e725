//! The events of the mailbox protocol and the signatures that name them in a log.

use vstd::prelude::*;
use vstd::string::StringSliceAdditionalSpecFns;
use crate::digest::{keccak256, keccak256_digest};
use crate::hash::H256;

verus! {

/// The events that the mailbox and its gas paymaster emit.
#[derive(Clone, Copy, Debug, PartialEq, Eq, Structural)]
pub enum EventKind {
    /// A message was sent.
    Dispatch,
    /// The identifier of a message that was sent.
    DispatchId,
    /// A message was delivered.
    Process,
    /// The identifier of a message that was delivered.
    ProcessId,
    /// Gas for a message's delivery was paid.
    GasPayment,
}

impl EventKind {
    /// The event's declaration in the contract ABI: its name and the types of its values.
    pub open spec fn abi_text(self) -> &'static str {
        match self {
            EventKind::Dispatch => "Dispatch(address,uint32,bytes32,bytes)",
            EventKind::DispatchId => "DispatchId(bytes32)",
            EventKind::Process => "Process(uint32,bytes32,address)",
            EventKind::ProcessId => "ProcessId(bytes32)",
            EventKind::GasPayment => "GasPayment(bytes32,uint256,uint256)",
        }
    }

    /// The 32 bytes of the event's signature, which a record carries as its first topic.
    pub open spec fn signature_bytes(self) -> Seq<u8> {
        match self {
            EventKind::Dispatch => seq![
                0x76u8, 0x9f, 0x71, 0x1d, 0x20, 0xc6, 0x79, 0x15, 0x3d, 0x38, 0x22, 0x54, 0xf5, 0x98, 0x92, 0x61,
                0x3b, 0x58, 0xa9, 0x7c, 0xc8, 0x76, 0xb2, 0x49, 0x13, 0x4a, 0xc2, 0x5c, 0x80, 0xf9, 0xc8, 0x14,
            ],
            EventKind::DispatchId => seq![
                0x78u8, 0x8d, 0xbc, 0x1b, 0x71, 0x52, 0x73, 0x21, 0x78, 0x21, 0x0e, 0x7f, 0x4d, 0x9d, 0x01, 0x0e,
                0xf0, 0x16, 0xf9, 0xea, 0xfb, 0xe6, 0x67, 0x86, 0xbd, 0x71, 0x69, 0xf5, 0x6e, 0x0c, 0x35, 0x3a,
            ],
            EventKind::Process => seq![
                0x0du8, 0x38, 0x1c, 0x2a, 0x57, 0x4a, 0xe8, 0xf0, 0x4e, 0x21, 0x3d, 0xb7, 0xcf, 0xb4, 0xdf, 0x8d,
                0xf7, 0x12, 0xcd, 0xbd, 0x42, 0x7d, 0x98, 0x68, 0xff, 0xef, 0x38, 0x06, 0x60, 0xca, 0x65, 0x74,
            ],
            EventKind::ProcessId => seq![
                0x1cu8, 0xae, 0x38, 0xcd, 0xd3, 0xd3, 0x91, 0x94, 0x89, 0x27, 0x27, 0x25, 0xa5, 0xae, 0x62, 0xa4,
                0xf4, 0x8b, 0x29, 0x89, 0xb0, 0xda, 0xe8, 0x43, 0xd3, 0xc2, 0x79, 0xfe, 0xe1, 0x80, 0x73, 0xa9,
            ],
            EventKind::GasPayment => seq![
                0xf7u8, 0x15, 0xe6, 0x6d, 0x2c, 0xd2, 0xa0, 0x17, 0x90, 0x69, 0xdc, 0xda, 0x2a, 0x41, 0xa4, 0xda,
                0x36, 0xa3, 0x0e, 0x1a, 0xad, 0x12, 0x18, 0x7f, 0xbb, 0x7c, 0x5d, 0x10, 0x0a, 0xfd, 0x62, 0x1c,
            ],
        }
    }

    /// How many of the event's values are indexed, and so stand in topics after the
    /// signature.
    pub open spec fn indexed_count(self) -> int {
        match self {
            EventKind::Dispatch => 3,
            EventKind::DispatchId => 1,
            EventKind::Process => 3,
            EventKind::ProcessId => 1,
            EventKind::GasPayment => 1,
        }
    }

    /// The kind whose signature is the given 32 bytes, if there is one.
    pub open spec fn of_signature(signature: Seq<u8>) -> Option<EventKind> {
        if signature == EventKind::Dispatch.signature_bytes() {
            Some(EventKind::Dispatch)
        } else if signature == EventKind::DispatchId.signature_bytes() {
            Some(EventKind::DispatchId)
        } else if signature == EventKind::Process.signature_bytes() {
            Some(EventKind::Process)
        } else if signature == EventKind::ProcessId.signature_bytes() {
            Some(EventKind::ProcessId)
        } else if signature == EventKind::GasPayment.signature_bytes() {
            Some(EventKind::GasPayment)
        } else {
            None
        }
    }

    /// The event's declaration in the contract ABI.
    pub fn abi_signature(&self) -> (text: &'static str)
        ensures
            text == self.abi_text(),
    {
        match self {
            EventKind::Dispatch => "Dispatch(address,uint32,bytes32,bytes)",
            EventKind::DispatchId => "DispatchId(bytes32)",
            EventKind::Process => "Process(uint32,bytes32,address)",
            EventKind::ProcessId => "ProcessId(bytes32)",
            EventKind::GasPayment => "GasPayment(bytes32,uint256,uint256)",
        }
    }

    /// The event's signature.
    pub fn signature(&self) -> (hash: H256)
        ensures
            hash@ == self.signature_bytes(),
    {
        let hash = match self {
            EventKind::Dispatch => H256([
                0x76, 0x9f, 0x71, 0x1d, 0x20, 0xc6, 0x79, 0x15, 0x3d, 0x38, 0x22, 0x54, 0xf5, 0x98, 0x92, 0x61,
                0x3b, 0x58, 0xa9, 0x7c, 0xc8, 0x76, 0xb2, 0x49, 0x13, 0x4a, 0xc2, 0x5c, 0x80, 0xf9, 0xc8, 0x14,
            ]),
            EventKind::DispatchId => H256([
                0x78, 0x8d, 0xbc, 0x1b, 0x71, 0x52, 0x73, 0x21, 0x78, 0x21, 0x0e, 0x7f, 0x4d, 0x9d, 0x01, 0x0e,
                0xf0, 0x16, 0xf9, 0xea, 0xfb, 0xe6, 0x67, 0x86, 0xbd, 0x71, 0x69, 0xf5, 0x6e, 0x0c, 0x35, 0x3a,
            ]),
            EventKind::Process => H256([
                0x0d, 0x38, 0x1c, 0x2a, 0x57, 0x4a, 0xe8, 0xf0, 0x4e, 0x21, 0x3d, 0xb7, 0xcf, 0xb4, 0xdf, 0x8d,
                0xf7, 0x12, 0xcd, 0xbd, 0x42, 0x7d, 0x98, 0x68, 0xff, 0xef, 0x38, 0x06, 0x60, 0xca, 0x65, 0x74,
            ]),
            EventKind::ProcessId => H256([
                0x1c, 0xae, 0x38, 0xcd, 0xd3, 0xd3, 0x91, 0x94, 0x89, 0x27, 0x27, 0x25, 0xa5, 0xae, 0x62, 0xa4,
                0xf4, 0x8b, 0x29, 0x89, 0xb0, 0xda, 0xe8, 0x43, 0xd3, 0xc2, 0x79, 0xfe, 0xe1, 0x80, 0x73, 0xa9,
            ]),
            EventKind::GasPayment => H256([
                0xf7, 0x15, 0xe6, 0x6d, 0x2c, 0xd2, 0xa0, 0x17, 0x90, 0x69, 0xdc, 0xda, 0x2a, 0x41, 0xa4, 0xda,
                0x36, 0xa3, 0x0e, 0x1a, 0xad, 0x12, 0x18, 0x7f, 0xbb, 0x7c, 0x5d, 0x10, 0x0a, 0xfd, 0x62, 0x1c,
            ]),
        };
        assert(hash@ =~= self.signature_bytes());
        hash
    }

    /// The Keccak-256 digest of the event's declaration, which is how a contract arrives at
    /// the signature.
    pub fn hashed_signature(&self) -> (hash: H256)
        ensures
            hash@ == keccak256_digest(self.abi_text().spec_bytes()),
    {
        keccak256(self.abi_signature().as_bytes())
    }

    /// Finds the kind that a signature names.
    pub fn from_signature(signature: &H256) -> (kind: Option<EventKind>)
        ensures
            kind == EventKind::of_signature(signature@),
    {
        if *signature == EventKind::Dispatch.signature() {
            Some(EventKind::Dispatch)
        } else if *signature == EventKind::DispatchId.signature() {
            Some(EventKind::DispatchId)
        } else if *signature == EventKind::Process.signature() {
            Some(EventKind::Process)
        } else if *signature == EventKind::ProcessId.signature() {
            Some(EventKind::ProcessId)
        } else if *signature == EventKind::GasPayment.signature() {
            Some(EventKind::GasPayment)
        } else {
            None
        }
    }
}

/// No two kinds share a signature, so a signature names at most one kind.
pub proof fn lemma_signatures_distinct(a: EventKind, b: EventKind)
    ensures
        a.signature_bytes() == b.signature_bytes() <==> a == b,
        a.signature_bytes().len() == 32,
        EventKind::of_signature(a.signature_bytes()) == Some(a),
{
    assert(EventKind::Dispatch.signature_bytes()[0] == 0x76);
    assert(EventKind::DispatchId.signature_bytes()[0] == 0x78);
    assert(EventKind::Process.signature_bytes()[0] == 0x0d);
    assert(EventKind::ProcessId.signature_bytes()[0] == 0x1c);
    assert(EventKind::GasPayment.signature_bytes()[0] == 0xf7);
}

} // verus!
