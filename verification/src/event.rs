//! The events of the mailbox protocol, read out of the topics and payload of a record.

use vstd::prelude::*;
use crate::abi::{
    bytes_payload, decode_bytes_payload, decode_word_pair_payload, u32_of_word, word_pair_payload,
    word_to_u32, DecodeError,
};
use crate::event_kind::EventKind;
use crate::hash::{address_of_word, H160, H256};
use crate::log::{Log, LogView};
use crate::log_item::LogItemMap;
use crate::mailbox::MailboxLogType;

verus! {

/// A message was sent: `Dispatch(address indexed, uint32 indexed, bytes32 indexed, bytes)`.
#[derive(Clone, Debug)]
pub struct DispatchFilter {
    /// The account that sent the message.
    pub sender: H160,
    /// Domain of the chain that the message goes to.
    pub destination: u32,
    /// Who receives the message, as a 32-byte address of the destination chain.
    pub recipient: H256,
    /// The envelope of the message.
    pub message: Vec<u8>,
}

/// The identifier of a message that was sent: `DispatchId(bytes32 indexed)`.
#[derive(Clone, Copy, Debug)]
pub struct DispatchIdFilter {
    /// The identifier of the message.
    pub message_id: H256,
}

/// A message was delivered: `Process(uint32 indexed, bytes32 indexed, address indexed)`.
#[derive(Clone, Copy, Debug)]
pub struct ProcessFilter {
    /// Domain of the chain that the message comes from.
    pub origin: u32,
    /// Who sent the message, as a 32-byte address of the origin chain.
    pub sender: H256,
    /// The account that receives the message.
    pub recipient: H160,
}

/// The identifier of a message that was delivered: `ProcessId(bytes32 indexed)`.
#[derive(Clone, Copy, Debug)]
pub struct ProcessIdFilter {
    /// The identifier of the message.
    pub message_id: H256,
}

/// Gas for a message's delivery was paid: `GasPayment(bytes32 indexed, uint256, uint256)`.
#[derive(Clone, Copy, Debug)]
pub struct GasPaymentFilter {
    /// The identifier of the message.
    pub message_id: H256,
    /// The amount of gas paid for, as the 32 bytes of the number, most significant first.
    pub gas_amount: H256,
    /// What was paid, as the 32 bytes of the number, most significant first.
    pub payment: H256,
}

/// What a `Dispatch` event holds, as plain values.
pub ghost struct DispatchView {
    /// The account that sent the message.
    pub sender: Seq<u8>,
    /// Domain of the chain that the message goes to.
    pub destination: u32,
    /// Who receives the message.
    pub recipient: Seq<u8>,
    /// The envelope of the message.
    pub message: Seq<u8>,
}

/// What a `Process` event holds, as plain values.
pub ghost struct ProcessView {
    /// Domain of the chain that the message comes from.
    pub origin: u32,
    /// Who sent the message.
    pub sender: Seq<u8>,
    /// The account that receives the message.
    pub recipient: Seq<u8>,
}

/// What a `GasPayment` event holds, as plain values.
pub ghost struct GasPaymentView {
    /// The identifier of the message.
    pub message_id: Seq<u8>,
    /// The amount of gas paid for.
    pub gas_amount: Seq<u8>,
    /// What was paid.
    pub payment: Seq<u8>,
}

impl View for DispatchFilter {
    type V = DispatchView;

    open spec fn view(&self) -> DispatchView {
        DispatchView {
            sender: self.sender@,
            destination: self.destination,
            recipient: self.recipient@,
            message: self.message@,
        }
    }
}

impl View for DispatchIdFilter {
    type V = Seq<u8>;

    open spec fn view(&self) -> Seq<u8> {
        self.message_id@
    }
}

impl View for ProcessFilter {
    type V = ProcessView;

    open spec fn view(&self) -> ProcessView {
        ProcessView { origin: self.origin, sender: self.sender@, recipient: self.recipient@ }
    }
}

impl View for ProcessIdFilter {
    type V = Seq<u8>;

    open spec fn view(&self) -> Seq<u8> {
        self.message_id@
    }
}

impl View for GasPaymentFilter {
    type V = GasPaymentView;

    open spec fn view(&self) -> GasPaymentView {
        GasPaymentView {
            message_id: self.message_id@,
            gas_amount: self.gas_amount@,
            payment: self.payment@,
        }
    }
}

/// What is wrong with the topics of a record that is read as an event of `kind`, if
/// anything is.
///
/// The first topic has to be the kind's signature, and each indexed value of the event has
/// to have its topic after it, no more and no fewer.
pub open spec fn topics_error(log: LogView, kind: EventKind) -> Option<DecodeError> {
    if log.topics.len() == 0 || log.topics[0] != kind.signature_bytes() {
        Some(DecodeError::InvalidData)
    } else if log.topics.len() == 1 {
        Some(DecodeError::Empty)
    } else if log.topics.len() != kind.indexed_count() + 1 {
        Some(DecodeError::InvalidData)
    } else {
        None
    }
}

/// The `Dispatch` event that a record holds.
pub open spec fn dispatch_of(log: LogView) -> Result<DispatchView, DecodeError> {
    let map = LogItemMap::of(MailboxLogType::Dispatch);
    match topics_error(log, EventKind::Dispatch) {
        Some(error) => Err(error),
        None => match bytes_payload(log.data) {
            Err(error) => Err(error),
            Ok(message) => Ok(
                DispatchView {
                    sender: address_of_word(log.topics[map.sender_topic_idx as int]),
                    destination: u32_of_word(log.topics[map.domain_topic_idx as int]) as u32,
                    recipient: log.topics[map.recipient_topic_idx as int],
                    message,
                },
            ),
        },
    }
}

/// The `Process` event that a record holds. Its payload is not looked at.
pub open spec fn process_of(log: LogView) -> Result<ProcessView, DecodeError> {
    let map = LogItemMap::of(MailboxLogType::Process);
    match topics_error(log, EventKind::Process) {
        Some(error) => Err(error),
        None => Ok(
            ProcessView {
                origin: u32_of_word(log.topics[map.domain_topic_idx as int]) as u32,
                sender: log.topics[map.sender_topic_idx as int],
                recipient: address_of_word(log.topics[map.recipient_topic_idx as int]),
            },
        ),
    }
}

/// The message identifier that a record of kind `DispatchId` or `ProcessId` holds. Its
/// payload is not looked at.
pub open spec fn message_id_of(log: LogView, kind: EventKind) -> Result<Seq<u8>, DecodeError> {
    match topics_error(log, kind) {
        Some(error) => Err(error),
        None => Ok(log.topics[1]),
    }
}

/// The `GasPayment` event that a record holds.
pub open spec fn gas_payment_of(log: LogView) -> Result<GasPaymentView, DecodeError> {
    match topics_error(log, EventKind::GasPayment) {
        Some(error) => Err(error),
        None => match word_pair_payload(log.data) {
            Err(error) => Err(error),
            Ok(pair) => Ok(
                GasPaymentView { message_id: log.topics[1], gas_amount: pair.0, payment: pair.1 },
            ),
        },
    }
}

/// Checks the topics of a record against the shape of an event.
pub fn check_topics(log: &Log, kind: EventKind) -> (error: Option<DecodeError>)
    ensures
        error == topics_error(log@, kind),
{
    if log.topics.len() == 0 {
        return Some(DecodeError::InvalidData);
    }
    if log.topics[0] != kind.signature() {
        return Some(DecodeError::InvalidData);
    }
    let indexed: usize = match kind {
        EventKind::Dispatch => 3,
        EventKind::DispatchId => 1,
        EventKind::Process => 3,
        EventKind::ProcessId => 1,
        EventKind::GasPayment => 1,
    };
    if log.topics.len() == 1 {
        Some(DecodeError::Empty)
    } else if log.topics.len() != indexed + 1 {
        Some(DecodeError::InvalidData)
    } else {
        None
    }
}

impl DispatchFilter {
    /// Reads a record as a `Dispatch` event.
    pub fn decode_log(log: &Log) -> (decoded: Result<DispatchFilter, DecodeError>)
        ensures
            match decoded {
                Ok(event) => dispatch_of(log@) == Ok::<DispatchView, DecodeError>(event@),
                Err(error) => dispatch_of(log@) == Err::<DispatchView, DecodeError>(error),
            },
    {
        if let Some(error) = check_topics(log, EventKind::Dispatch) {
            return Err(error);
        }
        let map = LogItemMap::new(MailboxLogType::Dispatch);
        match decode_bytes_payload(&log.data) {
            Err(error) => Err(error),
            Ok(message) => Ok(
                DispatchFilter {
                    sender: log.topics[map.sender_topic_idx].to_address(),
                    destination: word_to_u32(&log.topics[map.domain_topic_idx]),
                    recipient: log.topics[map.recipient_topic_idx],
                    message,
                },
            ),
        }
    }
}

impl ProcessFilter {
    /// Reads a record as a `Process` event.
    pub fn decode_log(log: &Log) -> (decoded: Result<ProcessFilter, DecodeError>)
        ensures
            match decoded {
                Ok(event) => process_of(log@) == Ok::<ProcessView, DecodeError>(event@),
                Err(error) => process_of(log@) == Err::<ProcessView, DecodeError>(error),
            },
    {
        if let Some(error) = check_topics(log, EventKind::Process) {
            return Err(error);
        }
        let map = LogItemMap::new(MailboxLogType::Process);
        Ok(
            ProcessFilter {
                origin: word_to_u32(&log.topics[map.domain_topic_idx]),
                sender: log.topics[map.sender_topic_idx],
                recipient: log.topics[map.recipient_topic_idx].to_address(),
            },
        )
    }
}

impl DispatchIdFilter {
    /// Reads a record as a `DispatchId` event.
    pub fn decode_log(log: &Log) -> (decoded: Result<DispatchIdFilter, DecodeError>)
        ensures
            match decoded {
                Ok(event) => message_id_of(log@, EventKind::DispatchId) == Ok::<
                    Seq<u8>,
                    DecodeError,
                >(event@),
                Err(error) => message_id_of(log@, EventKind::DispatchId) == Err::<
                    Seq<u8>,
                    DecodeError,
                >(error),
            },
    {
        if let Some(error) = check_topics(log, EventKind::DispatchId) {
            return Err(error);
        }
        Ok(DispatchIdFilter { message_id: log.topics[1] })
    }
}

impl ProcessIdFilter {
    /// Reads a record as a `ProcessId` event.
    pub fn decode_log(log: &Log) -> (decoded: Result<ProcessIdFilter, DecodeError>)
        ensures
            match decoded {
                Ok(event) => message_id_of(log@, EventKind::ProcessId) == Ok::<
                    Seq<u8>,
                    DecodeError,
                >(event@),
                Err(error) => message_id_of(log@, EventKind::ProcessId) == Err::<
                    Seq<u8>,
                    DecodeError,
                >(error),
            },
    {
        if let Some(error) = check_topics(log, EventKind::ProcessId) {
            return Err(error);
        }
        Ok(ProcessIdFilter { message_id: log.topics[1] })
    }
}

impl GasPaymentFilter {
    /// Reads a record as a `GasPayment` event.
    pub fn decode_log(log: &Log) -> (decoded: Result<GasPaymentFilter, DecodeError>)
        ensures
            match decoded {
                Ok(event) => gas_payment_of(log@) == Ok::<GasPaymentView, DecodeError>(event@),
                Err(error) => gas_payment_of(log@) == Err::<GasPaymentView, DecodeError>(error),
            },
    {
        if let Some(error) = check_topics(log, EventKind::GasPayment) {
            return Err(error);
        }
        match decode_word_pair_payload(&log.data) {
            Err(error) => Err(error),
            Ok(pair) => Ok(
                GasPaymentFilter { message_id: log.topics[1], gas_amount: pair.0, payment: pair.1 },
            ),
        }
    }
}

} // verus!
