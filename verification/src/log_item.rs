//! One record of the log, seen as the event that it reports.

use vstd::prelude::*;
use vstd::string::StringExecFns;
use crate::abi::DecodeError;
use crate::event::{
    dispatch_of, gas_payment_of, message_id_of, process_of, DispatchFilter, DispatchIdFilter,
    DispatchView, GasPaymentFilter, GasPaymentView, ProcessFilter, ProcessIdFilter, ProcessView,
};
use crate::digest::keccak256_digest;
use crate::event_kind::{lemma_signatures_distinct, EventKind};
use crate::hash::{address_of_word, H160, H256};
use crate::log::{optional_hash_view, Log, LogView};
use crate::mailbox::MailboxLogType;
use crate::message::{
    encoded_message, lemma_envelope_round_trip, message_id_of_envelope, parsed_message,
    HyperlaneMessage, MessageView, MESSAGE_HEADER_LEN,
};
use crate::text::short_hex_text;

verus! {

/// Where the topics of a record hold the sender, the recipient and the domain.
///
/// Records of sent and of delivered messages order their topics differently.
#[derive(Clone, Copy, Debug, PartialEq, Eq, Structural)]
pub struct LogItemMap {
    /// The type of log this map is for.
    pub event_type: MailboxLogType,
    /// The index of the sender topic.
    pub sender_topic_idx: usize,
    /// The index of the recipient topic.
    pub recipient_topic_idx: usize,
    /// The index of the domain topic.
    pub domain_topic_idx: usize,
}

impl LogItemMap {
    /// The topic layout of a log type.
    pub open spec fn of(log_type: MailboxLogType) -> LogItemMap {
        LogItemMap {
            event_type: log_type,
            sender_topic_idx: match log_type {
                MailboxLogType::Dispatch => 1,
                MailboxLogType::Process => 2,
            },
            recipient_topic_idx: 3,
            domain_topic_idx: match log_type {
                MailboxLogType::Dispatch => 2,
                MailboxLogType::Process => 1,
            },
        }
    }

    /// Create a new map for the given log type.
    pub fn new(log_type: MailboxLogType) -> (map: Self)
        ensures
            map == LogItemMap::of(log_type),
    {
        LogItemMap {
            event_type: log_type,
            sender_topic_idx: match log_type {
                MailboxLogType::Dispatch => 1,
                MailboxLogType::Process => 2,
            },
            domain_topic_idx: match log_type {
                MailboxLogType::Dispatch => 2,
                MailboxLogType::Process => 1,
            },
            recipient_topic_idx: 3,
        }
    }
}

/// Any of the events of the protocol.
#[derive(Clone, Debug)]
pub enum MailboxEvent {
    /// A message was sent.
    Dispatch(DispatchFilter),
    /// The identifier of a message that was sent.
    DispatchId(DispatchIdFilter),
    /// A message was delivered.
    Process(ProcessFilter),
    /// The identifier of a message that was delivered.
    ProcessId(ProcessIdFilter),
    /// Gas for a message's delivery was paid.
    GasPayment(GasPaymentFilter),
}

/// What an event holds, as plain values.
pub ghost enum MailboxEventView {
    /// A message was sent.
    Dispatch(DispatchView),
    /// The identifier of a message that was sent.
    DispatchId(Seq<u8>),
    /// A message was delivered.
    Process(ProcessView),
    /// The identifier of a message that was delivered.
    ProcessId(Seq<u8>),
    /// Gas for a message's delivery was paid.
    GasPayment(GasPaymentView),
}

impl View for MailboxEvent {
    type V = MailboxEventView;

    open spec fn view(&self) -> MailboxEventView {
        match *self {
            MailboxEvent::Dispatch(event) => MailboxEventView::Dispatch(event@),
            MailboxEvent::DispatchId(event) => MailboxEventView::DispatchId(event@),
            MailboxEvent::Process(event) => MailboxEventView::Process(event@),
            MailboxEvent::ProcessId(event) => MailboxEventView::ProcessId(event@),
            MailboxEvent::GasPayment(event) => MailboxEventView::GasPayment(event@),
        }
    }
}

impl MailboxEventView {
    /// The kind of the event.
    pub open spec fn kind(self) -> EventKind {
        match self {
            MailboxEventView::Dispatch(_) => EventKind::Dispatch,
            MailboxEventView::DispatchId(_) => EventKind::DispatchId,
            MailboxEventView::Process(_) => EventKind::Process,
            MailboxEventView::ProcessId(_) => EventKind::ProcessId,
            MailboxEventView::GasPayment(_) => EventKind::GasPayment,
        }
    }
}

/// Whether a record carries the signature of `kind` as its first topic. A record without
/// topics carries no signature.
pub open spec fn is_signed(log: LogView, kind: EventKind) -> bool {
    log.topics.len() > 0 && log.topics[0] == kind.signature_bytes()
}

/// What reading a record as one kind of event gives: nothing where the record carries
/// another signature or none, else the event's values or the reason why they cannot be
/// read.
pub open spec fn when_signed<V>(log: LogView, kind: EventKind, values: Result<V, DecodeError>) -> Result<
    Option<V>,
    DecodeError,
> {
    if is_signed(log, kind) {
        match values {
            Ok(v) => Ok(Some(v)),
            Err(error) => Err(error),
        }
    } else {
        Ok(None)
    }
}

/// The values of a record read as an event of `kind`, whatever signature it carries.
pub open spec fn values_of(log: LogView, kind: EventKind) -> Result<MailboxEventView, DecodeError> {
    match kind {
        EventKind::Dispatch => match dispatch_of(log) {
            Ok(event) => Ok(MailboxEventView::Dispatch(event)),
            Err(error) => Err(error),
        },
        EventKind::DispatchId => match message_id_of(log, kind) {
            Ok(id) => Ok(MailboxEventView::DispatchId(id)),
            Err(error) => Err(error),
        },
        EventKind::Process => match process_of(log) {
            Ok(event) => Ok(MailboxEventView::Process(event)),
            Err(error) => Err(error),
        },
        EventKind::ProcessId => match message_id_of(log, kind) {
            Ok(id) => Ok(MailboxEventView::ProcessId(id)),
            Err(error) => Err(error),
        },
        EventKind::GasPayment => match gas_payment_of(log) {
            Ok(event) => Ok(MailboxEventView::GasPayment(event)),
            Err(error) => Err(error),
        },
    }
}

/// A record read as an event of `kind`.
pub open spec fn event_of(log: LogView, kind: EventKind) -> Result<Option<MailboxEventView>, DecodeError> {
    when_signed(log, kind, values_of(log, kind))
}

/// A record read as a `Dispatch` event.
pub open spec fn dispatch_event_of(log: LogView) -> Result<Option<DispatchView>, DecodeError> {
    when_signed(log, EventKind::Dispatch, dispatch_of(log))
}

/// A record read as a `Process` event.
pub open spec fn process_event_of(log: LogView) -> Result<Option<ProcessView>, DecodeError> {
    when_signed(log, EventKind::Process, process_of(log))
}

/// A record read as an event of kind `DispatchId` or `ProcessId`.
pub open spec fn id_event_of(log: LogView, kind: EventKind) -> Result<Option<Seq<u8>>, DecodeError> {
    when_signed(log, kind, message_id_of(log, kind))
}

/// A record read as a `GasPayment` event.
pub open spec fn gas_payment_event_of(log: LogView) -> Result<Option<GasPaymentView>, DecodeError> {
    when_signed(log, EventKind::GasPayment, gas_payment_of(log))
}

/// The account that sent the message of a record: of a `Dispatch` record the sender as it
/// stands, of a `Process` record the last 20 bytes of the 32-byte sender. No other record
/// has a sender.
pub open spec fn sender_of(log: LogView) -> Result<Option<Seq<u8>>, DecodeError> {
    match dispatch_event_of(log) {
        Err(error) => Err(error),
        Ok(Some(dispatch)) => Ok(Some(dispatch.sender)),
        Ok(None) => match process_event_of(log) {
            Err(error) => Err(error),
            Ok(Some(process)) => Ok(Some(address_of_word(process.sender))),
            Ok(None) => Ok(None),
        },
    }
}

/// The account that receives the message of a record: of a `Dispatch` record the last 20
/// bytes of the 32-byte recipient, of a `Process` record the recipient as it stands. No
/// other record has a recipient.
pub open spec fn recipient_of(log: LogView) -> Result<Option<Seq<u8>>, DecodeError> {
    match dispatch_event_of(log) {
        Err(error) => Err(error),
        Ok(Some(dispatch)) => Ok(Some(address_of_word(dispatch.recipient))),
        Ok(None) => match process_event_of(log) {
            Err(error) => Err(error),
            Ok(Some(process)) => Ok(Some(process.recipient)),
            Ok(None) => Ok(None),
        },
    }
}

/// The domain that the message of a record goes to. Only a `Dispatch` record has one.
pub open spec fn destination_domain_of(log: LogView) -> Result<Option<u32>, DecodeError> {
    match dispatch_event_of(log) {
        Err(error) => Err(error),
        Ok(Some(dispatch)) => Ok(Some(dispatch.destination)),
        Ok(None) => Ok(None),
    }
}

/// The domain that the message of a record comes from. Only a `Process` record has one.
pub open spec fn origin_domain_of(log: LogView) -> Result<Option<u32>, DecodeError> {
    match process_event_of(log) {
        Err(error) => Err(error),
        Ok(Some(process)) => Ok(Some(process.origin)),
        Ok(None) => Ok(None),
    }
}

/// The message that a record holds. Only a `Dispatch` record holds one, in an envelope that
/// has at least the header's width.
pub open spec fn hyperlane_message_of(log: LogView) -> Result<Option<MessageView>, DecodeError> {
    match dispatch_event_of(log) {
        Err(error) => Err(error),
        Ok(Some(dispatch)) => if dispatch.message.len() < MESSAGE_HEADER_LEN {
            Err(DecodeError::TruncatedMessage)
        } else {
            Ok(Some(parsed_message(dispatch.message)))
        },
        Ok(None) => Ok(None),
    }
}

/// The identifier of the message of a record.
///
/// Of a `Dispatch` record it is the digest of the envelope of the message that the record
/// holds. Of a `DispatchId` or `ProcessId` record it is the identifier that the record
/// holds. No other record has one.
pub open spec fn item_message_id_of(log: LogView) -> Result<Option<Seq<u8>>, DecodeError> {
    match hyperlane_message_of(log) {
        Err(error) => Err(error),
        Ok(Some(message)) => Ok(Some(message_id_of_envelope(encoded_message(message)))),
        Ok(None) => match id_event_of(log, EventKind::DispatchId) {
            Err(error) => Err(error),
            Ok(Some(id)) => Ok(Some(id)),
            Ok(None) => id_event_of(log, EventKind::ProcessId),
        },
    }
}

/// The name under which a signature is reported: the name of the event that it names, or
/// the signature itself, in short, where it names none.
pub open spec fn event_label(signature: Seq<u8>) -> Seq<char> {
    match EventKind::of_signature(signature) {
        Some(EventKind::Dispatch) => "Dispatch"@,
        Some(EventKind::DispatchId) => "Dispatch ID"@,
        Some(EventKind::Process) => "Process"@,
        Some(EventKind::ProcessId) => "Process ID"@,
        Some(EventKind::GasPayment) => "Gas Payment"@,
        None => short_hex_text(signature),
    }
}

/// A record read as an event of `kind` gives nothing where the record carries another
/// signature, and an event of that kind or a decoding error where it carries the kind's
/// signature.
pub proof fn lemma_event_only_under_its_signature(log: LogView, kind: EventKind)
    ensures
        log.topics.len() == 0 ==> event_of(log, kind) == Ok::<Option<MailboxEventView>, DecodeError>(
            None,
        ),
        !is_signed(log, kind) ==> event_of(log, kind) == Ok::<Option<MailboxEventView>, DecodeError>(
            None,
        ),
        is_signed(log, kind) ==> event_of(log, kind) is Err || (event_of(log, kind) matches Ok(
            Some(event),
        ) && event.kind() == kind),
        is_signed(log, kind) ==> (event_of(log, kind) is Err <==> values_of(log, kind) is Err),
{
}

/// A record carries the signature of one kind of event at most.
pub proof fn lemma_signed_by_one_kind(log: LogView, a: EventKind, b: EventKind)
    requires
        is_signed(log, a),
        is_signed(log, b),
    ensures
        a == b,
{
    lemma_signatures_distinct(a, b);
}

/// The identifier of a record's message comes from one source only.
///
/// Of a `Dispatch` record it is the digest of the envelope that the record holds, and the
/// record's topics are not taken for it. Of a `DispatchId` or `ProcessId` record it is the
/// topic after the signature, and nothing is hashed. A record of any other signature has no
/// identifier.
pub proof fn lemma_message_id_has_one_source(log: LogView)
    ensures
        is_signed(log, EventKind::Dispatch) ==> item_message_id_of(log) == match dispatch_of(log) {
            Err(error) => Err::<Option<Seq<u8>>, DecodeError>(error),
            Ok(dispatch) => if dispatch.message.len() < MESSAGE_HEADER_LEN {
                Err(DecodeError::TruncatedMessage)
            } else {
                Ok(Some(keccak256_digest(dispatch.message)))
            },
        },
        is_signed(log, EventKind::DispatchId) ==> item_message_id_of(log) == match message_id_of(
            log,
            EventKind::DispatchId,
        ) {
            Err(error) => Err::<Option<Seq<u8>>, DecodeError>(error),
            Ok(id) => Ok(Some(log.topics[1])),
        },
        is_signed(log, EventKind::ProcessId) ==> item_message_id_of(log) == match message_id_of(
            log,
            EventKind::ProcessId,
        ) {
            Err(error) => Err::<Option<Seq<u8>>, DecodeError>(error),
            Ok(id) => Ok(Some(log.topics[1])),
        },
        !is_signed(log, EventKind::Dispatch) && !is_signed(log, EventKind::DispatchId) && !is_signed(
            log,
            EventKind::ProcessId,
        ) ==> item_message_id_of(log) == Ok::<Option<Seq<u8>>, DecodeError>(None),
{
    lemma_signatures_distinct(EventKind::Dispatch, EventKind::DispatchId);
    lemma_signatures_distinct(EventKind::Dispatch, EventKind::ProcessId);
    lemma_signatures_distinct(EventKind::DispatchId, EventKind::ProcessId);
    if is_signed(log, EventKind::Dispatch) {
        if let Ok(dispatch) = dispatch_of(log) {
            if dispatch.message.len() >= MESSAGE_HEADER_LEN {
                lemma_envelope_round_trip(dispatch.message);
            }
        }
    }
}

/// The bytes of an optional address.
pub open spec fn optional_address_view(address: Option<H160>) -> Option<Seq<u8>> {
    match address {
        Some(a) => Some(a@),
        None => None,
    }
}

/// One record of the log, seen as the event that it reports. The item holds nothing of its
/// own: every answer is read from the record when it is asked for.
#[derive(Clone, Copy)]
pub struct MailboxLogItem<'a> {
    /// The underlying record.
    pub log: &'a Log,
}

impl<'a> MailboxLogItem<'a> {
    /// Provides readable names for the different events.
    pub fn event_name(&self) -> (name: String)
        requires
            self.log@.has_signature(),
        ensures
            name@ == event_label(self.log@.topics[0]),
    {
        let signature = self.event_signature();
        match EventKind::from_signature(&signature) {
            Some(EventKind::Dispatch) => String::from_str("Dispatch"),
            Some(EventKind::DispatchId) => String::from_str("Dispatch ID"),
            Some(EventKind::Process) => String::from_str("Process"),
            Some(EventKind::ProcessId) => String::from_str("Process ID"),
            Some(EventKind::GasPayment) => String::from_str("Gas Payment"),
            None => signature.to_short_string(),
        }
    }

    /// Attempt to extract the `Dispatch` event from this log item.
    pub fn to_dispatch_event(&self) -> (event: Result<Option<DispatchFilter>, DecodeError>)
        ensures
            match event {
                Ok(Some(e)) => dispatch_event_of(self.log@) == Ok::<Option<DispatchView>, DecodeError>(
                    Some(e@),
                ),
                Ok(None) => dispatch_event_of(self.log@) == Ok::<Option<DispatchView>, DecodeError>(
                    None,
                ),
                Err(error) => dispatch_event_of(self.log@) == Err::<Option<DispatchView>, DecodeError>(
                    error,
                ),
            },
    {
        if self.carries(EventKind::Dispatch) {
            match DispatchFilter::decode_log(self.log) {
                Ok(e) => Ok(Some(e)),
                Err(error) => Err(error),
            }
        } else {
            Ok(None)
        }
    }

    /// Attempt to extract the `DispatchId` event from this log item.
    pub fn to_dispatch_id_event(&self) -> (event: Result<Option<DispatchIdFilter>, DecodeError>)
        ensures
            match event {
                Ok(Some(e)) => id_event_of(self.log@, EventKind::DispatchId) == Ok::<
                    Option<Seq<u8>>,
                    DecodeError,
                >(Some(e@)),
                Ok(None) => id_event_of(self.log@, EventKind::DispatchId) == Ok::<
                    Option<Seq<u8>>,
                    DecodeError,
                >(None),
                Err(error) => id_event_of(self.log@, EventKind::DispatchId) == Err::<
                    Option<Seq<u8>>,
                    DecodeError,
                >(error),
            },
    {
        if self.carries(EventKind::DispatchId) {
            match DispatchIdFilter::decode_log(self.log) {
                Ok(e) => Ok(Some(e)),
                Err(error) => Err(error),
            }
        } else {
            Ok(None)
        }
    }

    /// Attempt to extract the `Process` event from this log item.
    pub fn to_process_event(&self) -> (event: Result<Option<ProcessFilter>, DecodeError>)
        ensures
            match event {
                Ok(Some(e)) => process_event_of(self.log@) == Ok::<Option<ProcessView>, DecodeError>(
                    Some(e@),
                ),
                Ok(None) => process_event_of(self.log@) == Ok::<Option<ProcessView>, DecodeError>(
                    None,
                ),
                Err(error) => process_event_of(self.log@) == Err::<Option<ProcessView>, DecodeError>(
                    error,
                ),
            },
    {
        if self.carries(EventKind::Process) {
            match ProcessFilter::decode_log(self.log) {
                Ok(e) => Ok(Some(e)),
                Err(error) => Err(error),
            }
        } else {
            Ok(None)
        }
    }

    /// Attempt to extract the `ProcessId` event from this log item.
    pub fn to_process_id_event(&self) -> (event: Result<Option<ProcessIdFilter>, DecodeError>)
        ensures
            match event {
                Ok(Some(e)) => id_event_of(self.log@, EventKind::ProcessId) == Ok::<
                    Option<Seq<u8>>,
                    DecodeError,
                >(Some(e@)),
                Ok(None) => id_event_of(self.log@, EventKind::ProcessId) == Ok::<
                    Option<Seq<u8>>,
                    DecodeError,
                >(None),
                Err(error) => id_event_of(self.log@, EventKind::ProcessId) == Err::<
                    Option<Seq<u8>>,
                    DecodeError,
                >(error),
            },
    {
        if self.carries(EventKind::ProcessId) {
            match ProcessIdFilter::decode_log(self.log) {
                Ok(e) => Ok(Some(e)),
                Err(error) => Err(error),
            }
        } else {
            Ok(None)
        }
    }

    /// Attempt to extract the `GasPayment` event from this log item.
    pub fn to_gas_pay_event(&self) -> (event: Result<Option<GasPaymentFilter>, DecodeError>)
        ensures
            match event {
                Ok(Some(e)) => gas_payment_event_of(self.log@) == Ok::<
                    Option<GasPaymentView>,
                    DecodeError,
                >(Some(e@)),
                Ok(None) => gas_payment_event_of(self.log@) == Ok::<
                    Option<GasPaymentView>,
                    DecodeError,
                >(None),
                Err(error) => gas_payment_event_of(self.log@) == Err::<
                    Option<GasPaymentView>,
                    DecodeError,
                >(error),
            },
    {
        if self.carries(EventKind::GasPayment) {
            match GasPaymentFilter::decode_log(self.log) {
                Ok(e) => Ok(Some(e)),
                Err(error) => Err(error),
            }
        } else {
            Ok(None)
        }
    }

    /// Get the signature of the event: the record's first topic.
    pub fn event_signature(&self) -> (signature: H256)
        requires
            self.log@.has_signature(),
        ensures
            signature@ == self.log@.topics[0],
    {
        self.log.topics[0]
    }

    /// Whether the record carries the signature of the given kind as its first topic.
    pub fn carries(&self, kind: EventKind) -> (signed: bool)
        ensures
            signed == is_signed(self.log@, kind),
    {
        self.log.topics.len() > 0 && self.log.topics[0] == kind.signature()
    }

    /// Attempt to decode the record as an event of the given kind.
    ///
    /// A record that carries another signature, or has no topic at all, is no such event,
    /// which is no error. A record that carries the kind's signature gives the event, or the
    /// reason why its values cannot be read.
    pub fn to_event(&self, kind: EventKind) -> (event: Result<Option<MailboxEvent>, DecodeError>)
        ensures
            match event {
                Ok(Some(e)) => event_of(self.log@, kind) == Ok::<
                    Option<MailboxEventView>,
                    DecodeError,
                >(Some(e@)),
                Ok(None) => event_of(self.log@, kind) == Ok::<Option<MailboxEventView>, DecodeError>(
                    None,
                ),
                Err(error) => event_of(self.log@, kind) == Err::<
                    Option<MailboxEventView>,
                    DecodeError,
                >(error),
            },
            !is_signed(self.log@, kind) ==> event matches Ok(None),
            is_signed(self.log@, kind) ==> (event matches Ok(Some(e)) && e@.kind() == kind)
                || event is Err,
    {
        if !self.carries(kind) {
            return Ok(None);
        }
        match kind {
            EventKind::Dispatch => match DispatchFilter::decode_log(self.log) {
                Ok(e) => Ok(Some(MailboxEvent::Dispatch(e))),
                Err(error) => Err(error),
            },
            EventKind::DispatchId => match DispatchIdFilter::decode_log(self.log) {
                Ok(e) => Ok(Some(MailboxEvent::DispatchId(e))),
                Err(error) => Err(error),
            },
            EventKind::Process => match ProcessFilter::decode_log(self.log) {
                Ok(e) => Ok(Some(MailboxEvent::Process(e))),
                Err(error) => Err(error),
            },
            EventKind::ProcessId => match ProcessIdFilter::decode_log(self.log) {
                Ok(e) => Ok(Some(MailboxEvent::ProcessId(e))),
                Err(error) => Err(error),
            },
            EventKind::GasPayment => match GasPaymentFilter::decode_log(self.log) {
                Ok(e) => Ok(Some(MailboxEvent::GasPayment(e))),
                Err(error) => Err(error),
            },
        }
    }

    /// Attempt to extract the sender from the log item. Not all log items have a sender.
    pub fn sender(&self) -> (sender: Result<Option<H160>, DecodeError>)
        ensures
            match sender {
                Ok(address) => sender_of(self.log@) == Ok::<Option<Seq<u8>>, DecodeError>(
                    optional_address_view(address),
                ),
                Err(error) => sender_of(self.log@) == Err::<Option<Seq<u8>>, DecodeError>(error),
            },
    {
        match self.to_dispatch_event() {
            Err(error) => Err(error),
            Ok(Some(dispatch)) => Ok(Some(dispatch.sender)),
            Ok(None) => match self.to_process_event() {
                Err(error) => Err(error),
                Ok(Some(process)) => Ok(Some(process.sender.to_address())),
                Ok(None) => Ok(None),
            },
        }
    }

    /// Attempt to extract the recipient from the log item. Not all log items have a
    /// recipient.
    pub fn recipient(&self) -> (recipient: Result<Option<H160>, DecodeError>)
        ensures
            match recipient {
                Ok(address) => recipient_of(self.log@) == Ok::<Option<Seq<u8>>, DecodeError>(
                    optional_address_view(address),
                ),
                Err(error) => recipient_of(self.log@) == Err::<Option<Seq<u8>>, DecodeError>(error),
            },
    {
        match self.to_dispatch_event() {
            Err(error) => Err(error),
            Ok(Some(dispatch)) => Ok(Some(dispatch.recipient.to_address())),
            Ok(None) => match self.to_process_event() {
                Err(error) => Err(error),
                Ok(Some(process)) => Ok(Some(process.recipient)),
                Ok(None) => Ok(None),
            },
        }
    }

    /// Attempt to extract the destination domain from the log item.
    /// Not all log items have a destination domain.
    pub fn destination_domain(&self) -> (domain: Result<Option<u32>, DecodeError>)
        ensures
            domain == destination_domain_of(self.log@),
    {
        match self.to_dispatch_event() {
            Err(error) => Err(error),
            Ok(Some(dispatch)) => Ok(Some(dispatch.destination)),
            Ok(None) => Ok(None),
        }
    }

    /// Attempt to extract the origin domain from the log item.
    /// Not all log items have an origin domain.
    pub fn origin_domain(&self) -> (domain: Result<Option<u32>, DecodeError>)
        ensures
            domain == origin_domain_of(self.log@),
    {
        match self.to_process_event() {
            Err(error) => Err(error),
            Ok(Some(process)) => Ok(Some(process.origin)),
            Ok(None) => Ok(None),
        }
    }

    /// Attempt to extract the message from the log item.
    /// Not applicable for all log items.
    pub fn hyperlane_message(&self) -> (message: Result<Option<HyperlaneMessage>, DecodeError>)
        ensures
            match message {
                Ok(Some(m)) => hyperlane_message_of(self.log@) == Ok::<
                    Option<MessageView>,
                    DecodeError,
                >(Some(m@)),
                Ok(None) => hyperlane_message_of(self.log@) == Ok::<
                    Option<MessageView>,
                    DecodeError,
                >(None),
                Err(error) => hyperlane_message_of(self.log@) == Err::<
                    Option<MessageView>,
                    DecodeError,
                >(error),
            },
    {
        match self.to_dispatch_event() {
            Err(error) => Err(error),
            Ok(Some(dispatch)) => match HyperlaneMessage::from_raw(&dispatch.message) {
                Ok(message) => Ok(Some(message)),
                Err(error) => Err(error),
            },
            Ok(None) => Ok(None),
        }
    }

    /// Attempt to extract the message id from the log item.
    /// Not applicable for all log items.
    pub fn message_id(&self) -> (id: Result<Option<H256>, DecodeError>)
        ensures
            match id {
                Ok(hash) => item_message_id_of(self.log@) == Ok::<Option<Seq<u8>>, DecodeError>(
                    optional_hash_view(hash),
                ),
                Err(error) => item_message_id_of(self.log@) == Err::<Option<Seq<u8>>, DecodeError>(
                    error,
                ),
            },
    {
        match self.hyperlane_message() {
            Err(error) => Err(error),
            Ok(Some(message)) => Ok(Some(message.id())),
            Ok(None) => match self.to_dispatch_id_event() {
                Err(error) => Err(error),
                Ok(Some(dispatch)) => Ok(Some(dispatch.message_id)),
                Ok(None) => match self.to_process_id_event() {
                    Err(error) => Err(error),
                    Ok(Some(process)) => Ok(Some(process.message_id)),
                    Ok(None) => Ok(None),
                },
            },
        }
    }

    /// Block number of the log item.
    pub fn block_number(&self) -> (number: Option<u64>)
        ensures
            number == self.log@.block_number,
    {
        self.log.block_number
    }

    /// Transaction hash of the log item.
    pub fn transaction_hash(&self) -> (hash: Option<H256>)
        ensures
            optional_hash_view(hash) == self.log@.transaction_hash,
            hash == self.log.transaction_hash,
    {
        self.log.transaction_hash
    }

    /// Log index of the log item.
    pub fn log_index(&self) -> (index: Option<u64>)
        ensures
            index == self.log@.log_index,
    {
        self.log.log_index
    }

    /// Data of the log item.
    pub fn data(&self) -> (data: &[u8])
        ensures
            data@ == self.log@.data,
    {
        self.log.data.as_slice()
    }
}

} // verus!
