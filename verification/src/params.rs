//! The parameters of one run, and the rules that they have to meet.

use vstd::prelude::*;
use vstd::slice::slice_subrange;
use vstd::string::StringSliceAdditionalSpecFns;
use vstd::utf8::encode_utf8;
use crate::hash::{H160, H256};
use crate::text::{hex_bytes, hex_decode, is_hex_text};

verus! {

/// The parameters of one run. `M` is the list of criteria that a query matches records
/// against; nothing here looks into it.
#[derive(Debug)]
pub struct Params<M> {
    /// RPC URL of the chain to connect to.
    pub rpc_url: String,
    /// Whether to print verbose output.
    pub verbose: bool,
    /// Number of blocks to wait for transaction confirmation.
    pub confirmations: usize,
    /// Whether to print the parameters and do nothing else.
    pub debug: bool,
    /// Private key of the sender.
    pub key: Option<H256>,
    /// Whether to dispatch a message.
    pub dispatch: bool,
    /// Whether to pay for a message.
    pub pay: bool,
    /// Whether to deploy the mock contracts.
    pub deploy_mock: bool,
    /// Address of the mailbox contract.
    pub mailbox_address: Option<H160>,
    /// Destination domain of the message.
    pub dest_id: Option<u32>,
    /// Address of the recipient contract.
    pub recipient_address: Option<H160>,
    /// Payload of the message.
    pub payload: Option<Vec<u8>>,
    /// Address of the paymaster contract.
    pub paymaster_address: Option<H160>,
    /// Message ID of the message to pay for.
    pub msg_id: Option<H256>,
    /// Gas to pay for.
    pub gas: u32,
    /// Matching list for the query; without one, nothing is queried.
    pub matching_list: Option<M>,
    /// Start block for the query.
    pub start_block: i32,
    /// End block for the query.
    pub end_block: i32,
}

/// What is wrong with the parameters of a run.
#[derive(Clone, Copy, Debug, PartialEq, Eq, Structural)]
pub enum ParamError {
    /// A transaction is asked for, and there is no key to sign it.
    NoSigningKey,
    /// A transaction is asked for, and there is no destination.
    MissingDestination,
    /// A dispatch is asked for, and there is no mailbox.
    MissingMailboxForDispatch,
    /// A dispatch is asked for, and there is no recipient.
    MissingRecipient,
    /// A dispatch is asked for, and there is no payload.
    MissingPayload,
    /// A dispatch is asked for, and a message identifier is given.
    MessageIdWithDispatch,
    /// A payment is asked for, and there is no paymaster.
    MissingPaymaster,
    /// A payment is asked for, and there is no message to pay for.
    MissingMessageId,
    /// A query is asked for, and there is no mailbox.
    MissingMailboxForQuery,
    /// The payload is given both as text and as a file, or as neither.
    PayloadSource,
    /// The payload's text is not hexadecimal.
    InvalidPayloadHex,
}

impl ParamError {
    /// The error in words.
    pub fn message(&self) -> (text: &'static str)
        ensures
            text == match *self {
                ParamError::NoSigningKey => "No signing key provided",
                ParamError::MissingDestination => "Missing destination ID",
                ParamError::MissingMailboxForDispatch => "Missing mailbox address for dispatch",
                ParamError::MissingRecipient => "Missing recipient address for dispatch",
                ParamError::MissingPayload => "Missing payload for dispatch",
                ParamError::MessageIdWithDispatch => "Message ID is not allowed with dispatch",
                ParamError::MissingPaymaster => "Missing paymaster address for pay",
                ParamError::MissingMessageId => "Missing message ID for pay",
                ParamError::MissingMailboxForQuery => "Missing mailbox address for query",
                ParamError::PayloadSource => "Specify exactly one of --payload and --file",
                ParamError::InvalidPayloadHex => "Invalid hex string for payload",
            },
    {
        match self {
            ParamError::NoSigningKey => "No signing key provided",
            ParamError::MissingDestination => "Missing destination ID",
            ParamError::MissingMailboxForDispatch => "Missing mailbox address for dispatch",
            ParamError::MissingRecipient => "Missing recipient address for dispatch",
            ParamError::MissingPayload => "Missing payload for dispatch",
            ParamError::MessageIdWithDispatch => "Message ID is not allowed with dispatch",
            ParamError::MissingPaymaster => "Missing paymaster address for pay",
            ParamError::MissingMessageId => "Missing message ID for pay",
            ParamError::MissingMailboxForQuery => "Missing mailbox address for query",
            ParamError::PayloadSource => "Specify exactly one of --payload and --file",
            ParamError::InvalidPayloadHex => "Invalid hex string for payload",
        }
    }
}

/// Where the payload of a message comes from.
#[derive(Debug)]
pub enum PayloadSource {
    /// The payload is the content of the file that was named.
    File,
    /// The payload is these bytes, which were given in hexadecimal.
    Bytes(Vec<u8>),
}

/// What a query needs besides its matching list.
#[derive(Clone, Copy, Debug)]
pub struct QueryRequest {
    /// Address of the mailbox contract.
    pub mailbox_address: H160,
    /// Marker of the first block.
    pub start_block: i64,
    /// Marker of the last block.
    pub end_block: i64,
    /// Whether to print verbose output.
    pub verbose: bool,
}

/// How far the transactions of a run have come.
#[derive(Clone, Copy, Debug)]
pub enum TransactionStage {
    /// Nothing was done yet.
    Start,
    /// There is a wallet to sign with.
    Signed,
    /// The mock contracts were deployed, or were not asked for.
    Deployed,
    /// The message was dispatched, with the identifier that its receipt gave, if any.
    Dispatched(Option<H256>),
    /// The payment was made.
    Paid,
}

/// What to do next for the transactions of a run.
#[derive(Debug)]
pub enum TransactionStep {
    /// Make the wallet for this key.
    Sign {
        /// Private key of the sender.
        key: H256,
    },
    /// Deploy the mock contracts.
    DeployMock {
        /// Destination domain.
        dest_id: u32,
    },
    /// Dispatch a message.
    Dispatch {
        /// Address of the mailbox contract.
        mailbox_address: H160,
        /// Destination domain of the message.
        dest_id: u32,
        /// Address of the recipient contract.
        recipient_address: H160,
        /// Payload of the message.
        payload: Vec<u8>,
    },
    /// Pay for the delivery of a message.
    Pay {
        /// Address of the paymaster contract.
        paymaster_address: H160,
        /// The message to pay for.
        message_id: H256,
        /// Destination domain of the message.
        dest_id: u32,
        /// Gas to pay for.
        gas: u32,
    },
    /// Nothing is left to do.
    Done,
}

/// What a step holds, as plain values.
pub ghost enum TransactionStepView {
    /// Make the wallet for this key.
    Sign { key: Seq<u8> },
    /// Deploy the mock contracts.
    DeployMock { dest_id: u32 },
    /// Dispatch a message.
    Dispatch { mailbox_address: Seq<u8>, dest_id: u32, recipient_address: Seq<u8>, payload: Seq<u8> },
    /// Pay for the delivery of a message.
    Pay { paymaster_address: Seq<u8>, message_id: Seq<u8>, dest_id: u32, gas: u32 },
    /// Nothing is left to do.
    Done,
}

impl View for TransactionStep {
    type V = TransactionStepView;

    open spec fn view(&self) -> TransactionStepView {
        match *self {
            TransactionStep::Sign { key } => TransactionStepView::Sign { key: key@ },
            TransactionStep::DeployMock { dest_id } => TransactionStepView::DeployMock { dest_id },
            TransactionStep::Dispatch { mailbox_address, dest_id, recipient_address, payload } =>
                TransactionStepView::Dispatch {
                    mailbox_address: mailbox_address@,
                    dest_id,
                    recipient_address: recipient_address@,
                    payload: payload@,
                },
            TransactionStep::Pay { paymaster_address, message_id, dest_id, gas } =>
                TransactionStepView::Pay {
                    paymaster_address: paymaster_address@,
                    message_id: message_id@,
                    dest_id,
                    gas,
                },
            TransactionStep::Done => TransactionStepView::Done,
        }
    }
}

/// The first rule that the parameters break, if they break one.
///
/// The rules bind only a run that asks for a transaction. Such a run needs a key. A
/// dispatch needs a recipient and a payload and takes no message identifier. A payment needs
/// a paymaster, and a message identifier unless the run dispatches the message itself.
pub open spec fn params_error<M>(params: Params<M>) -> Option<ParamError> {
    if !(params.dispatch || params.pay || params.deploy_mock) {
        None
    } else if params.key is None {
        Some(ParamError::NoSigningKey)
    } else if params.dispatch && params.recipient_address is None {
        Some(ParamError::MissingRecipient)
    } else if params.dispatch && params.payload is None {
        Some(ParamError::MissingPayload)
    } else if params.dispatch && params.msg_id is Some {
        Some(ParamError::MessageIdWithDispatch)
    } else if params.pay && params.paymaster_address is None {
        Some(ParamError::MissingPaymaster)
    } else if params.pay && !params.dispatch && params.msg_id is None {
        Some(ParamError::MissingMessageId)
    } else {
        None
    }
}

/// The step that follows the dispatch, which gave this message identifier: the payment
/// where the run asks for it, with what it needs or the error that names what is missing.
pub open spec fn pay_step_of<M>(params: Params<M>, message_id: Option<H256>) -> Result<
    TransactionStepView,
    ParamError,
> {
    if !params.pay {
        Ok(TransactionStepView::Done)
    } else if params.dest_id is None {
        Err(ParamError::MissingDestination)
    } else if params.paymaster_address is None {
        Err(ParamError::MissingPaymaster)
    } else if message_id is None {
        Err(ParamError::MissingMessageId)
    } else {
        Ok(
            TransactionStepView::Pay {
                paymaster_address: params.paymaster_address->Some_0@,
                message_id: message_id->Some_0@,
                dest_id: params.dest_id->Some_0,
                gas: params.gas,
            },
        )
    }
}

/// The step that follows the deployment: the dispatch where the run asks for it, with what
/// it needs or the error that names what is missing. Without a dispatch, the message to pay
/// for is the one that the parameters name.
pub open spec fn dispatch_step_of<M>(params: Params<M>) -> Result<TransactionStepView, ParamError> {
    if !params.dispatch {
        pay_step_of(params, params.msg_id)
    } else if params.dest_id is None {
        Err(ParamError::MissingDestination)
    } else if params.mailbox_address is None {
        Err(ParamError::MissingMailboxForDispatch)
    } else if params.recipient_address is None {
        Err(ParamError::MissingRecipient)
    } else if params.payload is None {
        Err(ParamError::MissingPayload)
    } else {
        Ok(
            TransactionStepView::Dispatch {
                mailbox_address: params.mailbox_address->Some_0@,
                dest_id: params.dest_id->Some_0,
                recipient_address: params.recipient_address->Some_0@,
                payload: params.payload->Some_0@,
            },
        )
    }
}

/// The step that follows a stage: the wallet first, then the mock contracts, the dispatch
/// and the payment, each only where the run asks for it.
pub open spec fn step_after<M>(params: Params<M>, stage: TransactionStage) -> Result<
    TransactionStepView,
    ParamError,
> {
    match stage {
        TransactionStage::Start => match params.key {
            None => Err(ParamError::NoSigningKey),
            Some(key) => Ok(TransactionStepView::Sign { key: key@ }),
        },
        TransactionStage::Signed => match params.dest_id {
            None => Err(ParamError::MissingDestination),
            Some(dest_id) => if params.deploy_mock {
                Ok(TransactionStepView::DeployMock { dest_id })
            } else {
                dispatch_step_of(params)
            },
        },
        TransactionStage::Deployed => dispatch_step_of(params),
        TransactionStage::Dispatched(message_id) => pay_step_of(params, message_id),
        TransactionStage::Paid => Ok(TransactionStepView::Done),
    }
}

/// The byte string without the `0x` that it starts with, however often it starts with it.
pub open spec fn without_hex_prefix(text: Seq<u8>) -> Seq<u8>
    decreases text.len(),
{
    if text.len() >= 2 && text[0] == 0x30 && text[1] == 0x78 {
        without_hex_prefix(text.subrange(2, text.len() as int))
    } else {
        text
    }
}

/// Where the payload comes from: from the text where only a text is given, from the file
/// where only a file is given.
pub open spec fn payload_source_of(hex_text: Option<Seq<u8>>, file_given: bool) -> Result<
    Option<Seq<u8>>,
    ParamError,
> {
    if file_given == hex_text is Some {
        Err(ParamError::PayloadSource)
    } else if file_given {
        Ok(None)
    } else if is_hex_text(without_hex_prefix(hex_text->Some_0)) {
        Ok(Some(hex_bytes(without_hex_prefix(hex_text->Some_0))))
    } else {
        Err(ParamError::InvalidPayloadHex)
    }
}

/// The number of bytes that the `0x` at the start of a text takes, however often the text
/// starts with it.
fn hex_prefix_len(text: &[u8]) -> (len: usize)
    ensures
        len <= text@.len(),
        without_hex_prefix(text@) == text@.subrange(len as int, text@.len() as int),
{
    let total: usize = text.len();
    let mut at: usize = 0;
    assert(text@.subrange(0, total as int) =~= text@);
    while total - at >= 2 && text[at] == 0x30 && text[at + 1] == 0x78
        invariant
            at <= total == text@.len(),
            without_hex_prefix(text@) == without_hex_prefix(text@.subrange(at as int, total as int)),
        decreases total - at,
    {
        let ghost rest = text@.subrange(at as int, total as int);
        assert(rest.subrange(2, rest.len() as int) =~= text@.subrange(at + 2, total as int));
        at += 2;
    }
    at
}

/// Reads the bytes that a payload's text spells in hexadecimal, after any `0x` at its
/// start.
pub fn decode_hex_payload(text: &str) -> (payload: Result<Vec<u8>, ParamError>)
    ensures
        match payload {
            Ok(bytes) => is_hex_text(without_hex_prefix(text.spec_bytes())) && bytes@ == hex_bytes(
                without_hex_prefix(text.spec_bytes()),
            ),
            Err(error) => !is_hex_text(without_hex_prefix(text.spec_bytes())) && error
                == ParamError::InvalidPayloadHex,
        },
{
    let bytes = text.as_bytes();
    let skip = hex_prefix_len(bytes);
    let digits = slice_subrange(bytes, skip, bytes.len());
    match hex_decode(digits) {
        Ok(payload) => Ok(payload),
        Err(_) => Err(ParamError::InvalidPayloadHex),
    }
}

/// Settles where the payload of a message comes from, and reads it where it is given as
/// text.
pub fn read_payload(hex_str: &Option<String>, file_given: bool) -> (source: Result<
    PayloadSource,
    ParamError,
>)
    ensures
        match source {
            Ok(PayloadSource::File) => payload_source_of(
                option_text_bytes(*hex_str),
                file_given,
            ) == Ok::<Option<Seq<u8>>, ParamError>(None),
            Ok(PayloadSource::Bytes(bytes)) => payload_source_of(
                option_text_bytes(*hex_str),
                file_given,
            ) == Ok::<Option<Seq<u8>>, ParamError>(Some(bytes@)),
            Err(error) => payload_source_of(option_text_bytes(*hex_str), file_given) == Err::<
                Option<Seq<u8>>,
                ParamError,
            >(error),
        },
{
    match hex_str {
        Some(text) => {
            if file_given {
                Err(ParamError::PayloadSource)
            } else {
                match decode_hex_payload(text.as_str()) {
                    Ok(bytes) => Ok(PayloadSource::Bytes(bytes)),
                    Err(error) => Err(error),
                }
            }
        },
        None => {
            if file_given {
                Ok(PayloadSource::File)
            } else {
                Err(ParamError::PayloadSource)
            }
        },
    }
}

/// The bytes of an optional text.
pub open spec fn option_text_bytes(text: Option<String>) -> Option<Seq<u8>> {
    match text {
        Some(t) => Some(encode_utf8(t@)),
        None => None,
    }
}

impl<M> Params<M> {
    /// Whether the run asks for a transaction.
    pub fn has_transactions(&self) -> (any: bool)
        ensures
            any == (self.dispatch || self.pay || self.deploy_mock),
    {
        self.dispatch || self.pay || self.deploy_mock
    }

    /// What the query of the run needs: nothing where the run has no matching list, and else
    /// the mailbox, which has to be there, and the markers of the window.
    pub fn query_request(&self) -> (request: Result<Option<QueryRequest>, ParamError>)
        ensures
            self.matching_list is None ==> request matches Ok(None),
            self.matching_list is Some && self.mailbox_address is None ==> request == Err::<
                Option<QueryRequest>,
                ParamError,
            >(ParamError::MissingMailboxForQuery),
            self.matching_list is Some && self.mailbox_address is Some ==> (request matches Ok(
                Some(query),
            ) && query.mailbox_address == self.mailbox_address->Some_0 && query.start_block
                == self.start_block && query.end_block == self.end_block && query.verbose
                == self.verbose),
    {
        match &self.matching_list {
            None => Ok(None),
            Some(_) => match self.mailbox_address {
                None => Err(ParamError::MissingMailboxForQuery),
                Some(mailbox_address) => Ok(
                    Some(
                        QueryRequest {
                            mailbox_address,
                            start_block: self.start_block as i64,
                            end_block: self.end_block as i64,
                            verbose: self.verbose,
                        },
                    ),
                ),
            },
        }
    }
}

/// Checks the parameters against the rules for transactions.
pub fn check_params<M>(params: &Params<M>) -> (checked: Result<(), ParamError>)
    ensures
        match checked {
            Ok(_) => params_error(*params) is None,
            Err(error) => params_error(*params) == Some(error),
        },
{
    if params.dispatch || params.pay || params.deploy_mock {
        if params.key.is_none() {
            return Err(ParamError::NoSigningKey);
        }
        if params.dispatch {
            if params.recipient_address.is_none() {
                return Err(ParamError::MissingRecipient);
            }
            if params.payload.is_none() {
                return Err(ParamError::MissingPayload);
            }
            if params.msg_id.is_some() {
                return Err(ParamError::MessageIdWithDispatch);
            }
        }
        if params.pay {
            if params.paymaster_address.is_none() {
                return Err(ParamError::MissingPaymaster);
            }
            if !params.dispatch && params.msg_id.is_none() {
                return Err(ParamError::MissingMessageId);
            }
        }
    }
    Ok(())
}

/// Says what to do next for the transactions of a run, given how far they have come.
pub fn next_transaction_step<M>(params: &Params<M>, stage: TransactionStage) -> (step: Result<
    TransactionStep,
    ParamError,
>)
    ensures
        match step {
            Ok(next) => step_after(*params, stage) == Ok::<TransactionStepView, ParamError>(next@),
            Err(error) => step_after(*params, stage) == Err::<TransactionStepView, ParamError>(
                error,
            ),
        },
{
    match stage {
        TransactionStage::Start => match params.key {
            None => Err(ParamError::NoSigningKey),
            Some(key) => Ok(TransactionStep::Sign { key }),
        },
        TransactionStage::Signed => match params.dest_id {
            None => Err(ParamError::MissingDestination),
            Some(dest_id) => if params.deploy_mock {
                Ok(TransactionStep::DeployMock { dest_id })
            } else {
                dispatch_step(params)
            },
        },
        TransactionStage::Deployed => dispatch_step(params),
        TransactionStage::Dispatched(message_id) => pay_step(params, message_id),
        TransactionStage::Paid => Ok(TransactionStep::Done),
    }
}

/// The step that follows the deployment: the dispatch where it is asked for, else what
/// follows the dispatch.
fn dispatch_step<M>(params: &Params<M>) -> (step: Result<TransactionStep, ParamError>)
    ensures
        match step {
            Ok(next) => step_after(*params, TransactionStage::Deployed) == Ok::<
                TransactionStepView,
                ParamError,
            >(next@),
            Err(error) => step_after(*params, TransactionStage::Deployed) == Err::<
                TransactionStepView,
                ParamError,
            >(error),
        },
{
    if !params.dispatch {
        return pay_step(params, params.msg_id);
    }
    let dest_id = match params.dest_id {
        None => { return Err(ParamError::MissingDestination); },
        Some(dest_id) => dest_id,
    };
    let mailbox_address = match params.mailbox_address {
        None => { return Err(ParamError::MissingMailboxForDispatch); },
        Some(address) => address,
    };
    let recipient_address = match params.recipient_address {
        None => { return Err(ParamError::MissingRecipient); },
        Some(address) => address,
    };
    match &params.payload {
        None => Err(ParamError::MissingPayload),
        Some(payload) => Ok(
            TransactionStep::Dispatch {
                mailbox_address,
                dest_id,
                recipient_address,
                payload: payload.clone(),
            },
        ),
    }
}

/// The step that follows the dispatch: the payment where it is asked for, else nothing.
fn pay_step<M>(params: &Params<M>, message_id: Option<H256>) -> (step: Result<
    TransactionStep,
    ParamError,
>)
    ensures
        match step {
            Ok(next) => step_after(*params, TransactionStage::Dispatched(message_id)) == Ok::<
                TransactionStepView,
                ParamError,
            >(next@),
            Err(error) => step_after(*params, TransactionStage::Dispatched(message_id)) == Err::<
                TransactionStepView,
                ParamError,
            >(error),
        },
{
    if !params.pay {
        return Ok(TransactionStep::Done);
    }
    let dest_id = match params.dest_id {
        None => { return Err(ParamError::MissingDestination); },
        Some(dest_id) => dest_id,
    };
    let paymaster_address = match params.paymaster_address {
        None => { return Err(ParamError::MissingPaymaster); },
        Some(address) => address,
    };
    match message_id {
        None => Err(ParamError::MissingMessageId),
        Some(message_id) => Ok(
            TransactionStep::Pay { paymaster_address, message_id, dest_id, gas: params.gas },
        ),
    }
}

} // verus!
