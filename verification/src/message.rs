//! The envelope of a message that a mailbox dispatches.

use vstd::arithmetic::div_mod::lemma_fundamental_div_mod_converse;
use vstd::prelude::*;
use crate::abi::{be_u32, copy_range, DecodeError};
use crate::digest::{keccak256, keccak256_digest};
use crate::hash::H256;

verus! {

/// Width of the envelope's fixed header: version, nonce, origin, sender, destination and
/// recipient.
pub const MESSAGE_HEADER_LEN: usize = 77;

/// A message as a mailbox dispatches it.
#[derive(Clone, Debug)]
pub struct HyperlaneMessage {
    /// Version of the envelope.
    pub version: u8,
    /// Number of the message among those that its mailbox dispatched.
    pub nonce: u32,
    /// Domain of the chain that the message comes from.
    pub origin: u32,
    /// Who sent the message, as a 32-byte address of the origin chain.
    pub sender: H256,
    /// Domain of the chain that the message goes to.
    pub destination: u32,
    /// Who receives the message, as a 32-byte address of the destination chain.
    pub recipient: H256,
    /// What the message carries.
    pub body: Vec<u8>,
}

/// What a message holds, as plain values.
pub ghost struct MessageView {
    /// Version of the envelope.
    pub version: u8,
    /// Number of the message among those that its mailbox dispatched.
    pub nonce: u32,
    /// Domain of the chain that the message comes from.
    pub origin: u32,
    /// Who sent the message.
    pub sender: Seq<u8>,
    /// Domain of the chain that the message goes to.
    pub destination: u32,
    /// Who receives the message.
    pub recipient: Seq<u8>,
    /// What the message carries.
    pub body: Seq<u8>,
}

impl View for HyperlaneMessage {
    type V = MessageView;

    open spec fn view(&self) -> MessageView {
        MessageView {
            version: self.version,
            nonce: self.nonce,
            origin: self.origin,
            sender: self.sender@,
            destination: self.destination,
            recipient: self.recipient@,
            body: self.body@,
        }
    }
}

/// The four bytes that spell a 32-bit number, most significant byte first.
pub open spec fn be_bytes_of_u32(number: u32) -> Seq<u8> {
    seq![
        (number / 0x100_0000) as u8,
        (number / 0x1_0000 % 0x100) as u8,
        (number / 0x100 % 0x100) as u8,
        (number % 0x100) as u8,
    ]
}

/// The message that an envelope of at least the header's width holds.
pub open spec fn parsed_message(raw: Seq<u8>) -> MessageView {
    MessageView {
        version: raw[0],
        nonce: be_u32(raw.subrange(1, 5)) as u32,
        origin: be_u32(raw.subrange(5, 9)) as u32,
        sender: raw.subrange(9, 41),
        destination: be_u32(raw.subrange(41, 45)) as u32,
        recipient: raw.subrange(45, 77),
        body: raw.subrange(77, raw.len() as int),
    }
}

/// The envelope of a message: the header's fields in order, then the body.
pub open spec fn encoded_message(message: MessageView) -> Seq<u8> {
    seq![message.version] + be_bytes_of_u32(message.nonce) + be_bytes_of_u32(message.origin)
        + message.sender + be_bytes_of_u32(message.destination) + message.recipient
        + message.body
}

/// The identifier of the message that an envelope holds: the digest of the envelope.
pub open spec fn message_id_of_envelope(raw: Seq<u8>) -> Seq<u8> {
    keccak256_digest(raw)
}

/// Four bytes spell a 32-bit number, and spelling that number gives the four bytes back.
pub proof fn lemma_be_u32_round_trip(bytes: Seq<u8>)
    requires
        bytes.len() == 4,
    ensures
        0 <= be_u32(bytes) <= u32::MAX,
        be_bytes_of_u32(be_u32(bytes) as u32) == bytes,
{
    let n = be_u32(bytes);
    let b0 = bytes[0] as int;
    let b1 = bytes[1] as int;
    let b2 = bytes[2] as int;
    let b3 = bytes[3] as int;
    lemma_fundamental_div_mod_converse(n, 0x100_0000, b0, b1 * 0x1_0000 + b2 * 0x100 + b3);
    lemma_fundamental_div_mod_converse(n, 0x1_0000, b0 * 0x100 + b1, b2 * 0x100 + b3);
    lemma_fundamental_div_mod_converse(b0 * 0x100 + b1, 0x100, b0, b1);
    lemma_fundamental_div_mod_converse(n, 0x100, b0 * 0x1_0000 + b1 * 0x100 + b2, b3);
    lemma_fundamental_div_mod_converse(b0 * 0x1_0000 + b1 * 0x100 + b2, 0x100, b0 * 0x100 + b1, b2);
    assert(be_bytes_of_u32(n as u32) =~= bytes);
}

/// Writing out the message that an envelope holds gives the envelope back.
pub proof fn lemma_envelope_round_trip(raw: Seq<u8>)
    requires
        raw.len() >= MESSAGE_HEADER_LEN,
    ensures
        encoded_message(parsed_message(raw)) == raw,
{
    lemma_be_u32_round_trip(raw.subrange(1, 5));
    lemma_be_u32_round_trip(raw.subrange(5, 9));
    lemma_be_u32_round_trip(raw.subrange(41, 45));
    assert(encoded_message(parsed_message(raw)) =~= raw);
}

/// Reads the 32-bit number whose four bytes start at `at`.
fn read_u32(raw: &Vec<u8>, at: usize) -> (number: u32)
    requires
        at + 4 <= raw@.len(),
    ensures
        number as int == be_u32(raw@.subrange(at as int, at + 4)),
{
    let total: usize = raw.len();
    assert(at + 4 <= total);
    let b0: u32 = raw[at] as u32;
    let b1: u32 = raw[at + 1] as u32;
    let b2: u32 = raw[at + 2] as u32;
    let b3: u32 = raw[at + 3] as u32;
    b0 * 0x100_0000 + b1 * 0x1_0000 + b2 * 0x100 + b3
}

/// Appends the four bytes of a number to `out`.
fn write_u32(out: &mut Vec<u8>, number: u32)
    ensures
        final(out)@ == old(out)@ + be_bytes_of_u32(number),
{
    out.push((number / 0x100_0000) as u8);
    out.push((number / 0x1_0000 % 0x100) as u8);
    out.push((number / 0x100 % 0x100) as u8);
    out.push((number % 0x100) as u8);
    assert(out@ =~= old(out)@ + be_bytes_of_u32(number));
}

/// Appends `bytes` to `out`.
fn write_bytes(out: &mut Vec<u8>, bytes: &Vec<u8>)
    ensures
        final(out)@ == old(out)@ + bytes@,
{
    let mut i: usize = 0;
    while i < bytes.len()
        invariant
            i <= bytes@.len(),
            out@ == old(out)@ + bytes@.subrange(0, i as int),
        decreases bytes@.len() - i,
    {
        out.push(bytes[i]);
        i += 1;
        assert(out@ =~= old(out)@ + bytes@.subrange(0, i as int));
    }
    assert(bytes@.subrange(0, i as int) =~= bytes@);
}

impl HyperlaneMessage {
    /// Reads a message out of its envelope.
    ///
    /// An envelope that is shorter than the header holds no message.
    pub fn from_raw(raw: &Vec<u8>) -> (parsed: Result<HyperlaneMessage, DecodeError>)
        ensures
            raw@.len() < MESSAGE_HEADER_LEN ==> parsed == Err::<HyperlaneMessage, DecodeError>(
                DecodeError::TruncatedMessage,
            ),
            raw@.len() >= MESSAGE_HEADER_LEN ==> parsed is Ok && parsed->Ok_0@ == parsed_message(
                raw@,
            ),
    {
        if raw.len() < MESSAGE_HEADER_LEN {
            return Err(DecodeError::TruncatedMessage);
        }
        let sender = H256::from_slice(copy_range(raw, 9, 41).as_slice());
        let recipient = H256::from_slice(copy_range(raw, 45, 77).as_slice());
        Ok(
            HyperlaneMessage {
                version: raw[0],
                nonce: read_u32(raw, 1),
                origin: read_u32(raw, 5),
                sender,
                destination: read_u32(raw, 41),
                recipient,
                body: copy_range(raw, 77, raw.len()),
            },
        )
    }

    /// Writes the message out as its envelope.
    pub fn to_vec(&self) -> (raw: Vec<u8>)
        ensures
            raw@ == encoded_message(self@),
    {
        let mut raw: Vec<u8> = Vec::new();
        raw.push(self.version);
        write_u32(&mut raw, self.nonce);
        write_u32(&mut raw, self.origin);
        write_bytes(&mut raw, &self.sender.to_vec());
        write_u32(&mut raw, self.destination);
        write_bytes(&mut raw, &self.recipient.to_vec());
        write_bytes(&mut raw, &self.body);
        assert(raw@ =~= encoded_message(self@));
        raw
    }

    /// The identifier of the message: the digest of its envelope.
    pub fn id(&self) -> (id: H256)
        ensures
            id@ == message_id_of_envelope(encoded_message(self@)),
    {
        let raw = self.to_vec();
        keccak256(raw.as_slice())
    }
}

} // verus!
